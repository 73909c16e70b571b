use vstd::prelude::*;

verus! {

/// Errors of the debugger core.
///
/// Failures of the operating system and of the line editor happen at the
/// edge of the library; they arrive here as plain values (an `errno`
/// number, a message, the position of a stray NUL byte).
#[derive(Debug)]
pub enum Error {
    /// A system call failed with this `errno`.
    Nix(i32),
    /// The line editor failed with this message.
    Readline(String),
    /// A path held a NUL byte at this position.
    NulError(usize),
    /// An argument was not acceptable.
    InvalidArg(String),
    /// No register of the table matches the request.
    NoSuchRegister(String),
}

/// Result type of the debugger core.
pub type Result<T> = core::result::Result<T, Error>;

} // verus!
