//! A traced process as the debugger records it: its lifecycle state and
//! the bytes of its `user` area, which hold every register.
//!
//! The system calls that drive the process (fork, ptrace, waitpid, kill)
//! happen outside the library; the library decides what they are given
//! and records what they report.

use vstd::prelude::*;
use crate::error::Error;
use crate::register_info::{RegisterFormat, RegisterInfo, RegisterType};
use crate::registers::Value;

verus! {

/// Size in bytes of the x86-64 `user` area.
pub const USER_AREA_SIZE: usize = 912;

/// Offset of the floating-point state (`i387`) in the `user` area.
pub const FPREGS_OFFSET: usize = 224;

/// Size in bytes of the floating-point state.
pub const FPREGS_SIZE: usize = 512;

/// Offset of the general-purpose registers (`regs`) in the `user` area.
pub const GPRS_OFFSET: usize = 0;

/// Size in bytes of the general-purpose registers.
pub const GPRS_SIZE: usize = 216;

/// Offset of the debug registers (`u_debugreg`) in the `user` area.
pub const DEBUG_REGS_OFFSET: usize = 848;

/// Lifecycle state of a traced process.
#[derive(Debug, Clone, Copy, PartialEq, Eq, Structural)]
pub enum ProcessState {
    Stopped,
    Running,
    Exited,
    Terminated,
}

/// Why a process stopped: its new state, and the exit code or the signal
/// number (as a byte).
#[derive(Debug, Clone, Copy, PartialEq, Eq, Structural)]
pub struct StopReason {
    pub state: ProcessState,
    pub info: u8,
}

/// What `waitpid` reported for the process.
#[derive(Debug, Clone, Copy, PartialEq, Eq, Structural)]
pub enum WaitOutcome {
    /// The process exited with this status code.
    Exited(i32),
    /// The process was killed by this signal.
    Signaled(i32),
    /// The process stopped with this signal.
    Stopped(i32),
}

/// A write that the tracer must perform to bring the process in line with
/// the recorded register bytes.
#[derive(Debug)]
pub enum UserAreaWrite {
    /// Set the whole floating-point state to these bytes.
    FloatingPoint(Vec<u8>),
    /// Store this word at this (8-byte aligned) offset of the `user` area.
    Word { offset: usize, value: u64 },
}

/// A step of releasing a process when the debugger lets go of it.
#[derive(Debug, Clone, Copy, PartialEq, Eq, Structural)]
pub enum TeardownStep {
    /// Stop the process (SIGSTOP) and wait for it.
    Interrupt,
    /// Detach the tracer, letting the process continue.
    Detach,
    /// Send SIGCONT.
    Continue,
    /// Kill the process (SIGKILL) and wait for it.
    Kill,
}

/// A process under the debugger's control.
pub struct Process {
    pid: i32,
    terminate_on_end: bool,
    state: ProcessState,
    is_attached: bool,
    /// The bytes of the process's `user` area, as last read or written.
    data: Vec<u8>,
}

// ---------------------------------------------------------------------------
// Little-endian byte layouts (x86-64 stores integers little-endian).
// ---------------------------------------------------------------------------

/// The two bytes of `v`, least significant first.
pub open spec fn u16_bytes(v: u16) -> Seq<u8> {
    seq![v as u8, (v >> 8u16) as u8]
}

/// The four bytes of `v`, least significant first.
pub open spec fn u32_bytes(v: u32) -> Seq<u8> {
    seq![v as u8, (v >> 8u32) as u8, (v >> 16u32) as u8, (v >> 24u32) as u8]
}

/// The eight bytes of `v`, least significant first.
pub open spec fn u64_bytes(v: u64) -> Seq<u8> {
    seq![
        v as u8,
        (v >> 8u64) as u8,
        (v >> 16u64) as u8,
        (v >> 24u64) as u8,
        (v >> 32u64) as u8,
        (v >> 40u64) as u8,
        (v >> 48u64) as u8,
        (v >> 56u64) as u8,
    ]
}

/// The `u16` whose little-endian bytes are `b[0..2]`.
pub open spec fn le_u16(b: Seq<u8>) -> u16 {
    (b[0] as u16) | ((b[1] as u16) << 8u16)
}

/// The `u32` whose little-endian bytes are `b[0..4]`.
pub open spec fn le_u32(b: Seq<u8>) -> u32 {
    (b[0] as u32) | ((b[1] as u32) << 8u32) | ((b[2] as u32) << 16u32) | ((b[3] as u32) << 24u32)
}

/// The `u64` whose little-endian bytes are `b[0..8]`.
pub open spec fn le_u64(b: Seq<u8>) -> u64 {
    (b[0] as u64) | ((b[1] as u64) << 8u64) | ((b[2] as u64) << 16u64) | ((b[3] as u64) << 24u64)
        | ((b[4] as u64) << 32u64) | ((b[5] as u64) << 40u64) | ((b[6] as u64) << 48u64) | ((b[7]
        as u64) << 56u64)
}

/// `n` zero bytes.
pub open spec fn zeros(n: nat) -> Seq<u8> {
    Seq::new(n, |i: int| 0u8)
}

// ---------------------------------------------------------------------------
// Reading and writing registers in the user area.
// ---------------------------------------------------------------------------

/// The bytes of the register `info` within `data`.
pub open spec fn register_bytes(data: Seq<u8>, info: RegisterInfo) -> Seq<u8> {
    data.subrange(info.offset as int, info.offset + info.size)
}

/// Whether a register of this format and size can be read.
pub open spec fn readable(info: RegisterInfo) -> bool {
    match info.format {
        RegisterFormat::Uint => info.size == 1 || info.size == 2 || info.size == 4 || info.size == 8,
        RegisterFormat::DoubleFloat => info.size == 8,
        RegisterFormat::LongDouble => info.size == 16,
        RegisterFormat::Vector => info.size == 8 || info.size == 16,
    }
}

/// Whether `v` is what reading register `info` out of `data` gives.
pub open spec fn reads_as(data: Seq<u8>, info: RegisterInfo, v: Value) -> bool {
    let b = register_bytes(data, info);
    match info.format {
        RegisterFormat::Uint => {
            if info.size == 1 {
                v == Value::U8(b[0])
            } else if info.size == 2 {
                v == Value::U16(le_u16(b))
            } else if info.size == 4 {
                v == Value::U32(le_u32(b))
            } else {
                v == Value::U64(le_u64(b))
            }
        },
        RegisterFormat::DoubleFloat => v == Value::Double(le_u64(b)),
        RegisterFormat::LongDouble => v matches Value::Byte128(a) && a@ == b,
        RegisterFormat::Vector => {
            if info.size == 8 {
                v matches Value::Byte64(a) && a@ == b
            } else {
                v matches Value::Byte128(a) && a@ == b
            }
        },
    }
}

/// Whether `v` is one of the signed integer values.
pub open spec fn is_signed(v: Value) -> bool {
    v is I8 || v is I16 || v is I32 || v is I64
}

/// Whether `v` can be written to register `info`: its bytes fit the
/// 16-byte staging buffer, and a signed value is at most 8 bytes wide.
pub open spec fn writable(info: RegisterInfo, v: Value) -> bool {
    &&& info.size <= 16
    &&& is_signed(v) ==> info.size <= 8
}

/// The 16 bytes staged for writing `v` to register `info`; the first
/// `info.size` of them are stored.  Unsigned values are zero-extended and
/// signed values sign-extended to 64 bits; the rest of the buffer is zero.
pub open spec fn staged_bytes(info: RegisterInfo, v: Value) -> Seq<u8> {
    match v {
        Value::U8(x) => u64_bytes(x as u64) + zeros(8),
        Value::U16(x) => u64_bytes(x as u64) + zeros(8),
        Value::U32(x) => u64_bytes(x as u64) + zeros(8),
        Value::U64(x) => u64_bytes(x) + zeros(8),
        Value::I8(x) => u64_bytes(x as i64 as u64).subrange(0, info.size as int) + zeros(
            (16 - info.size) as nat,
        ),
        Value::I16(x) => u64_bytes(x as i64 as u64).subrange(0, info.size as int) + zeros(
            (16 - info.size) as nat,
        ),
        Value::I32(x) => u64_bytes(x as i64 as u64).subrange(0, info.size as int) + zeros(
            (16 - info.size) as nat,
        ),
        Value::I64(x) => u64_bytes(x as u64).subrange(0, info.size as int) + zeros(
            (16 - info.size) as nat,
        ),
        Value::Double(x) => u64_bytes(x) + zeros(8),
        Value::Byte64(a) => a@ + zeros(8),
        Value::Byte128(a) => a@,
    }
}

/// `data` with the bytes of register `info` replaced by those staged for `v`.
pub open spec fn written(data: Seq<u8>, info: RegisterInfo, v: Value) -> Seq<u8> {
    data.subrange(0, info.offset as int) + staged_bytes(info, v).subrange(0, info.size as int)
        + data.subrange(info.offset + info.size, data.len() as int)
}

/// The 8-byte aligned offset at or below `offset`.
pub open spec fn aligned_offset(offset: usize) -> int {
    offset - offset % 8
}

/// The write that publishes register `info` of `data` to the process: the
/// whole floating-point state for a floating-point register, otherwise the
/// aligned word that holds the register.
pub open spec fn publish(data: Seq<u8>, info: RegisterInfo, w: UserAreaWrite) -> bool {
    if info.kind == RegisterType::Fpr {
        w matches UserAreaWrite::FloatingPoint(bytes) && bytes@ == data.subrange(
            FPREGS_OFFSET as int,
            FPREGS_OFFSET + FPREGS_SIZE,
        )
    } else {
        w matches UserAreaWrite::Word { offset, value } && offset == aligned_offset(info.offset)
            && value == le_u64(data.subrange(offset as int, offset + 8))
    }
}

/// The steps of letting go of a process.
pub open spec fn teardown_steps(
    pid: i32,
    is_attached: bool,
    state: ProcessState,
    terminate_on_end: bool,
) -> Seq<TeardownStep> {
    if pid == 0 {
        seq![]
    } else {
        let release = if is_attached {
            (if state == ProcessState::Running {
                seq![TeardownStep::Interrupt]
            } else {
                seq![]
            }) + seq![TeardownStep::Detach, TeardownStep::Continue]
        } else {
            seq![]
        };
        release + if terminate_on_end {
            seq![TeardownStep::Kill]
        } else {
            seq![]
        }
    }
}

/// The stop reason and the new state for what `waitpid` reported.
pub open spec fn stop_reason_for(status: WaitOutcome) -> StopReason {
    match status {
        WaitOutcome::Exited(code) => StopReason { state: ProcessState::Exited, info: code as u8 },
        WaitOutcome::Signaled(sig) => StopReason { state: ProcessState::Terminated, info: sig as u8 },
        WaitOutcome::Stopped(sig) => StopReason { state: ProcessState::Stopped, info: sig as u8 },
    }
}

fn zeroed_user_area() -> (data: Vec<u8>)
    ensures
        data@ == zeros(USER_AREA_SIZE as nat),
{
    let mut data: Vec<u8> = Vec::new();
    let mut i: usize = 0;
    while i < USER_AREA_SIZE
        invariant
            i <= USER_AREA_SIZE,
            data@ == zeros(i as nat),
        decreases USER_AREA_SIZE - i,
    {
        data.push(0u8);
        i = i + 1;
        assert(data@ =~= zeros(i as nat));
    }
    data
}

/// The eight little-endian bytes of `v`.
pub(crate) fn u64_to_bytes(v: u64) -> (b: [u8; 8])
    ensures
        b@ == u64_bytes(v),
{
    let b = [
        v as u8,
        (v >> 8u64) as u8,
        (v >> 16u64) as u8,
        (v >> 24u64) as u8,
        (v >> 32u64) as u8,
        (v >> 40u64) as u8,
        (v >> 48u64) as u8,
        (v >> 56u64) as u8,
    ];
    assert(b@ =~= u64_bytes(v));
    b
}

/// The `u64` stored little-endian at `data[at..at + 8]`.
fn read_u64(data: &Vec<u8>, at: usize) -> (v: u64)
    requires
        at + 8 <= data.len(),
    ensures
        v == le_u64(data@.subrange(at as int, at + 8)),
{
    (data[at] as u64) | ((data[at + 1] as u64) << 8u64) | ((data[at + 2] as u64) << 16u64) | ((
    data[at + 3] as u64) << 24u64) | ((data[at + 4] as u64) << 32u64) | ((data[at + 5] as u64)
        << 40u64) | ((data[at + 6] as u64) << 48u64) | ((data[at + 7] as u64) << 56u64)
}

/// The eight bytes at `data[at..at + 8]`.
fn read_8(data: &Vec<u8>, at: usize) -> (a: [u8; 8])
    requires
        at + 8 <= data.len(),
    ensures
        a@ == data@.subrange(at as int, at + 8),
{
    let a = [
        data[at],
        data[at + 1],
        data[at + 2],
        data[at + 3],
        data[at + 4],
        data[at + 5],
        data[at + 6],
        data[at + 7],
    ];
    assert(a@ =~= data@.subrange(at as int, at + 8));
    a
}

/// The sixteen bytes at `data[at..at + 16]`.
fn read_16(data: &Vec<u8>, at: usize) -> (a: [u8; 16])
    requires
        at + 16 <= data.len(),
    ensures
        a@ == data@.subrange(at as int, at + 16),
{
    let a = [
        data[at],
        data[at + 1],
        data[at + 2],
        data[at + 3],
        data[at + 4],
        data[at + 5],
        data[at + 6],
        data[at + 7],
        data[at + 8],
        data[at + 9],
        data[at + 10],
        data[at + 11],
        data[at + 12],
        data[at + 13],
        data[at + 14],
        data[at + 15],
    ];
    assert(a@ =~= data@.subrange(at as int, at + 16));
    a
}

/// A 16-byte buffer holding the first `n` bytes of `src`, then zeros.
fn staged_from(src: [u8; 8], n: usize) -> (buf: [u8; 16])
    requires
        n <= 8,
    ensures
        buf@ == src@.subrange(0, n as int) + zeros((16 - n) as nat),
{
    let mut buf = [0u8, 0, 0, 0, 0, 0, 0, 0, 0, 0, 0, 0, 0, 0, 0, 0];
    let mut k: usize = 0;
    while k < n
        invariant
            n <= 8,
            k <= n,
            buf@ == src@.subrange(0, k as int) + zeros((16 - k) as nat),
        decreases n - k,
    {
        buf[k] = src[k];
        k = k + 1;
        assert(buf@ =~= src@.subrange(0, k as int) + zeros((16 - k) as nat));
    }
    buf
}

impl Process {
    /// The process id.
    pub closed spec fn spec_pid(&self) -> i32 {
        self.pid
    }

    /// The recorded bytes of the process's `user` area.
    pub closed spec fn spec_data(&self) -> Seq<u8> {
        self.data@
    }

    /// The process id.
    pub fn pid(&self) -> (pid: i32)
        ensures
            pid == self.spec_pid(),
    {
        self.pid
    }

    /// The recorded bytes of the process's `user` area.
    pub fn data(&self) -> (data: &[u8])
        ensures
            data@ == self.spec_data(),
    {
        self.data.as_slice()
    }

    /// Whether the process was created by the debugger (and is killed when
    /// the debugger lets go of it).
    pub closed spec fn spec_terminate_on_end(&self) -> bool {
        self.terminate_on_end
    }

    /// The recorded lifecycle state.
    pub closed spec fn spec_state(&self) -> ProcessState {
        self.state
    }

    /// Whether the debugger traces the process.
    pub closed spec fn spec_is_attached(&self) -> bool {
        self.is_attached
    }

    /// The record of a process the debugger has just started (traced when
    /// `debug` is set).
    pub fn new_launched(pid: i32, debug: bool) -> (p: Process)
        ensures
            p.spec_pid() == pid,
            p.spec_terminate_on_end(),
            p.spec_state() == ProcessState::Stopped,
            p.spec_is_attached() == debug,
            p.spec_data() == zeros(USER_AREA_SIZE as nat),
    {
        Process {
            pid,
            terminate_on_end: true,
            state: ProcessState::Stopped,
            is_attached: debug,
            data: zeroed_user_area(),
        }
    }

    /// The record of a running process the debugger attaches to; pid 0
    /// names no process and is refused.
    pub fn new_attached(pid: i32) -> (r: Result<Process, Error>)
        ensures
            pid == 0 <==> r is Err,
            r matches Err(e) ==> e matches Error::InvalidArg(m) && m@ == "Invalid PID"@,
            r matches Ok(p) ==> {
                &&& p.spec_pid() == pid
                &&& !p.spec_terminate_on_end()
                &&& p.spec_state() == ProcessState::Stopped
                &&& p.spec_is_attached()
                &&& p.spec_data() == zeros(USER_AREA_SIZE as nat)
            },
    {
        if pid == 0 {
            return Err(Error::InvalidArg(String::from_str("Invalid PID")));
        }
        Ok(
            Process {
                pid,
                terminate_on_end: false,
                state: ProcessState::Stopped,
                is_attached: true,
                data: zeroed_user_area(),
            },
        )
    }

    /// The recorded lifecycle state.
    pub fn state(&self) -> (s: ProcessState)
        ensures
            s == self.spec_state(),
    {
        self.state
    }

    /// Records that the process was let run.
    pub fn record_resume(&mut self)
        ensures
            final(self).spec_state() == ProcessState::Running,
            final(self).spec_pid() == old(self).spec_pid(),
            final(self).spec_data() == old(self).spec_data(),
            final(self).spec_is_attached() == old(self).spec_is_attached(),
            final(self).spec_terminate_on_end() == old(self).spec_terminate_on_end(),
    {
        self.state = ProcessState::Running;
    }

    /// Records what `waitpid` reported and says why the process stopped.
    pub fn record_wait(&mut self, status: WaitOutcome) -> (reason: StopReason)
        ensures
            reason == stop_reason_for(status),
            final(self).spec_state() == reason.state,
            final(self).spec_pid() == old(self).spec_pid(),
            final(self).spec_data() == old(self).spec_data(),
            final(self).spec_is_attached() == old(self).spec_is_attached(),
            final(self).spec_terminate_on_end() == old(self).spec_terminate_on_end(),
    {
        let reason = match status {
            WaitOutcome::Exited(code) => StopReason { state: ProcessState::Exited, info: code as u8 },
            WaitOutcome::Signaled(sig) => StopReason {
                state: ProcessState::Terminated,
                info: sig as u8,
            },
            WaitOutcome::Stopped(sig) => StopReason { state: ProcessState::Stopped, info: sig as u8 },
        };
        self.state = reason.state;
        reason
    }

    /// Stores `bytes` at `offset` of the recorded `user` area (registers
    /// just read from the process).
    pub fn store_user_bytes(&mut self, offset: usize, bytes: &[u8])
        requires
            offset + bytes@.len() <= old(self).spec_data().len(),
        ensures
            final(self).spec_data() == old(self).spec_data().subrange(0, offset as int) + bytes@ + old(
                self,
            ).spec_data().subrange(offset + bytes@.len(), old(self).spec_data().len() as int),
            final(self).spec_pid() == old(self).spec_pid(),
            final(self).spec_state() == old(self).spec_state(),
            final(self).spec_is_attached() == old(self).spec_is_attached(),
            final(self).spec_terminate_on_end() == old(self).spec_terminate_on_end(),
    {
        let ghost old_data = self.data@;
        let n = bytes.len();
        let mut k: usize = 0;
        while k < n
            invariant
                n == bytes@.len(),
                offset + n <= old_data.len(),
                old_data == old(self).data@,
                self.data@.len() == old_data.len(),
                offset + n <= self.data.len(),
                self.pid == old(self).pid,
                self.state == old(self).state,
                self.is_attached == old(self).is_attached,
                self.terminate_on_end == old(self).terminate_on_end,
                k <= n,
                self.data@ == old_data.subrange(0, offset as int) + bytes@.subrange(0, k as int)
                    + old_data.subrange(offset + k, old_data.len() as int),
            decreases n - k,
        {
            self.data.set(offset + k, bytes[k]);
            k = k + 1;
            assert(self.data@ =~= old_data.subrange(0, offset as int) + bytes@.subrange(0, k as int)
                + old_data.subrange(offset + k, old_data.len() as int));
        }
        assert(bytes@.subrange(0, n as int) =~= bytes@);
    }

    /// The value of register `info`, decoded from the recorded bytes.
    pub fn read_register(&self, info: &RegisterInfo) -> (v: Value)
        requires
            readable(*info),
            info.offset + info.size <= self.spec_data().len(),
        ensures
            reads_as(self.spec_data(), *info, v),
    {
        let o = info.offset;
        let d = &self.data;
        assert(o + info.size <= d.len());
        match info.format {
            RegisterFormat::Uint => {
                if info.size == 1 {
                    Value::U8(d[o])
                } else if info.size == 2 {
                    Value::U16((d[o] as u16) | ((d[o + 1] as u16) << 8u16))
                } else if info.size == 4 {
                    Value::U32(
                        (d[o] as u32) | ((d[o + 1] as u32) << 8u32) | ((d[o + 2] as u32) << 16u32)
                            | ((d[o + 3] as u32) << 24u32),
                    )
                } else {
                    Value::U64(read_u64(d, o))
                }
            },
            RegisterFormat::DoubleFloat => Value::Double(read_u64(d, o)),
            RegisterFormat::LongDouble => Value::Byte128(read_16(d, o)),
            RegisterFormat::Vector => {
                if info.size == 8 {
                    Value::Byte64(read_8(d, o))
                } else {
                    Value::Byte128(read_16(d, o))
                }
            },
        }
    }

    /// The 16 bytes staged for writing `val` to register `info`.
    fn widen(info: &RegisterInfo, val: Value) -> (buf: [u8; 16])
        requires
            writable(*info, val),
        ensures
            buf@ == staged_bytes(*info, val),
    {
        match val {
            Value::U8(v) => staged_from(u64_to_bytes(v as u64), 8),
            Value::U16(v) => staged_from(u64_to_bytes(v as u64), 8),
            Value::U32(v) => staged_from(u64_to_bytes(v as u64), 8),
            Value::U64(v) => staged_from(u64_to_bytes(v), 8),
            Value::I8(v) => staged_from(u64_to_bytes(v as i64 as u64), info.size),
            Value::I16(v) => staged_from(u64_to_bytes(v as i64 as u64), info.size),
            Value::I32(v) => staged_from(u64_to_bytes(v as i64 as u64), info.size),
            Value::I64(v) => staged_from(u64_to_bytes(v as u64), info.size),
            Value::Double(v) => staged_from(u64_to_bytes(v), 8),
            Value::Byte64(a) => staged_from(a, 8),
            Value::Byte128(b) => b,
        }
    }

    /// Stores `val` into register `info` of the recorded `user` area and
    /// returns the write that publishes it to the process: the whole
    /// floating-point state for a floating-point register, else the aligned
    /// word holding the register.
    pub fn write_register(&mut self, info: &RegisterInfo, val: Value) -> (w: UserAreaWrite)
        requires
            writable(*info, val),
            old(self).spec_data().len() == USER_AREA_SIZE,
            info.offset + info.size <= USER_AREA_SIZE,
            info.kind != RegisterType::Fpr ==> info.offset < USER_AREA_SIZE,
        ensures
            final(self).spec_data() == written(old(self).spec_data(), *info, val),
            publish(final(self).spec_data(), *info, w),
            final(self).spec_pid() == old(self).spec_pid(),
            final(self).spec_state() == old(self).spec_state(),
            final(self).spec_is_attached() == old(self).spec_is_attached(),
            final(self).spec_terminate_on_end() == old(self).spec_terminate_on_end(),
    {
        let buf = Self::widen(info, val);
        let staged = vstd::slice::slice_subrange(buf.as_slice(), 0, info.size);
        self.store_user_bytes(info.offset, staged);
        assert(self.data@ =~= written(old(self).data@, *info, val));
        if info.kind == RegisterType::Fpr {
            let fp = vstd::slice::slice_to_vec(
                vstd::slice::slice_subrange(self.data.as_slice(), FPREGS_OFFSET, FPREGS_OFFSET + FPREGS_SIZE),
            );
            UserAreaWrite::FloatingPoint(fp)
        } else {
            let offset = info.offset;
            let aligned = offset & !7usize;
            assert(offset & !7usize == offset - offset % 8) by (bit_vector);
            assert(aligned % 8 == 0);
            let value = read_u64(&self.data, aligned);
            UserAreaWrite::Word { offset: aligned, value }
        }
    }

    /// The steps of letting go of the process: a traced process is stopped
    /// if running, detached and continued; a process the debugger started
    /// is then killed.  Nothing is done for pid 0.
    pub fn teardown_plan(&self) -> (steps: Vec<TeardownStep>)
        ensures
            steps@ == teardown_steps(
                self.spec_pid(),
                self.spec_is_attached(),
                self.spec_state(),
                self.spec_terminate_on_end(),
            ),
    {
        let mut steps: Vec<TeardownStep> = Vec::new();
        if self.pid != 0 {
            if self.is_attached {
                if self.state == ProcessState::Running {
                    steps.push(TeardownStep::Interrupt);
                }
                steps.push(TeardownStep::Detach);
                steps.push(TeardownStep::Continue);
            }
            if self.terminate_on_end {
                steps.push(TeardownStep::Kill);
            }
        }
        assert(steps@ =~= teardown_steps(
            self.pid,
            self.is_attached,
            self.state,
            self.terminate_on_end,
        ));
        steps
    }
}

} // verus!

verus! {

// ---------------------------------------------------------------------------
// Laws of the register file.
// ---------------------------------------------------------------------------

/// Whether `v` is the kind of value that reading register `info` gives.
pub open spec fn natural_value(info: RegisterInfo, v: Value) -> bool {
    match info.format {
        RegisterFormat::Uint => {
            ||| info.size == 1 && v is U8
            ||| info.size == 2 && v is U16
            ||| info.size == 4 && v is U32
            ||| info.size == 8 && v is U64
        },
        RegisterFormat::DoubleFloat => info.size == 8 && v is Double,
        RegisterFormat::LongDouble => info.size == 16 && v is Byte128,
        RegisterFormat::Vector => {
            ||| info.size == 8 && v is Byte64
            ||| info.size == 16 && v is Byte128
        },
    }
}

/// Whether `v` is an integer value.
pub open spec fn is_integer(v: Value) -> bool {
    !(v is Double || v is Byte64 || v is Byte128)
}

/// The 64-bit two's-complement pattern of an integer value: unsigned
/// values zero-extended, signed values sign-extended.
pub open spec fn integer_bits(v: Value) -> u64 {
    match v {
        Value::U8(x) => x as u64,
        Value::U16(x) => x as u64,
        Value::U32(x) => x as u64,
        Value::U64(x) => x,
        Value::I8(x) => x as i64 as u64,
        Value::I16(x) => x as i64 as u64,
        Value::I32(x) => x as i64 as u64,
        Value::I64(x) => x as u64,
        _ => 0,
    }
}

/// The unsigned value of a `size`-byte register holding the low bytes of `x`.
pub open spec fn unsigned_of_size(size: usize, x: u64) -> Value {
    if size == 1 {
        Value::U8(x as u8)
    } else if size == 2 {
        Value::U16(x as u16)
    } else if size == 4 {
        Value::U32(x as u32)
    } else {
        Value::U64(x)
    }
}

proof fn bv_u64_roundtrip(x: u64)
    by (bit_vector)
    ensures
        ((x as u8) as u64) | ((((x >> 8u64) as u8) as u64) << 8u64) | ((((x >> 16u64) as u8)
            as u64) << 16u64) | ((((x >> 24u64) as u8) as u64) << 24u64) | ((((x >> 32u64) as u8)
            as u64) << 32u64) | ((((x >> 40u64) as u8) as u64) << 40u64) | ((((x >> 48u64) as u8)
            as u64) << 48u64) | ((((x >> 56u64) as u8) as u64) << 56u64) == x,
{
}

proof fn bv_u32_low(x: u64)
    by (bit_vector)
    ensures
        ((x as u8) as u32) | ((((x >> 8u64) as u8) as u32) << 8u32) | ((((x >> 16u64) as u8)
            as u32) << 16u32) | ((((x >> 24u64) as u8) as u32) << 24u32) == x as u32,
{
}

proof fn bv_u16_low(x: u64)
    by (bit_vector)
    ensures
        ((x as u8) as u16) | ((((x >> 8u64) as u8) as u16) << 8u16) == x as u16,
{
}

/// Decoding the low `size` little-endian bytes of `x` gives `x` truncated
/// to `size` bytes.
proof fn lemma_decode_low_bytes(x: u64, info: RegisterInfo, data: Seq<u8>)
    requires
        info.format == RegisterFormat::Uint,
        readable(info),
        register_bytes(data, info) == u64_bytes(x).subrange(0, info.size as int),
    ensures
        reads_as(data, info, unsigned_of_size(info.size, x)),
{
    let b = register_bytes(data, info);
    if info.size == 2 {
        bv_u16_low(x);
        assert(le_u16(b) == x as u16);
    } else if info.size == 4 {
        bv_u32_low(x);
        assert(le_u32(b) == x as u32);
    } else if info.size == 8 {
        bv_u64_roundtrip(x);
        assert(b =~= u64_bytes(x));
        assert(le_u64(b) == x);
    }
}

/// After a write, the register's bytes are the staged bytes.
proof fn lemma_written_bytes(data: Seq<u8>, info: RegisterInfo, v: Value)
    requires
        writable(info, v),
        info.offset + info.size <= data.len(),
    ensures
        written(data, info, v).len() == data.len(),
        register_bytes(written(data, info, v), info) == staged_bytes(info, v).subrange(
            0,
            info.size as int,
        ),
{
    assert(register_bytes(written(data, info, v), info) =~= staged_bytes(info, v).subrange(
        0,
        info.size as int,
    ));
}

/// Law: writing an integer to an integer register and reading it back
/// gives the integer's two's-complement bits truncated to the register's
/// width (unsigned values zero-extended, signed values sign-extended).
pub proof fn lemma_integer_write_then_read(data: Seq<u8>, info: RegisterInfo, v: Value)
    requires
        info.format == RegisterFormat::Uint,
        readable(info),
        is_integer(v),
        writable(info, v),
        info.offset + info.size <= data.len(),
    ensures
        reads_as(written(data, info, v), info, unsigned_of_size(info.size, integer_bits(v))),
{
    lemma_written_bytes(data, info, v);
    let x = integer_bits(v);
    assert(staged_bytes(info, v).subrange(0, info.size as int) =~= u64_bytes(x).subrange(
        0,
        info.size as int,
    ));
    lemma_decode_low_bytes(x, info, written(data, info, v));
}

/// Law: a register reads back the value last written to it, when the value
/// is of the register's own kind.
pub proof fn lemma_write_then_read(data: Seq<u8>, info: RegisterInfo, v: Value)
    requires
        readable(info),
        natural_value(info, v),
        info.offset + info.size <= data.len(),
    ensures
        reads_as(written(data, info, v), info, v),
{
    assert(writable(info, v));
    lemma_written_bytes(data, info, v);
    let b = register_bytes(written(data, info, v), info);
    match v {
        Value::Double(x) => {
            bv_u64_roundtrip(x);
            assert(b =~= u64_bytes(x));
        },
        Value::Byte64(a) => {
            assert(b =~= a@);
        },
        Value::Byte128(a) => {
            assert(b =~= a@);
        },
        _ => {
            lemma_integer_write_then_read(data, info, v);
        },
    }
}

/// Law: writing a register leaves every register whose bytes do not
/// overlap it unchanged.
pub proof fn lemma_write_keeps_other_registers(
    data: Seq<u8>,
    info: RegisterInfo,
    v: Value,
    other: RegisterInfo,
)
    requires
        writable(info, v),
        info.offset + info.size <= data.len(),
        other.offset + other.size <= data.len(),
        other.offset + other.size <= info.offset || info.offset + info.size <= other.offset,
    ensures
        register_bytes(written(data, info, v), other) == register_bytes(data, other),
        forall|w: Value| reads_as(written(data, info, v), other, w) == reads_as(data, other, w),
{
    lemma_written_bytes(data, info, v);
    assert(register_bytes(written(data, info, v), other) =~= register_bytes(data, other));
}

/// Law: of two writes to the same register, the second wins.
pub proof fn lemma_last_write_wins(data: Seq<u8>, info: RegisterInfo, v1: Value, v2: Value)
    requires
        writable(info, v1),
        writable(info, v2),
        info.offset + info.size <= data.len(),
    ensures
        written(written(data, info, v1), info, v2) == written(data, info, v2),
{
    lemma_written_bytes(data, info, v1);
    assert(written(written(data, info, v1), info, v2) =~= written(data, info, v2));
}

} // verus!

verus! {

/// Law: letting go of a process the debugger started (pid not 0) ends by
/// killing it; a process the debugger attached to is never killed, and
/// is detached and continued.
pub proof fn lemma_teardown_kills_only_launched(
    pid: i32,
    is_attached: bool,
    state: ProcessState,
    terminate_on_end: bool,
)
    requires
        pid != 0,
    ensures
        terminate_on_end ==> teardown_steps(pid, is_attached, state, terminate_on_end).last()
            == TeardownStep::Kill,
        !terminate_on_end ==> !teardown_steps(pid, is_attached, state, terminate_on_end).contains(
            TeardownStep::Kill,
        ),
        is_attached ==> teardown_steps(pid, is_attached, state, terminate_on_end).contains(
            TeardownStep::Detach,
        ),
{
    let steps = teardown_steps(pid, is_attached, state, terminate_on_end);
    if is_attached {
        let pre = if state == ProcessState::Running {
            seq![TeardownStep::Interrupt]
        } else {
            seq![]
        };
        let release = pre + seq![TeardownStep::Detach, TeardownStep::Continue];
        assert(release[pre.len() as int] == TeardownStep::Detach);
        assert(steps[pre.len() as int] == TeardownStep::Detach);
    }
}


/// Law: a running process the debugger is attached to is stopped before it
/// is let go of. Its steps are those of the same process when stopped, with
/// `Interrupt` put first, so they begin `Interrupt`, `Detach`, whether or
/// not it is killed afterwards; and only a running, attached process is
/// interrupted.
pub proof fn lemma_teardown_stops_running_first(pid: i32, is_attached: bool, state: ProcessState, terminate_on_end: bool)
    requires
        pid != 0,
    ensures
        teardown_steps(pid, true, ProcessState::Running, terminate_on_end) == seq![TeardownStep::Interrupt]
            + teardown_steps(pid, true, ProcessState::Stopped, terminate_on_end),
        teardown_steps(pid, true, ProcessState::Running, terminate_on_end)[0] == TeardownStep::Interrupt,
        teardown_steps(pid, true, ProcessState::Running, terminate_on_end)[1] == TeardownStep::Detach,
        teardown_steps(pid, is_attached, state, terminate_on_end).contains(TeardownStep::Interrupt) <==> (
        is_attached && state == ProcessState::Running),
{
    let kill = if terminate_on_end {
        seq![TeardownStep::Kill]
    } else {
        seq![]
    };
    let running = teardown_steps(pid, true, ProcessState::Running, terminate_on_end);
    let stopped = teardown_steps(pid, true, ProcessState::Stopped, terminate_on_end);
    assert(running =~= seq![TeardownStep::Interrupt, TeardownStep::Detach, TeardownStep::Continue] + kill);
    assert(stopped =~= seq![TeardownStep::Detach, TeardownStep::Continue] + kill);
    assert(running =~= seq![TeardownStep::Interrupt] + stopped);
    let steps = teardown_steps(pid, is_attached, state, terminate_on_end);
    if is_attached && state == ProcessState::Running {
        assert(steps[0] == TeardownStep::Interrupt);
    } else if is_attached {
        assert(steps =~= seq![TeardownStep::Detach, TeardownStep::Continue] + kill);
        assert(!steps.contains(TeardownStep::Interrupt)) by {
            if steps.contains(TeardownStep::Interrupt) {
                let k = choose|k: int| 0 <= k < steps.len() && steps[k] == TeardownStep::Interrupt;
                assert(steps[k] != TeardownStep::Interrupt);
            }
        }
    } else {
        assert(steps =~= kill);
        assert(!steps.contains(TeardownStep::Interrupt)) by {
            if steps.contains(TeardownStep::Interrupt) {
                let k = choose|k: int| 0 <= k < steps.len() && steps[k] == TeardownStep::Interrupt;
                assert(steps[k] != TeardownStep::Interrupt);
            }
        }
    }
}
} // verus!
