# anteater

A Rust-aware debugger, as a verified library and a thin program around it.

- `src/` is the library, verified with Verus:
  - `register_info`, `registers`, `process`: the x86-64 register table, the
    bytes of a traced process's `user` area, reading and writing registers
    in it, what a wait status means, and how a process is let go of.
  - `sdb`: the decisions of the `sdb` prompt (which line to run, what it
    asks for, how a stop is reported).
  - `ui_types`: the view-model the panels render.
  - `ui`: the mock session, the panels' state and the rows of text they
    show, the source panel's syntax-highlighting cache (on syntect), the
    built-in color themes.
  - `text`: numerals and small string helpers with exact contracts.
- `app/` is the program: the egui window and its layout, the `sdb` prompt,
  and the system calls (fork, exec, ptrace, waitpid, kill). It also holds
  what works on floating point: loading iTerm2 plist themes, blending
  colors, and the frame-time overlay.
- `tests/` exercises the library on concrete values.
