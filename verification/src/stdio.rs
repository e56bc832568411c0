//! The descriptors a guest process runs against.
//!
//! Each is the caller's own, so whatever its shell redirected stays redirected:
//! the guest's output is written where the caller's descriptor points, not
//! relayed through this process.

use vstd::prelude::*;

verus! {

/// A stream the caller leaves unattached; the guest neither reads nor writes it.
pub const UNATTACHED: i32 = -1;

/// `libc::STDIN_FILENO`, which libc defines as 0 on every Unix.
#[verifier::external_body]
fn standard_input() -> (descriptor: i32)
    ensures
        descriptor == 0,
{
    libc::STDIN_FILENO
}

/// `libc::STDOUT_FILENO`, which libc defines as 1 on every Unix.
#[verifier::external_body]
fn standard_output() -> (descriptor: i32)
    ensures
        descriptor == 1,
{
    libc::STDOUT_FILENO
}

/// `libc::STDERR_FILENO`, which libc defines as 2 on every Unix.
#[verifier::external_body]
fn standard_error() -> (descriptor: i32)
    ensures
        descriptor == 2,
{
    libc::STDERR_FILENO
}

/// A guest process's streams: its terminal, which it reads and sizes itself
/// against, and whichever of stdin, stdout and stderr the caller attached.
///
/// A process on a terminal has no separate stderr. One pty carries every stream
/// it writes, so by the time the bytes leave the guest nothing distinguishes
/// them, and Containerization refuses a stderr beside a terminal.
///
/// Copied freely: this is four descriptor numbers and owns none of them.
#[derive(Clone, Copy, Debug, PartialEq, Eq)]
pub struct Stdio {
    pub terminal: i32,
    pub stdin: i32,
    pub stdout: i32,
    pub stderr: i32,
}

impl Stdio {
    /// A terminal the guest reads, writing what it has to say to `stdout`.
    /// Its stderr arrives there too; see the note on the type.
    pub fn terminal(terminal: i32, stdout: i32) -> (stdio: Stdio)
        ensures
            stdio == (Stdio { terminal, stdin: UNATTACHED, stdout, stderr: UNATTACHED }),
    {
        Stdio { terminal, stdin: UNATTACHED, stdout, stderr: UNATTACHED }
    }

    /// This process's own streams, leaving out stdin when the guest process is
    /// to read none.
    pub fn inherit(interactive: bool) -> (stdio: Stdio)
        ensures
            stdio == (Stdio {
                terminal: UNATTACHED,
                stdin: if interactive { 0 } else { UNATTACHED },
                stdout: 1,
                stderr: 2,
            }),
    {
        Stdio {
            terminal: UNATTACHED,
            stdin: if interactive { standard_input() } else { UNATTACHED },
            stdout: standard_output(),
            stderr: standard_error(),
        }
    }

    /// Nothing attached at all: a process that neither reads nor writes.
    pub fn nothing() -> (stdio: Stdio)
        ensures
            stdio == (Stdio { terminal: UNATTACHED, stdin: UNATTACHED, stdout: UNATTACHED, stderr: UNATTACHED }),
    {
        Stdio { terminal: UNATTACHED, stdin: UNATTACHED, stdout: UNATTACHED, stderr: UNATTACHED }
    }

    /// Whether the process reads a terminal, and so can be resized.
    pub fn has_terminal(&self) -> (attached: bool)
        ensures
            attached == (self.terminal != UNATTACHED),
    {
        self.terminal != UNATTACHED
    }
}

} // verus!
