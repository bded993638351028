//! The signals of Linux.

use nix::sys::signal::{
    SIGHUP, SIGINT, SIGQUIT, SIGILL, SIGTRAP, SIGABRT, SIGBUS, SIGFPE,
    SIGKILL, SIGUSR1, SIGSEGV, SIGUSR2, SIGPIPE, SIGALRM, SIGTERM, SIGSTKFLT,
    SIGCHLD, SIGCONT, SIGSTOP, SIGTSTP, SIGTTIN, SIGTTOU, SIGURG, SIGXCPU,
    SIGXFSZ, SIGVTALRM, SIGPROF, SIGWINCH, SIGIO, SIGPWR, SIGSYS,
};
use vstd::prelude::*;
use Signal::{
    Hup, Int, Quit, Ill, Trap, Abrt, Bus, Fpe, Kill, Usr1,
    Segv, Usr2, Pipe, Alrm, Term, Stkflt, Chld, Cont, Stop, Tstp,
    Ttin, Ttou, Urg, Xcpu, Xfsz, Vtalrm, Prof, Winch, Io, Pwr,
    Sys,
};

verus! {

/// A signal. Its number is left aside: for some signals it depends on the machine.
#[derive(Clone, Copy, Debug, PartialEq, Eq, Structural)]
pub enum Signal {
    /// Hangup.
    Hup,
    /// Interrupt from the keyboard.
    Int,
    /// Quit from the keyboard.
    Quit,
    /// Illegal instruction.
    Ill,
    /// Trace or breakpoint trap.
    Trap,
    /// Abort.
    Abrt,
    /// Bad memory access.
    Bus,
    /// Arithmetic error.
    Fpe,
    /// Kill; it cannot be refused.
    Kill,
    /// For the user.
    Usr1,
    /// Invalid memory reference.
    Segv,
    /// For the user.
    Usr2,
    /// Write to a pipe that nobody reads.
    Pipe,
    /// The alarm has gone off.
    Alrm,
    /// Request to terminate.
    Term,
    /// Stack fault of a coprocessor.
    Stkflt,
    /// A child has stopped or ended.
    Chld,
    /// Continue after a stop.
    Cont,
    /// Stop; it cannot be refused.
    Stop,
    /// Stop from the keyboard.
    Tstp,
    /// Input from the terminal in the background.
    Ttin,
    /// Output to the terminal in the background.
    Ttou,
    /// Urgent data on a socket.
    Urg,
    /// Too much processor time.
    Xcpu,
    /// Too large a file.
    Xfsz,
    /// The virtual alarm has gone off.
    Vtalrm,
    /// The profiling timer has expired.
    Prof,
    /// The window has another size.
    Winch,
    /// Input or output is possible.
    Io,
    /// Power failure.
    Pwr,
    /// Bad system call.
    Sys,
}

/// The name of a signal.
pub open spec fn name_of(signal: Signal) -> Seq<char> {
    match signal {
        Signal::Hup => "SIGHUP"@,
        Signal::Int => "SIGINT"@,
        Signal::Quit => "SIGQUIT"@,
        Signal::Ill => "SIGILL"@,
        Signal::Trap => "SIGTRAP"@,
        Signal::Abrt => "SIGABRT"@,
        Signal::Bus => "SIGBUS"@,
        Signal::Fpe => "SIGFPE"@,
        Signal::Kill => "SIGKILL"@,
        Signal::Usr1 => "SIGUSR1"@,
        Signal::Segv => "SIGSEGV"@,
        Signal::Usr2 => "SIGUSR2"@,
        Signal::Pipe => "SIGPIPE"@,
        Signal::Alrm => "SIGALRM"@,
        Signal::Term => "SIGTERM"@,
        Signal::Stkflt => "SIGSTKFLT"@,
        Signal::Chld => "SIGCHLD"@,
        Signal::Cont => "SIGCONT"@,
        Signal::Stop => "SIGSTOP"@,
        Signal::Tstp => "SIGTSTP"@,
        Signal::Ttin => "SIGTTIN"@,
        Signal::Ttou => "SIGTTOU"@,
        Signal::Urg => "SIGURG"@,
        Signal::Xcpu => "SIGXCPU"@,
        Signal::Xfsz => "SIGXFSZ"@,
        Signal::Vtalrm => "SIGVTALRM"@,
        Signal::Prof => "SIGPROF"@,
        Signal::Winch => "SIGWINCH"@,
        Signal::Io => "SIGIO"@,
        Signal::Pwr => "SIGPWR"@,
        Signal::Sys => "SIGSYS"@,
    }
}

/// `nix::sys::signal::Signal::as_str`: the name of a signal. Taken on trust: each signal has the
/// name that the constants of C have for it, on every machine. MIPS and SPARC have no `SIGSTKFLT`,
/// so this does not build there.
#[verifier::external_body]
pub(crate) fn signal_name(signal: Signal) -> (name: &'static str)
    ensures
        name@ == name_of(signal),
{
    let signal = match signal {
        Hup => SIGHUP, Int => SIGINT, Quit => SIGQUIT, Ill => SIGILL,
        Trap => SIGTRAP, Abrt => SIGABRT, Bus => SIGBUS, Fpe => SIGFPE,
        Kill => SIGKILL, Usr1 => SIGUSR1, Segv => SIGSEGV, Usr2 => SIGUSR2,
        Pipe => SIGPIPE, Alrm => SIGALRM, Term => SIGTERM, Stkflt => SIGSTKFLT,
        Chld => SIGCHLD, Cont => SIGCONT, Stop => SIGSTOP, Tstp => SIGTSTP,
        Ttin => SIGTTIN, Ttou => SIGTTOU, Urg => SIGURG, Xcpu => SIGXCPU,
        Xfsz => SIGXFSZ, Vtalrm => SIGVTALRM, Prof => SIGPROF, Winch => SIGWINCH,
        Io => SIGIO, Pwr => SIGPWR, Sys => SIGSYS,
    };
    signal.as_str()
}

} // verus!
