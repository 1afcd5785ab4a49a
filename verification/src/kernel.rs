//! The next-stage initializer Boot Entry hands control to.
//!
//! Today the kernel proper does nothing beyond announcing itself on the
//! console and falling into the fatal-error path; if it ever returned, the
//! only defined continuation would be the permanent park.

use vstd::prelude::*;

use crate::drivers::console::{expanded, print_line, Console, Count, PrintOutcome, SysConsole};
use crate::fatal::{
    diagnostic_bytes, diagnostic_text, fatal_error, FatalOutcome, PanicRecord, ReentrancyFlag,
};
use crate::sync::mutex::Mutex;
use vstd::string::StringExecFns;

verus! {

/// The text the kernel announces itself with.
pub open spec fn init_announcement() -> Seq<char> {
    "Kernel initializing: ..."@
}

/// The bytes that announcement puts on the output register: the expanded
/// text, then the trailing line break streamed as a text of its own.
pub open spec fn announcement_bytes() -> Seq<u8> {
    expanded(init_announcement()) + expanded(seq!['\n'])
}

/// The message of the failure the kernel raises when it reaches the end
/// of what exists of it.
pub open spec fn init_panic_message() -> Seq<char> {
    "Reached end of existing kernel... more coming soon!"@
}

/// The text of the diagnostic line that failure produces: it carries no
/// source location, so the placeholder location is reported.
pub open spec fn init_failure_text() -> Seq<char> {
    "Kernel panicked at "@ + "???"@ + ":"@ + crate::fatal::dec_digits(0) + "\n"@
        + init_panic_message()
}

/// The bytes the fatal report for that failure puts on the output
/// register.
pub open spec fn failure_bytes() -> Seq<u8> {
    expanded(init_failure_text()) + expanded(seq!['\n'])
}

/// How kernel initialization ended. It never returns to its caller in
/// normal operation: every variant is terminal for the unit.
#[derive(Debug, PartialEq, Eq, Structural)]
pub enum InitOutcome {
    /// Parked while announcing initialization: the channel's lock never
    /// came free and there is no other way to report.
    ParkedPrinting,
    /// Fell into the fatal-error path; how that path halted the unit.
    Fatal(FatalOutcome),
}

/// Initializes the kernel: announces itself on the console, then raises
/// an unrecoverable failure, since nothing further exists yet.
pub fn kernel_init<const ADDR: usize>(
    lock: &mut Mutex<SysConsole<ADDR>>,
    flag: &mut ReentrancyFlag,
) -> (r: InitOutcome)
    requires
        !old(lock).is_locked() ==> old(lock).value().inv(),
    ensures
        old(lock).is_locked() ==> r == InitOutcome::ParkedPrinting && *final(lock) == *old(lock)
            && *final(flag) == *old(flag),
        !old(lock).is_locked() ==> !final(lock).is_locked() && final(lock).value().inv()
            && final(flag).is_set(),
        !old(lock).is_locked() && old(flag).is_set() ==> r == InitOutcome::Fatal(
            FatalOutcome::Reentrant,
        ) && final(lock).value().emitted() == old(lock).value().emitted() + announcement_bytes()
            && final(lock).value().count() == old(lock).value().count()
                + announcement_bytes().len(),
        !old(lock).is_locked() && !old(flag).is_set() ==> r == InitOutcome::Fatal(
            FatalOutcome::Reported,
        ) && final(lock).value().emitted() == old(lock).value().emitted() + announcement_bytes()
            + failure_bytes()
            && final(lock).value().count() == old(lock).value().count()
                + announcement_bytes().len() + failure_bytes().len(),
{
    match print_line(lock, "Kernel initializing: ...") {
        PrintOutcome::Parked => InitOutcome::ParkedPrinting,
        PrintOutcome::Printed => {
            proof {
                assert(lock.value().emitted() =~= old(lock).value().emitted()
                    + announcement_bytes());
            }
            let rec = PanicRecord {
                location: None,
                message: String::from_str("Reached end of existing kernel... more coming soon!"),
            };
            proof {
                assert(diagnostic_text(rec) =~= init_failure_text());
                assert(diagnostic_bytes(rec) =~= failure_bytes());
            }
            let f = fatal_error(&rec, flag, lock);
            InitOutcome::Fatal(f)
        },
    }
}

} // verus!
