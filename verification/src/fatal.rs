//! Fatal-error path: reentrancy-guarded diagnostic reporting through the
//! output channel, followed by permanent halt.
//!
//! On an unrecoverable failure the runtime hands a [`PanicRecord`] to
//! [`fatal_error`]. The first entry formats one diagnostic line — source
//! location (with a placeholder when absent) and the record's message —
//! and emits it through the synchronized console; any later, reentrant
//! entry skips reporting entirely, because printing may be the very thing
//! that is failing. Either way the unit halts; there is no recovery.

use vstd::prelude::*;
use vstd::string::StringExecFns;

use crate::drivers::console::{expanded, print_line, Console, Count, PrintOutcome, SysConsole};
use crate::sync::mutex::Mutex;

verus! {

/// The single process-wide reentrancy flag: false at startup, set on
/// first entry into the fatal-error path, and never reset — the type
/// offers no way to clear it.
pub struct ReentrancyFlag {
    set: bool,
}

impl ReentrancyFlag {
    /// Whether the fatal-error path has been entered.
    pub closed spec fn is_set(self) -> bool {
        self.set
    }

    /// The startup state: not yet entered.
    pub fn new() -> (f: ReentrancyFlag)
        ensures
            !f.is_set(),
    {
        ReentrancyFlag { set: false }
    }

    /// Reads the flag and leaves it set.
    pub fn test_and_set(&mut self) -> (was: bool)
        ensures
            final(self).is_set(),
            was == old(self).is_set(),
    {
        let was = self.set;
        self.set = true;
        was
    }
}

/// Stop immediately if entered a second time.
///
/// Returns whether the caller may proceed with reporting: true on first
/// entry, false on a reentrant one, where the caller halts without
/// printing anything.
pub fn panic_prevent_reenter(flag: &mut ReentrancyFlag) -> (proceed: bool)
    ensures
        final(flag).is_set(),
        proceed == !old(flag).is_set(),
{
    !flag.test_and_set()
}

/// A source position carried by a [`PanicRecord`].
pub struct SourceLocation {
    /// Path of the source file the failure was raised in.
    pub file: String,
    /// Line number within that file.
    pub line: u64,
}

/// What the language runtime hands the fatal-error path on an
/// unrecoverable failure: an optional source location plus a message.
pub struct PanicRecord {
    /// Where the failure was raised, when known.
    pub location: Option<SourceLocation>,
    /// The failure message.
    pub message: String,
}

/// The reported source file: the record's, or a placeholder when the
/// record carries no location.
pub open spec fn location_file(rec: PanicRecord) -> Seq<char> {
    match rec.location {
        Some(loc) => loc.file@,
        None => "???"@,
    }
}

/// The reported line number: the record's, or zero when the record
/// carries no location.
pub open spec fn location_line(rec: PanicRecord) -> u64 {
    match rec.location {
        Some(loc) => loc.line,
        None => 0,
    }
}

/// The character standing for a single decimal digit.
pub open spec fn dec_digit_char(d: nat) -> char {
    if d == 0 {
        '0'
    } else if d == 1 {
        '1'
    } else if d == 2 {
        '2'
    } else if d == 3 {
        '3'
    } else if d == 4 {
        '4'
    } else if d == 5 {
        '5'
    } else if d == 6 {
        '6'
    } else if d == 7 {
        '7'
    } else if d == 8 {
        '8'
    } else {
        '9'
    }
}

/// The decimal rendering of a number: most significant digit first, no
/// leading zeros except for zero itself.
pub open spec fn dec_digits(n: nat) -> Seq<char>
    decreases n,
{
    if n < 10 {
        seq![dec_digit_char(n)]
    } else {
        dec_digits(n / 10) + seq![dec_digit_char(n % 10)]
    }
}

/// The single-character string for one decimal digit.
fn digit_str(d: u64) -> (s: &'static str)
    requires
        d < 10,
    ensures
        s@ == seq![dec_digit_char(d as nat)],
{
    proof {
        reveal_strlit("0");
        reveal_strlit("1");
        reveal_strlit("2");
        reveal_strlit("3");
        reveal_strlit("4");
        reveal_strlit("5");
        reveal_strlit("6");
        reveal_strlit("7");
        reveal_strlit("8");
        reveal_strlit("9");
    }
    let s: &'static str = if d == 0 {
        "0"
    } else if d == 1 {
        "1"
    } else if d == 2 {
        "2"
    } else if d == 3 {
        "3"
    } else if d == 4 {
        "4"
    } else if d == 5 {
        "5"
    } else if d == 6 {
        "6"
    } else if d == 7 {
        "7"
    } else if d == 8 {
        "8"
    } else {
        "9"
    };
    proof {
        assert(s@ =~= seq![dec_digit_char(d as nat)]);
    }
    s
}

/// Renders a number in decimal.
pub fn u64_dec(n: u64) -> (s: String)
    ensures
        s@ == dec_digits(n as nat),
    decreases n,
{
    if n < 10 {
        String::from_str(digit_str(n))
    } else {
        let mut s = u64_dec(n / 10);
        s.append(digit_str(n % 10));
        proof {
            assert(s@ =~= dec_digits(n as nat));
        }
        s
    }
}

/// The text of the one diagnostic line the fatal-error path emits for a
/// record, without the trailing line break.
pub open spec fn diagnostic_text(rec: PanicRecord) -> Seq<char> {
    "Kernel panicked at "@ + location_file(rec) + ":"@ + dec_digits(location_line(rec) as nat)
        + "\n"@ + rec.message@
}

/// The bytes the output register receives for that report: the expanded
/// diagnostic text, then the trailing line break streamed as a text of
/// its own.
pub open spec fn diagnostic_bytes(rec: PanicRecord) -> Seq<u8> {
    expanded(diagnostic_text(rec)) + expanded(seq!['\n'])
}

/// How the fatal-error path reached the halted state.
#[derive(Debug, PartialEq, Eq, Structural)]
pub enum FatalOutcome {
    /// First entry: the diagnostic line went out and the channel's lock
    /// was released again; the unit halts.
    Reported,
    /// First entry, but the channel's lock never came free: parked while
    /// reporting, with nothing emitted; the unit halts.
    ParkedReporting,
    /// Reentrant entry: the flag was already set, so the emission step
    /// was skipped entirely; the unit halts.
    Reentrant,
}

/// Fatal entry point: reports a failure once, then the unit halts.
///
/// Atomically tests and sets the reentrancy flag; a reentrant call
/// transitions straight to the halted state without touching the channel.
/// Otherwise one diagnostic line — location (or the `???:0` placeholder)
/// and message — is streamed through the console behind `lock`, and the
/// transition to halted happens whether or not the emission succeeded.
pub fn fatal_error<const ADDR: usize>(
    rec: &PanicRecord,
    flag: &mut ReentrancyFlag,
    lock: &mut Mutex<SysConsole<ADDR>>,
) -> (r: FatalOutcome)
    requires
        !old(lock).is_locked() ==> old(lock).value().inv(),
    ensures
        final(flag).is_set(),
        old(flag).is_set() ==> r == FatalOutcome::Reentrant && *final(lock) == *old(lock),
        !old(flag).is_set() && old(lock).is_locked() ==> r == FatalOutcome::ParkedReporting
            && *final(lock) == *old(lock),
        !old(flag).is_set() && !old(lock).is_locked() ==> r == FatalOutcome::Reported
            && !final(lock).is_locked()
            && final(lock).value().inv()
            && final(lock).value().emitted() == old(lock).value().emitted()
                + diagnostic_bytes(*rec)
            && final(lock).value().count() == old(lock).value().count()
                + diagnostic_bytes(*rec).len(),
{
    // Protect against infinite loops if anything below fails in turn.
    if !panic_prevent_reenter(flag) {
        return FatalOutcome::Reentrant;
    }
    let mut line = String::from_str("Kernel panicked at ");
    match &rec.location {
        Some(loc) => {
            line.append(loc.file.as_str());
            line.append(":");
            let num = u64_dec(loc.line);
            line.append(num.as_str());
        },
        None => {
            line.append("???");
            line.append(":");
            let num = u64_dec(0);
            line.append(num.as_str());
        },
    }
    line.append("\n");
    line.append(rec.message.as_str());
    proof {
        assert(line@ =~= diagnostic_text(*rec));
    }
    match print_line(lock, line.as_str()) {
        PrintOutcome::Printed => FatalOutcome::Reported,
        PrintOutcome::Parked => FatalOutcome::ParkedReporting,
    }
}

} // verus!
