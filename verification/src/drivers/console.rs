//! Synchronized diagnostic output channel.
//!
//! A [`SysConsole`] stands for the single hardware-backed byte sink: a fixed
//! write-only one-byte-wide register, modeled here as the ordered sequence of
//! bytes stored to it, plus a running count of bytes written. Emitting the
//! logical newline character first emits a carriage-return byte, then a
//! line-feed byte, unless the preceding character of the text is already a
//! carriage return; every other character is emitted as a single byte, so
//! already-expanded text passes through unchanged. The look-behind is
//! local to each streamed text.
//!
//! The only way to write is to acquire the guard of the [`Mutex`] wrapping
//! the channel; [`_print`] and [`print_line`] do so and release it again.

use vstd::prelude::*;
use vstd::string::StrSliceExecFns;

use crate::sync::mutex::{Mutex, MutexGuard};

verus! {

/// Physical address of the memory-mapped output register. There is no
/// discovery mechanism: the address is fixed build configuration.
pub const SYS_CONSOLE_ADDR: usize = 0x3F20_1000;

/// The single byte a character is converted to when stored to the one-byte
/// output register: its scalar value truncated to the low eight bits.
pub open spec fn byte_of_char(c: char) -> u8 {
    ((c as u32) % 256) as u8
}

/// The bytes one character contributes to the output register, given the
/// character standing immediately before it in the same text: a logical
/// newline becomes carriage return plus line feed — unless a carriage
/// return already precedes it, in which case it, like every other
/// character, is stored as a single literal byte. This makes the policy
/// idempotent: text that is already expanded passes through unchanged.
pub open spec fn expand_one(prev: Option<char>, c: char) -> Seq<u8> {
    if c == '\n' && prev != Some('\r') {
        seq![byte_of_char('\r'), byte_of_char('\n')]
    } else {
        seq![byte_of_char(c)]
    }
}

/// The byte sequence the output register receives for a character
/// sequence preceded by `prev`, with the newline policy applied to each
/// character in order.
pub open spec fn expanded_from(prev: Option<char>, s: Seq<char>) -> Seq<u8>
    decreases s.len(),
{
    if s.len() == 0 {
        Seq::empty()
    } else {
        expand_one(prev, s[0]) + expanded_from(Some(s[0]), s.drop_first())
    }
}

/// The byte sequence the output register receives for one streamed text.
/// The look-behind of the newline policy is local to the text: its first
/// character has no predecessor, so a newline there is always expanded.
pub open spec fn expanded(s: Seq<char>) -> Seq<u8> {
    expanded_from(None, s)
}

/// The predecessor a continuation of `s` would see: the last character of
/// `s`, or `prev` itself if `s` is empty.
pub open spec fn last_char_or(prev: Option<char>, s: Seq<char>) -> Option<char> {
    if s.len() == 0 {
        prev
    } else {
        Some(s.last())
    }
}

/// Expansion distributes over concatenation, with the second text picking
/// up its look-behind where the first left off.
pub proof fn lemma_expanded_from_append(prev: Option<char>, a: Seq<char>, b: Seq<char>)
    ensures
        expanded_from(prev, a + b) == expanded_from(prev, a) + expanded_from(
            last_char_or(prev, a),
            b,
        ),
    decreases a.len(),
{
    if a.len() == 0 {
        assert(a + b =~= b);
        assert(expanded_from(prev, a) =~= Seq::<u8>::empty());
        assert(expanded_from(prev, a) + expanded_from(prev, b) =~= expanded_from(prev, b));
    } else {
        lemma_expanded_from_append(Some(a[0]), a.drop_first(), b);
        assert((a + b).drop_first() =~= a.drop_first() + b);
        assert((a + b)[0] == a[0]);
        assert(expanded_from(prev, a + b) =~= expand_one(prev, a[0]) + expanded_from(
            Some(a[0]),
            a.drop_first() + b,
        ));
        if a.len() > 1 {
            assert(a.drop_first().last() == a.last());
        }
        assert(last_char_or(Some(a[0]), a.drop_first()) == last_char_or(prev, a));
        assert(expand_one(prev, a[0]) + (expanded_from(Some(a[0]), a.drop_first())
            + expanded_from(last_char_or(prev, a), b)) =~= (expand_one(prev, a[0])
            + expanded_from(Some(a[0]), a.drop_first())) + expanded_from(
            last_char_or(prev, a),
            b,
        ));
    }
}

/// A single character expands to its one or two bytes.
pub proof fn lemma_expanded_from_singleton(prev: Option<char>, c: char)
    ensures
        expanded_from(prev, seq![c]) == expand_one(prev, c),
{
    assert(seq![c].drop_first() =~= Seq::<char>::empty());
    assert(expanded_from(Some(c), Seq::<char>::empty()) =~= Seq::<u8>::empty());
    assert(expanded_from(prev, seq![c]) =~= expand_one(prev, c) + Seq::<u8>::empty());
    assert(expand_one(prev, c) + Seq::<u8>::empty() =~= expand_one(prev, c));
}

/// Writing an already-expanded text does not re-expand it: when every
/// logical newline in the text already has a carriage return immediately
/// before it, every character — carriage returns and newlines included —
/// is stored as exactly one literal byte.
pub proof fn lemma_already_expanded_is_literal(s: Seq<char>)
    requires
        forall|i: int| 0 <= i < s.len() && #[trigger] s[i] == '\n' ==> i > 0 && s[i - 1] == '\r',
    ensures
        expanded(s).len() == s.len(),
        forall|i: int| 0 <= i < s.len() ==> expanded(s)[i] == byte_of_char(s[i]),
{
    lemma_literal_from(None, s);
}

proof fn lemma_literal_from(prev: Option<char>, s: Seq<char>)
    requires
        forall|i: int|
            0 <= i < s.len() && #[trigger] s[i] == '\n' ==> (i == 0 && prev == Some('\r')) || (i
                > 0 && s[i - 1] == '\r'),
    ensures
        expanded_from(prev, s).len() == s.len(),
        forall|i: int| 0 <= i < s.len() ==> expanded_from(prev, s)[i] == byte_of_char(s[i]),
    decreases s.len(),
{
    if s.len() > 0 {
        assert(expand_one(prev, s[0]) =~= seq![byte_of_char(s[0])]);
        assert forall|i: int|
            0 <= i < s.drop_first().len() && #[trigger] s.drop_first()[i] == '\n' implies (i == 0
            && Some(s[0]) == Some('\r')) || (i > 0 && s.drop_first()[i - 1] == '\r') by {
            assert(s.drop_first()[i] == s[i + 1]);
            if i > 0 {
                assert(s.drop_first()[i - 1] == s[i]);
            }
        }
        lemma_literal_from(Some(s[0]), s.drop_first());
        assert(expanded_from(prev, s) =~= seq![byte_of_char(s[0])] + expanded_from(
            Some(s[0]),
            s.drop_first(),
        ));
        assert forall|i: int| 0 <= i < s.len() implies expanded_from(prev, s)[i] == byte_of_char(
            s[i],
        ) by {
            if i > 0 {
                assert(expanded_from(prev, s)[i] == expanded_from(Some(s[0]), s.drop_first())[i
                    - 1]);
                assert(s.drop_first()[i - 1] == s[i]);
            }
        }
    }
}

/// Counts the bytes a writer has emitted.
pub trait Count {
    /// The number of bytes emitted so far.
    spec fn count(&self) -> nat;

    /// Returns the number of bytes written.
    fn chars_written(&self) -> (n: usize)
        ensures
            n as nat == self.count(),
    ;
}

/// A byte-oriented text sink with the newline policy of the output
/// channel: what it emits, it emits as an observable, ordered side effect.
pub trait Console: Count {
    /// The ordered bytes this console has stored to its sink.
    spec fn emitted(&self) -> Seq<u8>;

    /// Well-formedness of the console's bookkeeping.
    spec fn inv(&self) -> bool;

    /// Streams a pre-rendered character sequence to the sink, expanding
    /// each logical newline to carriage return plus line feed — unless a
    /// carriage return immediately precedes it in the text — and counting
    /// every stored byte. Each call streams one text of its own: the
    /// look-behind does not reach into an earlier call.
    fn write_str(&mut self, s: &str)
        requires
            old(self).inv(),
        ensures
            final(self).inv(),
            final(self).emitted() == old(self).emitted() + expanded(s@),
            final(self).count() == old(self).count() + expanded(s@).len(),
    ;
}

/// The system console: the one fixed output register, owned by whoever
/// holds the guard of the mutex wrapping it.
pub struct SysConsole<const ADDR: usize> {
    port: Vec<u8>,
    chars_written: usize,
}

impl<const ADDR: usize> SysConsole<ADDR> {
    /// A console that has emitted nothing yet.
    pub fn new() -> (c: SysConsole<ADDR>)
        ensures
            c.inv(),
            c.emitted() == Seq::<u8>::empty(),
            c.count() == 0,
    {
        SysConsole { port: Vec::new(), chars_written: 0 }
    }

    /// Sends one character: a single ordered store of its low byte to the
    /// output register, counted.
    pub fn write_char(&mut self, c: char)
        requires
            old(self).inv(),
        ensures
            final(self).inv(),
            final(self).emitted() == old(self).emitted() + seq![byte_of_char(c)],
            final(self).count() == old(self).count() + 1,
    {
        let scalar: u32 = c as u32;
        let b: u8 = (scalar % 256) as u8;
        self.port.push(b);
        let stored = self.port.len();
        assert(self.chars_written < stored);
        self.chars_written = self.chars_written + 1;
    }

    /// The bytes stored to the output register so far, in order.
    pub fn emitted_bytes(&self) -> (r: &Vec<u8>)
        ensures
            r@ == self.emitted(),
    {
        &self.port
    }
}

impl<const ADDR: usize> Count for SysConsole<ADDR> {
    closed spec fn count(&self) -> nat {
        self.chars_written as nat
    }

    fn chars_written(&self) -> (n: usize)
        ensures
            n as nat == self.count(),
    {
        self.chars_written
    }
}

impl<const ADDR: usize> Console for SysConsole<ADDR> {
    closed spec fn emitted(&self) -> Seq<u8> {
        self.port@
    }

    closed spec fn inv(&self) -> bool {
        self.chars_written as nat == self.port@.len()
    }

    fn write_str(&mut self, s: &str) {
        let n = s.unicode_len();
        let mut i: usize = 0;
        let mut last_cr: bool = false;
        while i < n
            invariant
                i <= n,
                n as nat == s@.len(),
                last_cr == (i > 0 && s@[i as int - 1] == '\r'),
                self.inv(),
                self.emitted() == old(self).emitted() + expanded(s@.take(i as int)),
                self.count() == old(self).count() + expanded(s@.take(i as int)).len(),
            decreases n - i,
        {
            let c = s.get_char(i);
            // Convert the logical newline to carriage return + line feed,
            // unless the text already supplies the carriage return.
            if c == '\n' && !last_cr {
                self.write_char('\r');
            }
            self.write_char(c);
            last_cr = c == '\r';
            proof {
                assert(s@.take(i + 1) =~= s@.take(i as int) + seq![s@[i as int]]);
                lemma_expanded_from_append(None, s@.take(i as int), seq![s@[i as int]]);
                lemma_expanded_from_singleton(
                    last_char_or(None, s@.take(i as int)),
                    s@[i as int],
                );
            }
            i = i + 1;
        }
        proof {
            assert(s@.take(n as int) =~= s@);
        }
    }
}

/// How a print request ended: either the text went out and the lock was
/// released again, or the channel's lock could not be acquired and the
/// caller parks permanently — there is no lower-level channel to report
/// through, and the fatal-error path depends on this very channel.
#[derive(Debug, PartialEq, Eq, Structural)]
pub enum PrintOutcome {
    /// The whole text was streamed to the output register.
    Printed,
    /// Lock acquisition timed out; the caller parks and nothing was
    /// emitted.
    Parked,
}

/// Acquires exclusive access to the system console behind `lock`.
///
/// `None` stands for the permanent park the caller falls into when the
/// bounded acquisition gives up.
pub fn console<const ADDR: usize>(lock: &mut Mutex<SysConsole<ADDR>>) -> (r: Option<
    MutexGuard<SysConsole<ADDR>>,
>)
    ensures
        match r {
            Some(g) => !old(lock).is_locked() && final(lock).is_locked()
                && g.value() == old(lock).value(),
            None => old(lock).is_locked() && *final(lock) == *old(lock),
        },
{
    match lock.lock() {
        Ok(guard) => Some(guard),
        Err(_) => None,
    }
}

/// Base print implementation: streams a pre-rendered character sequence
/// through the console behind `lock`, holding its guard for the duration.
pub fn _print<const ADDR: usize>(lock: &mut Mutex<SysConsole<ADDR>>, s: &str) -> (r: PrintOutcome)
    requires
        !old(lock).is_locked() ==> old(lock).value().inv(),
    ensures
        old(lock).is_locked() ==> r == PrintOutcome::Parked && *final(lock) == *old(lock),
        !old(lock).is_locked() ==> r == PrintOutcome::Printed
            && !final(lock).is_locked()
            && final(lock).value().inv()
            && final(lock).value().emitted() == old(lock).value().emitted() + expanded(s@)
            && final(lock).value().count() == old(lock).value().count() + expanded(s@).len(),
{
    match console(lock) {
        Some(mut guard) => {
            let c = guard.deref_mut();
            c.write_str(s);
            lock.unlock(guard);
            PrintOutcome::Printed
        },
        None => PrintOutcome::Parked,
    }
}

/// Prints the text followed by a line break through the console behind
/// `lock`. The break is streamed as a text of its own, so it is always
/// expanded to carriage return plus line feed, whatever the printed text
/// ended with.
pub fn print_line<const ADDR: usize>(lock: &mut Mutex<SysConsole<ADDR>>, s: &str) -> (r:
    PrintOutcome)
    requires
        !old(lock).is_locked() ==> old(lock).value().inv(),
    ensures
        old(lock).is_locked() ==> r == PrintOutcome::Parked && *final(lock) == *old(lock),
        !old(lock).is_locked() ==> r == PrintOutcome::Printed
            && !final(lock).is_locked()
            && final(lock).value().inv()
            && final(lock).value().emitted() == old(lock).value().emitted() + expanded(s@)
                + expanded(seq!['\n'])
            && final(lock).value().count() == old(lock).value().count() + expanded(s@).len()
                + expanded(seq!['\n']).len(),
{
    match _print(lock, s) {
        PrintOutcome::Parked => PrintOutcome::Parked,
        PrintOutcome::Printed => {
            let r = _print(lock, "\n");
            proof {
                reveal_strlit("\n");
                assert("\n"@ =~= seq!['\n']);
            }
            r
        },
    }
}

} // verus!
