//! SBI console driver, for text output.
//!
//! The firmware console takes one character per call. Text is therefore
//! turned into a run of putchar frames, one for each character and in the
//! order of the text.

use vstd::prelude::*;
use crate::sbi::{console_putchar, putchar_frame, CallFrame};

verus! {

/// The calls that put `text` on the console: one putchar frame per
/// character, first character first.
pub open spec fn putchar_calls(text: Seq<char>) -> Seq<CallFrame> {
    Seq::new(text.len(), |i: int| putchar_frame(text[i] as usize))
}

/// The console as a writer: it collects the calls that will show what was
/// written to it.
pub struct Stdout {
    /// The calls still to be made, oldest first.
    pub calls: Vec<CallFrame>,
}

impl Stdout {
    /// A console to which nothing has been written.
    pub fn new() -> (out: Self)
        ensures
            out.calls@ == Seq::<CallFrame>::empty(),
    {
        Stdout { calls: Vec::new() }
    }

    /// Write `s`: its calls are added behind those already collected.
    pub fn write_str(&mut self, s: &str)
        ensures
            final(self).calls@ == old(self).calls@ + putchar_calls(s@),
    {
        for c in it: s.chars()
            invariant
                it.seq() == s@,
                self.calls@ == old(self).calls@ + putchar_calls(s@.take(it.index())),
        {
            self.calls.push(console_putchar(c as usize));
            assert(s@.take(it.index() + 1) == s@.take(it.index()).push(c));
        }
        assert(s@.take(s@.len() as int) == s@);
    }
}

/// Print `s` to the host console: the calls that show it, in order.
pub fn print(s: &str) -> (calls: Vec<CallFrame>)
    ensures
        calls@ == putchar_calls(s@),
{
    let mut out = Stdout::new();
    out.write_str(s);
    out.calls
}

/// Print `s` and a line break to the host console: the calls that show
/// them, in order.
pub fn println(s: &str) -> (calls: Vec<CallFrame>)
    ensures
        calls@ == putchar_calls(s@.push('\n')),
{
    let mut out = Stdout::new();
    out.write_str(s);
    out.write_str("\n");
    proof {
        reveal_strlit("\n");
        assert(s@ + "\n"@ == s@.push('\n'));
        calls_follow_the_text(s@, "\n"@);
    }
    out.calls
}

/// The console takes text piece by piece: the calls for one text followed
/// by another are the calls for the first, then the calls for the second.
pub proof fn calls_follow_the_text(first: Seq<char>, second: Seq<char>)
    ensures
        putchar_calls(first + second) == putchar_calls(first) + putchar_calls(second),
{
    assert(putchar_calls(first + second) =~= putchar_calls(first) + putchar_calls(second));
}

/// Each call that shows a text is the putchar call for the character in
/// its place, and carries that character's code as it is: a code is never
/// above `0x10ffff`, so it fits the register on every machine.
pub proof fn calls_carry_the_characters(text: Seq<char>, i: int)
    requires
        0 <= i < text.len(),
    ensures
        putchar_calls(text).len() == text.len(),
        putchar_calls(text)[i] == putchar_frame(putchar_calls(text)[i].x10),
        putchar_calls(text)[i].x10 == text[i] as int,
        putchar_calls(text)[i].x10 <= 0x10_ffff,
{
    code_fits(text[i]);
}

proof fn code_fits(c: char)
    ensures
        c as usize == c as int,
        c as int <= 0x10_ffff,
{
}

} // verus!
