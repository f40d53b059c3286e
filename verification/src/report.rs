//! What a panic has to say: the record of a panic and the one line of
//! text that announces it.

use vstd::prelude::*;
use vstd::string::StringExecFns;

verus! {

/// Where in the source a panic was raised.
#[derive(Debug)]
pub struct Location {
    /// Path of the source file.
    pub file: String,
    /// Line in that file, counted from 1.
    pub line: u32,
}

/// One panic: its message, and its place if that is known.
#[derive(Debug)]
pub struct PanicRecord {
    /// Place of the panic, where the runtime could tell.
    pub location: Option<Location>,
    /// The panic's message, already formatted.
    pub message: String,
}

/// The character for the decimal digit `d`.
pub open spec fn digit(d: nat) -> char {
    if d == 0 {
        '0'
    } else if d == 1 {
        '1'
    } else if d == 2 {
        '2'
    } else if d == 3 {
        '3'
    } else if d == 4 {
        '4'
    } else if d == 5 {
        '5'
    } else if d == 6 {
        '6'
    } else if d == 7 {
        '7'
    } else if d == 8 {
        '8'
    } else {
        '9'
    }
}

/// `n` in decimal, most significant digit first, without leading zeros.
pub open spec fn decimal(n: nat) -> Seq<char>
    decreases n,
{
    if n < 10 {
        seq![digit(n)]
    } else {
        decimal(n / 10).push(digit(n % 10))
    }
}

/// The line that announces `info`, without its line break.
pub open spec fn panic_line(info: PanicRecord) -> Seq<char> {
    match info.location {
        Some(at) => "[kernel] Panicked at "@ + at.file@ + ":"@ + decimal(at.line as nat) + " "@
            + info.message@,
        None => "[kernel] Panicked: "@ + info.message@,
    }
}

fn digit_str(d: u32) -> (s: &'static str)
    requires
        d < 10,
    ensures
        s@ == seq![digit(d as nat)],
{
    proof {
        reveal_strlit("0");
        reveal_strlit("1");
        reveal_strlit("2");
        reveal_strlit("3");
        reveal_strlit("4");
        reveal_strlit("5");
        reveal_strlit("6");
        reveal_strlit("7");
        reveal_strlit("8");
        reveal_strlit("9");
    }
    if d == 0 {
        "0"
    } else if d == 1 {
        "1"
    } else if d == 2 {
        "2"
    } else if d == 3 {
        "3"
    } else if d == 4 {
        "4"
    } else if d == 5 {
        "5"
    } else if d == 6 {
        "6"
    } else if d == 7 {
        "7"
    } else if d == 8 {
        "8"
    } else {
        "9"
    }
}

/// Write `n` in decimal.
pub fn decimal_string(n: u32) -> (text: String)
    ensures
        text@ == decimal(n as nat),
    decreases n,
{
    if n < 10 {
        String::from_str(digit_str(n))
    } else {
        let mut text = decimal_string(n / 10);
        text.append(digit_str(n % 10));
        text
    }
}

/// Format the line that announces `info`.
pub fn panic_message(info: &PanicRecord) -> (line: String)
    ensures
        line@ == panic_line(*info),
{
    match &info.location {
        Some(at) => {
            let mut line = String::from_str("[kernel] Panicked at ");
            line.append(at.file.as_str());
            line.append(":");
            line.append(decimal_string(at.line).as_str());
            line.append(" ");
            line.append(info.message.as_str());
            line
        },
        None => {
            let mut line = String::from_str("[kernel] Panicked: ");
            line.append(info.message.as_str());
            line
        },
    }
}

} // verus!
