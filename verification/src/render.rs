//! Textual rendering of events for diagnostics: verified decimal and
//! hexadecimal formatting, and the one-line rendering of a record.

use vstd::prelude::*;
use vstd::string::StringExecFns;

use crate::flags::spec_render;
use crate::low_level::RawEvent;
use crate::stream::{Event, EventModel};

verus! {

/// The character for one decimal digit.
pub open spec fn spec_digit(d: u64) -> char {
    if d == 0 {
        '0'
    } else if d == 1 {
        '1'
    } else if d == 2 {
        '2'
    } else if d == 3 {
        '3'
    } else if d == 4 {
        '4'
    } else if d == 5 {
        '5'
    } else if d == 6 {
        '6'
    } else if d == 7 {
        '7'
    } else if d == 8 {
        '8'
    } else {
        '9'
    }
}

/// The character for one hexadecimal digit, lower case.
pub open spec fn spec_hex_digit(d: u64) -> char {
    if d < 10 {
        spec_digit(d)
    } else if d == 10 {
        'a'
    } else if d == 11 {
        'b'
    } else if d == 12 {
        'c'
    } else if d == 13 {
        'd'
    } else if d == 14 {
        'e'
    } else {
        'f'
    }
}

/// The decimal rendering of an unsigned number, most significant digit
/// first, no leading zeros (a lone zero for 0).
pub open spec fn spec_u64_dec(n: u64) -> Seq<char>
    decreases n,
{
    if n < 10 {
        seq![spec_digit(n)]
    } else {
        spec_u64_dec(n / 10) + seq![spec_digit(n % 10)]
    }
}

/// The lower-case hexadecimal rendering of an unsigned number, most
/// significant digit first, no leading zeros (a lone zero for 0).
pub open spec fn spec_u32_hex(n: u32) -> Seq<char>
    decreases n,
{
    if n < 16 {
        seq![spec_hex_digit(n as u64)]
    } else {
        spec_u32_hex(n / 16) + seq![spec_hex_digit((n % 16) as u64)]
    }
}

/// The decimal rendering of a signed number: a minus sign before the
/// magnitude when negative.
pub open spec fn spec_i64_dec(n: i64) -> Seq<char> {
    if n >= 0 {
        spec_u64_dec(n as u64)
    } else {
        seq!['-'] + spec_u64_dec((-(n as int)) as u64)
    }
}

/// One decimal digit as text.
fn digit_str(d: u64) -> (r: &'static str)
    requires
        d < 10,
    ensures
        r@ == seq![spec_digit(d)],
{
    proof {
        reveal_strlit("0");
        reveal_strlit("1");
        reveal_strlit("2");
        reveal_strlit("3");
        reveal_strlit("4");
        reveal_strlit("5");
        reveal_strlit("6");
        reveal_strlit("7");
        reveal_strlit("8");
        reveal_strlit("9");
    }
    if d == 0 {
        "0"
    } else if d == 1 {
        "1"
    } else if d == 2 {
        "2"
    } else if d == 3 {
        "3"
    } else if d == 4 {
        "4"
    } else if d == 5 {
        "5"
    } else if d == 6 {
        "6"
    } else if d == 7 {
        "7"
    } else if d == 8 {
        "8"
    } else {
        "9"
    }
}

/// One hexadecimal digit as text, lower case.
fn hex_digit_str(d: u64) -> (r: &'static str)
    requires
        d < 16,
    ensures
        r@ == seq![spec_hex_digit(d)],
{
    proof {
        reveal_strlit("a");
        reveal_strlit("b");
        reveal_strlit("c");
        reveal_strlit("d");
        reveal_strlit("e");
        reveal_strlit("f");
    }
    if d < 10 {
        digit_str(d)
    } else if d == 10 {
        "a"
    } else if d == 11 {
        "b"
    } else if d == 12 {
        "c"
    } else if d == 13 {
        "d"
    } else if d == 14 {
        "e"
    } else {
        "f"
    }
}

/// Render an unsigned number in decimal.
pub fn u64_to_dec(n: u64) -> (s: String)
    ensures
        s@ == spec_u64_dec(n),
    decreases n,
{
    if n < 10 {
        String::from_str(digit_str(n))
    } else {
        let mut s = u64_to_dec(n / 10);
        s.append(digit_str(n % 10));
        s
    }
}

/// Render an unsigned number in lower-case hexadecimal.
pub fn u32_to_hex(n: u32) -> (s: String)
    ensures
        s@ == spec_u32_hex(n),
    decreases n,
{
    if n < 16 {
        String::from_str(hex_digit_str(n as u64))
    } else {
        let mut s = u32_to_hex(n / 16);
        s.append(hex_digit_str((n % 16) as u64));
        s
    }
}

/// Render a signed number in decimal.
pub fn i64_to_dec(n: i64) -> (s: String)
    ensures
        s@ == spec_i64_dec(n),
{
    if n >= 0 {
        u64_to_dec(n as u64)
    } else {
        let magnitude: u64 = ((-(n + 1)) as u64) + 1;
        proof {
            assert(magnitude == (-(n as int)) as u64);
        }
        let mut s = String::from_str("-");
        proof {
            reveal_strlit("-");
        }
        s.append(u64_to_dec(magnitude).as_str());
        s
    }
}

/// The one-line diagnostic rendering of a decoded record: the event id in
/// brackets, the path in plain quotes, the inode (`-1` when absent), the
/// decoded flag names and the raw flag word in hexadecimal.
pub open spec fn spec_event_render(e: EventModel) -> Seq<char> {
    "["@ + spec_u64_dec(e.id) + "] path: \""@ + e.path + "\"("@ + spec_i64_dec(
        match e.inode {
            Some(n) => n,
            None => -1i64,
        },
    ) + "), flags: "@ + spec_render(e.flag_bits) + " ("@ + spec_u32_hex(e.raw_flags) + ")"@
}

impl Event {
    /// Render the record as one line of text for diagnostics.
    pub fn render(&self) -> (r: String)
        ensures
            r@ == spec_event_render(self@),
    {
        render_event_line(&self.path, self.inode, self.flags, self.raw_flags, self.id)
    }
}

impl RawEvent {
    /// Render the record as one line of text for diagnostics.
    pub fn render(&self) -> (r: String)
        ensures
            r@ == spec_event_render(self@),
    {
        render_event_line(&self.path, self.inode, self.flags, self.raw_flags, self.id)
    }
}

/// Shared rendering of one record's fields.
fn render_event_line(
    path: &String,
    inode: Option<i64>,
    flags: crate::flags::StreamFlags,
    raw_flags: u32,
    id: u64,
) -> (r: String)
    ensures
        r@ == "["@ + spec_u64_dec(id) + "] path: \""@ + path@ + "\"("@ + spec_i64_dec(
            match inode {
                Some(n) => n,
                None => -1i64,
            },
        ) + "), flags: "@ + spec_render(flags.spec_bits()) + " ("@ + spec_u32_hex(raw_flags)
            + ")"@,
{
    broadcast use vstd::seq::Seq::add_empty_left;

    let mut s = String::from_str("[");
    s.append(u64_to_dec(id).as_str());
    s.append("] path: \"");
    s.append(path.as_str());
    s.append("\"(");
    let signed_inode: i64 = match inode {
        Some(n) => n,
        None => -1,
    };
    s.append(i64_to_dec(signed_inode).as_str());
    s.append("), flags: ");
    s.append(flags.render().as_str());
    s.append(" (");
    s.append(u32_to_hex(raw_flags).as_str());
    s.append(")");
    s
}

} // verus!
