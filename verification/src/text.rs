//! Text that the launcher composes or measures: decimal numbers, line counts
//! and UTF-16 code units.

use vstd::prelude::*;
use vstd::utf8::encode_utf8;

verus! {

/// The character of one decimal digit.
pub open spec fn digit_char(digit: nat) -> char {
    if digit == 0 {
        '0'
    } else if digit == 1 {
        '1'
    } else if digit == 2 {
        '2'
    } else if digit == 3 {
        '3'
    } else if digit == 4 {
        '4'
    } else if digit == 5 {
        '5'
    } else if digit == 6 {
        '6'
    } else if digit == 7 {
        '7'
    } else if digit == 8 {
        '8'
    } else {
        '9'
    }
}

/// A number written in decimal, without leading zeros.
pub open spec fn decimal(number: nat) -> Seq<char>
    decreases number,
{
    if number < 10 {
        seq![digit_char(number)]
    } else {
        decimal(number / 10).push(digit_char(number % 10))
    }
}

fn digit_text(digit: u64) -> (text: &'static str)
    requires
        digit < 10,
    ensures
        text@ == seq![digit_char(digit as nat)],
{
    proof {
        reveal_strlit("0");
        reveal_strlit("1");
        reveal_strlit("2");
        reveal_strlit("3");
        reveal_strlit("4");
        reveal_strlit("5");
        reveal_strlit("6");
        reveal_strlit("7");
        reveal_strlit("8");
        reveal_strlit("9");
    }
    let text = if digit == 0 {
        "0"
    } else if digit == 1 {
        "1"
    } else if digit == 2 {
        "2"
    } else if digit == 3 {
        "3"
    } else if digit == 4 {
        "4"
    } else if digit == 5 {
        "5"
    } else if digit == 6 {
        "6"
    } else if digit == 7 {
        "7"
    } else if digit == 8 {
        "8"
    } else {
        "9"
    };
    assert(text@ =~= seq![digit_char(digit as nat)]);
    text
}

/// Writes a number in decimal.
pub fn decimal_text(number: u64) -> (text: String)
    ensures
        text@ == decimal(number as nat),
    decreases number,
{
    if number < 10 {
        String::from_str(digit_text(number))
    } else {
        let mut text = decimal_text(number / 10);
        text.append(digit_text(number % 10));
        assert(text@ =~= decimal(number as nat));
        text
    }
}

/// How many line breaks a text holds.
pub open spec fn breaks(text: Seq<char>) -> nat
    decreases text.len(),
{
    if text.len() == 0 {
        0
    } else if text.last() == '\n' {
        breaks(text.drop_last()) + 1
    } else {
        breaks(text.drop_last())
    }
}

/// How many lines a text holds. A line ends at a line break; what follows the
/// last break is a line where it is not empty.
pub open spec fn lines(text: Seq<char>) -> nat {
    if text.len() > 0 && text.last() != '\n' {
        breaks(text) + 1
    } else {
        breaks(text)
    }
}

/// A text has at most as many characters as its UTF-8 form has bytes.
pub proof fn chars_within_bytes(chars: Seq<char>)
    ensures
        chars.len() <= encode_utf8(chars).len(),
    decreases chars.len(),
{
    if chars.len() > 0 {
        chars_within_bytes(chars.drop_first());
    }
}

/// Counts the lines of a text.
pub fn line_count(text: &str) -> (count: usize)
    ensures
        count == lines(text@),
{
    let size = text.as_bytes().len();
    proof {
        chars_within_bytes(text@);
    }
    let mut count: usize = 0;
    let mut open_line = false;
    for c in it: text.chars()
        invariant
            it.seq() == text@,
            text@.len() <= size,
            count == breaks(text@.take(it.index())),
            count + (if open_line { 1int } else { 0int }) <= it.index(),
            open_line == (it.index() > 0 && text@[it.index() - 1] != '\n'),
    {
        proof {
            assert(text@.take(it.index() + 1).drop_last() =~= text@.take(it.index()));
        }
        if c == '\n' {
            count += 1;
            open_line = false;
        } else {
            open_line = true;
        }
    }
    proof {
        assert(text@.take(text@.len() as int) =~= text@);
    }
    if open_line {
        count += 1;
    }
    count
}


/// The UTF-16 code units of one character: the character itself where it
/// fits in one unit, else a high and a low surrogate.
pub open spec fn utf16_units(c: char) -> Seq<u16> {
    let scalar = c as u32;
    if scalar < 0x10000 {
        seq![scalar as u16]
    } else {
        seq![
            (0xD800 + (scalar - 0x10000) / 0x400) as u16,
            (0xDC00 + (scalar - 0x10000) % 0x400) as u16,
        ]
    }
}

/// The UTF-16 code units of a text.
pub open spec fn utf16(text: Seq<char>) -> Seq<u16>
    decreases text.len(),
{
    if text.len() == 0 {
        seq![]
    } else {
        utf16(text.drop_last()) + utf16_units(text.last())
    }
}

/// A text as the platform takes it: its UTF-16 code units, then a unit of
/// zero that ends it.
pub fn wide(text: &str) -> (units: Vec<u16>)
    ensures
        units@ == utf16(text@).push(0),
{
    let mut units: Vec<u16> = Vec::new();
    for c in it: text.chars()
        invariant
            it.seq() == text@,
            units@ == utf16(text@.take(it.index())),
    {
        proof {
            assert(text@.take(it.index() + 1).drop_last() =~= text@.take(it.index()));
        }
        let scalar: u32 = c as u32;
        if scalar < 0x10000 {
            units.push(scalar as u16);
        } else {
            let rest: u32 = scalar - 0x10000;
            units.push((0xD800 + rest / 0x400) as u16);
            units.push((0xDC00 + rest % 0x400) as u16);
        }
        proof {
            assert(units@ =~= utf16(text@.take(it.index() + 1)));
        }
    }
    proof {
        assert(text@.take(text@.len() as int) =~= text@);
    }
    units.push(0);
    units
}


/// Code units as bytes, the low byte of each unit before its high byte.
pub open spec fn unit_bytes(units: Seq<u16>) -> Seq<u8>
    decreases units.len(),
{
    if units.len() == 0 {
        seq![]
    } else {
        unit_bytes(units.drop_last()) + seq![
            (units.last() % 0x100) as u8,
            (units.last() / 0x100) as u8,
        ]
    }
}

/// Lays code units out as bytes, the low byte of each unit before its high
/// byte.
pub fn bytes_of_units(units: &Vec<u16>) -> (bytes: Vec<u8>)
    ensures
        bytes@ == unit_bytes(units@),
{
    let mut bytes: Vec<u8> = Vec::new();
    let mut at: usize = 0;
    while at < units.len()
        invariant
            at <= units.len(),
            bytes@ == unit_bytes(units@.take(at as int)),
        decreases units.len() - at,
    {
        proof {
            assert(units@.take(at + 1).drop_last() =~= units@.take(at as int));
        }
        let unit: u16 = units[at];
        bytes.push((unit % 0x100) as u8);
        bytes.push((unit / 0x100) as u8);
        at += 1;
        proof {
            assert(bytes@ =~= unit_bytes(units@.take(at as int)));
        }
    }
    proof {
        assert(units@.take(at as int) =~= units@);
    }
    bytes
}

/// What `str::to_lowercase` gives for a text: its lowercase form, by the
/// rules of Unicode.
pub uninterp spec fn lowercase(text: Seq<char>) -> Seq<char>;

/// `str::to_lowercase` gives the lowercase form of a text, which depends on
/// the text alone.
pub assume_specification[ str::to_lowercase ](text: &str) -> (lowered: String)
    ensures
        lowered@ == lowercase(text@),
;

/// Whether a character is whitespace in Unicode's sense: it has the
/// property White_Space.
pub open spec fn is_space(c: char) -> bool {
    let scalar = c as u32;
    ||| 0x0009 <= scalar <= 0x000D
    ||| scalar == 0x0020
    ||| scalar == 0x0085
    ||| scalar == 0x00A0
    ||| scalar == 0x1680
    ||| 0x2000 <= scalar <= 0x200A
    ||| scalar == 0x2028
    ||| scalar == 0x2029
    ||| scalar == 0x202F
    ||| scalar == 0x205F
    ||| scalar == 0x3000
}

/// Whether a text is empty or holds whitespace only.
pub open spec fn blank(text: Seq<char>) -> bool {
    forall|at: int| 0 <= at < text.len() ==> is_space(#[trigger] text[at])
}

/// Whether a character is whitespace in Unicode's sense.
pub fn space(c: char) -> (white: bool)
    ensures
        white == is_space(c),
{
    let scalar: u32 = c as u32;
    (0x0009 <= scalar && scalar <= 0x000D) || scalar == 0x0020 || scalar == 0x0085 || scalar
        == 0x00A0 || scalar == 0x1680 || (0x2000 <= scalar && scalar <= 0x200A) || scalar == 0x2028
        || scalar == 0x2029 || scalar == 0x202F || scalar == 0x205F || scalar == 0x3000
}

/// Whether a text is empty or holds whitespace only.
pub fn is_blank(text: &str) -> (none: bool)
    ensures
        none == blank(text@),
{
    for c in it: text.chars()
        invariant
            it.seq() == text@,
            forall|at: int| 0 <= at < it.index() ==> is_space(#[trigger] text@[at]),
    {
        if !space(c) {
            return false;
        }
    }
    true
}

/// Whether the part occurs in the text at the given place.
pub open spec fn occurs_at(text: Seq<char>, part: Seq<char>, start: int) -> bool {
    &&& 0 <= start
    &&& start + part.len() <= text.len()
    &&& text.subrange(start, start + part.len()) == part
}

/// Whether the part occurs somewhere in the text. The empty part occurs in
/// every text.
pub open spec fn occurs_in(text: Seq<char>, part: Seq<char>) -> bool {
    exists|start: int| occurs_at(text, part, start)
}

/// The characters of a text.
pub fn chars_of(text: &str) -> (chars: Vec<char>)
    ensures
        chars@ == text@,
{
    let mut chars: Vec<char> = Vec::new();
    for c in it: text.chars()
        invariant
            it.seq() == text@,
            chars@ == text@.take(it.index()),
    {
        chars.push(c);
        proof {
            assert(chars@ =~= text@.take(it.index() + 1));
        }
    }
    proof {
        assert(text@.take(text@.len() as int) =~= text@);
    }
    chars
}

/// Whether the part stands in the text at the given place.
fn stands_at(text: &Vec<char>, part: &Vec<char>, start: usize) -> (found: bool)
    requires
        start + part@.len() <= text@.len(),
    ensures
        found == occurs_at(text@, part@, start as int),
{
    let size: usize = text.len();
    let mut at: usize = 0;
    while at < part.len()
        invariant
            at <= part@.len(),
            start + part@.len() <= text@.len() == size,
            forall|before: int| 0 <= before < at ==> text@[start + before] == part@[before],
        decreases part@.len() - at,
    {
        if text[start + at] != part[at] {
            proof {
                assert(text@.subrange(start as int, start + part@.len())[at as int]
                    != part@[at as int]);
            }
            return false;
        }
        at += 1;
    }
    proof {
        assert(text@.subrange(start as int, start + part@.len()) =~= part@);
    }
    true
}

/// Whether the part occurs somewhere in the text.
pub fn occurs(text: &str, part: &str) -> (found: bool)
    ensures
        found == occurs_in(text@, part@),
{
    let whole = chars_of(text);
    let sought = chars_of(part);
    if sought.len() > whole.len() {
        return false;
    }
    let last: usize = whole.len() - sought.len();
    let mut start: usize = 0;
    loop
        invariant
            whole@ == text@,
            sought@ == part@,
            last == whole@.len() - sought@.len(),
            start <= last,
            forall|before: int| 0 <= before < start ==> !occurs_at(text@, part@, before),
        decreases last - start,
    {
        if stands_at(&whole, &sought, start) {
            return true;
        }
        if start == last {
            return false;
        }
        start += 1;
    }
}

} // verus!
