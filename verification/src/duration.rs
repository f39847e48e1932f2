//! Duration shorthands such as `5m` or `2w`: a count followed by a one-letter unit.
use vstd::prelude::*;
use crate::text::{
    all_digits, decimal, digits_value, is_digit, lemma_decimal, lemma_decimal_of_value, parse_u32,
    parse_u32_range, push_char, u32_to_decimal,
};

verus! {

/// The unit of a duration shorthand.
#[derive(Clone, Copy, Debug, PartialEq, Eq, Structural)]
pub enum DurationShorthandType {
    Minute,
    Hour,
    Day,
    Week,
    Month,
    Quarter,
    Year,
}

/// A duration given as a count of units, written `<count><unit>`.
#[derive(Clone, Copy, Debug, PartialEq, Eq, Structural)]
pub struct DurationShorthand {
    pub time: u32,
    pub unit: DurationShorthandType,
}

/// The letter that stands for a unit.
pub open spec fn unit_letter(t: DurationShorthandType) -> char {
    match t {
        DurationShorthandType::Minute => 'm',
        DurationShorthandType::Hour => 'h',
        DurationShorthandType::Day => 'd',
        DurationShorthandType::Week => 'w',
        DurationShorthandType::Month => 'M',
        DurationShorthandType::Quarter => 'Q',
        DurationShorthandType::Year => 'Y',
    }
}

/// The unit a letter stands for, if any.
pub open spec fn unit_of_letter(c: char) -> Option<DurationShorthandType> {
    if c == 'm' { Some(DurationShorthandType::Minute) }
    else if c == 'h' { Some(DurationShorthandType::Hour) }
    else if c == 'd' { Some(DurationShorthandType::Day) }
    else if c == 'w' { Some(DurationShorthandType::Week) }
    else if c == 'M' { Some(DurationShorthandType::Month) }
    else if c == 'Q' { Some(DurationShorthandType::Quarter) }
    else if c == 'Y' { Some(DurationShorthandType::Year) }
    else { None }
}

/// The text of a shorthand: the count in decimal, then the unit letter.
pub open spec fn shorthand_text(d: DurationShorthand) -> Seq<char> {
    decimal(d.time as nat).push(unit_letter(d.unit))
}

/// The shorthand that a text denotes: its last character is the unit letter and the
/// characters before it are the count, read as `u32`'s `FromStr` reads a number.
pub open spec fn shorthand_of_text(s: Seq<char>) -> Option<DurationShorthand> {
    if s.len() == 0 {
        None
    } else {
        match (parse_u32(s.drop_last()), unit_of_letter(s.last())) {
            (Some(time), Some(t)) => Some(DurationShorthand { time, unit: t }),
            _ => None,
        }
    }
}

/// The pattern that the resource schema publishes for shorthands.
pub const SHORTHAND_PATTERN: &'static str = "^[1-9][0-9]*[mhdwMQY]$";

/// The format that the resource schema publishes for shorthands:
/// `^[1-9][0-9]*[mhdwMQY]$`.
pub open spec fn matches_schema_pattern(s: Seq<char>) -> bool {
    &&& s.len() >= 2
    &&& is_digit(s[0]) && s[0] != '0'
    &&& all_digits(s.drop_last())
    &&& unit_of_letter(s.last()) is Some
}

/// The letter for each unit and back again.
pub proof fn lemma_unit_letter(t: DurationShorthandType)
    ensures
        unit_of_letter(unit_letter(t)) == Some(t),
{
}

impl DurationShorthandType {
    /// The letter that stands for this unit.
    pub fn letter(&self) -> (c: char)
        ensures
            c == unit_letter(*self),
    {
        match self {
            DurationShorthandType::Minute => 'm',
            DurationShorthandType::Hour => 'h',
            DurationShorthandType::Day => 'd',
            DurationShorthandType::Week => 'w',
            DurationShorthandType::Month => 'M',
            DurationShorthandType::Quarter => 'Q',
            DurationShorthandType::Year => 'Y',
        }
    }

    /// The unit that `c` stands for, or `None` when `c` is no unit letter.
    pub fn from_letter(c: char) -> (t: Option<DurationShorthandType>)
        ensures
            t == unit_of_letter(c),
    {
        match c {
            'm' => Some(DurationShorthandType::Minute),
            'h' => Some(DurationShorthandType::Hour),
            'd' => Some(DurationShorthandType::Day),
            'w' => Some(DurationShorthandType::Week),
            'M' => Some(DurationShorthandType::Month),
            'Q' => Some(DurationShorthandType::Quarter),
            'Y' => Some(DurationShorthandType::Year),
            _ => None,
        }
    }
}

impl DurationShorthand {
    /// Writes the shorthand as text, e.g. `15m`.
    pub fn to_shorthand(&self) -> (s: String)
        ensures
            s@ == shorthand_text(*self),
    {
        let mut s = u32_to_decimal(self.time);
        push_char(&mut s, self.unit.letter());
        s
    }

    /// Reads a shorthand from text, or `None` where the text is none.
    fn read_text(s: &str) -> (d: Option<DurationShorthand>)
        ensures
            d == shorthand_of_text(s@),
    {
        let n = s.unicode_len();
        if n == 0 {
            return None;
        }
        let unit = DurationShorthandType::from_letter(s.get_char(n - 1));
        let time = parse_u32_range(s, 0, n - 1);
        assert(s@.subrange(0, n - 1) =~= s@.drop_last());
        match (time, unit) {
            (Some(time), Some(t)) => Some(DurationShorthand { time, unit: t }),
            _ => None,
        }
    }

    /// Whether `s` is a shorthand that `from_str` accepts: its last character is a
    /// unit letter and the characters before it are a count that `u32` accepts.
    pub fn is_shorthand(s: &str) -> (b: bool)
        ensures
            b == (shorthand_of_text(s@) is Some),
    {
        Self::read_text(s).is_some()
    }

    /// Reads a shorthand from text: the unit is the last character and the count is
    /// the text before it, read as `u32`'s `FromStr` reads a number. Only shorthand
    /// texts are accepted (see `is_shorthand`).
    pub fn from_str(s: &str) -> (d: DurationShorthand)
        requires
            shorthand_of_text(s@) is Some,
        ensures
            Some(d) == shorthand_of_text(s@),
    {
        Self::read_text(s).unwrap()
    }
}

/// Reading the text that a shorthand writes gives the same shorthand back.
pub proof fn lemma_text_round_trip(d: DurationShorthand)
    ensures
        shorthand_of_text(shorthand_text(d)) == Some(d),
{
    let s = shorthand_text(d);
    lemma_decimal(d.time as nat);
    lemma_unit_letter(d.unit);
    assert(s.drop_last() =~= decimal(d.time as nat));
    assert(s.last() == unit_letter(d.unit));
}

/// Every text in the schema's format whose count fits a `u32` is read to a shorthand,
/// and writing that shorthand gives the same text back.
pub proof fn lemma_schema_text_round_trip(s: Seq<char>)
    requires
        matches_schema_pattern(s),
        digits_value(s.drop_last()) <= u32::MAX,
    ensures
        shorthand_of_text(s) is Some,
        shorthand_text(shorthand_of_text(s)->0) == s,
{
    let p = s.drop_last();
    assert(p[0] == s[0]);
    assert(p[0] != '+');
    lemma_decimal_of_value(p);
    let d = shorthand_of_text(s)->0;
    assert(d.time == digits_value(p));
    assert(unit_letter(d.unit) == s.last());
    assert(shorthand_text(d) =~= p.push(s.last()));
    assert(p.push(s.last()) =~= s);
}

/// Every shorthand is written in the schema's format.
pub proof fn lemma_text_matches_schema(d: DurationShorthand)
    requires
        d.time > 0,
    ensures
        matches_schema_pattern(shorthand_text(d)),
{
    let s = shorthand_text(d);
    lemma_decimal(d.time as nat);
    lemma_unit_letter(d.unit);
    assert(s.drop_last() =~= decimal(d.time as nat));
    assert(s[0] == decimal(d.time as nat)[0]);
}

} // verus!
