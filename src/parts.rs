//! The plain values that make up a parsed number.
use vstd::prelude::*;

verus! {

/// How the country calling code of a number was found.
#[derive(Debug, Clone, Copy, PartialEq, Eq, Structural, Hash)]
pub enum CodeSource {
    /// Read after a leading `+`.
    Plus,
    /// Read after an international dialling prefix.
    Idd,
    /// Read from the digits, without a leading marker.
    Number,
    /// Taken from the region hint.
    Default,
}

pub open spec fn source_from_outside(s: phonenumber::country::Source) -> CodeSource {
    match s {
        phonenumber::country::Source::Plus => CodeSource::Plus,
        phonenumber::country::Source::Idd => CodeSource::Idd,
        phonenumber::country::Source::Number => CodeSource::Number,
        phonenumber::country::Source::Default => CodeSource::Default,
    }
}

impl CodeSource {
    pub fn from_outside(s: phonenumber::country::Source) -> (r: CodeSource)
        ensures
            r == source_from_outside(s),
    {
        match s {
            phonenumber::country::Source::Plus => CodeSource::Plus,
            phonenumber::country::Source::Idd => CodeSource::Idd,
            phonenumber::country::Source::Number => CodeSource::Number,
            phonenumber::country::Source::Default => CodeSource::Default,
        }
    }
}

/// The four textual renderings of a number.
#[derive(Debug, Clone, Copy, PartialEq, Eq, Structural, Hash)]
pub enum FormatMode {
    E164,
    International,
    National,
    Rfc3966,
}

/// What every rendering in a mode begins with: `+` in E.164 and international
/// form, `tel:+` in RFC 3966 form.
pub open spec fn rendered_shape(mode: FormatMode, s: Seq<char>) -> bool {
    match mode {
        FormatMode::E164 | FormatMode::International => s.len() > 0 && s[0] == '+',
        FormatMode::Rfc3966 => s.len() >= 5 && s.take(5) == "tel:+"@,
        FormatMode::National => true,
    }
}

/// The character of a decimal digit.
pub open spec fn digit_char(d: nat) -> char {
    seq!['0', '1', '2', '3', '4', '5', '6', '7', '8', '9'][d as int]
}

/// The decimal digits of a number, with no leading zeros.
pub open spec fn decimal(n: nat) -> Seq<char>
    decreases n,
{
    if n < 10 {
        seq![digit_char(n)]
    } else {
        decimal(n / 10).push(digit_char(n % 10))
    }
}

/// The E.164 text of a number: `+`, the country code, then the national
/// number with its leading zeros, with no separators.
pub open spec fn e164_text(p: PartsView) -> Seq<char> {
    seq!['+'] + decimal(p.code as nat) + Seq::new(p.zeros as nat, |i: int| '0') + decimal(
        p.national as nat,
    )
}

/// Largest national number value, plus one: the value is kept in 56 bits.
pub const NATIONAL_LIMIT: u64 = 0x100_0000_0000_0000;

/// The structured content of a parsed number. The national number is kept as
/// its value and its count of leading zeros, which the value alone would lose.
#[derive(Debug, Clone)]
pub struct NumberParts {
    pub code: u16,
    pub source: CodeSource,
    pub national: u64,
    pub zeros: u8,
    pub extension: Option<String>,
    pub carrier: Option<String>,
}

/// What a `NumberParts` holds, as mathematical values.
pub struct PartsView {
    pub code: u16,
    pub source: CodeSource,
    pub national: u64,
    pub zeros: u8,
    pub extension: Option<Seq<char>>,
    pub carrier: Option<Seq<char>>,
}

pub open spec fn text_view(o: Option<String>) -> Option<Seq<char>> {
    match o {
        Some(s) => Some(s@),
        None => None,
    }
}

impl View for NumberParts {
    type V = PartsView;

    open spec fn view(&self) -> PartsView {
        PartsView {
            code: self.code,
            source: self.source,
            national: self.national,
            zeros: self.zeros,
            extension: text_view(self.extension),
            carrier: text_view(self.carrier),
        }
    }
}

/// Whether two optional texts hold the same characters.
fn same_text(a: &Option<String>, b: &Option<String>) -> (r: bool)
    ensures
        r == (text_view(*a) == text_view(*b)),
{
    match (a, b) {
        (Some(x), Some(y)) => *x == *y,
        (None, None) => true,
        _ => false,
    }
}

impl NumberParts {
    pub open spec fn wf(&self) -> bool {
        self.national < NATIONAL_LIMIT
    }

    /// Two numbers are the same number when all their parts agree.
    pub fn same_number(&self, other: &NumberParts) -> (r: bool)
        ensures
            r == (self@ == other@),
    {
        self.code == other.code && self.source == other.source && self.national == other.national
            && self.zeros == other.zeros && same_text(&self.extension, &other.extension)
            && same_text(&self.carrier, &other.carrier)
    }
}

} // verus!
