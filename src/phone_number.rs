//! A parsed phone number together with the host value it was made from.
use vstd::prelude::*;

use crate::nilable::Nilable;
use crate::number_type::{symbol_name, NumberType};
use crate::outside::{
    kind_text, parse_parts, parsed_parts, parses, prefix_text, region_text, render_text,
    rendered, text_is_valid, text_kind, text_national_prefix, text_region, valid_text,
};
use crate::parts::{e164_text, rendered_shape, text_view, CodeSource, FormatMode, NumberParts, PartsView};

verus! {

/// The outcome of parsing a host value. `input_id` is the identity of the host
/// value; `inner` is the content of the number, `None` where the value was
/// absent or did not parse.
pub struct RubyPhoneNumber {
    pub input_id: u64,
    pub input: Nilable<String>,
    pub inner: Option<NumberParts>,
}

/// Whether a host value is text that parses without a region hint.
pub open spec fn input_parses(input: Nilable<String>) -> bool {
    match input {
        Nilable::Value(s) => parses(s@),
        Nilable::Nil => false,
    }
}

/// The text of a host value; empty where it is absent.
pub open spec fn input_text(input: Nilable<String>) -> Seq<char> {
    match input {
        Nilable::Value(s) => s@,
        Nilable::Nil => Seq::empty(),
    }
}

/// Whether a host value is text of a valid number.
pub open spec fn input_valid(input: Nilable<String>) -> bool {
    match input {
        Nilable::Value(s) => valid_text(s@),
        Nilable::Nil => false,
    }
}

/// What a query in `mode` answers for a host value.
pub open spec fn rendering(input: Nilable<String>, mode: FormatMode) -> Option<Seq<char>> {
    if input_parses(input) {
        Some(rendered(input_text(input), mode))
    } else {
        None
    }
}

/// Equality of two outcomes: the same host value, or two numbers with the
/// same content.
pub open spec fn same_phone_number(a: RubyPhoneNumber, b: RubyPhoneNumber) -> bool {
    a.input_id == b.input_id || (a.is_parsed() && b.is_parsed() && a.parts() == b.parts())
}

impl RubyPhoneNumber {
    pub open spec fn is_parsed(&self) -> bool {
        self.inner is Some
    }

    /// The content of a parsed number.
    pub open spec fn parts(&self) -> PartsView {
        self.inner->Some_0@
    }

    /// The number is present exactly when the host value is text that parses,
    /// and it is the content that text parses to.
    pub open spec fn wf(&self) -> bool {
        &&& self.is_parsed() == input_parses(self.input)
        &&& self.is_parsed() ==> self.inner->Some_0.wf() && self.parts() == parsed_parts(
            input_text(self.input),
        )
    }

    /// Parses a host value with no region hint. Absent values and text that
    /// does not parse give an outcome without a number, never an error.
    pub fn new(input_id: u64, input: Nilable<String>) -> (r: Self)
        ensures
            r.input_id == input_id,
            r.input == input,
            r.wf(),
    {
        let inner = match &input {
            Nilable::Value(s) => match parse_parts(s.as_str()) {
                Some((code, source, national, zeros, extension, carrier)) => Some(
                    NumberParts {
                        code,
                        source: CodeSource::from_outside(source),
                        national,
                        zeros,
                        extension,
                        carrier,
                    },
                ),
                None => None,
            },
            Nilable::Nil => None,
        };
        RubyPhoneNumber { input_id, input, inner }
    }

    /// Whether the number matches the exact pattern of its region; never true
    /// for an outcome without a number.
    pub fn is_valid(&self) -> (r: bool)
        ensures
            r == input_valid(self.input),
            r ==> input_parses(self.input),
    {
        match &self.input {
            Nilable::Value(s) => text_is_valid(s.as_str()),
            Nilable::Nil => false,
        }
    }

    fn render(&self, mode: FormatMode) -> (r: Option<String>)
        ensures
            text_view(r) == rendering(self.input, mode),
            r matches Some(s) ==> rendered_shape(mode, s@),
            mode == FormatMode::E164 ==> (r matches Some(s) ==> s@ == e164_text(
                parsed_parts(input_text(self.input)),
            )),
    {
        match &self.input {
            Nilable::Value(s) => render_text(s.as_str(), mode),
            Nilable::Nil => None,
        }
    }

    /// The E.164 form: `+`, the country code and the national number with its
    /// leading zeros. Present exactly when the text parses.
    pub fn e164(&self) -> (r: Option<String>)
        ensures
            text_view(r) == rendering(self.input, FormatMode::E164),
            self.wf() ==> (r is Some <==> self.is_parsed()),
            self.wf() && r is Some ==> r->Some_0@ == e164_text(self.parts()),
    {
        self.render(FormatMode::E164)
    }

    /// The country calling code.
    pub fn country_code(&self) -> (r: Option<u16>)
        ensures
            r == (if self.is_parsed() {
                Some(self.parts().code)
            } else {
                None
            }),
    {
        match &self.inner {
            Some(p) => Some(p.code),
            None => None,
        }
    }

    /// Equality: true for two outcomes of the same host value, parsed or not;
    /// otherwise both must hold a number, with the same content.
    pub fn is_equal(&self, other: &Self) -> (r: bool)
        ensures
            r == same_phone_number(*self, *other),
    {
        if self.input_id == other.input_id {
            true
        } else {
            match (&self.inner, &other.inner) {
                (Some(a), Some(b)) => a.same_number(b),
                _ => false,
            }
        }
    }

    /// The symbol of the number's category.
    pub fn as_symbol(&self) -> (r: Option<&'static str>)
        ensures
            r.is_some() == input_parses(self.input),
            r matches Some(s) ==> s@ == symbol_name(kind_text(input_text(self.input))),
    {
        match &self.input {
            Nilable::Value(s) => match text_kind(s.as_str()) {
                Some(kind) => Some(NumberType::from_outside(kind).symbol()),
                None => None,
            },
            Nilable::Nil => None,
        }
    }

    /// The national trunk prefix of the number's plan.
    pub fn area_code(&self) -> (r: Option<String>)
        ensures
            text_view(r) == (if self.input is Value {
                prefix_text(input_text(self.input))
            } else {
                None
            }),
            r is Some ==> input_parses(self.input),
    {
        match &self.input {
            Nilable::Value(s) => text_national_prefix(s.as_str()),
            Nilable::Nil => None,
        }
    }

    /// The identifier of the region the number resolves to.
    pub fn region_code(&self) -> (r: Option<String>)
        ensures
            text_view(r) == (if self.input is Value {
                region_text(input_text(self.input))
            } else {
                None
            }),
            r is Some ==> input_parses(self.input),
    {
        match &self.input {
            Nilable::Value(s) => text_region(s.as_str()),
            Nilable::Nil => None,
        }
    }

    /// The national form, with the plan's grouping and trunk prefix.
    pub fn national(&self) -> (r: Option<String>)
        ensures
            text_view(r) == rendering(self.input, FormatMode::National),
    {
        self.render(FormatMode::National)
    }

    /// The identifier of the region the number resolves to; the same as
    /// `region_code`.
    pub fn country(&self) -> (r: Option<String>)
        ensures
            text_view(r) == (if self.input is Value {
                region_text(input_text(self.input))
            } else {
                None
            }),
            r is Some ==> input_parses(self.input),
    {
        self.region_code()
    }

    /// The RFC 3966 form, a `tel:` URI.
    pub fn rfc3966(&self) -> (r: Option<String>)
        ensures
            text_view(r) == rendering(self.input, FormatMode::Rfc3966),
            r matches Some(s) ==> rendered_shape(FormatMode::Rfc3966, s@),
    {
        self.render(FormatMode::Rfc3966)
    }

    /// The international form: `+`, the code, and the plan's grouping.
    pub fn international(&self) -> (r: Option<String>)
        ensures
            text_view(r) == rendering(self.input, FormatMode::International),
            r matches Some(s) ==> rendered_shape(FormatMode::International, s@),
    {
        self.render(FormatMode::International)
    }
}

/// Two outcomes made from the same host value are equal, whether or not it
/// parsed; outcomes of different host values are equal only where both hold
/// a number and the two numbers have the same content.
pub proof fn lemma_equality(a: RubyPhoneNumber, b: RubyPhoneNumber)
    ensures
        a.input_id == b.input_id ==> same_phone_number(a, b),
        a.input_id != b.input_id ==> (same_phone_number(a, b) <==> (a.is_parsed()
            && b.is_parsed() && a.parts() == b.parts())),
{
}

/// Parsing is a function of the input: two outcomes made from the same host
/// text both hold no number, or hold numbers with the same content.
pub proof fn lemma_parse_deterministic(a: RubyPhoneNumber, b: RubyPhoneNumber)
    requires
        a.wf(),
        b.wf(),
        a.input == b.input,
    ensures
        a.is_parsed() == b.is_parsed(),
        a.is_parsed() ==> a.parts() == b.parts(),
{
}

} // verus!
