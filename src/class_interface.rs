//! The module-level queries a host calls on plain text.
use vstd::prelude::*;

use crate::nilable::Nilable;
use crate::parts::text_view;
use crate::outside::{
    hinted_is_valid, hinted_region, hinted_region_of, hinted_valid, known_region,
    parses_in_region, region_known, text_is_valid, text_is_viable, viable,
};
use crate::phone_number::{input_valid, RubyPhoneNumber};

verus! {

/// The entry points a host exposes as module functions.
pub struct ClassInterface;

/// A region identifier that no numbering plan knows: a caller's mistake,
/// reported rather than answered with `false`.
pub struct UnknownRegion {
    pub region: String,
}

/// Whether a host value is text of a phone number's length and shape.
pub open spec fn possible(input: Nilable<String>) -> bool {
    match input {
        Nilable::Value(s) => viable(s@),
        Nilable::Nil => false,
    }
}

/// The answer for a region check, given the region that parsing with that
/// region as hint resolved to (`None` where it did not parse, or resolved to
/// no region).
pub open spec fn region_verdict(requested: Seq<char>, found: Option<Seq<char>>) -> bool {
    match found {
        Some(f) => f == requested,
        None => false,
    }
}

/// Whether the region check reports an unknown region for these values.
pub open spec fn region_rejected(input: Nilable<String>, region: Nilable<String>) -> bool {
    match (input, region) {
        (Nilable::Value(_), Nilable::Value(c)) => !known_region(c@),
        _ => false,
    }
}

/// Whether both values are text, and the first parses with the second as
/// region hint.
pub open spec fn region_parses(input: Nilable<String>, region: Nilable<String>) -> bool {
    match (input, region) {
        (Nilable::Value(s), Nilable::Value(c)) => parses_in_region(c@, s@),
        _ => false,
    }
}

/// The answer of the region check on two texts of which the region is known:
/// the text, parsed with that region as hint, is a valid number that resolves
/// to that region.
pub open spec fn region_answer(text: Seq<char>, region: Seq<char>) -> bool {
    region_verdict(region, hinted_region(region, text)) && hinted_valid(region, text)
}

/// The region check's answer where it is no error: `false` for absent values.
pub open spec fn region_check(input: Nilable<String>, region: Nilable<String>) -> bool {
    match (input, region) {
        (Nilable::Value(s), Nilable::Value(c)) => region_answer(s@, c@),
        _ => false,
    }
}

/// The region check's answer for the region that parsing found.
pub fn region_matches(requested: &String, found: Option<String>) -> (r: bool)
    ensures
        r == region_verdict(requested@, text_view(found)),
{
    match found {
        Some(f) => f == *requested,
        None => false,
    }
}

impl ClassInterface {
    /// Parses a host value with no region hint.
    pub fn parse(input_id: u64, input: Nilable<String>) -> (r: RubyPhoneNumber)
        ensures
            r.input_id == input_id,
            r.input == input,
            r.wf(),
    {
        RubyPhoneNumber::new(input_id, input)
    }

    /// Whether the text parses with no region hint and matches the exact
    /// pattern of its region. Absent values are not valid.
    pub fn is_valid(rstring: Nilable<String>) -> (r: bool)
        ensures
            r == input_valid(rstring),
    {
        match rstring {
            Nilable::Value(s) => text_is_valid(s.as_str()),
            Nilable::Nil => false,
        }
    }

    /// Whether the text has a phone number's length and shape. Absent values
    /// are not possible.
    pub fn is_possible(rstring: Nilable<String>) -> (r: bool)
        ensures
            r == possible(rstring),
    {
        match rstring {
            Nilable::Value(s) => text_is_viable(s.as_str()),
            Nilable::Nil => false,
        }
    }

    /// The negation of `is_possible`.
    pub fn is_impossible(rstring: Nilable<String>) -> (r: bool)
        ensures
            r == !possible(rstring),
    {
        !Self::is_possible(rstring)
    }

    /// Whether the text, parsed with the region as hint, is a valid number
    /// of that region. Absent values give `false`; a region that no plan
    /// knows is an error; for a known region the answer is never an error,
    /// and text that does not parse under it gives `false`.
    pub fn is_valid_for_country(rstring: Nilable<String>, country_code_rstring: Nilable<String>) -> (r:
        Result<bool, UnknownRegion>)
        ensures
            r is Err <==> region_rejected(rstring, country_code_rstring),
            r matches Err(e) ==> country_code_rstring == Nilable::Value(e.region),
            (rstring is Nil || country_code_rstring is Nil) ==> r == Ok::<bool, UnknownRegion>(false),
            !region_rejected(rstring, country_code_rstring) ==> r == Ok::<bool, UnknownRegion>(
                region_check(rstring, country_code_rstring),
            ),
            r matches Ok(true) ==> region_parses(rstring, country_code_rstring),
            (!region_rejected(rstring, country_code_rstring) && !region_parses(
                rstring,
                country_code_rstring,
            )) ==> r == Ok::<bool, UnknownRegion>(false),
    {
        let s = match rstring {
            Nilable::Value(s) => s,
            Nilable::Nil => return Ok(false),
        };
        let code = match country_code_rstring {
            Nilable::Value(c) => c,
            Nilable::Nil => return Ok(false),
        };
        if !region_known(code.as_str()) {
            return Err(UnknownRegion { region: code });
        }
        let found = hinted_region_of(code.as_str(), s.as_str());
        let matches = region_matches(&code, found);
        Ok(matches && hinted_is_valid(code.as_str(), s.as_str()))
    }

    /// The negation of `is_valid_for_country`, with the same errors.
    pub fn is_invalid_for_country(
        rstring: Nilable<String>,
        country_code_rstring: Nilable<String>,
    ) -> (r: Result<bool, UnknownRegion>)
        ensures
            r is Err <==> region_rejected(rstring, country_code_rstring),
            r matches Err(e) ==> country_code_rstring == Nilable::Value(e.region),
            (rstring is Nil || country_code_rstring is Nil) ==> r == Ok::<bool, UnknownRegion>(true),
            !region_rejected(rstring, country_code_rstring) ==> r == Ok::<bool, UnknownRegion>(
                !region_check(rstring, country_code_rstring),
            ),
            (!region_rejected(rstring, country_code_rstring) && !region_parses(
                rstring,
                country_code_rstring,
            )) ==> r == Ok::<bool, UnknownRegion>(true),
    {
        match Self::is_valid_for_country(rstring, country_code_rstring) {
            Ok(b) => Ok(!b),
            Err(e) => Err(e),
        }
    }
}

} // verus!
