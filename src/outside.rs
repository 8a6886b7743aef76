//! What this library takes on trust from the `phonenumber` crate. Every query
//! on a number parses the text again, so that each answer is named as a
//! function of the text (and of the region hint, where one is given); the
//! built-in numbering-plan database is fixed.
use std::fmt::Write;
use std::str::FromStr;
use vstd::prelude::*;

use crate::number_type::{type_from_outside, NumberType};
use crate::parts::{
    e164_text, rendered_shape, source_from_outside, text_view, FormatMode, PartsView,
    NATIONAL_LIMIT,
};

verus! {

#[verifier::external_type_specification]
#[verifier::external_body]
pub struct ExDatabase(phonenumber::metadata::Database);

#[verifier::external_type_specification]
pub struct ExNumberKind(phonenumber::Type);

#[verifier::external_type_specification]
pub struct ExCodeSource(phonenumber::country::Source);

/// Whether the numbering-plan parser accepts a text without a region hint.
pub uninterp spec fn parses(text: Seq<char>) -> bool;

/// The content of the number that a text parses to, without a region hint.
pub uninterp spec fn parsed_parts(text: Seq<char>) -> PartsView;

/// Whether the number a text parses to matches its region's exact pattern.
pub uninterp spec fn valid_text(text: Seq<char>) -> bool;

/// The category of the number a text parses to.
pub uninterp spec fn kind_text(text: Seq<char>) -> NumberType;

/// The region the number a text parses to resolves to, if any.
pub uninterp spec fn region_text(text: Seq<char>) -> Option<Seq<char>>;

/// The national trunk prefix of the plan the parsed number resolves to.
pub uninterp spec fn prefix_text(text: Seq<char>) -> Option<Seq<char>>;

/// The rendering, in a mode, of the number a text parses to.
pub uninterp spec fn rendered(text: Seq<char>, mode: FormatMode) -> Seq<char>;

/// Whether a text has the length and shape of a phone number.
pub uninterp spec fn viable(text: Seq<char>) -> bool;

/// Whether a text names a region that the numbering-plan crate knows.
pub uninterp spec fn known_region(code: Seq<char>) -> bool;

/// Whether the numbering-plan parser accepts a text with a region as hint.
pub uninterp spec fn parses_in_region(region: Seq<char>, text: Seq<char>) -> bool;

/// The region that a text parsed with a region hint resolves to, if any.
pub uninterp spec fn hinted_region(region: Seq<char>, text: Seq<char>) -> Option<Seq<char>>;

/// Whether a text parsed with a region hint is a valid number.
pub uninterp spec fn hinted_valid(region: Seq<char>, text: Seq<char>) -> bool;

/// Relies on `PhoneNumber::from_str` (a parse with no region hint) and on the
/// number's getters `code`, `national`, `extension` and `carrier`. The value
/// of a national number is kept in 56 bits.
#[verifier::external_body]
pub(crate) fn parse_parts(text: &str) -> (r: Option<
    (u16, phonenumber::country::Source, u64, u8, Option<String>, Option<String>),
>)
    ensures
        r.is_some() == parses(text@),
        r matches Some(t) ==> t.2 < NATIONAL_LIMIT && (PartsView {
            code: t.0,
            source: source_from_outside(t.1),
            national: t.2,
            zeros: t.3,
            extension: text_view(t.4),
            carrier: text_view(t.5),
        }) == parsed_parts(text@),
{
    let p = phonenumber::PhoneNumber::from_str(text).ok()?;
    let (code, national) = (p.code(), p.national());
    let extension = p.extension().map(|e| e.to_string());
    let carrier = p.carrier().map(|c| c.to_string());
    Some((code.value(), code.source(), national.value(), national.zeros(), extension, carrier))
}

/// Relies on `PhoneNumber::from_str` and `phonenumber::is_valid`; text that
/// does not parse is not valid.
#[verifier::external_body]
pub(crate) fn text_is_valid(text: &str) -> (r: bool)
    ensures
        r == valid_text(text@),
        r ==> parses(text@),
{
    phonenumber::PhoneNumber::from_str(text).map(|p| phonenumber::is_valid(&p)).unwrap_or(false)
}

/// Relies on `PhoneNumber::from_str` and `PhoneNumber::number_type` against
/// the built-in database.
#[verifier::external_body]
pub(crate) fn text_kind(text: &str) -> (r: Option<phonenumber::Type>)
    ensures
        r.is_some() == parses(text@),
        r matches Some(t) ==> type_from_outside(t) == kind_text(text@),
{
    let p = phonenumber::PhoneNumber::from_str(text).ok()?;
    Some(p.number_type(&phonenumber::metadata::DATABASE))
}

/// Relies on `PhoneNumber::from_str`, `Country::id` and `country::Id::as_ref`,
/// which gives the name that `country::Id::from_str` accepts.
#[verifier::external_body]
pub(crate) fn text_region(text: &str) -> (r: Option<String>)
    ensures
        text_view(r) == region_text(text@),
        r is Some ==> parses(text@),
        r matches Some(s) ==> known_region(s@),
{
    let p = phonenumber::PhoneNumber::from_str(text).ok()?;
    p.country().id().map(|id| id.as_ref().to_string())
}

/// Relies on `PhoneNumber::from_str`, `PhoneNumber::metadata` and
/// `Metadata::national_prefix`.
#[verifier::external_body]
pub(crate) fn text_national_prefix(text: &str) -> (r: Option<String>)
    ensures
        text_view(r) == prefix_text(text@),
        r is Some ==> parses(text@),
{
    let p = phonenumber::PhoneNumber::from_str(text).ok()?;
    p.metadata(&phonenumber::metadata::DATABASE)?.national_prefix().map(|s| s.to_string())
}

/// Relies on `PhoneNumber::from_str` and the `Display` of
/// `phonenumber::Formatter` in the given mode. A parsed number always renders:
/// the parser takes only country codes that the database has, and the
/// formatter fails only for others. E.164 form is `+`, the code and the
/// national number with its leading zeros; international form begins with
/// `+`, RFC 3966 form with `tel:+`.
#[verifier::external_body]
pub(crate) fn render_text(text: &str, mode: FormatMode) -> (r: Option<String>)
    ensures
        r.is_some() == parses(text@),
        r matches Some(s) ==> s@ == rendered(text@, mode) && rendered_shape(mode, s@) && (mode
            == FormatMode::E164 ==> s@ == e164_text(parsed_parts(text@))),
{
    let m = match mode {
        FormatMode::E164 => phonenumber::Mode::E164,
        FormatMode::International => phonenumber::Mode::International,
        FormatMode::National => phonenumber::Mode::National,
        FormatMode::Rfc3966 => phonenumber::Mode::Rfc3966,
    };
    let p = phonenumber::PhoneNumber::from_str(text).ok()?;
    let mut s = String::new();
    write!(s, "{}", p.format().mode(m)).ok()?;
    Some(s)
}

/// Relies on `phonenumber::is_viable`: a length and shape check on the text.
#[verifier::external_body]
pub(crate) fn text_is_viable(text: &str) -> (r: bool)
    ensures
        r == viable(text@),
{
    phonenumber::is_viable(text)
}

/// Relies on `country::Id::from_str`, which accepts exactly the names of the
/// region identifiers.
#[verifier::external_body]
pub(crate) fn region_known(code: &str) -> (r: bool)
    ensures
        r == known_region(code@),
{
    phonenumber::country::Id::from_str(code).is_ok()
}

/// Relies on `phonenumber::parse` with the region as hint (its identifier read
/// by `country::Id::from_str`), then `Country::id` and `country::Id::as_ref`.
#[verifier::external_body]
pub(crate) fn hinted_region_of(region: &str, text: &str) -> (r: Option<String>)
    requires
        known_region(region@),
    ensures
        text_view(r) == hinted_region(region@, text@),
        r is Some ==> parses_in_region(region@, text@),
{
    let id = phonenumber::country::Id::from_str(region).ok()?;
    let p = phonenumber::parse(Some(id), text).ok()?;
    p.country().id().map(|found| found.as_ref().to_string())
}

/// Relies on `phonenumber::parse` with the region as hint, then
/// `phonenumber::is_valid`; text that does not parse is not valid.
#[verifier::external_body]
pub(crate) fn hinted_is_valid(region: &str, text: &str) -> (r: bool)
    requires
        known_region(region@),
    ensures
        r == hinted_valid(region@, text@),
        r ==> parses_in_region(region@, text@),
{
    match phonenumber::country::Id::from_str(region) {
        Ok(id) => phonenumber::parse(Some(id), text).map(|p| phonenumber::is_valid(&p)).unwrap_or(false),
        Err(_) => false,
    }
}

} // verus!
