use vstd::prelude::*;

verus! {

/// The closed set of categories a number can be classified into.
#[derive(Debug, Clone, Copy, PartialEq, Eq, Structural, Hash)]
pub enum NumberType {
    FixedLine,
    Mobile,
    FixedLineOrMobile,
    TollFree,
    PremiumRate,
    SharedCost,
    Voip,
    PersonalNumber,
    Pager,
    Uan,
    Voicemail,
    Unknown,
    Emergency,
    ShortCode,
    StandardRate,
    Carrier,
    NoInternational,
}

/// The host symbol that names each category.
pub open spec fn symbol_name(t: NumberType) -> Seq<char> {
    match t {
        NumberType::FixedLine => "fixed_line"@,
        NumberType::Mobile => "mobile"@,
        NumberType::FixedLineOrMobile => "fixed_line_or_mobile"@,
        NumberType::TollFree => "toll_free"@,
        NumberType::PremiumRate => "premium_rate"@,
        NumberType::SharedCost => "shared_cost"@,
        NumberType::Voip => "voip"@,
        NumberType::PersonalNumber => "personal_number"@,
        NumberType::Pager => "pager"@,
        NumberType::Uan => "uan"@,
        NumberType::Voicemail => "voicemail"@,
        NumberType::Unknown => "unknown"@,
        NumberType::Emergency => "emergency"@,
        NumberType::ShortCode => "short_code"@,
        NumberType::StandardRate => "standard_rate"@,
        NumberType::Carrier => "carrier"@,
        NumberType::NoInternational => "no_international"@,
    }
}

/// The category that stands for each classification of the numbering-plan crate.
pub open spec fn type_from_outside(t: phonenumber::Type) -> NumberType {
    match t {
        phonenumber::Type::FixedLine => NumberType::FixedLine,
        phonenumber::Type::Mobile => NumberType::Mobile,
        phonenumber::Type::FixedLineOrMobile => NumberType::FixedLineOrMobile,
        phonenumber::Type::TollFree => NumberType::TollFree,
        phonenumber::Type::PremiumRate => NumberType::PremiumRate,
        phonenumber::Type::SharedCost => NumberType::SharedCost,
        phonenumber::Type::Voip => NumberType::Voip,
        phonenumber::Type::PersonalNumber => NumberType::PersonalNumber,
        phonenumber::Type::Pager => NumberType::Pager,
        phonenumber::Type::Uan => NumberType::Uan,
        phonenumber::Type::Voicemail => NumberType::Voicemail,
        phonenumber::Type::Unknown => NumberType::Unknown,
        phonenumber::Type::Emergency => NumberType::Emergency,
        phonenumber::Type::ShortCode => NumberType::ShortCode,
        phonenumber::Type::StandardRate => NumberType::StandardRate,
        phonenumber::Type::Carrier => NumberType::Carrier,
        phonenumber::Type::NoInternational => NumberType::NoInternational,
    }
}

impl NumberType {
    /// The category for a classification made by the numbering-plan crate.
    pub fn from_outside(t: phonenumber::Type) -> (r: NumberType)
        ensures
            r == type_from_outside(t),
    {
        match t {
            phonenumber::Type::FixedLine => NumberType::FixedLine,
            phonenumber::Type::Mobile => NumberType::Mobile,
            phonenumber::Type::FixedLineOrMobile => NumberType::FixedLineOrMobile,
            phonenumber::Type::TollFree => NumberType::TollFree,
            phonenumber::Type::PremiumRate => NumberType::PremiumRate,
            phonenumber::Type::SharedCost => NumberType::SharedCost,
            phonenumber::Type::Voip => NumberType::Voip,
            phonenumber::Type::PersonalNumber => NumberType::PersonalNumber,
            phonenumber::Type::Pager => NumberType::Pager,
            phonenumber::Type::Uan => NumberType::Uan,
            phonenumber::Type::Voicemail => NumberType::Voicemail,
            phonenumber::Type::Unknown => NumberType::Unknown,
            phonenumber::Type::Emergency => NumberType::Emergency,
            phonenumber::Type::ShortCode => NumberType::ShortCode,
            phonenumber::Type::StandardRate => NumberType::StandardRate,
            phonenumber::Type::Carrier => NumberType::Carrier,
            phonenumber::Type::NoInternational => NumberType::NoInternational,
        }
    }

    /// The host symbol for this category.
    pub fn symbol(&self) -> (r: &'static str)
        ensures
            r@ == symbol_name(*self),
    {
        match self {
            NumberType::FixedLine => "fixed_line",
            NumberType::Mobile => "mobile",
            NumberType::FixedLineOrMobile => "fixed_line_or_mobile",
            NumberType::TollFree => "toll_free",
            NumberType::PremiumRate => "premium_rate",
            NumberType::SharedCost => "shared_cost",
            NumberType::Voip => "voip",
            NumberType::PersonalNumber => "personal_number",
            NumberType::Pager => "pager",
            NumberType::Uan => "uan",
            NumberType::Voicemail => "voicemail",
            NumberType::Unknown => "unknown",
            NumberType::Emergency => "emergency",
            NumberType::ShortCode => "short_code",
            NumberType::StandardRate => "standard_rate",
            NumberType::Carrier => "carrier",
            NumberType::NoInternational => "no_international",
        }
    }
}

} // verus!
