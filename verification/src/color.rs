//! Terminal color selection from a weather condition description.
use vstd::prelude::*;

verus! {

/// The colors the report text can be printed in. `Plain` means the default
/// terminal color, used for every description outside the recognized set.
#[derive(Clone, Copy, Debug, PartialEq, Eq, Structural)]
pub enum TextColor {
    BrightYellow,
    BrightWhite,
    BrightBlue,
    BrightMagenta,
    BrightCyan,
    Plain,
}

/// The color for a condition description. Matching is exact and
/// case-sensitive: any other text, including a recapitalized variant of a
/// recognized description, gets `Plain`.
pub open spec fn color_of(d: Seq<char>) -> TextColor {
    if d == "clear sky"@ {
        TextColor::BrightYellow
    } else if d == "few clouds"@ || d == "scattered clouds"@ {
        TextColor::BrightWhite
    } else if d == "rain"@ || d == "shower rain"@ {
        TextColor::BrightBlue
    } else if d == "thunderstorm"@ {
        TextColor::BrightMagenta
    } else if d == "snow"@ {
        TextColor::BrightCyan
    } else {
        TextColor::Plain
    }
}

/// Selects the color for a condition description.
pub fn color_for(description: &String) -> (c: TextColor)
    ensures
        c == color_of(description@),
{
    if String::from_str("clear sky").eq(description) {
        TextColor::BrightYellow
    } else if String::from_str("few clouds").eq(description) || String::from_str(
        "scattered clouds",
    ).eq(description) {
        TextColor::BrightWhite
    } else if String::from_str("rain").eq(description) || String::from_str("shower rain").eq(
        description,
    ) {
        TextColor::BrightBlue
    } else if String::from_str("thunderstorm").eq(description) {
        TextColor::BrightMagenta
    } else if String::from_str("snow").eq(description) {
        TextColor::BrightCyan
    } else {
        TextColor::Plain
    }
}

/// Every description outside the six recognized strings gets the default
/// color.
pub proof fn lemma_unrecognized_is_plain(d: Seq<char>)
    requires
        d != "clear sky"@,
        d != "few clouds"@,
        d != "scattered clouds"@,
        d != "rain"@,
        d != "shower rain"@,
        d != "thunderstorm"@,
        d != "snow"@,
    ensures
        color_of(d) == TextColor::Plain,
{
}

} // verus!
