//! Temperature categories and their emoji.
//!
//! Temperatures are carried as tenths of a degree Celsius, so that every
//! value the library ever displays (one decimal place) is represented
//! exactly as an integer.
use vstd::prelude::*;

verus! {

/// The five fixed weather-emoji categories, ordered from coldest to hottest.
#[derive(Clone, Copy, Debug, PartialEq, Eq, Structural)]
pub enum TempCategory {
    Freezing,
    Cold,
    Mild,
    Warm,
    Hot,
}

/// The category of a temperature given in tenths of a degree Celsius.
/// Thresholds are strict `<`, so an exact boundary (0, 10, 20, 30 degrees)
/// falls into the upper bracket.
pub open spec fn category_of(tenths: int) -> TempCategory {
    if tenths < 0 {
        TempCategory::Freezing
    } else if tenths < 100 {
        TempCategory::Cold
    } else if tenths < 200 {
        TempCategory::Mild
    } else if tenths < 300 {
        TempCategory::Warm
    } else {
        TempCategory::Hot
    }
}

/// The emoji text shown for each category.
pub open spec fn emoji_of(c: TempCategory) -> Seq<char> {
    match c {
        TempCategory::Freezing => "❄️"@,
        TempCategory::Cold => "🧥"@,
        TempCategory::Mild => "🌤️"@,
        TempCategory::Warm => "☀️"@,
        TempCategory::Hot => "🔥"@,
    }
}

/// Selects the category for a temperature in tenths of a degree Celsius.
pub fn temp_category(tenths: i64) -> (c: TempCategory)
    ensures
        c == category_of(tenths as int),
{
    if tenths < 0 {
        TempCategory::Freezing
    } else if tenths < 100 {
        TempCategory::Cold
    } else if tenths < 200 {
        TempCategory::Mild
    } else if tenths < 300 {
        TempCategory::Warm
    } else {
        TempCategory::Hot
    }
}

/// The emoji for a temperature in tenths of a degree Celsius.
pub fn temp_emoji(tenths: i64) -> (s: String)
    ensures
        s@ == emoji_of(category_of(tenths as int)),
{
    let c = temp_category(tenths);
    match c {
        TempCategory::Freezing => String::from_str("❄️"),
        TempCategory::Cold => String::from_str("🧥"),
        TempCategory::Mild => String::from_str("🌤️"),
        TempCategory::Warm => String::from_str("☀️"),
        TempCategory::Hot => String::from_str("🔥"),
    }
}

/// Every temperature falls into one of the five categories, and each exact
/// threshold (0.0, 10.0, 20.0, 30.0 degrees, i.e. 0, 100, 200, 300 tenths)
/// falls into the upper of its two brackets.
pub proof fn lemma_category_total(tenths: int)
    ensures
        category_of(tenths) == TempCategory::Freezing || category_of(tenths)
            == TempCategory::Cold || category_of(tenths) == TempCategory::Mild || category_of(
            tenths,
        ) == TempCategory::Warm || category_of(tenths) == TempCategory::Hot,
        category_of(0) == TempCategory::Cold,
        category_of(100) == TempCategory::Mild,
        category_of(200) == TempCategory::Warm,
        category_of(300) == TempCategory::Hot,
{
}

} // verus!
