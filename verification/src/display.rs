//! Rendering a weather report as colored terminal text.
use crate::color::{color_of, color_for, TextColor};
use crate::numfmt::{format_tenths, tenths_str};
use crate::report::WeatherReport;
use crate::temp::{category_of, emoji_of, temp_emoji};
use vstd::prelude::*;

verus! {

/// The full text block shown for a report: a header with location,
/// description and emoji, then one indented line per numeric field, each
/// value with exactly one decimal place and its unit suffix.
pub open spec fn report_text(r: WeatherReport) -> Seq<char> {
    "Weather in "@ + r.name@ + ": "@ + r.description@ + " "@ + emoji_of(
        category_of(r.temp_tenths as int),
    ) + "\n> Temperature: "@ + tenths_str(r.temp_tenths as int) + "\u{b0}C\n> Humidity: "@
        + tenths_str(r.humidity_tenths as int) + "%\n> Pressure: "@ + tenths_str(
        r.pressure_tenths as int,
    ) + " hPa\n> Wind Speed: "@ + tenths_str(r.wind_tenths as int) + " m/s"@
}

/// Renders the text block for a report.
pub fn weather_text(r: &WeatherReport) -> (s: String)
    ensures
        s@ == report_text(*r),
{
    let mut s = String::from_str("Weather in ");
    s.append(r.name.as_str());
    s.append(": ");
    s.append(r.description.as_str());
    s.append(" ");
    let emoji = temp_emoji(r.temp_tenths);
    s.append(emoji.as_str());
    s.append("\n> Temperature: ");
    let temp = format_tenths(r.temp_tenths);
    s.append(temp.as_str());
    s.append("\u{b0}C\n> Humidity: ");
    let hum = format_tenths(r.humidity_tenths);
    s.append(hum.as_str());
    s.append("%\n> Pressure: ");
    let pres = format_tenths(r.pressure_tenths);
    s.append(pres.as_str());
    s.append(" hPa\n> Wind Speed: ");
    let wind = format_tenths(r.wind_tenths);
    s.append(wind.as_str());
    s.append(" m/s");
    proof {
        assert(s@ =~= report_text(*r));
    }
    s
}

/// Renders a report as its text block paired with the color it is printed
/// in, which depends only on the condition description.
pub fn display_line(r: &WeatherReport) -> (out: (String, TextColor))
    ensures
        out.0@ == report_text(*r),
        out.1 == color_of(r.description@),
{
    let text = weather_text(r);
    let color = color_for(&r.description);
    (text, color)
}

/// Whether `needle` occurs contiguously inside `hay`.
pub open spec fn contains_seq(hay: Seq<char>, needle: Seq<char>) -> bool {
    exists|i: int|
        0 <= i && i + needle.len() <= hay.len() && #[trigger] hay.subrange(i, i + needle.len())
            == needle
}

/// The rendered text of a report carries every field of the report: the
/// location name, the description, and all four numeric values, each in
/// its one-decimal-place form.
#[verifier::rlimit(100)]
pub proof fn lemma_report_text_complete(r: WeatherReport)
    ensures
        contains_seq(report_text(r), r.name@),
        contains_seq(report_text(r), r.description@),
        contains_seq(report_text(r), tenths_str(r.temp_tenths as int)),
        contains_seq(report_text(r), tenths_str(r.humidity_tenths as int)),
        contains_seq(report_text(r), tenths_str(r.pressure_tenths as int)),
        contains_seq(report_text(r), tenths_str(r.wind_tenths as int)),
{
    let t = report_text(r);
    let head = "Weather in "@;
    let up_to_desc = head + r.name@ + ": "@;
    let up_to_temp = up_to_desc + r.description@ + " "@ + emoji_of(category_of(r.temp_tenths as int))
        + "\n> Temperature: "@;
    let temp = tenths_str(r.temp_tenths as int);
    let up_to_hum = up_to_temp + temp + "\u{b0}C\n> Humidity: "@;
    let hum = tenths_str(r.humidity_tenths as int);
    let up_to_pres = up_to_hum + hum + "%\n> Pressure: "@;
    let pres = tenths_str(r.pressure_tenths as int);
    let up_to_wind = up_to_pres + pres + " hPa\n> Wind Speed: "@;
    let wind = tenths_str(r.wind_tenths as int);
    assert(t.subrange(head.len() as int, head.len() as int + r.name@.len() as int) =~= r.name@);
    assert(t.subrange(up_to_desc.len() as int, up_to_desc.len() as int + r.description@.len() as int) =~= r.description@);
    assert(t.subrange(up_to_temp.len() as int, up_to_temp.len() as int + temp.len() as int) =~= temp);
    assert(t.subrange(up_to_hum.len() as int, up_to_hum.len() as int + hum.len() as int) =~= hum);
    assert(t.subrange(up_to_pres.len() as int, up_to_pres.len() as int + pres.len() as int) =~= pres);
    assert(t.subrange(up_to_wind.len() as int, up_to_wind.len() as int + wind.len() as int) =~= wind);
}

/// Rendering is a pure function of the report: any two renderings of the
/// same report are the same text, so displaying twice shows identical
/// output.
pub proof fn lemma_display_deterministic(r: WeatherReport, s1: Seq<char>, s2: Seq<char>)
    requires
        s1 == report_text(r),
        s2 == report_text(r),
    ensures
        s1 == s2,
{
}

} // verus!
