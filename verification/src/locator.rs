use vstd::prelude::*;

use crate::numerals::{dec_rep, u32_to_decimal};

verus! {

/// The location a fetch is issued against, built from the coordinate.
pub open spec fn input_url_rep(year: nat, day: nat) -> Seq<char> {
    "https://adventofcode.com/"@ + dec_rep(year) + "/day/"@ + dec_rep(day) + "/input"@
}

/// The location a submission is posted to, built from the coordinate.
pub open spec fn answer_url_rep(year: nat, day: nat) -> Seq<char> {
    "https://adventofcode.com/"@ + dec_rep(year) + "/day/"@ + dec_rep(day) + "/answer"@
}

/// The file name under which a coordinate's fetched input is cached.
pub open spec fn cache_name_rep(year: nat, day: nat) -> Seq<char> {
    dec_rep(year) + "_"@ + dec_rep(day)
}

fn coordinate_url(year: u32, day: u32, suffix: &str) -> (s: String)
    ensures
        s@ == "https://adventofcode.com/"@ + dec_rep(year as nat) + "/day/"@ + dec_rep(
            day as nat,
        ) + suffix@,
{
    let mut s = String::from_str("https://adventofcode.com/");
    let y = u32_to_decimal(year);
    s.append(y.as_str());
    s.append("/day/");
    let d = u32_to_decimal(day);
    s.append(d.as_str());
    s.append(suffix);
    proof {
        assert(s@ =~= "https://adventofcode.com/"@ + dec_rep(year as nat) + "/day/"@ + dec_rep(
            day as nat,
        ) + suffix@);
    }
    s
}

/// The URL of a coordinate's puzzle input.
pub fn input_url(year: u32, day: u32) -> (s: String)
    ensures
        s@ == input_url_rep(year as nat, day as nat),
{
    coordinate_url(year, day, "/input")
}

/// The URL a coordinate's answer is posted to.
pub fn answer_url(year: u32, day: u32) -> (s: String)
    ensures
        s@ == answer_url_rep(year as nat, day as nat),
{
    coordinate_url(year, day, "/answer")
}

/// The cache file name of a coordinate: year and day in decimal, joined by an
/// underscore. Distinct coordinates never collide, since the underscore is no
/// decimal digit.
pub fn cache_file_name(year: u32, day: u32) -> (s: String)
    ensures
        s@ == cache_name_rep(year as nat, day as nat),
{
    let mut s = u32_to_decimal(year);
    s.append("_");
    let d = u32_to_decimal(day);
    s.append(d.as_str());
    proof {
        assert(s@ =~= cache_name_rep(year as nat, day as nat));
    }
    s
}

} // verus!
