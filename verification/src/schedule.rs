use vstd::prelude::*;

verus! {

/// A puzzle coordinate: the year and the day whose input is fetched or whose
/// answer is submitted.
#[derive(Clone, Copy, Debug, PartialEq, Eq, Structural)]
pub struct Coordinate {
    pub year: u32,
    pub day: u32,
}

/// Whether a date (month and day of month) lies in the seasonally active
/// window, during which the current date may stand in for an omitted
/// coordinate: December, before the 26th.
pub open spec fn in_active_window(month: nat, day: nat) -> bool {
    month == 12 && day < 26
}

/// The coordinate a run defaults to when none is supplied, from the current
/// date: inside the active window it is the current year and day of month;
/// outside the window there is no default and the caller must supply one.
pub fn default_coordinate(year: u32, month: u32, day: u32) -> (r: Option<Coordinate>)
    ensures
        r is Some <==> in_active_window(month as nat, day as nat),
        r matches Some(c) ==> c == (Coordinate { year, day }),
{
    if month == 12 && day < 26 {
        Some(Coordinate { year, day })
    } else {
        None
    }
}

} // verus!
