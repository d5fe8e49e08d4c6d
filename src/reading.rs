//! The shape of one weather observation as the provider reports it.
//!
//! Numbers that the provider sends as decimals are held as their decimal
//! rendering (`Measure`): this library only ever passes them through.

use vstd::prelude::*;
use vstd::string::{StrSliceExecFns, StringExecFns};

verus! {

/// A decimal number reported by the provider, held as its rendering
/// (for instance `10` or `3.2`).
#[derive(Clone, Debug)]
pub struct Measure {
    pub text: String,
}

/// Latitude and longitude in decimal degrees.
#[derive(Clone, Debug)]
pub struct Coordinates {
    pub lat: Measure,
    pub lon: Measure,
}

/// One condition descriptor: a code, a short category, a human text, an icon key.
#[derive(Clone, Debug)]
pub struct ReportCondition {
    pub id: u32,
    pub main: String,
    pub description: String,
    pub icon: String,
}

/// Temperatures, pressure and relative humidity.
#[derive(Clone, Debug)]
pub struct ReportMain {
    pub temp: Measure,
    pub feels_like: Measure,
    pub temp_min: Measure,
    pub temp_max: Measure,
    pub pressure: Measure,
    pub humidity: Measure,
}

/// Wind speed, and direction in degrees.
#[derive(Clone, Debug)]
pub struct ReportWind {
    pub speed: Measure,
    pub deg: u32,
}

/// Rain volumes over the last hour and the last three hours; `None` where the
/// provider left the field out.
#[derive(Clone, Debug)]
pub struct ReportRain {
    pub volume_1h: Option<Measure>,
    pub volume_3h: Option<Measure>,
}

/// Snow volumes over the last hour and the last three hours; `None` where the
/// provider left the field out.
#[derive(Clone, Debug)]
pub struct ReportSnow {
    pub volume_1h: Option<Measure>,
    pub volume_3h: Option<Measure>,
}

/// Cloud cover in percent.
#[derive(Clone, Debug)]
pub struct ReportClouds {
    pub all: u32,
}

/// One observation.
#[derive(Clone, Debug)]
pub struct Report {
    pub coord: Coordinates,
    /// Condition descriptors, in the provider's order.
    pub weather: Vec<ReportCondition>,
    pub main: ReportMain,
    pub wind: ReportWind,
    pub rain: ReportRain,
    pub snow: ReportSnow,
    pub clouds: ReportClouds,
    /// Visibility in meters, whatever the unit system.
    pub visibility: Option<usize>,
}

impl Coordinates {
    /// Splits `lat,lon` at its first comma: the text before it, and the text
    /// after it if there is a comma at all. Reading the two numbers is left
    /// to the caller.
    pub fn split_text(s: &str) -> (r: (String, Option<String>))
        ensures
            r.1 is None ==> r.0@ == s@ && !s@.contains(','),
            r.1 is Some ==> s@ == r.0@ + seq![','] + r.1->0@ && !r.0@.contains(','),
    {
        let n = s.unicode_len();
        let mut i: usize = 0;
        while i < n && s.get_char(i) != ','
            invariant
                n == s@.len(),
                i <= n,
                forall|j: int| 0 <= j < i ==> s@[j] != ',',
            decreases n - i,
        {
            i = i + 1;
        }
        if i == n {
            assert(!s@.contains(',')) by {
                if s@.contains(',') {
                    let j = choose|j: int| 0 <= j < s@.len() && s@[j] == ',';
                    assert(s@[j] != ',');
                }
            }
            (String::from_str(s), None)
        } else {
            let head = String::from_str(s.substring_char(0, i));
            let tail = String::from_str(s.substring_char(i + 1, n));
            assert(s@ =~= head@ + seq![','] + tail@);
            assert(!head@.contains(',')) by {
                if head@.contains(',') {
                    let j = choose|j: int| 0 <= j < head@.len() && head@[j] == ',';
                    assert(s@[j] != ',');
                }
            }
            (head, Some(tail))
        }
    }
}

} // verus!
