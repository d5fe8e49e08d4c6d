//! Unit systems: what each one asks of the provider and how it labels values.

use vstd::prelude::*;
use vstd::string::StringExecFns;

verus! {

/// The measurement system that the provider is asked to report in.
#[derive(Clone, Copy, Debug, PartialEq, Eq, Structural)]
pub enum Units {
    Kelvin,
    Imperial,
    Metric,
}

/// A unit name that is none of `kelvin`, `metric` or `imperial`.
#[derive(Clone, Debug)]
pub struct UnitsError {
    /// The rejected name, lower-cased.
    pub input: String,
}

/// `c` mapped to lower case if it is an ASCII capital, else unchanged.
pub open spec fn ascii_lower_char(c: char) -> char {
    if 'A' <= c && c <= 'Z' {
        ((c as u32) + 32) as char
    } else {
        c
    }
}

/// Every character of `s` mapped by `ascii_lower_char`.
pub open spec fn ascii_lower(s: Seq<char>) -> Seq<char> {
    s.map_values(|c: char| ascii_lower_char(c))
}

/// Relies on str::to_ascii_lowercase: ASCII capitals become small letters,
/// every other character is kept.
#[verifier::external_body]
fn lowercase_ascii(s: &str) -> (r: String)
    ensures
        r@ == ascii_lower(s@),
{
    s.to_ascii_lowercase()
}

impl Units {
    /// The `units` query value sent to the provider; none for Kelvin, which is
    /// the provider's default.
    pub open spec fn query_value(self) -> Option<Seq<char>> {
        match self {
            Units::Kelvin => None,
            Units::Metric => Some("metric"@),
            Units::Imperial => Some("imperial"@),
        }
    }

    pub open spec fn temp_label(self) -> Seq<char> {
        match self {
            Units::Kelvin => "k"@,
            Units::Metric => "c"@,
            Units::Imperial => "f"@,
        }
    }

    pub open spec fn speed_label(self) -> Seq<char> {
        match self {
            Units::Kelvin | Units::Metric => "m/s"@,
            Units::Imperial => "mph"@,
        }
    }

    /// Pressure is reported in hectopascals whatever the system.
    pub open spec fn pressure_label(self) -> Seq<char> {
        "hPa"@
    }

    /// The configuration name of the system.
    pub open spec fn name_spec(self) -> Seq<char> {
        match self {
            Units::Kelvin => "kelvin"@,
            Units::Metric => "metric"@,
            Units::Imperial => "imperial"@,
        }
    }

    pub fn api_param(&self) -> (r: Option<&'static str>)
        ensures
            r is Some <==> *self != Units::Kelvin,
            r is Some ==> self.query_value() == Some(r->0@),
            r is None ==> self.query_value() is None,
    {
        match self {
            Units::Kelvin => None,
            Units::Metric => Some("metric"),
            Units::Imperial => Some("imperial"),
        }
    }

    pub fn units_pressure(&self) -> (r: &'static str)
        ensures
            r@ == self.pressure_label(),
    {
        "hPa"
    }

    pub fn units_temp(&self) -> (r: &'static str)
        ensures
            r@ == self.temp_label(),
    {
        match self {
            Units::Kelvin => "k",
            Units::Metric => "c",
            Units::Imperial => "f",
        }
    }

    pub fn units_speed(&self) -> (r: &'static str)
        ensures
            r@ == self.speed_label(),
    {
        match self {
            Units::Kelvin | Units::Metric => "m/s",
            Units::Imperial => "mph",
        }
    }

    /// The configuration name: `kelvin`, `metric` or `imperial`.
    pub fn name(&self) -> (r: &'static str)
        ensures
            r@ == self.name_spec(),
    {
        match self {
            Units::Kelvin => "kelvin",
            Units::Metric => "metric",
            Units::Imperial => "imperial",
        }
    }

    /// Reads a unit system from its name, ignoring ASCII case.
    pub fn from_str(s: &str) -> (r: Result<Units, UnitsError>)
        ensures
            r matches Ok(u) ==> u.name_spec() == ascii_lower(s@),
            r is Err <==> (forall|u: Units| u.name_spec() != ascii_lower(s@)),
            r matches Err(e) ==> e.input@ == ascii_lower(s@),
    {
        let lower = lowercase_ascii(s);
        if lower == String::from_str("kelvin") {
            assert(Units::Kelvin.name_spec() == ascii_lower(s@));
            Ok(Units::Kelvin)
        } else if lower == String::from_str("metric") {
            assert(Units::Metric.name_spec() == ascii_lower(s@));
            Ok(Units::Metric)
        } else if lower == String::from_str("imperial") {
            assert(Units::Imperial.name_spec() == ascii_lower(s@));
            Ok(Units::Imperial)
        } else {
            proof {
                assert forall|u: Units| u.name_spec() != ascii_lower(s@) by {
                    match u {
                        Units::Kelvin => {},
                        Units::Metric => {},
                        Units::Imperial => {},
                    }
                }
            }
            Err(UnitsError { input: lower })
        }
    }
}

} // verus!
