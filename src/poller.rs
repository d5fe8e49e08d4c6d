//! The poller's decisions. The caller runs the loop: it asks the poller what
//! to send, performs the request, hands the result back, and sleeps for the
//! pause that the poller picks.

use vstd::prelude::*;
use vstd::string::StringExecFns;
use crate::metrics::{string_labels, LabelView};
use crate::outcome::{written, Outcome, OutcomeCell};
use crate::reading::{Coordinates, Report};
use crate::units::Units;

verus! {

/// How one request to the provider ended.
#[derive(Clone, Debug)]
pub enum FetchResult {
    /// A success response whose body parsed into a report.
    Parsed(Report),
    /// The provider answered with an error status.
    ErrorStatus(u16),
    /// No usable answer: the transport failed, or the body did not parse.
    Failed,
}

/// Which interval to wait before the next request.
#[derive(Clone, Copy, Debug, PartialEq, Eq, Structural)]
pub enum Pause {
    /// The regular interval, after a successful poll.
    Normal,
    /// The backoff interval, after a failed one.
    Backoff,
}

/// Where the poller stands in its cycle.
#[derive(Clone, Copy, Debug, PartialEq, Eq, Structural)]
pub enum PollState {
    /// A request is due, or under way.
    Fetching,
    /// Waiting for the given interval to pass.
    Cooldown(Pause),
}

/// What the outcome cell holds after a request ended with `r`.
pub open spec fn fetch_outcome(r: FetchResult) -> Outcome {
    match r {
        FetchResult::Parsed(report) => Outcome::Ready(report),
        FetchResult::ErrorStatus(code) => Outcome::Failed(Some(code)),
        FetchResult::Failed => Outcome::Failed(None),
    }
}

/// The pause that follows a request that ended with `r`.
pub open spec fn pause_after(r: FetchResult) -> Pause {
    match r {
        FetchResult::Parsed(_) => Pause::Normal,
        _ => Pause::Backoff,
    }
}

/// The query parameters of a request: coordinates, credential, and the unit
/// system's parameter unless it has none.
pub open spec fn query_spec(lat: Seq<char>, lon: Seq<char>, key: Seq<char>, units: Units) -> Seq<
    LabelView,
> {
    seq![("lat"@, lat), ("lon"@, lon), ("appid"@, key)] + match units.query_value() {
        Some(v) => seq![("units"@, v)],
        None => Seq::empty(),
    }
}

/// The query parameters for a request about `coords`, with the credential
/// `api_key`, in the unit system `units`.
pub fn query_params(coords: &Coordinates, api_key: &str, units: Units) -> (r: Vec<(String, String)>)
    ensures
        string_labels(r@) == query_spec(coords.lat.text@, coords.lon.text@, api_key@, units),
{
    let mut query: Vec<(String, String)> = Vec::new();
    query.push((String::from_str("lat"), coords.lat.text.clone()));
    query.push((String::from_str("lon"), coords.lon.text.clone()));
    query.push((String::from_str("appid"), String::from_str(api_key)));
    match units.api_param() {
        Some(p) => {
            query.push((String::from_str("units"), String::from_str(p)));
        },
        None => {},
    }
    assert(string_labels(query@) =~= query_spec(
        coords.lat.text@,
        coords.lon.text@,
        api_key@,
        units,
    ));
    query
}

/// The outcome that a request's result stands for, and the pause after it.
pub fn outcome_of(r: FetchResult) -> (res: (Outcome, Pause))
    ensures
        res.0 == fetch_outcome(r),
        res.1 == pause_after(r),
{
    match r {
        FetchResult::Parsed(report) => (Outcome::Ready(report), Pause::Normal),
        FetchResult::ErrorStatus(code) => (Outcome::Failed(Some(code)), Pause::Backoff),
        FetchResult::Failed => (Outcome::Failed(None), Pause::Backoff),
    }
}

/// The poller: the request it sends, and where it stands in its cycle.
pub struct Poller {
    query: Vec<(String, String)>,
    state: PollState,
}

impl Poller {
    pub closed spec fn state_spec(&self) -> PollState {
        self.state
    }

    pub closed spec fn query_spec(&self) -> Seq<LabelView> {
        string_labels(self.query@)
    }

    /// A poller about to send its first request.
    pub fn new(coords: &Coordinates, api_key: &str, units: Units) -> (p: Poller)
        ensures
            p.state_spec() == PollState::Fetching,
            p.query_spec() == query_spec(coords.lat.text@, coords.lon.text@, api_key@, units),
    {
        Poller { query: query_params(coords, api_key, units), state: PollState::Fetching }
    }

    pub fn state(&self) -> (s: PollState)
        ensures
            s == self.state_spec(),
    {
        self.state
    }

    /// The query parameters of every request this poller sends.
    pub fn query(&self) -> (q: &Vec<(String, String)>)
        ensures
            string_labels(q@) == self.query_spec(),
    {
        &self.query
    }

    /// Records how a request ended: the cell is replaced by the matching
    /// outcome, and the poller cools down for the pause that it returns,
    /// the regular one after success and the backoff after any failure.
    pub fn complete(&mut self, cell: &mut OutcomeCell, r: FetchResult) -> (p: Pause)
        requires
            old(self).state_spec() == PollState::Fetching,
        ensures
            p == pause_after(r),
            final(self).state_spec() == PollState::Cooldown(p),
            final(self).query_spec() == old(self).query_spec(),
            *final(cell) == written(*old(cell), fetch_outcome(r)),
    {
        let (o, p) = outcome_of(r);
        cell.write(o);
        self.state = PollState::Cooldown(p);
        p
    }

    /// Ends the pause: the next request is due.
    pub fn resume(&mut self)
        requires
            old(self).state_spec() is Cooldown,
        ensures
            final(self).state_spec() == PollState::Fetching,
            final(self).query_spec() == old(self).query_spec(),
    {
        self.state = PollState::Fetching;
    }
}

} // verus!
