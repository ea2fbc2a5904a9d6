//! Points in time, and the fresh identity that every record gets.

use crate::outside::{is_uuid_char, new_uuid, utc_date, utc_date_text, utc_now};
use vstd::prelude::*;

verus! {

/// A point in time: whole seconds since the epoch, and nanoseconds behind them.
#[derive(Clone, Copy, Debug, PartialEq, Eq, Structural)]
pub struct Timestamp {
    pub secs: i64,
    pub nanos: u32,
}

impl DeepView for Timestamp {
    type V = Timestamp;

    open spec fn deep_view(&self) -> Timestamp {
        *self
    }
}

/// Whether `a` lies behind `b`.
pub open spec fn later(a: Timestamp, b: Timestamp) -> bool {
    a.secs > b.secs || (a.secs == b.secs && a.nanos > b.nanos)
}

impl Timestamp {
    /// Whether this point lies behind `other`.
    pub fn is_later(&self, other: &Timestamp) -> (r: bool)
        ensures
            r == later(*self, *other),
    {
        self.secs > other.secs || (self.secs == other.secs && self.nanos > other.nanos)
    }

    /// The current time. Which one that is, is left open; it is in the calendar.
    pub fn now() -> (r: Timestamp)
        ensures
            r.nanos < 1_000_000_000,
            utc_date(r.secs, r.nanos) is Some,
    {
        let (secs, nanos) = utc_now();
        Timestamp { secs, nanos }
    }

    /// The UTC date, as `YYYY-MM-DD`; none where the calendar does not reach.
    pub fn date(&self) -> (r: Option<String>)
        ensures
            r.deep_view() == utc_date(self.secs, self.nanos),
    {
        utc_date_text(self.secs, self.nanos)
    }
}

/// A fresh id and the time at which it was drawn.
#[derive(Debug, PartialEq)]
pub struct Stamp {
    pub id: String,
    pub at: Timestamp,
}

/// What a [`Stamp`] stands for in contracts.
#[verifier::ext_equal]
pub struct StampModel {
    pub id: Seq<char>,
    pub at: Timestamp,
}

impl DeepView for Stamp {
    type V = StampModel;

    open spec fn deep_view(&self) -> StampModel {
        StampModel {
            id: self.id.deep_view(),
            at: self.at,
        }
    }
}

impl Clone for Stamp {
    fn clone(&self) -> (r: Self)
        ensures
            r.deep_view() == self.deep_view(),
    {
        Stamp {
            id: self.id.clone(),
            at: self.at,
        }
    }
}

impl Stamp {
    /// Draws an id and reads the clock. The id is a hyphenated UUID; which one, and what
    /// the clock says, is left open.
    pub fn fresh() -> (r: Stamp)
        ensures
            r.id@.len() == 36,
            forall|i: int| 0 <= i < r.id@.len() ==> is_uuid_char(#[trigger] r.id@[i]),
            r.at.nanos < 1_000_000_000,
            utc_date(r.at.secs, r.at.nanos) is Some,
    {
        let id = new_uuid();
        Stamp { id, at: Timestamp::now() }
    }
}

} // verus!
