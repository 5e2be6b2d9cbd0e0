//! Spans of time.

use vstd::prelude::*;
use crate::show::{write_shown, Shown};
use crate::show::text_in;

verus! {

/// How many nanoseconds make a second.
pub const NANOS_PER_SEC: u32 = 1_000_000_000;

/// A span of time: whole seconds, and nanoseconds that make less than one more.
#[derive(Clone, Copy, PartialEq, Eq, Hash, PartialOrd, Ord)]
pub struct Duration {
    secs: u64,
    nanos: u32,
}

/// What a span of time is.
pub ghost struct DurationView {
    pub secs: u64,
    pub nanos: u32,
}

impl View for Duration {
    type V = DurationView;

    closed spec fn view(&self) -> DurationView {
        DurationView { secs: self.secs, nanos: self.nanos }
    }
}

impl DurationView {
    /// The whole seconds of the span.
    pub open spec fn whole_seconds(self) -> DurationView {
        DurationView { secs: self.secs, nanos: 0 }
    }
}

impl Duration {
    #[verifier::type_invariant]
    spec fn less_than_a_second(self) -> bool {
        self.nanos < NANOS_PER_SEC
    }

    /// The span of so many seconds and nanoseconds; whole seconds of nanoseconds are carried
    /// over.
    pub fn new(secs: u64, nanos: u32) -> (r: Duration)
        requires
            secs + nanos / NANOS_PER_SEC <= u64::MAX,
        ensures
            r@.secs == secs + nanos / NANOS_PER_SEC,
            r@.nanos == nanos % NANOS_PER_SEC,
    {
        Duration { secs: secs + (nanos / NANOS_PER_SEC) as u64, nanos: nanos % NANOS_PER_SEC }
    }

    /// The span of so many seconds.
    pub fn from_secs(secs: u64) -> (r: Duration)
        ensures
            r@ == (DurationView { secs, nanos: 0 }),
    {
        Duration { secs, nanos: 0 }
    }

    /// The whole seconds of the span.
    pub fn as_secs(&self) -> (r: u64)
        ensures
            r == self@.secs,
    {
        self.secs
    }

    /// The nanoseconds beyond the whole seconds.
    pub fn subsec_nanos(&self) -> (r: u32)
        ensures
            r == self@.nanos,
            r < NANOS_PER_SEC,
    {
        proof {
            use_type_invariant(self);
        }
        self.nanos
    }

    /// The span as text, in the unit that suits it.
    pub fn to_text(&self) -> (r: String)
        ensures
            r@ == duration_text(self@.secs, self@.nanos),
    {
        std_duration_text(self.as_secs(), self.subsec_nanos())
    }
}

impl Shown for Duration {
    open spec fn shown(v: DurationView) -> Seq<char> {
        duration_text(v.secs, v.nanos)
    }

    fn append_shown(&self, out: &mut String) {
        out.append(self.to_text().as_str());
    }
}

impl core::fmt::Debug for Duration {
    fn fmt(&self, f: &mut core::fmt::Formatter<'_>) -> (r: core::fmt::Result)
        ensures
            r is Ok ==> text_in(*final(f)) == text_in(*old(f)) + Duration::shown(self@),
    {
        write_shown(self, f)
    }
}

/// What the standard library's `Duration` of so many seconds and nanoseconds prints when it is
/// formatted with `{:#?}`.
pub uninterp spec fn duration_text(secs: u64, nanos: u32) -> Seq<char>;

/// Formats a `std::time::Duration` with `{:#?}`. The text depends on the seconds and the
/// nanoseconds alone.
#[verifier::external_body]
fn std_duration_text(secs: u64, nanos: u32) -> (r: String)
    requires
        nanos < NANOS_PER_SEC,
    ensures
        r@ == duration_text(secs, nanos),
{
    format!("{:#?}", std::time::Duration::new(secs, nanos))
}

} // verus!
