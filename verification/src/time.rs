//! Points in time, as a datastore row holds them and as a page shows them.

use vstd::prelude::*;

verus! {

/// The text, written after `pattern`, of the point in time that lies
/// `secs` seconds and `nanos` nanoseconds after the start of 1970 in
/// universal time, or `None` where the calendar has no such point.
pub uninterp spec fn utc_text(secs: i64, nanos: u32, pattern: Seq<char>) -> Option<Seq<char>>;

/// The pattern after which a page shows a point in time: year, month and
/// day, then hour, minute and second.
pub open spec fn shown_pattern() -> Seq<char> {
    "%Y-%m-%d %H:%M:%S"@
}

/// Calls `chrono::DateTime::from_timestamp`, and on the point in time
/// that it gives `format` with `pattern`. The contract gives the result
/// its name: the text, or nothing where `from_timestamp` gives no point
/// in time. It admits the one pattern that pages use, whose every item
/// the library can write: writing fails on a pattern with an item that it
/// cannot.
#[verifier::external_body]
fn format_utc(secs: i64, nanos: u32, pattern: &str) -> (r: Option<String>)
    requires
        pattern@ == shown_pattern(),
    ensures
        match r {
            Some(text) => utc_text(secs, nanos, pattern@) == Some(text@),
            None => utc_text(secs, nanos, pattern@) is None,
        },
{
    match chrono::DateTime::from_timestamp(secs, nanos) {
        Some(at) => Some(at.format(pattern).to_string()),
        None => None,
    }
}

/// A point in time that the calendar has, to the nanosecond.
#[derive(Clone, Copy, Debug)]
pub struct Timestamp {
    secs: i64,
    nanos: u32,
}

/// A point in time as plain values: seconds since the start of 1970, and
/// what is left in nanoseconds.
pub struct TimestampView {
    pub secs: i64,
    pub nanos: u32,
}

impl TimestampView {
    /// Whether the calendar has this point in time.
    pub open spec fn valid(self) -> bool {
        utc_text(self.secs, self.nanos, shown_pattern()) is Some
    }

    /// The text of this point in time as a page shows it.
    pub open spec fn text(self) -> Seq<char> {
        utc_text(self.secs, self.nanos, shown_pattern())->0
    }
}

impl View for Timestamp {
    type V = TimestampView;

    closed spec fn view(&self) -> TimestampView {
        TimestampView { secs: self.secs, nanos: self.nanos }
    }
}

impl Timestamp {
    #[verifier::type_invariant]
    spec fn inv(self) -> bool {
        self@.valid()
    }

    /// The point in time with these seconds and nanoseconds, if the
    /// calendar has it.
    pub fn new(secs: i64, nanos: u32) -> (r: Option<Self>)
        ensures
            r is Some <==> (TimestampView { secs, nanos }).valid(),
            r matches Some(at) ==> at@ == (TimestampView { secs, nanos }),
    {
        match format_utc(secs, nanos, "%Y-%m-%d %H:%M:%S") {
            Some(_) => Some(Timestamp { secs, nanos }),
            None => None,
        }
    }

    /// Seconds since the start of 1970.
    pub fn secs(&self) -> (r: i64)
        ensures
            r == self@.secs,
    {
        self.secs
    }

    /// Nanoseconds since the last whole second.
    pub fn nanos(&self) -> (r: u32)
        ensures
            r == self@.nanos,
    {
        self.nanos
    }

    /// The point in time as a page shows it.
    pub fn format(&self) -> (r: String)
        ensures
            self@.valid(),
            r@ == self@.text(),
    {
        proof {
            use_type_invariant(self);
        }
        match format_utc(self.secs, self.nanos, "%Y-%m-%d %H:%M:%S") {
            Some(text) => text,
            None => vstd::pervasive::unreached(),
        }
    }
}

/// A point in time or none, as plain values.
pub open spec fn at_view(at: Option<Timestamp>) -> Option<TimestampView> {
    match at {
        Some(at) => Some(at@),
        None => None,
    }
}

/// A text or none, as plain values.
pub open spec fn text_view(text: Option<String>) -> Option<Seq<char>> {
    match text {
        Some(text) => Some(text@),
        None => None,
    }
}

/// The text of a point in time as a page shows it: empty if there is none.
pub open spec fn shown_time(at: Option<TimestampView>) -> Seq<char> {
    match at {
        Some(at) => at.text(),
        None => Seq::<char>::empty(),
    }
}

/// A text as a page shows it: empty if there is none.
pub open spec fn shown_text(text: Option<Seq<char>>) -> Seq<char> {
    match text {
        Some(text) => text,
        None => Seq::<char>::empty(),
    }
}

/// The text of a point in time as a page shows it.
pub fn show_time(at: &Option<Timestamp>) -> (r: String)
    ensures
        r@ == shown_time(at_view(*at)),
{
    match at {
        Some(at) => at.format(),
        None => String::new(),
    }
}

/// A text as a page shows it.
pub fn show_text(text: &Option<String>) -> (r: String)
    ensures
        r@ == shown_text(text_view(*text)),
{
    match text {
        Some(text) => text.clone(),
        None => String::new(),
    }
}

} // verus!
