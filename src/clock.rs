//! A software clock advanced by ticks in normal mode and edited field by
//! field in edit mode.

use vstd::prelude::*;
use crate::calendar::{add_millis, shifted, ClockTime, NANOS_PER_MILLI};
use crate::channel::{newest, sent, LatestValueChannel};

verus! {

pub const FIELD_YEAR: u32 = 1;
pub const FIELD_MONTH: u32 = 2;
pub const FIELD_DAY: u32 = 3;
pub const FIELD_HOUR: u32 = 4;
pub const FIELD_MINUTE: u32 = 5;
pub const FIELD_SECOND: u32 = 6;

/// The number of editable fields of the clock.
pub const CLOCK_FIELDS: u32 = 6;

pub const MILLIS_PER_DAY: i64 = 86_400_000;

/// How far one encoder step moves the clock in the given field, in
/// milliseconds: a year counts as 365 days and a month as 30. Other field
/// numbers edit nothing.
pub open spec fn field_unit_millis(field: int) -> int {
    if field == 1 {
        31_536_000_000
    } else if field == 2 {
        2_592_000_000
    } else if field == 3 {
        86_400_000
    } else if field == 4 {
        3_600_000
    } else if field == 5 {
        60_000
    } else if field == 6 {
        1_000
    } else {
        0
    }
}

pub fn field_unit(field: u32) -> (r: i64)
    ensures
        r == field_unit_millis(field as int),
{
    if field == FIELD_YEAR {
        365 * MILLIS_PER_DAY
    } else if field == FIELD_MONTH {
        30 * MILLIS_PER_DAY
    } else if field == FIELD_DAY {
        MILLIS_PER_DAY
    } else if field == FIELD_HOUR {
        3_600_000
    } else if field == FIELD_MINUTE {
        60_000
    } else if field == FIELD_SECOND {
        1_000
    } else {
        0
    }
}

/// Applies `delta` encoder steps to `field` of `t`. A result off the
/// representable calendar is discarded and `t` is returned.
pub fn adjust(t: ClockTime, field: u32, delta: i32) -> (r: ClockTime)
    requires
        t.wf(),
    ensures
        r.wf(),
        shifted(t, r, delta * field_unit_millis(field as int) * NANOS_PER_MILLI),
{
    let unit = field_unit(field);
    let millis: i128 = delta as i128 * unit as i128;
    add_millis(t, millis)
}

/// `t` moved forward by `elapsed_ms` milliseconds, or unchanged at the end
/// of the calendar: never earlier than `t`.
pub fn advance(t: ClockTime, elapsed_ms: u64) -> (r: ClockTime)
    requires
        t.wf(),
    ensures
        r.wf(),
        shifted(t, r, elapsed_ms * NANOS_PER_MILLI),
        r.instant() >= t.instant(),
{
    add_millis(t, elapsed_ms as i128)
}

/// The clock's time, the last time it published, and the field under edit
/// (0 in normal mode).
pub struct SoftwareClock {
    now: ClockTime,
    published: ClockTime,
    field: u32,
}

impl SoftwareClock {
    pub closed spec fn now(&self) -> ClockTime {
        self.now
    }

    pub closed spec fn last_published(&self) -> ClockTime {
        self.published
    }

    pub closed spec fn field(&self) -> int {
        self.field as int
    }

    pub closed spec fn wf(&self) -> bool {
        self.now.wf()
    }

    /// A clock in normal mode at `start`, which counts as published.
    pub fn new(start: ClockTime) -> (r: Self)
        requires
            start.wf(),
        ensures
            r.wf(),
            r.now() == start,
            r.last_published() == start,
            r.field() == 0,
    {
        SoftwareClock { now: start, published: start, field: 0 }
    }

    pub fn time(&self) -> (r: ClockTime)
        ensures
            r == self.now(),
    {
        self.now
    }

    pub fn editing(&self) -> (r: u32)
        ensures
            r == self.field(),
    {
        self.field
    }

    /// One period of the clock. `selection` is the newest field selection,
    /// if one is available. In edit mode the newest encoder delta, if any,
    /// is taken from `deltas` and applied to the selected field; in normal
    /// mode the clock advances by `elapsed_ms`. The time is published on
    /// `out` only when it differs from what was last published; the result
    /// says whether it was.
    pub fn tick(
        &mut self,
        selection: Option<u32>,
        deltas: &mut LatestValueChannel<i32>,
        elapsed_ms: u64,
        out: &mut LatestValueChannel<ClockTime>,
    ) -> (r: bool)
        requires
            old(self).wf(),
            old(deltas).wf(),
            old(out).wf(),
        ensures
            final(self).wf(),
            final(deltas).wf(),
            final(deltas).cap() == old(deltas).cap(),
            final(out).wf(),
            final(out).cap() == old(out).cap(),
            final(self).field() == match selection {
                Some(f) => f as int,
                None => old(self).field(),
            },
            final(self).field() != 0 ==> {
                &&& final(deltas).pending() == Seq::<i32>::empty()
                &&& match newest(old(deltas).pending()) {
                    Some(d) => shifted(
                        old(self).now(),
                        final(self).now(),
                        d * field_unit_millis(final(self).field()) * NANOS_PER_MILLI,
                    ),
                    None => final(self).now() == old(self).now(),
                }
            },
            final(self).field() == 0 ==> {
                &&& final(deltas).pending() == old(deltas).pending()
                &&& shifted(old(self).now(), final(self).now(), elapsed_ms * NANOS_PER_MILLI)
                &&& final(self).now().instant() >= old(self).now().instant()
            },
            r == (final(self).now() != old(self).last_published()),
            r ==> final(out).pending() == sent(old(out).pending(), old(out).cap(), final(self).now())
                && final(self).last_published() == final(self).now(),
            !r ==> final(out).pending() == old(out).pending()
                && final(self).last_published() == old(self).last_published(),
    {
        if let Some(f) = selection {
            self.field = f;
        }
        if self.field != 0 {
            if let Some(d) = deltas.try_receive() {
                self.now = adjust(self.now, self.field, d);
            }
        } else {
            self.now = advance(self.now, elapsed_ms);
        }
        if self.now != self.published {
            out.send(self.now);
            self.published = self.now;
            true
        } else {
            false
        }
    }
}

} // verus!
