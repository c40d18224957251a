//! What the screen shows: fixed-width text for the clock and the
//! orientation, the cursor under the field being edited, and its blinking.

use vstd::prelude::*;
use chrono::Datelike;
use crate::calendar::ClockTime;
use crate::channel::{newest, LatestValueChannel};

verus! {

pub open spec fn digit_char(d: int) -> char {
    seq!['0', '1', '2', '3', '4', '5', '6', '7', '8', '9'][d]
}

/// The decimal digits of `n`, most significant first.
pub open spec fn decimal(n: nat) -> Seq<char>
    decreases n,
{
    if n < 10 {
        seq![digit_char(n as int)]
    } else {
        decimal(n / 10).push(digit_char((n % 10) as int))
    }
}

pub open spec fn repeat(c: char, k: int) -> Seq<char> {
    Seq::new(if k > 0 { k as nat } else { 0 }, |i: int| c)
}

/// `n` right-aligned in `width` columns, filled with spaces.
pub open spec fn space_padded(n: nat, width: int) -> Seq<char> {
    repeat(' ', width - decimal(n).len()) + decimal(n)
}

/// `n` in at least `width` columns, zero-filled after the sign.
pub open spec fn zero_padded(n: int, width: int) -> Seq<char> {
    if n >= 0 {
        repeat('0', width - decimal(n as nat).len()) + decimal(n as nat)
    } else {
        seq!['-'] + repeat('0', width - 1 - decimal((-n) as nat).len()) + decimal((-n) as nat)
    }
}

/// `YYYY-MM-DD`.
pub open spec fn date_text_spec(t: ClockTime) -> Seq<char> {
    zero_padded(t.year as int, 4) + seq!['-'] + zero_padded(t.month as int, 2) + seq!['-']
        + zero_padded(t.day as int, 2)
}

/// `HH:MM:SS`.
pub open spec fn time_text_spec(t: ClockTime) -> Seq<char> {
    zero_padded(t.hour as int, 2) + seq![':'] + zero_padded(t.minute as int, 2) + seq![':']
        + zero_padded(t.second as int, 2)
}

/// The column that holds the sign of an angle.
pub const SIGN_COLUMN: usize = 6;

/// `label: WWW.HH`, with `-` written over the column after the colon when
/// the angle is negative.
pub open spec fn angle_text_spec(label: Seq<char>, negative: bool, whole: nat, hundredths: nat) -> Seq<char> {
    let base = label + seq![':', ' '] + space_padded(whole, 3) + seq!['.'] + zero_padded(
        hundredths as int,
        2,
    );
    if negative {
        base.update(6, '-')
    } else {
        base
    }
}

fn digit(d: u64) -> (r: char)
    requires
        d < 10,
    ensures
        r == digit_char(d as int),
{
    if d == 0 {
        '0'
    } else if d == 1 {
        '1'
    } else if d == 2 {
        '2'
    } else if d == 3 {
        '3'
    } else if d == 4 {
        '4'
    } else if d == 5 {
        '5'
    } else if d == 6 {
        '6'
    } else if d == 7 {
        '7'
    } else if d == 8 {
        '8'
    } else {
        '9'
    }
}

fn push_decimal(out: &mut Vec<char>, n: u64)
    ensures
        final(out)@ == old(out)@ + decimal(n as nat),
    decreases n,
{
    if n >= 10 {
        push_decimal(out, n / 10);
    }
    out.push(digit(n % 10));
    proof {
        if n < 10 {
            assert(n % 10 == n);
        }
        assert(out@ =~= old(out)@ + decimal(n as nat));
    }
}

proof fn lemma_decimal_len(n: nat)
    ensures
        1 <= decimal(n).len(),
        n < 10 ==> decimal(n).len() == 1,
        n < 100 ==> decimal(n).len() <= 2,
        n < 1000 ==> decimal(n).len() <= 3,
    decreases n,
{
    if n >= 10 {
        lemma_decimal_len(n / 10);
    }
}

fn push_repeat(out: &mut Vec<char>, c: char, k: usize)
    ensures
        final(out)@ == old(out)@ + repeat(c, k as int),
{
    let mut i: usize = 0;
    while i < k
        invariant
            i <= k,
            out@ == old(out)@ + repeat(c, i as int),
        decreases k - i,
    {
        out.push(c);
        i = i + 1;
        assert(out@ =~= old(out)@ + repeat(c, i as int));
    }
}

/// Appends `digits` right-aligned in `width` columns, filled with `fill`.
fn push_aligned(out: &mut Vec<char>, digits: &Vec<char>, fill: char, width: usize)
    ensures
        final(out)@ == old(out)@ + repeat(fill, width - digits@.len()) + digits@,
{
    if digits.len() < width {
        push_repeat(out, fill, width - digits.len());
    } else {
        push_repeat(out, fill, 0);
    }
    assert(repeat(fill, width - digits@.len()) =~= repeat(
        fill,
        if digits.len() < width { (width - digits.len()) as int } else { 0 },
    ));
    let ghost padded = out@;
    let mut i: usize = 0;
    while i < digits.len()
        invariant
            i <= digits@.len(),
            out@ == padded + digits@.subrange(0, i as int),
        decreases digits@.len() - i,
    {
        out.push(digits[i]);
        i = i + 1;
        assert(out@ =~= padded + digits@.subrange(0, i as int));
    }
    assert(digits@.subrange(0, digits@.len() as int) =~= digits@);
    assert(out@ =~= old(out)@ + repeat(fill, width - digits@.len()) + digits@);
}

fn push_space_padded(out: &mut Vec<char>, n: u64, width: usize)
    ensures
        final(out)@ == old(out)@ + space_padded(n as nat, width as int),
{
    let mut digits: Vec<char> = Vec::new();
    push_decimal(&mut digits, n);
    assert(digits@ =~= decimal(n as nat));
    push_aligned(out, &digits, ' ', width);
}

fn push_zero_padded(out: &mut Vec<char>, n: i64, width: usize)
    requires
        n > i64::MIN,
        width >= 1,
    ensures
        final(out)@ == old(out)@ + zero_padded(n as int, width as int),
{
    let magnitude: u64 = if n >= 0 { n as u64 } else { (-n) as u64 };
    let mut digits: Vec<char> = Vec::new();
    push_decimal(&mut digits, magnitude);
    assert(digits@ =~= decimal(magnitude as nat));
    if n < 0 {
        out.push('-');
        push_aligned(out, &digits, '0', width - 1);
    } else {
        push_aligned(out, &digits, '0', width);
    }
    assert(out@ =~= old(out)@ + zero_padded(n as int, width as int));
}

/// Relies on std's `FromIterator<char>` for `String`: the string holds
/// exactly the given characters, in order.
#[verifier::external_body]
fn text_of(chars: &Vec<char>) -> (r: String)
    ensures
        r@ == chars@,
{
    chars.iter().collect()
}

/// The date as `YYYY-MM-DD`.
pub fn date_text(t: &ClockTime) -> (r: String)
    requires
        t.wf(),
    ensures
        r@ == date_text_spec(*t),
{
    let mut v: Vec<char> = Vec::new();
    push_zero_padded(&mut v, t.year as i64, 4);
    v.push('-');
    push_zero_padded(&mut v, t.month as i64, 2);
    v.push('-');
    push_zero_padded(&mut v, t.day as i64, 2);
    assert(v@ =~= date_text_spec(*t));
    text_of(&v)
}

/// The time of day as `HH:MM:SS`.
pub fn time_text(t: &ClockTime) -> (r: String)
    requires
        t.wf(),
    ensures
        r@ == time_text_spec(*t),
{
    let mut v: Vec<char> = Vec::new();
    push_zero_padded(&mut v, t.hour as i64, 2);
    v.push(':');
    push_zero_padded(&mut v, t.minute as i64, 2);
    v.push(':');
    push_zero_padded(&mut v, t.second as i64, 2);
    assert(v@ =~= time_text_spec(*t));
    text_of(&v)
}

/// The three orientation angles shown on screen.
#[derive(Clone, Copy, PartialEq, Eq, Structural, Debug)]
pub enum Axis {
    Yaw,
    Roll,
    Pitch,
}

/// The five-column label of an axis.
pub open spec fn axis_label(a: Axis) -> Seq<char> {
    match a {
        Axis::Yaw => seq!['y', 'a', 'w', ' ', ' '],
        Axis::Roll => seq!['r', 'o', 'l', 'l', ' '],
        Axis::Pitch => seq!['p', 'i', 't', 'c', 'h'],
    }
}

fn push_label(out: &mut Vec<char>, a: Axis)
    ensures
        final(out)@ == old(out)@ + axis_label(a),
{
    match a {
        Axis::Yaw => {
            out.push('y');
            out.push('a');
            out.push('w');
            out.push(' ');
            out.push(' ');
        },
        Axis::Roll => {
            out.push('r');
            out.push('o');
            out.push('l');
            out.push('l');
            out.push(' ');
        },
        Axis::Pitch => {
            out.push('p');
            out.push('i');
            out.push('t');
            out.push('c');
            out.push('h');
        },
    }
    assert(out@ =~= old(out)@ + axis_label(a));
}

/// An angle as `label: WWW.HH` in a fixed width of 13 columns: `whole`
/// degrees and `hundredths` of a degree. A negative angle has its `-` in the
/// column after the colon, whatever the number of digits.
pub fn angle_text(axis: Axis, negative: bool, whole: u32, hundredths: u32) -> (r: String)
    requires
        whole < 1000,
        hundredths < 100,
    ensures
        r@ == angle_text_spec(axis_label(axis), negative, whole as nat, hundredths as nat),
        r@.len() == 13,
        r@[SIGN_COLUMN as int] == (if negative { '-' } else { ' ' }),
{
    let mut v: Vec<char> = Vec::new();
    push_label(&mut v, axis);
    v.push(':');
    v.push(if negative { '-' } else { ' ' });
    push_space_padded(&mut v, whole as u64, 3);
    v.push('.');
    push_zero_padded(&mut v, hundredths as i64, 2);
    proof {
        lemma_decimal_len(whole as nat);
        lemma_decimal_len(hundredths as nat);
        let label = axis_label(axis);
        let base = label + seq![':', ' '] + space_padded(whole as nat, 3) + seq!['.']
            + zero_padded(hundredths as int, 2);
        assert(space_padded(whole as nat, 3).len() == 3);
        assert(zero_padded(hundredths as int, 2).len() == 2);
        if negative {
            assert(v@ =~= base.update(6, '-'));
        } else {
            assert(v@ =~= base);
        }
    }
    text_of(&v)
}

/// Relies on chrono's `NaiveDate::weekday` and
/// `Weekday::num_days_from_monday`: 1970-01-01 was a Thursday and weekdays
/// repeat every seven days.
#[verifier::external_body]
fn weekday_index(t: &ClockTime) -> (r: u32)
    requires
        t.wf(),
    ensures
        r == (t.day_number() + 3) % 7,
{
    let date = chrono::NaiveDate::from_ymd_opt(t.year, t.month, t.day).unwrap();
    date.weekday().num_days_from_monday()
}

/// The English name of the weekday `i` days after Monday.
pub open spec fn weekday_name_spec(i: int) -> Seq<char> {
    if i == 0 {
        "Monday"@
    } else if i == 1 {
        "Tuesday"@
    } else if i == 2 {
        "Wednesday"@
    } else if i == 3 {
        "Thursday"@
    } else if i == 4 {
        "Friday"@
    } else if i == 5 {
        "Saturday"@
    } else {
        "Sunday"@
    }
}

/// The name of the weekday of `t`, and its length in characters.
pub fn weekday_name(t: &ClockTime) -> (r: (&'static str, usize))
    requires
        t.wf(),
    ensures
        r.0@ == weekday_name_spec((t.day_number() + 3) % 7),
        r.1 == r.0@.len(),
        r.1 <= 9,
{
    proof {
        reveal_strlit("Monday");
        reveal_strlit("Tuesday");
        reveal_strlit("Wednesday");
        reveal_strlit("Thursday");
        reveal_strlit("Friday");
        reveal_strlit("Saturday");
        reveal_strlit("Sunday");
    }
    let i = weekday_index(t);
    if i == 0 {
        ("Monday", 6)
    } else if i == 1 {
        ("Tuesday", 7)
    } else if i == 2 {
        ("Wednesday", 9)
    } else if i == 3 {
        ("Thursday", 8)
    } else if i == 4 {
        ("Friday", 6)
    } else if i == 5 {
        ("Saturday", 8)
    } else {
        ("Sunday", 6)
    }
}

/// The width of the screen, in pixels.
pub const SCREEN_WIDTH: i32 = 128;

/// The width of one character of the weekday font, in pixels.
pub const WEEKDAY_CHAR_WIDTH: i32 = 8;

/// The left edge that centres `chars` characters of the weekday font.
pub fn centered_x(chars: usize) -> (r: i32)
    requires
        chars <= 16,
    ensures
        r == (128 - 8 * chars) / 2,
{
    (SCREEN_WIDTH - WEEKDAY_CHAR_WIDTH * chars as i32) / 2
}

/// A horizontal line on screen, from `(x0, y)` to `(x1, y)`.
#[derive(Clone, Copy, PartialEq, Eq, Structural, Debug)]
pub struct Underline {
    pub x0: i32,
    pub x1: i32,
    pub y: i32,
}

/// Where the cursor underlines each editable field: year, month and day on
/// the date line (8-pixel font), hour, minute and second on the time line
/// (10-pixel font).
pub open spec fn cursor_spec(field: int) -> Option<Underline> {
    if field == 1 {
        Some(Underline { x0: 24, x1: 56, y: 18 })
    } else if field == 2 {
        Some(Underline { x0: 64, x1: 80, y: 18 })
    } else if field == 3 {
        Some(Underline { x0: 88, x1: 104, y: 18 })
    } else if field == 4 {
        Some(Underline { x0: 24, x1: 44, y: 40 })
    } else if field == 5 {
        Some(Underline { x0: 54, x1: 74, y: 40 })
    } else if field == 6 {
        Some(Underline { x0: 84, x1: 104, y: 40 })
    } else {
        None
    }
}

/// The cursor to draw: under the selected field while the blink is on, and
/// none in normal mode.
pub fn cursor_for(field: u32, visible: bool) -> (r: Option<Underline>)
    ensures
        r == (if visible { cursor_spec(field as int) } else { None }),
{
    if !visible {
        None
    } else if field == 1 {
        Some(Underline { x0: 24, x1: 24 + 4 * 8, y: 18 })
    } else if field == 2 {
        Some(Underline { x0: 24 + 5 * 8, x1: 24 + 7 * 8, y: 18 })
    } else if field == 3 {
        Some(Underline { x0: 24 + 8 * 8, x1: 24 + 10 * 8, y: 18 })
    } else if field == 4 {
        Some(Underline { x0: 24, x1: 24 + 2 * 10, y: 40 })
    } else if field == 5 {
        Some(Underline { x0: 24 + 3 * 10, x1: 24 + 5 * 10, y: 40 })
    } else if field == 6 {
        Some(Underline { x0: 24 + 6 * 10, x1: 24 + 8 * 10, y: 40 })
    } else {
        None
    }
}

/// A cursor that turns on and off every `interval` milliseconds.
pub struct CursorBlink {
    visible: bool,
    last_toggle: u64,
    interval: u64,
}

impl CursorBlink {
    pub closed spec fn visible(&self) -> bool {
        self.visible
    }

    pub closed spec fn last_toggle(&self) -> u64 {
        self.last_toggle
    }

    pub closed spec fn interval(&self) -> u64 {
        self.interval
    }

    /// A hidden cursor whose first period starts at `now`.
    pub fn new(now: u64, interval: u64) -> (r: Self)
        ensures
            !r.visible(),
            r.last_toggle() == now,
            r.interval() == interval,
    {
        CursorBlink { visible: false, last_toggle: now, interval }
    }

    /// Toggles the cursor when at least one interval has passed since the
    /// last toggle; returns whether it is visible.
    pub fn update(&mut self, now: u64) -> (r: bool)
        ensures
            final(self).interval() == old(self).interval(),
            if now >= old(self).last_toggle() && now - old(self).last_toggle() >= old(self).interval() {
                final(self).visible() == !old(self).visible() && final(self).last_toggle() == now
            } else {
                final(self).visible() == old(self).visible()
                    && final(self).last_toggle() == old(self).last_toggle()
            },
            r == final(self).visible(),
    {
        if now >= self.last_toggle && now - self.last_toggle >= self.interval {
            self.visible = !self.visible;
            self.last_toggle = now;
        }
        self.visible
    }
}

/// Everything the clock screen shows in one refresh.
pub struct ClockFrame {
    pub date: String,
    pub time: String,
    pub weekday: &'static str,
    pub weekday_x: i32,
    pub cursor: Option<Underline>,
}

/// The clock screen for time `t`, with `field` selected and the cursor
/// blink on or off.
pub fn clock_frame(t: &ClockTime, field: u32, visible: bool) -> (r: ClockFrame)
    requires
        t.wf(),
    ensures
        r.date@ == date_text_spec(*t),
        r.time@ == time_text_spec(*t),
        r.weekday@ == weekday_name_spec((t.day_number() + 3) % 7),
        r.weekday_x == (128 - 8 * r.weekday@.len()) / 2,
        r.cursor == (if visible { cursor_spec(field as int) } else { None }),
{
    let (weekday, len) = weekday_name(t);
    let weekday_x = centered_x(len);
    ClockFrame {
        date: date_text(t),
        time: time_text(t),
        weekday,
        weekday_x,
        cursor: cursor_for(field, visible),
    }
}

/// The state of the clock screen between refreshes: the time and field
/// last received, and the cursor blink.
pub struct ClockScreen {
    time: ClockTime,
    field: u32,
    blink: CursorBlink,
}

impl ClockScreen {
    pub closed spec fn time(&self) -> ClockTime {
        self.time
    }

    pub closed spec fn field(&self) -> u32 {
        self.field
    }

    pub closed spec fn blink(&self) -> CursorBlink {
        self.blink
    }

    pub closed spec fn wf(&self) -> bool {
        self.time.wf()
    }

    /// A screen showing `first`, in normal mode, with the cursor hidden and
    /// blinking every `blink_interval` milliseconds from `now`.
    pub fn new(first: ClockTime, now: u64, blink_interval: u64) -> (r: Self)
        requires
            first.wf(),
        ensures
            r.wf(),
            r.time() == first,
            r.field() == 0,
            !r.blink().visible(),
            r.blink().last_toggle() == now,
            r.blink().interval() == blink_interval,
    {
        ClockScreen { time: first, field: 0, blink: CursorBlink::new(now, blink_interval) }
    }

    /// One refresh at time `now` (milliseconds): updates the blink, takes
    /// the newest time from `times` (a time that names no real date is
    /// ignored), peeks the newest field selection, and returns the frame.
    pub fn refresh(
        &mut self,
        now: u64,
        times: &mut LatestValueChannel<ClockTime>,
        fields: &LatestValueChannel<u32>,
    ) -> (r: ClockFrame)
        requires
            old(self).wf(),
            old(times).wf(),
        ensures
            final(self).wf(),
            final(times).wf(),
            final(times).cap() == old(times).cap(),
            final(times).pending() == Seq::<ClockTime>::empty(),
            final(self).time() == match newest(old(times).pending()) {
                Some(t) => if t.wf() { t } else { old(self).time() },
                None => old(self).time(),
            },
            final(self).field() == match newest(fields.pending()) {
                Some(f) => f,
                None => old(self).field(),
            },
            final(self).blink().interval() == old(self).blink().interval(),
            if now >= old(self).blink().last_toggle() && now - old(self).blink().last_toggle()
                >= old(self).blink().interval() {
                final(self).blink().visible() == !old(self).blink().visible()
            } else {
                final(self).blink().visible() == old(self).blink().visible()
            },
            r.date@ == date_text_spec(final(self).time()),
            r.time@ == time_text_spec(final(self).time()),
            r.weekday@ == weekday_name_spec((final(self).time().day_number() + 3) % 7),
            r.cursor == (if final(self).blink().visible() {
                cursor_spec(final(self).field() as int)
            } else {
                None
            }),
    {
        let visible = self.blink.update(now);
        if let Some(t) = times.try_receive() {
            if t.is_valid() {
                self.time = t;
            }
        }
        if let Some(f) = fields.try_peek() {
            self.field = f;
        }
        clock_frame(&self.time, self.field, visible)
    }
}

} // verus!
