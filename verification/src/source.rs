//! The display composer: turns the latest forecast summary plus the current
//! clock reading into the four fixed-width rows the render target shows.
//!
//! Row 0 is the clock line, row 1 the slot labels, row 2 the temperatures,
//! row 3 the precipitation-flag groups. Composition is a pure function of
//! the `(summary, clock)` pair, never fails, and never produces a row wider
//! than the 20-column target.

use vstd::prelude::*;

use crate::weather::RainSituation;
use crate::weather::WeatherData;
use crate::weather::WeatherEntry;
use crate::LimitedString;
use crate::Text;

verus! {

/// Seconds between two composition ticks.
pub const COMPOSE_TICK_SECS: u64 = 10;

/// A wall-clock reading at the fixed display offset, reduced to plain
/// calendar fields. `weekday` counts days from Monday (0 is Monday).
#[derive(Clone, Copy, PartialEq, Eq, Structural, Debug)]
pub struct ClockTime {
    pub weekday: u8,
    pub month: u8,
    pub day: u8,
    pub hour: u8,
    pub minute: u8,
    pub second: u8,
}

impl ClockTime {
    /// The fields form a plausible calendar reading.
    pub open spec fn wf(&self) -> bool {
        &&& self.weekday < 7
        &&& 1 <= self.month <= 12
        &&& 1 <= self.day <= 31
        &&& self.hour < 24
        &&& self.minute < 60
        &&& self.second < 60
    }
}

/// The current wall-clock reading at the display's fixed offset of two
/// hours east of UTC, reduced to plain calendar fields.
///
/// Relies on `time::OffsetDateTime::now_utc` and `to_offset`, and on the
/// accessors `weekday` (via `number_days_from_monday`, 0 to 6), `month`
/// (via `u8::from`, 1 to 12), `day` (1 to 31), `hour` (below 24), `minute`
/// and `second` (below 60): each returns a value in its calendar range.
/// The result depends on the system clock, so nothing beyond validity is
/// stated of it.
#[verifier::external_body]
pub(crate) fn clock_now() -> (c: ClockTime)
    ensures
        c.wf(),
{
    let offset = time::UtcOffset::from_hms(2, 0, 0).expect("fixed offset is valid");
    let t = time::OffsetDateTime::now_utc().to_offset(offset);
    ClockTime {
        weekday: t.weekday().number_days_from_monday(),
        month: u8::from(t.month()),
        day: t.day(),
        hour: t.hour(),
        minute: t.minute(),
        second: t.second(),
    }
}

/// Appends one character to a string.
///
/// Relies on `String::push` of std: it appends exactly the given character.
#[verifier::external_body]
fn push_char(s: &mut String, c: char)
    ensures
        final(s)@ == old(s)@.push(c),
{
    s.push(c);
}

/// The decimal digit `d` (0 to 9) as a character.
pub open spec fn digit_char(d: int) -> char {
    if d == 0 {
        '0'
    } else if d == 1 {
        '1'
    } else if d == 2 {
        '2'
    } else if d == 3 {
        '3'
    } else if d == 4 {
        '4'
    } else if d == 5 {
        '5'
    } else if d == 6 {
        '6'
    } else if d == 7 {
        '7'
    } else if d == 8 {
        '8'
    } else {
        '9'
    }
}

fn digit_of(d: u8) -> (c: char)
    requires
        d <= 9,
    ensures
        c == digit_char(d as int),
{
    match d {
        0 => '0',
        1 => '1',
        2 => '2',
        3 => '3',
        4 => '4',
        5 => '5',
        6 => '6',
        7 => '7',
        8 => '8',
        _ => '9',
    }
}

/// A number as two decimal digits, zero padded, modulo 100.
pub open spec fn dec2(n: int) -> Seq<char> {
    seq![digit_char((n / 10) % 10), digit_char(n % 10)]
}

fn push_two_digits(s: &mut String, n: u8)
    ensures
        final(s)@ == old(s)@ + dec2(n as int),
{
    push_char(s, digit_of((n / 10) % 10));
    push_char(s, digit_of(n % 10));
    proof {
        assert(final(s)@ =~= old(s)@ + dec2(n as int));
    }
}

/// The decimal digits of a nonnegative number, most significant first.
pub open spec fn dec_digits(n: int) -> Seq<char>
    recommends
        n >= 0,
    decreases n,
{
    if n < 10 {
        seq![digit_char(n)]
    } else {
        dec_digits(n / 10).push(digit_char(n % 10))
    }
}

/// The decimal representation of an integer, with a leading minus sign
/// when it is negative.
pub open spec fn int_chars(t: int) -> Seq<char> {
    if t < 0 {
        seq!['-'] + dec_digits(-t)
    } else {
        dec_digits(t)
    }
}

/// `n` space characters.
pub open spec fn spaces(n: int) -> Seq<char> {
    Seq::new(n as nat, |i: int| ' ')
}

/// A temperature in a three-column field: its decimal representation,
/// right justified, and deterministically truncated to the leftmost three
/// characters when it is wider than the field.
pub open spec fn field3(t: int) -> Seq<char> {
    let r = int_chars(t);
    if r.len() >= 3 {
        r.take(3)
    } else {
        spaces(3 - r.len()) + r
    }
}

/// Every three-column field is exactly three characters wide.
pub proof fn lemma_field3_len(t: int)
    ensures
        field3(t).len() == 3,
{
    if int_chars(t).len() >= 3 {
    } else {
    }
}

fn push_field3(s: &mut String, t: i8)
    ensures
        final(s)@ == old(s)@ + field3(t as int),
{
    let v: i32 = t as i32;
    if v >= 100 {
        push_char(s, digit_of((v / 100) as u8));
        push_char(s, digit_of(((v / 10) % 10) as u8));
        push_char(s, digit_of((v % 10) as u8));
        proof {
            assert(dec_digits(v / 100) =~= seq![digit_char(v as int / 100)]);
            assert(dec_digits(v / 10) =~= seq![
                digit_char(v as int / 100),
                digit_char((v as int / 10) % 10),
            ]);
            assert(int_chars(v as int) =~= seq![
                digit_char(v as int / 100),
                digit_char((v as int / 10) % 10),
                digit_char(v as int % 10),
            ]);
            assert(final(s)@ =~= old(s)@ + field3(t as int));
        }
    } else if v >= 10 {
        push_char(s, ' ');
        push_char(s, digit_of((v / 10) as u8));
        push_char(s, digit_of((v % 10) as u8));
        proof {
            assert(dec_digits(v / 10) =~= seq![digit_char(v as int / 10)]);
            assert(int_chars(v as int) =~= seq![
                digit_char(v as int / 10),
                digit_char(v as int % 10),
            ]);
            assert(spaces(1) =~= seq![' ']);
            assert(final(s)@ =~= old(s)@ + field3(t as int));
        }
    } else if v >= 0 {
        push_char(s, ' ');
        push_char(s, ' ');
        push_char(s, digit_of(v as u8));
        proof {
            assert(int_chars(v as int) =~= seq![digit_char(v as int)]);
            assert(spaces(2) =~= seq![' ', ' ']);
            assert(final(s)@ =~= old(s)@ + field3(t as int));
        }
    } else {
        let a: i32 = -v;
        if a >= 100 {
            push_char(s, '-');
            push_char(s, digit_of((a / 100) as u8));
            push_char(s, digit_of(((a / 10) % 10) as u8));
            proof {
                assert(dec_digits(a / 100) =~= seq![digit_char(a as int / 100)]);
                assert(dec_digits(a / 10) =~= seq![
                    digit_char(a as int / 100),
                    digit_char((a as int / 10) % 10),
                ]);
                assert(int_chars(v as int) =~= seq![
                    '-',
                    digit_char(a as int / 100),
                    digit_char((a as int / 10) % 10),
                    digit_char(a as int % 10),
                ]);
                assert(final(s)@ =~= old(s)@ + field3(t as int));
            }
        } else if a >= 10 {
            push_char(s, '-');
            push_char(s, digit_of((a / 10) as u8));
            push_char(s, digit_of((a % 10) as u8));
            proof {
                assert(dec_digits(a / 10) =~= seq![digit_char(a as int / 10)]);
                assert(int_chars(v as int) =~= seq![
                    '-',
                    digit_char(a as int / 10),
                    digit_char(a as int % 10),
                ]);
                assert(final(s)@ =~= old(s)@ + field3(t as int));
            }
        } else {
            push_char(s, ' ');
            push_char(s, '-');
            push_char(s, digit_of(a as u8));
            proof {
                assert(int_chars(v as int) =~= seq!['-', digit_char(a as int)]);
                assert(spaces(1) =~= seq![' ']);
                assert(final(s)@ =~= old(s)@ + field3(t as int));
            }
        }
    }
}

/// A slot label in a three-column field: left justified, padded with
/// spaces, truncated to the leftmost three characters when wider.
pub open spec fn label_field(l: Seq<char>) -> Seq<char> {
    if l.len() >= 3 {
        l.take(3)
    } else {
        l + spaces(3 - l.len())
    }
}

/// Every label field is exactly three characters wide.
pub proof fn lemma_label_field_len(l: Seq<char>)
    ensures
        label_field(l).len() == 3,
{
    if l.len() >= 3 {
    } else {
    }
}

fn push_label_field(s: &mut String, l: &str)
    ensures
        final(s)@ == old(s)@ + label_field(l@),
{
    let n = l.unicode_len();
    if n >= 3 {
        let t = l.substring_char(0, 3);
        s.append(t);
        proof {
            assert(final(s)@ =~= old(s)@ + label_field(l@));
        }
    } else {
        s.append(l);
        let mut k: usize = n;
        while k < 3
            invariant
                n == l@.len(),
                n <= k <= 3,
                s@ == old(s)@ + l@ + spaces(k - n),
            decreases 3 - k,
        {
            push_char(s, ' ');
            k += 1;
            proof {
                assert(s@ =~= old(s)@ + l@ + spaces(k - n));
            }
        }
        proof {
            assert(final(s)@ =~= old(s)@ + label_field(l@));
        }
    }
}

/// The character shown for a raised flag, or a space for a lowered one.
pub open spec fn flag_char(value: bool, c: char) -> char {
    if value {
        c
    } else {
        ' '
    }
}

/// Picks `c` when the flag is raised and a space otherwise.
pub fn space_or(value: bool, c: char) -> (r: char)
    ensures
        r == flag_char(value, c),
{
    if value {
        c
    } else {
        ' '
    }
}

/// The four-character condition group of one slot: rain, snow and thunder
/// markers followed by a separating space.
pub open spec fn rain_chars(rs: RainSituation) -> Seq<char> {
    seq![flag_char(rs.rain, 'R'), flag_char(rs.snow, 'S'), flag_char(rs.thunder, 'T'), ' ']
}

fn push_rain_chars(s: &mut String, rs: RainSituation)
    ensures
        final(s)@ == old(s)@ + rain_chars(rs),
{
    push_char(s, space_or(rs.rain, 'R'));
    push_char(s, space_or(rs.snow, 'S'));
    push_char(s, space_or(rs.thunder, 'T'));
    push_char(s, ' ');
    proof {
        assert(final(s)@ =~= old(s)@ + rain_chars(rs));
    }
}

/// Renders one slot's condition group as text.
pub fn display_rain_situation(we: &WeatherEntry) -> (r: String)
    ensures
        r@ == rain_chars(we.rain_situation),
{
    let mut s = String::new();
    push_rain_chars(&mut s, we.rain_situation);
    proof {
        assert(s@ =~= rain_chars(we.rain_situation));
    }
    s
}

/// The short weekday name, counting from Monday.
pub open spec fn weekday_name(w: int) -> Seq<char> {
    if w == 0 {
        "Mon"@
    } else if w == 1 {
        "Tue"@
    } else if w == 2 {
        "Wed"@
    } else if w == 3 {
        "Thu"@
    } else if w == 4 {
        "Fri"@
    } else if w == 5 {
        "Sat"@
    } else {
        "Sun"@
    }
}

pub proof fn lemma_weekday_name_len(w: int)
    ensures
        weekday_name(w).len() == 3,
{
    reveal_strlit("Mon");
    reveal_strlit("Tue");
    reveal_strlit("Wed");
    reveal_strlit("Thu");
    reveal_strlit("Fri");
    reveal_strlit("Sat");
    reveal_strlit("Sun");
}

fn weekday_str(w: u8) -> (r: &'static str)
    ensures
        r@ == weekday_name(w as int),
{
    match w {
        0 => "Mon",
        1 => "Tue",
        2 => "Wed",
        3 => "Thu",
        4 => "Fri",
        5 => "Sat",
        _ => "Sun",
    }
}

/// The short month name, counting January as 1.
pub open spec fn month_name(m: int) -> Seq<char> {
    if m == 1 {
        "Jan"@
    } else if m == 2 {
        "Feb"@
    } else if m == 3 {
        "Mar"@
    } else if m == 4 {
        "Apr"@
    } else if m == 5 {
        "May"@
    } else if m == 6 {
        "Jun"@
    } else if m == 7 {
        "Jul"@
    } else if m == 8 {
        "Aug"@
    } else if m == 9 {
        "Sep"@
    } else if m == 10 {
        "Oct"@
    } else if m == 11 {
        "Nov"@
    } else {
        "Dec"@
    }
}

pub proof fn lemma_month_name_len(m: int)
    ensures
        month_name(m).len() == 3,
{
    reveal_strlit("Jan");
    reveal_strlit("Feb");
    reveal_strlit("Mar");
    reveal_strlit("Apr");
    reveal_strlit("May");
    reveal_strlit("Jun");
    reveal_strlit("Jul");
    reveal_strlit("Aug");
    reveal_strlit("Sep");
    reveal_strlit("Oct");
    reveal_strlit("Nov");
    reveal_strlit("Dec");
}

fn month_str(m: u8) -> (r: &'static str)
    ensures
        r@ == month_name(m as int),
{
    match m {
        1 => "Jan",
        2 => "Feb",
        3 => "Mar",
        4 => "Apr",
        5 => "May",
        6 => "Jun",
        7 => "Jul",
        8 => "Aug",
        9 => "Sep",
        10 => "Oct",
        11 => "Nov",
        _ => "Dec",
    }
}

/// Row 0: `<weekday-short> <month-short> <day> <hh>:<mm>:<ss>`.
pub open spec fn clock_row(c: ClockTime) -> Seq<char> {
    weekday_name(c.weekday as int) + seq![' '] + month_name(c.month as int) + seq![' '] + dec2(
        c.day as int,
    ) + seq![' '] + dec2(c.hour as int) + seq![':'] + dec2(c.minute as int) + seq![':'] + dec2(
        c.second as int,
    )
}

/// Row 1: the five slot labels, each in a three-column field, space
/// separated.
pub open spec fn labels_row(d: WeatherData) -> Seq<char> {
    label_field(d.entries@[0].label@) + seq![' '] + label_field(d.entries@[1].label@) + seq![' ']
        + label_field(d.entries@[2].label@) + seq![' '] + label_field(d.entries@[3].label@)
        + seq![' '] + label_field(d.entries@[4].label@)
}

/// Row 2: the five temperatures, each in a three-column field, space
/// separated.
pub open spec fn temps_row(d: WeatherData) -> Seq<char> {
    field3(d.entries@[0].temperature as int) + seq![' '] + field3(
        d.entries@[1].temperature as int,
    ) + seq![' '] + field3(d.entries@[2].temperature as int) + seq![' '] + field3(
        d.entries@[3].temperature as int,
    ) + seq![' '] + field3(d.entries@[4].temperature as int)
}

/// Row 3: the five condition groups, four characters each.
pub open spec fn conditions_row(d: WeatherData) -> Seq<char> {
    rain_chars(d.entries@[0].rain_situation) + rain_chars(d.entries@[1].rain_situation)
        + rain_chars(d.entries@[2].rain_situation) + rain_chars(d.entries@[3].rain_situation)
        + rain_chars(d.entries@[4].rain_situation)
}

/// The four display rows composed from a summary and a clock reading.
pub open spec fn compose_spec(d: WeatherData, c: ClockTime) -> Seq<Seq<char>> {
    seq![clock_row(c), labels_row(d), temps_row(d), conditions_row(d)]
}

/// No composed row is wider than the 20-column render target.
pub proof fn lemma_rows_fit(d: WeatherData, c: ClockTime)
    ensures
        clock_row(c).len() == 19,
        labels_row(d).len() == 19,
        temps_row(d).len() == 19,
        conditions_row(d).len() == 20,
{
    lemma_weekday_name_len(c.weekday as int);
    lemma_month_name_len(c.month as int);
    lemma_label_field_len(d.entries@[0].label@);
    lemma_label_field_len(d.entries@[1].label@);
    lemma_label_field_len(d.entries@[2].label@);
    lemma_label_field_len(d.entries@[3].label@);
    lemma_label_field_len(d.entries@[4].label@);
    lemma_field3_len(d.entries@[0].temperature as int);
    lemma_field3_len(d.entries@[1].temperature as int);
    lemma_field3_len(d.entries@[2].temperature as int);
    lemma_field3_len(d.entries@[3].temperature as int);
    lemma_field3_len(d.entries@[4].temperature as int);
}

fn compose_clock_row(c: &ClockTime) -> (r: String)
    ensures
        r@ == clock_row(*c),
{
    let mut s = String::from_str(weekday_str(c.weekday));
    push_char(&mut s, ' ');
    s.append(month_str(c.month));
    push_char(&mut s, ' ');
    push_two_digits(&mut s, c.day);
    push_char(&mut s, ' ');
    push_two_digits(&mut s, c.hour);
    push_char(&mut s, ':');
    push_two_digits(&mut s, c.minute);
    push_char(&mut s, ':');
    push_two_digits(&mut s, c.second);
    proof {
        assert(s@ =~= clock_row(*c));
    }
    s
}

fn compose_labels_row(d: &WeatherData) -> (r: String)
    ensures
        r@ == labels_row(*d),
{
    let mut s = String::new();
    push_label_field(&mut s, d.entries[0].label);
    push_char(&mut s, ' ');
    push_label_field(&mut s, d.entries[1].label);
    push_char(&mut s, ' ');
    push_label_field(&mut s, d.entries[2].label);
    push_char(&mut s, ' ');
    push_label_field(&mut s, d.entries[3].label);
    push_char(&mut s, ' ');
    push_label_field(&mut s, d.entries[4].label);
    proof {
        assert(s@ =~= labels_row(*d));
    }
    s
}

fn compose_temps_row(d: &WeatherData) -> (r: String)
    ensures
        r@ == temps_row(*d),
{
    let mut s = String::new();
    push_field3(&mut s, d.entries[0].temperature);
    push_char(&mut s, ' ');
    push_field3(&mut s, d.entries[1].temperature);
    push_char(&mut s, ' ');
    push_field3(&mut s, d.entries[2].temperature);
    push_char(&mut s, ' ');
    push_field3(&mut s, d.entries[3].temperature);
    push_char(&mut s, ' ');
    push_field3(&mut s, d.entries[4].temperature);
    proof {
        assert(s@ =~= temps_row(*d));
    }
    s
}

fn compose_conditions_row(d: &WeatherData) -> (r: String)
    ensures
        r@ == conditions_row(*d),
{
    let mut s = String::new();
    push_rain_chars(&mut s, d.entries[0].rain_situation);
    push_rain_chars(&mut s, d.entries[1].rain_situation);
    push_rain_chars(&mut s, d.entries[2].rain_situation);
    push_rain_chars(&mut s, d.entries[3].rain_situation);
    push_rain_chars(&mut s, d.entries[4].rain_situation);
    proof {
        assert(s@ =~= conditions_row(*d));
    }
    s
}

/// The composer: caches the latest forecast summary and renders it, with
/// the clock, into the four display rows on every tick.
pub struct Source {
    pub weather_data: WeatherData,
}

impl Source {
    /// Starts from the placeholder summary, so a display that never
    /// received real data stays recognizable.
    pub fn new() -> (r: Source)
        ensures
            r.weather_data.wf(),
            forall|i: int| 0 <= i < 5 ==> crate::weather::is_placeholder(
                #[trigger] r.weather_data.entries@[i],
            ),
    {
        Source { weather_data: WeatherData::zero() }
    }

    /// Replaces the cached summary unconditionally: no validation, no
    /// merge — the last writer wins.
    pub fn on_forecast_update(&mut self, summary: WeatherData)
        ensures
            final(self).weather_data == summary,
    {
        self.weather_data = summary;
    }

    /// One composition tick: renders the cached summary and the given
    /// clock reading into the four rows. Composition is total — any
    /// summary and any clock reading yield rows that fit the target.
    pub fn on_tick(&self, now: &ClockTime) -> (t: Text)
        ensures
            t@ == compose_spec(self.weather_data, *now),
            t.wf(),
    {
        proof {
            lemma_rows_fit(self.weather_data, *now);
        }
        let r0 = LimitedString::from_string(compose_clock_row(now));
        let r1 = LimitedString::from_string(compose_labels_row(&self.weather_data));
        let r2 = LimitedString::from_string(compose_temps_row(&self.weather_data));
        let r3 = LimitedString::from_string(compose_conditions_row(&self.weather_data));
        let t = Text { rows: [r0, r1, r2, r3] };
        proof {
            assert(t@ =~= compose_spec(self.weather_data, *now));
        }
        t
    }

    /// One self-clocked composition tick: reads the wall clock at the
    /// display's fixed offset and renders the cached summary for it,
    /// exactly as `on_tick` does for that reading.
    pub fn on_tick_now(&self) -> (t: Text)
        ensures
            exists|c: ClockTime| c.wf() && t@ == compose_spec(self.weather_data, c),
            t.wf(),
    {
        let now = clock_now();
        let t = self.on_tick(&now);
        proof {
            assert(now.wf() && t@ == compose_spec(self.weather_data, now));
            assert(exists|c: ClockTime| c.wf() && t@ == compose_spec(self.weather_data, c));
        }
        t
    }

    /// The composer reschedules itself at the fixed cadence whether or not
    /// the send of the composed rows went through.
    pub fn next_tick_delay(&self, send_succeeded: bool) -> (d: u64)
        ensures
            d == COMPOSE_TICK_SECS,
            !send_succeeded ==> d == COMPOSE_TICK_SECS,
    {
        let _ = send_succeeded;
        COMPOSE_TICK_SECS
    }
}

/// Law: row composition is a pure function of the `(summary, clock)` pair —
/// two compositions from identical inputs yield identical rows, character
/// for character.
pub proof fn lemma_compose_idempotent(
    d: WeatherData,
    c: ClockTime,
    r1: Seq<Seq<char>>,
    r2: Seq<Seq<char>>,
)
    requires
        r1 == compose_spec(d, c),
        r2 == compose_spec(d, c),
    ensures
        r1 == r2,
{
}

} // verus!

