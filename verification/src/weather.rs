//! The five-slot forecast summary and the fetch cycle that keeps it fresh.
//!
//! `WeatherData` is the immutable snapshot the rest of the pipeline consumes:
//! exactly five slots (now, +2h, +4h, +6h, tomorrow) in fixed label order.
//! `Weather` owns the retry policy of the periodic provider fetch: one
//! outbound call per cycle, a short retry delay after a failure, a full
//! period after a success.

use vstd::prelude::*;

use crate::owm::Root;
use crate::owm::Weather as Condition;

verus! {

/// Seconds to wait before retrying after a failed fetch cycle.
pub const RETRY_DELAY_SECS: u64 = 10;

/// Seconds to wait until the next fetch after a successful cycle.
pub const FETCH_PERIOD_SECS: u64 = 3600;

/// The temperature sentinel of the startup placeholder: far outside any
/// real perceived reading, so a never-updated display is recognizable.
pub const UNKNOWN_TEMPERATURE: i8 = -17;

/// The three independent precipitation flags derived from the provider's
/// weather-condition codes.
#[derive(Clone, Copy, PartialEq, Eq, Structural, Debug)]
pub struct RainSituation {
    pub rain: bool,
    pub snow: bool,
    pub thunder: bool,
}

/// Holds when some condition code in `ws` lies in `[lo, hi)`.
pub open spec fn has_code_in(ws: Seq<Condition>, lo: int, hi: int) -> bool {
    exists|i: int| 0 <= i < ws.len() && lo <= #[trigger] ws[i].id < hi
}

/// The precipitation flags a condition list derives to: a code in
/// [200, 300) means thunder (and rain), [300, 600) means rain,
/// [600, 700) means snow; with no matching code all flags are false.
pub open spec fn flags_of(ws: Seq<Condition>) -> RainSituation {
    RainSituation {
        rain: has_code_in(ws, 200, 600),
        snow: has_code_in(ws, 600, 700),
        thunder: has_code_in(ws, 200, 300),
    }
}

impl RainSituation {
    /// Derives the three flags from a condition list. The derivation is a
    /// function of the codes alone: any code in [200, 300) sets thunder and
    /// rain, [300, 600) sets rain, [600, 700) sets snow, and a flag without
    /// a matching code stays false.
    pub fn from_weather(ws: &Vec<Condition>) -> (r: RainSituation)
        ensures
            r == flags_of(ws@),
            r.rain <==> has_code_in(ws@, 200, 600),
            r.snow <==> has_code_in(ws@, 600, 700),
            r.thunder <==> has_code_in(ws@, 200, 300),
    {
        let mut rain = false;
        let mut snow = false;
        let mut thunder = false;
        let mut i: usize = 0;
        while i < ws.len()
            invariant
                i <= ws@.len(),
                rain <==> exists|j: int| 0 <= j < i && 200 <= #[trigger] ws@[j].id < 600,
                snow <==> exists|j: int| 0 <= j < i && 600 <= #[trigger] ws@[j].id < 700,
                thunder <==> exists|j: int| 0 <= j < i && 200 <= #[trigger] ws@[j].id < 300,
            decreases ws@.len() - i,
        {
            let id = ws[i].id;
            if 200 <= id && id < 600 {
                rain = true;
            }
            if 600 <= id && id < 700 {
                snow = true;
            }
            if 200 <= id && id < 300 {
                thunder = true;
            }
            i += 1;
        }
        RainSituation { rain, snow, thunder }
    }
}

impl Default for RainSituation {
    /// No precipitation at all.
    fn default() -> (r: Self)
        ensures
            !r.rain && !r.snow && !r.thunder,
    {
        RainSituation { rain: false, snow: false, thunder: false }
    }
}

/// One slot of the summary: a rounded perceived temperature, the derived
/// precipitation flags, and the fixed slot label.
#[derive(Clone, Copy)]
pub struct WeatherEntry {
    pub temperature: i8,
    pub rain_situation: RainSituation,
    pub label: &'static str,
}

/// The startup placeholder reading: sentinel temperature, every
/// precipitation flag raised.
pub open spec fn is_placeholder(e: WeatherEntry) -> bool {
    &&& e.temperature == UNKNOWN_TEMPERATURE
    &&& e.rain_situation.rain
    &&& e.rain_situation.snow
    &&& e.rain_situation.thunder
}

impl Default for WeatherEntry {
    /// The placeholder slot a never-updated summary shows.
    fn default() -> (r: Self)
        ensures
            is_placeholder(r),
            r.label@ == Seq::<char>::empty(),
    {
        proof {
            reveal_strlit("");
        }
        WeatherEntry {
            temperature: UNKNOWN_TEMPERATURE,
            rain_situation: RainSituation { rain: true, snow: true, thunder: true },
            label: "",
        }
    }
}

/// An out-of-range temperature clipped to what one display slot holds.
pub open spec fn clamp_temp(v: int) -> int {
    if v < -128 {
        -128
    } else if v > 127 {
        127
    } else {
        v
    }
}

/// Saturates a rounded reading into the signed byte a slot stores.
fn saturate_temp(v: i32) -> (r: i8)
    ensures
        r as int == clamp_temp(v as int),
{
    if v < -128 {
        -128
    } else if v > 127 {
        127
    } else {
        v as i8
    }
}

/// Slot `e` is the summary of reading `rd` under label `label`.
pub open spec fn entry_matches(e: WeatherEntry, rd: crate::owm::Reading, label: Seq<char>) -> bool {
    &&& e.temperature as int == clamp_temp(rd.feels_like as int)
    &&& e.rain_situation == flags_of(rd.weather@)
    &&& e.label@ == label
}

/// The immutable forecast snapshot: exactly five slots, indices 0 to 4
/// standing for now, +2h, +4h, +6h and tomorrow.
#[derive(Clone, Copy)]
pub struct WeatherData {
    pub entries: [WeatherEntry; 5],
}

impl WeatherData {
    /// The slot labels stand in their fixed order.
    pub open spec fn wf(&self) -> bool {
        &&& self.entries@[0].label@ == "now"@
        &&& self.entries@[1].label@ == "+2h"@
        &&& self.entries@[2].label@ == "+4h"@
        &&& self.entries@[3].label@ == "+6h"@
        &&& self.entries@[4].label@ == "tmr"@
    }

    /// `self` is the summary derived from provider response `root`.
    pub open spec fn summarizes(&self, root: Root) -> bool {
        &&& self.wf()
        &&& entry_matches(self.entries@[0], root.current, "now"@)
        &&& entry_matches(self.entries@[1], root.hourly@[2], "+2h"@)
        &&& entry_matches(self.entries@[2], root.hourly@[4], "+4h"@)
        &&& entry_matches(self.entries@[3], root.hourly@[6], "+6h"@)
        &&& entry_matches(self.entries@[4], root.daily@[1], "tmr"@)
    }

    /// The startup value: every slot the placeholder, labels already in
    /// their fixed order.
    pub fn zero() -> (r: Self)
        ensures
            r.wf(),
            forall|i: int| 0 <= i < 5 ==> is_placeholder(#[trigger] r.entries@[i]),
    {
        let flags = RainSituation { rain: true, snow: true, thunder: true };
        WeatherData {
            entries: [
                WeatherEntry { temperature: UNKNOWN_TEMPERATURE, rain_situation: flags, label: "now" },
                WeatherEntry { temperature: UNKNOWN_TEMPERATURE, rain_situation: flags, label: "+2h" },
                WeatherEntry { temperature: UNKNOWN_TEMPERATURE, rain_situation: flags, label: "+4h" },
                WeatherEntry { temperature: UNKNOWN_TEMPERATURE, rain_situation: flags, label: "+6h" },
                WeatherEntry { temperature: UNKNOWN_TEMPERATURE, rain_situation: flags, label: "tmr" },
            ],
        }
    }

    /// Builds the five-slot summary from a provider response: the current
    /// reading, the hourly readings at offsets +2h, +4h and +6h (indices 2,
    /// 4, 6), and tomorrow's daily reading (index 1). A response whose
    /// arrays are too short for those indices is a fetch failure, never an
    /// out-of-range access.
    pub fn from_root(root: &Root) -> (r: Result<WeatherData, FetchError>)
        ensures
            r is Ok <==> root.hourly@.len() >= 7 && root.daily@.len() >= 2,
            r matches Ok(w) ==> w.summarizes(*root),
            root.hourly@.len() < 7 ==> r == Err::<WeatherData, FetchError>(FetchError::HourlyTooShort),
            root.hourly@.len() >= 7 && root.daily@.len() < 2 ==> r == Err::<WeatherData, FetchError>(
                FetchError::DailyTooShort,
            ),
    {
        if root.hourly.len() < 7 {
            return Err(FetchError::HourlyTooShort);
        }
        if root.daily.len() < 2 {
            return Err(FetchError::DailyTooShort);
        }
        let current = WeatherEntry {
            temperature: saturate_temp(root.current.feels_like),
            rain_situation: RainSituation::from_weather(&root.current.weather),
            label: "now",
        };
        let hour_1 = WeatherEntry {
            temperature: saturate_temp(root.hourly[2].feels_like),
            rain_situation: RainSituation::from_weather(&root.hourly[2].weather),
            label: "+2h",
        };
        let hour_2 = WeatherEntry {
            temperature: saturate_temp(root.hourly[4].feels_like),
            rain_situation: RainSituation::from_weather(&root.hourly[4].weather),
            label: "+4h",
        };
        let hour_3 = WeatherEntry {
            temperature: saturate_temp(root.hourly[6].feels_like),
            rain_situation: RainSituation::from_weather(&root.hourly[6].weather),
            label: "+6h",
        };
        let tomorrow = WeatherEntry {
            temperature: saturate_temp(root.daily[1].feels_like),
            rain_situation: RainSituation::from_weather(&root.daily[1].weather),
            label: "tmr",
        };
        Ok(WeatherData { entries: [current, hour_1, hour_2, hour_3, tomorrow] })
    }
}

/// The provider URL for the given query parameters.
pub open spec fn owm_url_spec(
    latitude: Seq<char>,
    longitude: Seq<char>,
    units: Seq<char>,
    appid: Seq<char>,
) -> Seq<char> {
    "https://api.openweathermap.org/data/3.0/onecall?units="@ + units + "&lat="@ + latitude
        + "&lon="@ + longitude + "&appid="@ + appid
}

/// What one fetch cycle decided: the summary to publish, if the cycle
/// succeeded, and how long to wait before the next outbound call.
pub struct CycleResult {
    pub publish: Option<WeatherData>,
    pub delay_secs: u64,
}

/// The forecast fetcher: owns the provider URL and the retry policy that
/// keeps a subscriber supplied with a fresh summary, tolerating provider
/// failures indefinitely.
pub struct Weather {
    pub owm_url: String,
}

impl Weather {
    /// Builds the fetcher for one location, unit system and API key.
    pub fn new(latitude: &str, longitude: &str, units: &str, appid: &str) -> (r: Weather)
        ensures
            r.owm_url@ == owm_url_spec(latitude@, longitude@, units@, appid@),
    {
        let mut url = String::from_str("https://api.openweathermap.org/data/3.0/onecall?units=");
        url.append(units);
        url.append("&lat=");
        url.append(latitude);
        url.append("&lon=");
        url.append(longitude);
        url.append("&appid=");
        url.append(appid);
        proof {
            assert(url@ =~= owm_url_spec(latitude@, longitude@, units@, appid@));
        }
        Weather { owm_url: url }
    }

    /// The URL each outbound call is made against.
    pub fn url(&self) -> (r: &str)
        ensures
            r@ == self.owm_url@,
    {
        self.owm_url.as_str()
    }

    /// One fetch cycle, after its single outbound call came back: on a
    /// response that summarizes, publish exactly one fresh summary and wait
    /// the full period; on a transport failure (`None`) or a response whose
    /// arrays are too short, publish nothing and retry after the short
    /// delay. The retry count is unbounded: every cycle schedules a next one.
    pub fn run_fetch_cycle(&self, outcome: Option<&Root>) -> (r: CycleResult)
        ensures
            r.publish is Some <==> (outcome matches Some(root) && root.hourly@.len() >= 7
                && root.daily@.len() >= 2),
            outcome matches Some(root) ==> (root.hourly@.len() >= 7 && root.daily@.len() >= 2
                ==> {
                    &&& r.publish matches Some(w) && w.summarizes(*root)
                    &&& r.delay_secs == FETCH_PERIOD_SECS
                }),
            r.publish is None ==> r.delay_secs == RETRY_DELAY_SECS,
            r.delay_secs as int == cycle_delay(r.publish is Some),
    {
        match outcome {
            None => CycleResult { publish: None, delay_secs: RETRY_DELAY_SECS },
            Some(root) => match WeatherData::from_root(root) {
                Ok(w) => CycleResult { publish: Some(w), delay_secs: FETCH_PERIOD_SECS },
                Err(_) => CycleResult { publish: None, delay_secs: RETRY_DELAY_SECS },
            },
        }
    }
}

/// The wait a cycle schedules after its outbound call: the full period
/// after a success, the short retry delay after a failure.
pub open spec fn cycle_delay(success: bool) -> int {
    if success {
        FETCH_PERIOD_SECS as int
    } else {
        RETRY_DELAY_SECS as int
    }
}

/// When call number `i` goes out, counting seconds from the first call:
/// each cycle makes exactly one call and then waits out its delay.
pub open spec fn call_time(outcomes: Seq<bool>, i: int) -> int
    decreases i,
{
    if i <= 0 {
        0
    } else {
        call_time(outcomes, i - 1) + cycle_delay(outcomes[i - 1])
    }
}

/// Law: consecutive outbound calls are at least the retry delay apart;
/// after a failed cycle the gap is exactly the retry delay, and after a
/// successful one exactly the full fetch period.
pub proof fn lemma_fetch_spacing(outcomes: Seq<bool>, i: int)
    requires
        0 <= i < outcomes.len(),
    ensures
        call_time(outcomes, i + 1) - call_time(outcomes, i) >= RETRY_DELAY_SECS as int,
        outcomes[i] ==> call_time(outcomes, i + 1) - call_time(outcomes, i)
            == FETCH_PERIOD_SECS as int,
        !outcomes[i] ==> call_time(outcomes, i + 1) - call_time(outcomes, i)
            == RETRY_DELAY_SECS as int,
{
}

/// Law: during a run of `n` consecutive failures from the start, exactly
/// one call goes out every retry delay — so no more than `n` calls have
/// been made when the run is `n` cycles old.
pub proof fn lemma_failure_run_times(outcomes: Seq<bool>, n: int)
    requires
        0 <= n <= outcomes.len(),
        forall|j: int| 0 <= j < n ==> !outcomes[j],
    ensures
        call_time(outcomes, n) == n * RETRY_DELAY_SECS as int,
    decreases n,
{
    if n > 0 {
        lemma_failure_run_times(outcomes, n - 1);
        assert(call_time(outcomes, n) == (n - 1) * RETRY_DELAY_SECS as int
            + RETRY_DELAY_SECS as int) by (nonlinear_arith)
            requires
                call_time(outcomes, n) == call_time(outcomes, n - 1) + RETRY_DELAY_SECS as int,
                call_time(outcomes, n - 1) == (n - 1) * RETRY_DELAY_SECS as int,
        ;
        assert((n - 1) * RETRY_DELAY_SECS as int + RETRY_DELAY_SECS as int == n
            * RETRY_DELAY_SECS as int) by (nonlinear_arith);
    }
}

/// Why a provider response could not be summarized.
#[derive(Clone, Copy, PartialEq, Eq, Structural, Debug)]
pub enum FetchError {
    /// The hourly array is missing one of the consumed offsets (+2h, +4h, +6h).
    HourlyTooShort,
    /// The daily array is missing tomorrow's entry.
    DailyTooShort,
}

} // verus!
