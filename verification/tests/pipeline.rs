use weather_clock::lcd_renderer::LcdRenderer;
use weather_clock::owm::Reading;
use weather_clock::owm::Root;
use weather_clock::owm::Weather as Condition;
use weather_clock::shutdown_monitor::PollEvent;
use weather_clock::shutdown_monitor::TerminalShutdownMonitor;
use weather_clock::shutdown_monitor::UnixSignalShutdownMonitor;
use weather_clock::source::Source;
use weather_clock::stdout_renderer::StdoutRenderer;
use weather_clock::weather::FetchError;
use weather_clock::weather::RainSituation;
use weather_clock::weather::Weather;
use weather_clock::weather::WeatherData;
use weather_clock::LimitedString;
use weather_clock::RenderError;

fn cond(id: i64) -> Condition {
    Condition { id, main: String::new(), description: String::new(), icon: String::new() }
}

fn reading(feels_like: i32, ids: &[i64]) -> Reading {
    Reading { feels_like, weather: ids.iter().map(|&id| cond(id)).collect() }
}

fn root_with(current: Reading, hourly: Vec<Reading>, daily: Vec<Reading>) -> Root {
    Root { current, hourly, daily, minutely: Vec::new(), alerts: Vec::new() }
}

fn plain_root() -> Root {
    let hourly: Vec<Reading> = (0..8).map(|i| reading(10 + i, &[800])).collect();
    let daily: Vec<Reading> = (0..2).map(|i| reading(20 + i, &[800])).collect();
    root_with(reading(3, &[800]), hourly, daily)
}

#[test]
fn flags_thunder_code_sets_rain_and_thunder() {
    let r = RainSituation::from_weather(&vec![cond(210)]);
    assert!(r.rain && r.thunder && !r.snow);
}

#[test]
fn flags_rain_band_covers_300_to_599() {
    for id in [300, 450, 501, 599] {
        let r = RainSituation::from_weather(&vec![cond(id)]);
        assert!(r.rain, "code {id} must set rain");
        assert!(!r.thunder && !r.snow, "code {id} sets only rain");
    }
}

#[test]
fn flags_snow_band_covers_600_to_699() {
    for id in [600, 622, 699] {
        let r = RainSituation::from_weather(&vec![cond(id)]);
        assert!(r.snow && !r.rain && !r.thunder, "code {id} sets only snow");
    }
}

#[test]
fn flags_absent_codes_leave_all_false() {
    for ids in [&[][..], &[199][..], &[700][..], &[800, 801][..]] {
        let list: Vec<Condition> = ids.iter().map(|&id| cond(id)).collect();
        let r = RainSituation::from_weather(&list);
        assert!(!r.rain && !r.snow && !r.thunder);
    }
}

#[test]
fn flags_combine_over_the_whole_list() {
    let r = RainSituation::from_weather(&vec![cond(210), cond(605)]);
    assert!(r.rain && r.thunder && r.snow);
}

#[test]
fn flags_boundaries_of_thunder_band() {
    let low = RainSituation::from_weather(&vec![cond(200)]);
    assert!(low.thunder && low.rain);
    let high = RainSituation::from_weather(&vec![cond(299)]);
    assert!(high.thunder && high.rain);
    let past = RainSituation::from_weather(&vec![cond(300)]);
    assert!(!past.thunder && past.rain);
}

#[test]
fn summary_picks_fixed_offsets() {
    let hourly: Vec<Reading> = (0..10).map(|i| reading(i, &[800])).collect();
    let daily: Vec<Reading> = vec![reading(50, &[800]), reading(-3, &[602])];
    let root = root_with(reading(21, &[212]), hourly, daily);
    let w = WeatherData::from_root(&root).unwrap();
    assert_eq!(w.entries[0].temperature, 21);
    assert!(w.entries[0].rain_situation.thunder);
    assert_eq!(w.entries[1].temperature, 2);
    assert_eq!(w.entries[2].temperature, 4);
    assert_eq!(w.entries[3].temperature, 6);
    assert_eq!(w.entries[4].temperature, -3);
    assert!(w.entries[4].rain_situation.snow);
}

#[test]
fn summary_labels_are_fixed_and_ordered() {
    let w = WeatherData::from_root(&plain_root()).unwrap();
    let labels: Vec<&str> = w.entries.iter().map(|e| e.label).collect();
    assert_eq!(labels, vec!["now", "+2h", "+4h", "+6h", "tmr"]);
    let z = WeatherData::zero();
    let labels: Vec<&str> = z.entries.iter().map(|e| e.label).collect();
    assert_eq!(labels, vec!["now", "+2h", "+4h", "+6h", "tmr"]);
}

#[test]
fn summary_has_five_slots_even_for_long_arrays() {
    let hourly: Vec<Reading> = (0..48).map(|i| reading(i, &[800])).collect();
    let daily: Vec<Reading> = (0..8).map(|i| reading(i, &[800])).collect();
    let root = root_with(reading(0, &[800]), hourly, daily);
    let w = WeatherData::from_root(&root).unwrap();
    assert_eq!(w.entries.len(), 5);
}

#[test]
fn summary_saturates_out_of_range_temperatures() {
    let hourly: Vec<Reading> = (0..8).map(|_| reading(1000, &[800])).collect();
    let daily: Vec<Reading> = (0..2).map(|_| reading(-1000, &[800])).collect();
    let root = root_with(reading(127, &[800]), hourly, daily);
    let w = WeatherData::from_root(&root).unwrap();
    assert_eq!(w.entries[0].temperature, 127);
    assert_eq!(w.entries[1].temperature, 127);
    assert_eq!(w.entries[4].temperature, -128);
}

#[test]
fn short_hourly_array_is_a_fetch_error() {
    let hourly: Vec<Reading> = (0..6).map(|i| reading(i, &[800])).collect();
    let daily: Vec<Reading> = (0..2).map(|i| reading(i, &[800])).collect();
    let root = root_with(reading(0, &[800]), hourly, daily);
    assert_eq!(WeatherData::from_root(&root).err(), Some(FetchError::HourlyTooShort));
}

#[test]
fn short_daily_array_is_a_fetch_error() {
    let hourly: Vec<Reading> = (0..7).map(|i| reading(i, &[800])).collect();
    let root = root_with(reading(0, &[800]), hourly, vec![reading(0, &[800])]);
    assert_eq!(WeatherData::from_root(&root).err(), Some(FetchError::DailyTooShort));
}

#[test]
fn zero_summary_is_the_placeholder() {
    let z = WeatherData::zero();
    for e in z.entries.iter() {
        assert_eq!(e.temperature, -17);
        assert!(e.rain_situation.rain && e.rain_situation.snow && e.rain_situation.thunder);
    }
}

#[test]
fn fetcher_builds_the_provider_url() {
    let w = Weather::new("52.52", "13.40", "metric", "APIKEY123");
    assert_eq!(
        w.url(),
        "https://api.openweathermap.org/data/3.0/onecall?units=metric&lat=52.52&lon=13.40&appid=APIKEY123"
    );
}

#[test]
fn failed_cycle_publishes_nothing_and_retries_soon() {
    let w = Weather::new("0", "0", "metric", "k");
    let r = w.run_fetch_cycle(None);
    assert!(r.publish.is_none());
    assert_eq!(r.delay_secs, 10);
}

#[test]
fn malformed_cycle_publishes_nothing_and_retries_soon() {
    let w = Weather::new("0", "0", "metric", "k");
    let short = root_with(reading(0, &[800]), Vec::new(), Vec::new());
    let r = w.run_fetch_cycle(Some(&short));
    assert!(r.publish.is_none());
    assert_eq!(r.delay_secs, 10);
}

#[test]
fn successful_cycle_publishes_once_and_waits_the_period() {
    let w = Weather::new("0", "0", "metric", "k");
    let root = plain_root();
    let r = w.run_fetch_cycle(Some(&root));
    assert!(r.publish.is_some());
    assert_eq!(r.delay_secs, 3600);
}

#[test]
fn composer_stays_on_placeholder_through_three_failures() {
    let fetcher = Weather::new("0", "0", "metric", "k");
    let mut composer = Source::new();
    let mut waited: u64 = 0;
    for _ in 0..3 {
        let r = fetcher.run_fetch_cycle(None);
        assert!(r.publish.is_none());
        waited += r.delay_secs;
        if let Some(w) = r.publish {
            composer.on_forecast_update(w);
        }
    }
    assert!(waited >= 30);
    for e in composer.weather_data.entries.iter() {
        assert_eq!(e.temperature, -17);
    }
    let r = fetcher.run_fetch_cycle(Some(&plain_root()));
    let w = r.publish.expect("fourth cycle succeeds");
    composer.on_forecast_update(w);
    assert_eq!(composer.weather_data.entries[0].temperature, 3);
}

#[test]
fn lcd_dispatcher_caches_and_always_reschedules() {
    let mut d = LcdRenderer::using_bus_and_addr(1, 0x27);
    assert_eq!(d.bus, 1);
    assert_eq!(d.addr, 0x27);
    assert_eq!(d.on_tick(weather_clock::lcd_renderer::Tick).rows[0].as_str(), "");
    let rows = Source::new().on_tick(&sample_clock());
    let expected = rows.rows[2].as_str().to_string();
    d.on_rows_update(rows);
    let shown = d.on_tick(weather_clock::lcd_renderer::Tick);
    assert_eq!(shown.rows[2].as_str(), expected);
    assert_eq!(d.next_tick_delay(&Ok(())), 30);
    assert_eq!(d.next_tick_delay(&Err(RenderError)), 30);
}

#[test]
fn terminal_dispatcher_caches_and_always_reschedules() {
    let mut d = StdoutRenderer::default();
    assert_eq!(d.on_tick(weather_clock::stdout_renderer::Tick).rows[3].as_str(), "");
    let rows = Source::new().on_tick(&sample_clock());
    let expected = rows.rows[3].as_str().to_string();
    d.on_rows_update(rows);
    assert_eq!(d.on_tick(weather_clock::stdout_renderer::Tick).rows[3].as_str(), expected);
    assert_eq!(d.next_tick_delay(&Ok(())), 5);
    assert_eq!(d.next_tick_delay(&Err(RenderError)), 5);
}

fn sample_clock() -> weather_clock::source::ClockTime {
    weather_clock::source::ClockTime { weekday: 2, month: 10, day: 9, hour: 12, minute: 34, second: 56 }
}

#[test]
fn quit_keypress_triggers_exactly_one_send() {
    let mut m = TerminalShutdownMonitor::new();
    m.started();
    let quit = PollEvent::Key { press: true, code: Some('q') };
    assert!(!m.on_poll(&PollEvent::Empty));
    assert!(!m.on_poll(&PollEvent::Key { press: true, code: Some('x') }));
    assert!(!m.on_poll(&PollEvent::Key { press: false, code: Some('q') }));
    assert!(!m.on_poll(&PollEvent::Key { press: true, code: None }));
    assert!(m.on_poll(&quit));
    assert!(!m.on_poll(&quit));
    assert!(!m.on_poll(&quit));
}

#[test]
fn unarmed_monitor_never_sends() {
    let mut m = TerminalShutdownMonitor::new();
    let quit = PollEvent::Key { press: true, code: Some('q') };
    assert!(!m.on_poll(&quit));
}

#[test]
fn signal_monitor_sends_exactly_once() {
    let mut m = UnixSignalShutdownMonitor::new();
    m.started();
    assert!(m.on_signal());
    assert!(!m.on_signal());
}

#[test]
fn self_clocked_tick_renders_a_real_clock_row() {
    let row = Source::new().on_tick_now().rows[0].as_str().to_string();
    assert_eq!(row.len(), 19);
    let weekday = &row[0..3];
    assert!(["Mon", "Tue", "Wed", "Thu", "Fri", "Sat", "Sun"].contains(&weekday));
    let month = &row[4..7];
    assert!(["Jan", "Feb", "Mar", "Apr", "May", "Jun", "Jul", "Aug", "Sep", "Oct", "Nov", "Dec"]
        .contains(&month));
    assert_eq!(&row[3..4], " ");
    assert_eq!(&row[7..8], " ");
    assert_eq!(&row[10..11], " ");
    assert_eq!(&row[13..14], ":");
    assert_eq!(&row[16..17], ":");
    for range in [8..10, 11..13, 14..16, 17..19] {
        assert!(row[range].chars().all(|c| c.is_ascii_digit()));
    }
}

#[test]
fn limited_string_rejects_wide_rows() {
    assert!(LimitedString::from_str("123456789012345678901").is_err());
    let ok = LimitedString::from_str("12345678901234567890").unwrap();
    assert_eq!(ok.as_str(), "12345678901234567890");
    assert_eq!(LimitedString::default().as_str(), "");
}

#[test]
fn rain_situation_display_shows_flag_letters() {
    let e = weather_clock::weather::WeatherEntry {
        temperature: 0,
        rain_situation: RainSituation { rain: true, snow: false, thunder: true },
        label: "now",
    };
    assert_eq!(weather_clock::source::display_rain_situation(&e), "R T ");
    assert_eq!(weather_clock::source::space_or(true, 'R'), 'R');
    assert_eq!(weather_clock::source::space_or(false, 'R'), ' ');
}

#[test]
fn limited_string_counts_characters_not_bytes() {
    let ten_wide = "éééééééééé";
    assert!(ten_wide.len() > 10);
    let ls = LimitedString::from_str(ten_wide).unwrap();
    assert_eq!(ls.as_str(), ten_wide);
}
