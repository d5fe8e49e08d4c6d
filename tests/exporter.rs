use openweathermap_exporter::metrics::{decimal_text, export_report, Exporter};
use openweathermap_exporter::outcome::{Outcome, OutcomeCell};
use openweathermap_exporter::poller::{outcome_of, query_params, FetchResult, Pause, PollState, Poller};
use openweathermap_exporter::reading::{
    Coordinates, Measure, Report, ReportClouds, ReportCondition, ReportMain, ReportRain,
    ReportSnow, ReportWind,
};
use openweathermap_exporter::units::Units;

fn m(s: &str) -> Measure {
    Measure { text: s.to_string() }
}

fn condition(main: &str, description: &str) -> ReportCondition {
    ReportCondition {
        id: 804,
        main: main.to_string(),
        description: description.to_string(),
        icon: "04d".to_string(),
    }
}

fn london_report() -> Report {
    Report {
        coord: Coordinates { lat: m("51.5"), lon: m("-0.1") },
        weather: vec![condition("Clouds", "overcast clouds")],
        main: ReportMain {
            temp: m("10"),
            feels_like: m("8.5"),
            temp_min: m("9"),
            temp_max: m("11"),
            pressure: m("1012"),
            humidity: m("80"),
        },
        wind: ReportWind { speed: m("3.2"), deg: 180 },
        rain: ReportRain { volume_1h: None, volume_3h: None },
        snow: ReportSnow { volume_1h: None, volume_3h: None },
        clouds: ReportClouds { all: 90 },
        visibility: None,
    }
}

fn lines(text: &str) -> Vec<&str> {
    text.lines().collect()
}

#[test]
fn units_table() {
    assert_eq!(Units::Kelvin.api_param(), None);
    assert_eq!(Units::Metric.api_param(), Some("metric"));
    assert_eq!(Units::Imperial.api_param(), Some("imperial"));
    assert_eq!(Units::Kelvin.units_temp(), "k");
    assert_eq!(Units::Metric.units_temp(), "c");
    assert_eq!(Units::Imperial.units_temp(), "f");
    assert_eq!(Units::Kelvin.units_speed(), "m/s");
    assert_eq!(Units::Metric.units_speed(), "m/s");
    assert_eq!(Units::Imperial.units_speed(), "mph");
    for u in [Units::Kelvin, Units::Metric, Units::Imperial] {
        assert_eq!(u.units_pressure(), "hPa");
    }
}

#[test]
fn units_names_round_trip() {
    for u in [Units::Kelvin, Units::Metric, Units::Imperial] {
        assert_eq!(Units::from_str(u.name()).unwrap(), u);
    }
    assert_eq!(Units::Kelvin.name(), "kelvin");
}

#[test]
fn units_parse_ignores_ascii_case() {
    assert_eq!(Units::from_str("METRIC").unwrap(), Units::Metric);
    assert_eq!(Units::from_str("Imperial").unwrap(), Units::Imperial);
    assert_eq!(Units::from_str("kElViN").unwrap(), Units::Kelvin);
}

#[test]
fn units_parse_rejects_other_names() {
    let e = Units::from_str("Celsius").unwrap_err();
    assert_eq!(e.input, "celsius");
    assert!(Units::from_str("").is_err());
    assert!(Units::from_str("metric ").is_err());
}

#[test]
fn cell_starts_unavailable() {
    let c = OutcomeCell::new();
    assert!(matches!(c.read(), Outcome::Unavailable));
}

#[test]
fn cell_write_then_read_returns_ready() {
    let mut c = OutcomeCell::new();
    c.write(Outcome::Ready(london_report()));
    match c.read() {
        Outcome::Ready(r) => {
            assert_eq!(r.main.temp.text, "10");
            assert_eq!(r.weather.len(), 1);
            assert_eq!(r.weather[0].description, "overcast clouds");
            assert_eq!(r.clouds.all, 90);
        },
        other => panic!("unexpected {:?}", other),
    }
}

#[test]
fn cell_write_discards_previous() {
    let mut c = OutcomeCell::new();
    c.write(Outcome::Ready(london_report()));
    c.write(Outcome::Failed(Some(503)));
    assert!(matches!(c.read(), Outcome::Failed(Some(503))));
    c.write(Outcome::Failed(None));
    assert!(matches!(c.read(), Outcome::Failed(None)));
}

#[test]
fn decimal_rendering() {
    assert_eq!(decimal_text(0), "0");
    assert_eq!(decimal_text(7), "7");
    assert_eq!(decimal_text(10), "10");
    assert_eq!(decimal_text(503), "503");
    assert_eq!(decimal_text(u64::MAX), "18446744073709551615");
}

#[test]
fn unavailable_exports_nothing() {
    let e = Exporter::new();
    assert_eq!(export_report(&e, &Outcome::Unavailable, &Units::Metric), "");
    let mut tagged = Exporter::new();
    tagged.add_global_label("location", "home");
    assert_eq!(export_report(&tagged, &Outcome::Unavailable, &Units::Kelvin), "");
}

#[test]
fn failure_with_status_exports_two_error_lines() {
    let e = Exporter::new();
    let text = export_report(&e, &Outcome::Failed(Some(503)), &Units::Metric);
    assert_eq!(text, "owm_error 1\nowm_error{code=\"503\"} 1\n");
}

#[test]
fn failure_without_status_exports_one_error_line() {
    let e = Exporter::new();
    let text = export_report(&e, &Outcome::Failed(None), &Units::Metric);
    assert_eq!(text, "owm_error 1\n");
}

#[test]
fn global_label_is_appended_to_every_line() {
    let mut e = Exporter::new();
    e.add_global_label("location", "london");
    let text = export_report(&e, &Outcome::Failed(Some(404)), &Units::Kelvin);
    assert_eq!(
        text,
        "owm_error{location=\"london\"} 1\nowm_error{code=\"404\",location=\"london\"} 1\n"
    );
    let ready = export_report(&e, &Outcome::Ready(london_report()), &Units::Metric);
    for line in lines(&ready) {
        assert!(line.contains("location=\"london\"}"), "{}", line);
    }
}

#[test]
fn export_is_repeatable() {
    let mut e = Exporter::new();
    e.add_global_label("location", "x");
    let o = Outcome::Ready(london_report());
    let a = export_report(&e, &o, &Units::Imperial);
    let b = export_report(&e, &o, &Units::Imperial);
    assert_eq!(a, b);
}

#[test]
fn no_precipitation_lines_without_volumes() {
    let e = Exporter::new();
    let text = export_report(&e, &Outcome::Ready(london_report()), &Units::Metric);
    assert!(!text.contains("owm_rain_volume"));
    assert!(!text.contains("owm_snow_volume"));
}

#[test]
fn one_hour_rain_volume_exports_one_rain_line() {
    let e = Exporter::new();
    let mut r = london_report();
    r.rain.volume_1h = Some(m("0.25"));
    let text = export_report(&e, &Outcome::Ready(r), &Units::Metric);
    let rain: Vec<&str> = lines(&text).into_iter().filter(|l| l.starts_with("owm_rain_volume")).collect();
    assert_eq!(rain, vec!["owm_rain_volume{period=\"1h\",unit=\"mm\"} 0.25"]);
    assert!(!text.contains("owm_snow_volume"));
}

#[test]
fn all_volumes_export_in_order() {
    let e = Exporter::new();
    let mut r = london_report();
    r.rain.volume_1h = Some(m("1"));
    r.rain.volume_3h = Some(m("2"));
    r.snow.volume_1h = Some(m("3"));
    r.snow.volume_3h = Some(m("4"));
    let text = export_report(&e, &Outcome::Ready(r), &Units::Metric);
    let volumes: Vec<&str> = lines(&text).into_iter().filter(|l| l.contains("_volume")).collect();
    assert_eq!(
        volumes,
        vec![
            "owm_rain_volume{period=\"1h\",unit=\"mm\"} 1",
            "owm_rain_volume{period=\"3h\",unit=\"mm\"} 2",
            "owm_snow_volume{period=\"1h\",unit=\"mm\"} 3",
            "owm_snow_volume{period=\"3h\",unit=\"mm\"} 4",
        ]
    );
}

#[test]
fn two_conditions_export_two_lines() {
    let e = Exporter::new();
    let mut r = london_report();
    r.weather = vec![condition("Rain", "light rain"), condition("Mist", "mist")];
    let text = export_report(&e, &Outcome::Ready(r), &Units::Metric);
    let conds: Vec<&str> = lines(&text).into_iter().filter(|l| l.starts_with("owm_condition")).collect();
    assert_eq!(
        conds,
        vec!["owm_condition{kind=\"light rain\"} 1", "owm_condition{kind=\"mist\"} 1"]
    );
}

#[test]
fn visibility_is_exported_in_meters() {
    let e = Exporter::new();
    let mut r = london_report();
    r.visibility = Some(10000);
    let text = export_report(&e, &Outcome::Ready(r), &Units::Imperial);
    assert!(text.ends_with("owm_visiblity{unit=\"meters\"} 10000\n"));
}

#[test]
fn imperial_labels() {
    let e = Exporter::new();
    let text = export_report(&e, &Outcome::Ready(london_report()), &Units::Imperial);
    assert!(text.contains("owm_temp{unit=\"f\"} 10\n"));
    assert!(text.contains("owm_wind_speed{unit=\"mph\"} 3.2\n"));
    assert!(text.contains("owm_pressure{unit=\"hPa\"} 1012\n"));
}

#[test]
fn london_metric_end_to_end() {
    let coords = Coordinates { lat: m("51.5"), lon: m("-0.1") };
    let mut poller = Poller::new(&coords, "SECRET-REDACTED", Units::Metric);
    let mut cell = OutcomeCell::new();
    let pause = poller.complete(&mut cell, FetchResult::Parsed(london_report()));
    assert_eq!(pause, Pause::Normal);
    let e = Exporter::new();
    let text = export_report(&e, cell.read(), &Units::Metric);
    assert_eq!(
        text,
        "owm_error 0\n\
         owm_temp{unit=\"c\"} 10\n\
         owm_temp_min{unit=\"c\"} 9\n\
         owm_temp_max{unit=\"c\"} 11\n\
         owm_feels_like{unit=\"c\"} 8.5\n\
         owm_humidity{unit=\"percent\"} 80\n\
         owm_pressure{unit=\"hPa\"} 1012\n\
         owm_clouds_all{unit=\"percent\"} 90\n\
         owm_wind_direction{unit=\"degrees\"} 180\n\
         owm_wind_speed{unit=\"m/s\"} 3.2\n\
         owm_condition{kind=\"overcast clouds\"} 1\n"
    );
    assert!(!text.contains("rain"));
    assert!(!text.contains("snow"));
    assert!(!text.contains("visib"));
}

#[test]
fn query_for_kelvin_has_no_units() {
    let coords = Coordinates { lat: m("51.5"), lon: m("-0.1") };
    let q = query_params(&coords, "key", Units::Kelvin);
    let expected: Vec<(String, String)> = vec![
        ("lat".to_string(), "51.5".to_string()),
        ("lon".to_string(), "-0.1".to_string()),
        ("appid".to_string(), "key".to_string()),
    ];
    assert_eq!(q, expected);
}

#[test]
fn query_for_metric_and_imperial_has_units() {
    let coords = Coordinates { lat: m("1"), lon: m("2") };
    let q = query_params(&coords, "key", Units::Metric);
    assert_eq!(q.len(), 4);
    assert_eq!(q[3], ("units".to_string(), "metric".to_string()));
    let q = query_params(&coords, "key", Units::Imperial);
    assert_eq!(q[3], ("units".to_string(), "imperial".to_string()));
}

#[test]
fn fetch_results_map_to_outcomes() {
    let (o, p) = outcome_of(FetchResult::ErrorStatus(401));
    assert!(matches!(o, Outcome::Failed(Some(401))));
    assert_eq!(p, Pause::Backoff);
    let (o, p) = outcome_of(FetchResult::Failed);
    assert!(matches!(o, Outcome::Failed(None)));
    assert_eq!(p, Pause::Backoff);
    let (o, p) = outcome_of(FetchResult::Parsed(london_report()));
    assert!(matches!(o, Outcome::Ready(_)));
    assert_eq!(p, Pause::Normal);
}

#[test]
fn poller_cycle() {
    let coords = Coordinates { lat: m("1"), lon: m("2") };
    let mut poller = Poller::new(&coords, "key", Units::Kelvin);
    assert_eq!(poller.state(), PollState::Fetching);
    assert_eq!(poller.query().len(), 3);
    let mut cell = OutcomeCell::new();
    let p = poller.complete(&mut cell, FetchResult::ErrorStatus(503));
    assert_eq!(p, Pause::Backoff);
    assert_eq!(poller.state(), PollState::Cooldown(Pause::Backoff));
    assert!(matches!(cell.read(), Outcome::Failed(Some(503))));
    poller.resume();
    assert_eq!(poller.state(), PollState::Fetching);
    let p = poller.complete(&mut cell, FetchResult::Parsed(london_report()));
    assert_eq!(p, Pause::Normal);
    assert_eq!(poller.state(), PollState::Cooldown(Pause::Normal));
    assert!(matches!(cell.read(), Outcome::Ready(_)));
}

#[test]
fn coordinates_split_at_first_comma() {
    let (lat, lon) = Coordinates::split_text("51.5,-0.1");
    assert_eq!(lat, "51.5");
    assert_eq!(lon, Some("-0.1".to_string()));
    let (lat, lon) = Coordinates::split_text("1,2,3");
    assert_eq!(lat, "1");
    assert_eq!(lon, Some("2,3".to_string()));
    let (lat, lon) = Coordinates::split_text("51.5");
    assert_eq!(lat, "51.5");
    assert_eq!(lon, None);
    let (lat, lon) = Coordinates::split_text(",");
    assert_eq!(lat, "");
    assert_eq!(lon, Some(String::new()));
}
