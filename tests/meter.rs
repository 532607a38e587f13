use plug_meter::plug::{
    after_send, delay_to_next_minute, Config, InstantaneousMeter, Measurement, Meter,
    MeterError, MinuteMeter, Next, Response,
};
use plug_meter::point::Measurement as Kind;

fn device(name: &str, host: &str, interval: i32) -> Config {
    Config {
        name: name.to_string(),
        host: host.to_string(),
        instantaneous_meter_interval_in_s: interval,
    }
}

fn reading(valid: bool, timestamp: i64, counters: Vec<i64>) -> Measurement {
    Measurement { power: 42_500_000, is_valid: valid, timestamp, counters, total: 600_000_000 }
}

#[test]
fn endpoint_url_names_host() {
    let c = device("kitchen", "10.0.0.5", 30);
    assert_eq!(c.meter_endpoint_url(), "http://10.0.0.5/meter/0");
}

#[test]
fn interval_negative_disables_polling() {
    assert_eq!(device("a", "h", -1).instantaneous_meter_interval(), None);
    assert_eq!(device("a", "h", 0).instantaneous_meter_interval(), Some(0));
    assert_eq!(device("a", "h", 30).instantaneous_meter_interval(), Some(30_000));
}

#[test]
fn not_connected_retries_after_a_minute() {
    let m = Meter::new(&device("a", "h", 5), 2000);
    assert_eq!(m.timeout, 2000);
    assert!(matches!(m.measure(Response::NotConnected), Err(MeterError::Recoverable(60_000))));
}

#[test]
fn http_error_status_retries_after_ten_minutes() {
    let m = Meter::new(&device("a", "h", 5), 2000);
    assert!(matches!(m.measure(Response::HttpStatus(500)), Err(MeterError::Recoverable(600_000))));
    assert!(matches!(m.measure(Response::HttpStatus(404)), Err(MeterError::Recoverable(600_000))));
}

#[test]
fn unparsable_body_is_unrecoverable() {
    let m = Meter::new(&device("a", "plug.lan", 5), 2000);
    match m.measure(Response::Unparsable) {
        Err(MeterError::Unrecoverable(s)) => assert_eq!(
            s,
            "plug.lan did not return JSON with the expected grammar. Measurements are stopped."
        ),
        _ => panic!("expected an unrecoverable error"),
    }
}

#[test]
fn wrong_number_of_counters_is_unrecoverable() {
    let m = Meter::new(&device("a", "plug.lan", 5), 2000);
    let r = m.measure(Response::Parsed(reading(true, 0, vec![1, 2])));
    assert!(matches!(r, Err(MeterError::Unrecoverable(_))));
    let r = m.measure(Response::Parsed(reading(true, 0, vec![])));
    assert!(matches!(r, Err(MeterError::Unrecoverable(_))));
}

#[test]
fn invalid_reading_retries_after_ten_minutes() {
    let m = Meter::new(&device("a", "h", 5), 2000);
    let r = m.measure(Response::Parsed(reading(false, 0, vec![1, 2, 3])));
    assert!(matches!(r, Err(MeterError::Recoverable(600_000))));
}

#[test]
fn valid_reading_is_returned() {
    let m = Meter::new(&device("a", "h", 5), 2000);
    match m.measure(Response::Parsed(reading(true, 17, vec![1, 2, 3]))) {
        Ok(r) => {
            assert_eq!(r.timestamp, 17);
            assert_eq!(r.counters, vec![1, 2, 3]);
        },
        Err(_) => panic!("expected a reading"),
    }
}

#[test]
fn delay_from_second_fifty_is_twenty_seconds() {
    assert_eq!(delay_to_next_minute(50), 20_000);
    assert_eq!(delay_to_next_minute(0), 70_000);
    assert_eq!(delay_to_next_minute(59), 11_000);
}

#[test]
fn delay_follows_device_clock() {
    // 1_700_000_040 is a whole minute.
    assert_eq!(reading(true, 1_700_000_090, vec![0, 0, 0]).time_to_next_update(), Some(20_000));
    assert_eq!(reading(true, 1_700_000_040, vec![0, 0, 0]).time_to_next_update(), Some(70_000));
    assert_eq!(reading(true, -10, vec![0, 0, 0]).time_to_next_update(), Some(20_000));
    assert_eq!(reading(true, i64::MAX, vec![0, 0, 0]).time_to_next_update(), None);
    assert_eq!(reading(true, 0, vec![0, 0, 0]).time_to_next_update(), Some(70_000));
    assert_eq!(reading(true, 50, vec![0, 0, 0]).time_to_next_update(), Some(20_000));
}

#[test]
fn delay_at_the_ends_of_the_device_time_range() {
    // -8_334_601_228_800 and 8_210_266_876_799 are the first and last
    // representable seconds; the first starts a minute.
    assert_eq!(reading(true, -8_334_601_228_800, vec![0, 0, 0]).time_to_next_update(), Some(70_000));
    assert_eq!(reading(true, 8_210_266_876_799, vec![0, 0, 0]).time_to_next_update(), Some(11_000));
    assert_eq!(reading(true, -8_334_601_228_801, vec![0, 0, 0]).time_to_next_update(), None);
    assert_eq!(reading(true, -8_334_601_315_200, vec![0, 0, 0]).time_to_next_update(), None);
    assert_eq!(reading(true, 8_210_266_876_800, vec![0, 0, 0]).time_to_next_update(), None);
}

#[test]
fn energy_conversions() {
    let r = reading(true, 0, vec![120_000_000, 5, 6]);
    assert_eq!(r.last_minute_consumption_in_wh(), 2_000_000);
    assert_eq!(r.consumption_since_reboot_in_wh(), 10_000_000);
    assert_eq!(r.instantaneous_consumption_in_w(), 42_500_000);
    let n = reading(true, 0, vec![-61, 0, 0]);
    assert_eq!(n.last_minute_consumption_in_wh(), -1);
    let s = reading(true, 0, vec![59, 0, 0]);
    assert_eq!(s.last_minute_consumption_in_wh(), 0);
}

#[test]
fn minute_step_emits_two_data_then_sleeps() {
    let mm = MinuteMeter::new(&device("kitchen", "10.0.0.5", -1), 1000);
    let m = reading(true, 1_700_000_090, vec![120_000_000, 1, 2]);
    let step = mm.step(Ok(m), 1234, Some(20_000));
    assert_eq!(step.data.len(), 2);
    assert_eq!(step.data[0].measurement, Kind::LastMinuteConsumptionInWh);
    assert_eq!(step.data[0].value, 2_000_000);
    assert_eq!(step.data[0].device_name, "kitchen");
    assert_eq!(step.data[0].device_host, "10.0.0.5");
    assert_eq!(step.data[0].measured_on, 1234);
    assert_eq!(step.data[1].measurement, Kind::ConsumptionSinceRebootInWh);
    assert_eq!(step.data[1].value, 10_000_000);
    assert!(matches!(step.next, Next::Sleep(20_000)));
}

#[test]
fn minute_step_stops_on_unrepresentable_device_time() {
    let mm = MinuteMeter::new(&device("k", "h", -1), 1000);
    let step = mm.step(Ok(reading(true, 0, vec![1, 2, 3])), 5, None);
    assert_eq!(step.data.len(), 2);
    match step.next {
        Next::Stop(Err(s)) => assert_eq!(
            s,
            "h reports a time that is no UNIX time-stamp. Measurements are stopped."
        ),
        _ => panic!("expected a failure"),
    }
}

#[test]
fn minute_step_sleeps_on_recoverable() {
    let mm = MinuteMeter::new(&device("k", "h", -1), 1000);
    let step = mm.step(Err(MeterError::Recoverable(60_000)), 5, Some(1));
    assert!(step.data.is_empty());
    assert!(matches!(step.next, Next::Sleep(60_000)));
}

#[test]
fn grammar_violation_ends_loop_without_data() {
    let mm = MinuteMeter::new(&device("k", "h", 10), 1000);
    let step = mm.on_response(Response::Unparsable, 1_700_000_000);
    assert!(step.data.is_empty());
    assert!(matches!(step.next, Next::Stop(Err(_))));
    let im = InstantaneousMeter::new(&device("k", "h", 10), 1000).unwrap();
    let step = im.on_response(Response::Parsed(reading(true, 0, vec![1])), 1_700_000_000);
    assert!(step.data.is_empty());
    assert!(matches!(step.next, Next::Stop(Err(_))));
}

#[test]
fn invalid_reading_sends_nothing() {
    let mm = MinuteMeter::new(&device("k", "h", 10), 1000);
    let step = mm.on_response(Response::Parsed(reading(false, 0, vec![1, 2, 3])), 1_700_000_000);
    assert!(step.data.is_empty());
    assert!(matches!(step.next, Next::Sleep(600_000)));
    let im = InstantaneousMeter::new(&device("k", "h", 10), 1000).unwrap();
    let step = im.on_response(Response::Parsed(reading(false, 0, vec![1, 2, 3])), 1_700_000_000);
    assert!(step.data.is_empty());
    assert!(matches!(step.next, Next::Sleep(600_000)));
}

#[test]
fn on_response_stamps_collection_time() {
    let mm = MinuteMeter::new(&device("k", "h", 10), 1000);
    let step = mm.on_response(Response::Parsed(reading(true, 1_700_000_090, vec![1, 2, 3])), 1_700_000_000);
    assert_eq!(step.data.len(), 2);
    assert_eq!(step.data[0].measured_on, 1_700_000_000);
    assert_eq!(step.data[1].measured_on, 1_700_000_000);
    assert!(matches!(step.next, Next::Sleep(20_000)));
}

#[test]
fn minute_loop_stops_on_unrepresentable_device_time() {
    let mm = MinuteMeter::new(&device("k", "h", 10), 1000);
    let step = mm.on_response(Response::Parsed(reading(true, i64::MAX, vec![1, 2, 3])), 9);
    assert_eq!(step.data.len(), 2);
    assert!(matches!(step.next, Next::Stop(Err(_))));
}

#[test]
fn negative_interval_has_no_instantaneous_meter() {
    assert!(InstantaneousMeter::new(&device("k", "h", -1), 1000).is_none());
    assert!(InstantaneousMeter::new(&device("k", "h", -30), 1000).is_none());
    let im = InstantaneousMeter::new(&device("k", "h", 15), 1000).unwrap();
    assert_eq!(im.interval, 15_000);
    assert_eq!(im.meter.timeout, 1000);
}

#[test]
fn instantaneous_step_emits_power_then_sleeps_interval() {
    let im = InstantaneousMeter::new(&device("k", "h", 15), 1000).unwrap();
    let step = im.step(Ok(reading(true, 0, vec![1, 2, 3])), 77);
    assert_eq!(step.data.len(), 1);
    assert_eq!(step.data[0].measurement, Kind::InstantaneousConsumptionInW);
    assert_eq!(step.data[0].value, 42_500_000);
    assert_eq!(step.data[0].measured_on, 77);
    assert!(matches!(step.next, Next::Sleep(15_000)));
    let step = im.step(Err(MeterError::Unrecoverable("x".to_string())), 77);
    assert!(step.data.is_empty());
    assert!(matches!(step.next, Next::Stop(Err(_))));
}

#[test]
fn closed_bus_ends_loops_successfully() {
    assert!(matches!(after_send(false), Some(Ok(()))));
    assert!(after_send(true).is_none());
}

#[test]
fn two_devices_one_cycle_yield_four_data() {
    let a = MinuteMeter::new(&device("a", "ha", -1), 1000);
    let b = MinuteMeter::new(&device("b", "hb", 5), 1000);
    let sa = a.on_response(Response::Parsed(reading(true, 1_700_000_090, vec![1, 2, 3])), 1_700_000_000);
    let sb = b.on_response(Response::Parsed(reading(true, 1_700_000_100, vec![4, 5, 6])), 1_700_000_000);
    let mut all = sa.data;
    all.extend(sb.data);
    assert_eq!(all.len(), 4);
    for kind in [Kind::LastMinuteConsumptionInWh, Kind::ConsumptionSinceRebootInWh] {
        for name in ["a", "b"] {
            let n = all.iter().filter(|d| d.measurement == kind && d.device_name == name).count();
            assert_eq!(n, 1);
        }
    }
}
