use kiwi_sensors::data_rate::{rate_unit, DataRateCounter, RateSample, RateUnit};

#[test]
fn units_by_amount() {
    assert_eq!(rate_unit(0), RateUnit::Bps);
    assert_eq!(rate_unit(1023), RateUnit::Bps);
    assert_eq!(rate_unit(1024), RateUnit::Kbps);
    assert_eq!(rate_unit(1024 * 1024 - 1), RateUnit::Kbps);
    assert_eq!(rate_unit(1024 * 1024), RateUnit::Mbps);
    assert_eq!(RateUnit::Kbps.as_str(), "kbps");
    assert_eq!(RateUnit::Mbps.divisor(), 1_048_576);
}

#[test]
fn window_reports_once() {
    let mut dr = DataRateCounter::<2000>::new(1000);
    assert_eq!(dr.update(1500, 40), None);
    assert_eq!(dr.update(3000, 40), None);
    assert_eq!(dr.peek(3000), Some(RateSample { bits: 640, packets: 2, dur_ms: 2000 }));
    let r = dr.update(3001, 48);
    assert_eq!(r, Some(RateSample { bits: 1024, packets: 3, dur_ms: 2001 }));
    assert_eq!(dr.peek(3500), None);
    assert_eq!(dr.update(3600, 8), None);
    assert_eq!(dr.peek(4001), Some(RateSample { bits: 64, packets: 1, dur_ms: 1000 }));
}

#[test]
fn empty_window_keeps_packet_count() {
    let mut dr = DataRateCounter::<100>::new(0);
    assert_eq!(dr.update(200, 0), None);
    assert_eq!(dr.update(250, 10), None);
    assert_eq!(dr.update(301, 0), Some(RateSample { bits: 80, packets: 3, dur_ms: 101 }));
    assert_eq!(dr.update(500, 1), Some(RateSample { bits: 8, packets: 1, dur_ms: 199 }));
}
