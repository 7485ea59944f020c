use ping_status::classify::{classify, label, LatencyClass};
use ping_status::status::status_from_probe;

#[test]
fn scenario_rtt_30_good() {
    let s = status_from_probe(true, 30, 50, 150);
    assert_eq!(s.text, "🌍");
    assert_eq!(s.tooltip, "30");
    assert_eq!(s.class, "good");
    assert_eq!(s.to_json(), "{\"text\":\"🌍\",\"tooltip\":\"30\",\"class\":\"good\"}");
}

#[test]
fn scenario_rtt_75_mid() {
    let s = status_from_probe(true, 75, 50, 150);
    assert_eq!(s.class, "mid");
    assert_eq!(s.tooltip, "75");
}

#[test]
fn scenario_rtt_200_bad() {
    let s = status_from_probe(true, 200, 50, 150);
    assert_eq!(s.class, "bad");
    assert_eq!(s.tooltip, "200");
}

#[test]
fn scenario_connect_failed_down() {
    let s = status_from_probe(false, 42, 50, 150);
    assert_eq!(s.text, "🌍");
    assert_eq!(s.tooltip, "");
    assert_eq!(s.class, "down");
    assert_eq!(s.to_json(), "{\"text\":\"🌍\",\"tooltip\":\"\",\"class\":\"down\"}");
}

#[test]
fn down_ignores_time_and_thresholds() {
    let a = status_from_probe(false, 0, 0, 0).to_json();
    let b = status_from_probe(false, 4_000_000_000, 5000, 10).to_json();
    assert_eq!(a, b);
}

#[test]
fn boundary_at_mid_is_mid() {
    assert_eq!(classify(50, 50, 150), LatencyClass::Mid);
    assert_eq!(status_from_probe(true, 50, 50, 150).class, "mid");
}

#[test]
fn boundary_at_bad_is_bad() {
    assert_eq!(classify(150, 50, 150), LatencyClass::Bad);
    assert_eq!(status_from_probe(true, 150, 50, 150).class, "bad");
}

#[test]
fn classify_buckets() {
    assert_eq!(classify(0, 50, 150), LatencyClass::Good);
    assert_eq!(classify(49, 50, 150), LatencyClass::Good);
    assert_eq!(classify(51, 50, 150), LatencyClass::Mid);
    assert_eq!(classify(149, 50, 150), LatencyClass::Mid);
    assert_eq!(classify(151, 50, 150), LatencyClass::Bad);
    assert_eq!(classify(u32::MAX, 50, 150), LatencyClass::Bad);
}

#[test]
fn classify_inverted_thresholds_skips_mid() {
    // Permissive behavior on misconfiguration (bad < mid): the mid bucket
    // is empty; below mid is good, everything else is bad.
    assert_eq!(classify(100, 150, 50), LatencyClass::Good);
    assert_eq!(classify(160, 150, 50), LatencyClass::Bad);
    assert_eq!(classify(150, 150, 50), LatencyClass::Bad);
}

#[test]
fn labels() {
    assert_eq!(label(LatencyClass::Good), "good");
    assert_eq!(label(LatencyClass::Mid), "mid");
    assert_eq!(label(LatencyClass::Bad), "bad");
    assert_eq!(label(LatencyClass::Down), "down");
}

#[test]
fn json_has_exactly_three_members() {
    let j = status_from_probe(true, 30, 50, 150).to_json();
    assert!(j.starts_with('{'));
    assert!(j.ends_with('}'));
    assert!(j.contains("\"text\":"));
    assert!(j.contains("\"tooltip\":"));
    assert!(j.contains("\"class\":"));
    // Three members: two separating commas, no nested objects.
    assert_eq!(j.matches(',').count(), 2);
    assert_eq!(j.matches(':').count(), 3);
}
