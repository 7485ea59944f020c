//! Bucketing of a measured round-trip time into latency classes.

use vstd::prelude::*;

verus! {

/// Latency/reachability bucket of one probe.
#[derive(Clone, Copy, Debug, PartialEq, Eq, Structural)]
pub enum LatencyClass {
    Good,
    Mid,
    Bad,
    Down,
}

/// The class a successful connect with round-trip time `t` (milliseconds)
/// falls into, given the `mid` and `bad` thresholds.
pub open spec fn classify_spec(t: u32, mid: u32, bad: u32) -> LatencyClass {
    if t < mid {
        LatencyClass::Good
    } else if t < bad {
        LatencyClass::Mid
    } else {
        LatencyClass::Bad
    }
}

/// The label each class is reported under in the status record.
pub open spec fn label_spec(c: LatencyClass) -> Seq<char> {
    match c {
        LatencyClass::Good => "good"@,
        LatencyClass::Mid => "mid"@,
        LatencyClass::Bad => "bad"@,
        LatencyClass::Down => "down"@,
    }
}

/// Buckets a successful connect's round-trip time (milliseconds).
pub fn classify(t: u32, mid: u32, bad: u32) -> (c: LatencyClass)
    ensures
        c == classify_spec(t, mid, bad),
{
    if t < mid {
        LatencyClass::Good
    } else if t < bad {
        LatencyClass::Mid
    } else {
        LatencyClass::Bad
    }
}

/// The label of a class, as it appears in the status record.
pub fn label(c: LatencyClass) -> (r: &'static str)
    ensures
        r@ == label_spec(c),
{
    match c {
        LatencyClass::Good => "good",
        LatencyClass::Mid => "mid",
        LatencyClass::Bad => "bad",
        LatencyClass::Down => "down",
    }
}

/// With ordered thresholds `mid <= bad`, classification is `Good` exactly on
/// `t < mid`, `Mid` exactly on `mid <= t < bad`, and `Bad` exactly on
/// `t >= bad`: closed-lower/open-upper buckets, so the boundary values `t == mid`
/// and `t == bad` fall into `Mid` and `Bad` respectively, and every `t` falls
/// into exactly one bucket.
pub proof fn lemma_classification_buckets(t: u32, mid: u32, bad: u32)
    requires
        mid <= bad,
    ensures
        classify_spec(t, mid, bad) == LatencyClass::Good <==> t < mid,
        classify_spec(t, mid, bad) == LatencyClass::Mid <==> mid <= t < bad,
        classify_spec(t, mid, bad) == LatencyClass::Bad <==> t >= bad,
{
}

} // verus!
