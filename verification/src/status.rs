//! The probe's status record and its JSON rendering.

use vstd::prelude::*;
use vstd::string::*;
use crate::classify::{classify, classify_spec, label, label_spec, LatencyClass};
use crate::decimal::{dec_seq, digit_char, is_dec_digit, u32_to_decimal};

verus! {

/// One probe's status record: a fixed display glyph, the measured
/// round-trip time in milliseconds (or nothing), and a latency class label.
pub struct PingStatus {
    pub text: String,
    pub tooltip: String,
    pub class: String,
}

/// The fixed display glyph every record carries.
pub open spec fn status_text_spec() -> Seq<char> {
    "🌍"@
}

/// The tooltip of a probe: the round-trip time in decimal where the connect
/// succeeded, empty where it failed.
pub open spec fn status_tooltip_spec(connected: bool, rtt_ms: u32) -> Seq<char> {
    if connected {
        dec_seq(rtt_ms as nat)
    } else {
        Seq::<char>::empty()
    }
}

/// The class label of a probe: the time bucketed against the thresholds
/// where the connect succeeded, `down` where it failed.
pub open spec fn status_class_spec(connected: bool, rtt_ms: u32, mid: u32, bad: u32) -> Seq<
    char,
> {
    if connected {
        label_spec(classify_spec(rtt_ms, mid, bad))
    } else {
        label_spec(LatencyClass::Down)
    }
}

impl PingStatus {
    /// Whether this record describes a probe with the given connect outcome,
    /// measured time and thresholds.
    pub open spec fn is_for(self, connected: bool, rtt_ms: u32, mid: u32, bad: u32) -> bool {
        &&& self.text@ == status_text_spec()
        &&& self.tooltip@ == status_tooltip_spec(connected, rtt_ms)
        &&& self.class@ == status_class_spec(connected, rtt_ms, mid, bad)
    }
}

/// Builds the status record for one probe: `connected` tells whether the
/// bounded connect succeeded, `rtt_ms` is the elapsed time in milliseconds.
/// A failed connect yields class `down` with an empty tooltip, whatever the
/// measured time and thresholds.
pub fn status_from_probe(connected: bool, rtt_ms: u32, mid: u32, bad: u32) -> (s: PingStatus)
    ensures
        s.is_for(connected, rtt_ms, mid, bad),
{
    if connected {
        PingStatus {
            text: String::from_str("🌍"),
            tooltip: u32_to_decimal(rtt_ms),
            class: String::from_str(label(classify(rtt_ms, mid, bad))),
        }
    } else {
        PingStatus {
            text: String::from_str("🌍"),
            tooltip: String::new(),
            class: String::from_str(label(LatencyClass::Down)),
        }
    }
}

/// The JSON object with exactly the members `text`, `tooltip` and `class`,
/// in that order, holding the given strings.
pub open spec fn json_record(text: Seq<char>, tooltip: Seq<char>, class: Seq<char>) -> Seq<
    char,
> {
    "{\"text\":\""@ + text + "\",\"tooltip\":\""@ + tooltip + "\",\"class\":\""@ + class + "\"}"@
}

impl PingStatus {
    /// Renders the record as one line of JSON with exactly the three members
    /// `text`, `tooltip` and `class`.
    pub fn to_json(&self) -> (r: String)
        ensures
            r@ == json_record(self.text@, self.tooltip@, self.class@),
    {
        let mut r = String::from_str("{\"text\":\"");
        r.append(self.text.as_str());
        r.append("\",\"tooltip\":\"");
        r.append(self.tooltip.as_str());
        r.append("\",\"class\":\"");
        r.append(self.class.as_str());
        r.append("\"}");
        r
    }
}

/// A character that may stand unescaped inside a JSON string literal:
/// no quote, no backslash, no control character.
pub open spec fn json_safe_char(c: char) -> bool {
    c != '"' && c != '\\' && c as u32 >= 0x20
}

pub open spec fn json_safe(s: Seq<char>) -> bool {
    forall|i: int| 0 <= i < s.len() ==> json_safe_char(#[trigger] s[i])
}

proof fn lemma_digit_json_safe(c: char)
    requires
        is_dec_digit(c),
    ensures
        json_safe_char(c),
{
}

proof fn lemma_dec_seq_json_safe(n: nat)
    ensures
        json_safe(dec_seq(n)),
    decreases n,
{
    if n < 10 {
        assert forall|i: int| 0 <= i < dec_seq(n).len() implies json_safe_char(
            dec_seq(n)[i],
        ) by {
            lemma_digit_json_safe(dec_seq(n)[i]);
        }
    } else {
        lemma_dec_seq_json_safe(n / 10);
        assert forall|i: int| 0 <= i < dec_seq(n).len() implies json_safe_char(
            dec_seq(n)[i],
        ) by {
            if i < dec_seq(n / 10).len() {
                assert(dec_seq(n)[i] == dec_seq(n / 10)[i]);
            } else {
                assert(dec_seq(n)[i] == digit_char(n % 10));
                lemma_digit_json_safe(digit_char(n % 10));
            }
        }
    }
}

proof fn lemma_label_json_safe(c: LatencyClass)
    ensures
        json_safe(label_spec(c)),
{
    reveal_strlit("good");
    reveal_strlit("mid");
    reveal_strlit("bad");
    reveal_strlit("down");
}

/// Every record the prober produces renders as valid JSON with exactly the
/// three members `text`, `tooltip` and `class`: `to_json` emits the fixed
/// object shell of `json_record`, and each embedded field is free of quotes,
/// backslashes and control characters, so each stays one well-formed JSON
/// string and no member beyond the three can appear.
pub proof fn lemma_status_fields_json_safe(connected: bool, rtt_ms: u32, mid: u32, bad: u32)
    ensures
        json_safe(status_text_spec()),
        json_safe(status_tooltip_spec(connected, rtt_ms)),
        json_safe(status_class_spec(connected, rtt_ms, mid, bad)),
{
    reveal_strlit("🌍");
    lemma_dec_seq_json_safe(rtt_ms as nat);
    if connected {
        lemma_label_json_safe(classify_spec(rtt_ms, mid, bad));
    } else {
        lemma_label_json_safe(LatencyClass::Down);
    }
}

/// A failed or timed-out connection always yields the same record — class
/// `down`, empty tooltip, the fixed glyph — whatever the measured time and
/// the thresholds.
pub proof fn lemma_down_record_fixed(rtt_ms: u32, mid: u32, bad: u32)
    ensures
        status_tooltip_spec(false, rtt_ms) == Seq::<char>::empty(),
        status_class_spec(false, rtt_ms, mid, bad) == "down"@,
{
}

} // verus!
