//! How long the server window has been up, as `HH:MM:SS`.

use vstd::prelude::*;
use crate::text::{all_digits, digits_value, from_chars, pad2, push_pad2};

verus! {

#[verifier::external_type_specification]
#[verifier::external_body]
pub struct ExInstant(std::time::Instant);

/// `Instant::now`: the current instant; nothing is known of its value.
#[verifier::external_body]
pub(crate) fn now() -> (t: std::time::Instant) {
    std::time::Instant::now()
}

/// Whole seconds elapsed since `start` (`Instant::elapsed`, then `Duration::as_secs`); the
/// value depends on the clock, so nothing is stated of it.
#[verifier::external_body]
pub(crate) fn elapsed_secs(start: &std::time::Instant) -> (secs: u64) {
    start.elapsed().as_secs()
}

/// Hours, minutes and seconds of a duration given in seconds.
pub open spec fn uptime_parts(secs: nat) -> (nat, nat, nat) {
    (secs / 3600, (secs % 3600) / 60, secs % 60)
}

/// `secs` as `HH:MM:SS`, each part at least two digits wide (hours may take more).
pub open spec fn uptime_text(secs: nat) -> Seq<char> {
    let (h, m, s) = uptime_parts(secs);
    pad2(h) + seq![':'] + pad2(m) + seq![':'] + pad2(s)
}

/// Whether `t` reads as `H:MM:SS` giving `secs` seconds: at least two hour digits, a
/// colon, two minute digits below 60, a colon, two second digits below 60.
pub open spec fn reads_as_uptime(t: Seq<char>, secs: nat) -> bool {
    let n = t.len();
    let hours = t.take(n - 6);
    let minutes = t.subrange(n - 5, n - 3);
    let seconds = t.subrange(n - 2, n as int);
    &&& n >= 8
    &&& t[n - 6] == ':'
    &&& t[n - 3] == ':'
    &&& all_digits(hours)
    &&& all_digits(minutes)
    &&& all_digits(seconds)
    &&& digits_value(minutes) < 60
    &&& digits_value(seconds) < 60
    &&& digits_value(hours) * 3600 + digits_value(minutes) * 60 + digits_value(seconds) == secs
}

/// Formats a duration in seconds as `HH:MM:SS`.
pub fn format_uptime(secs: u64) -> (r: String)
    ensures
        r@ == uptime_text(secs as nat),
{
    let h = secs / 3600;
    let m = (secs % 3600) / 60;
    let s = secs % 60;
    let mut v: Vec<char> = Vec::new();
    push_pad2(h, &mut v);
    v.push(':');
    push_pad2(m, &mut v);
    v.push(':');
    push_pad2(s, &mut v);
    assert(v@ =~= uptime_text(secs as nat));
    from_chars(&v)
}

} // verus!
