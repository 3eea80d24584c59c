//! Wall-clock timestamps for progress lines, printed as `mm:ss` within the
//! hour.

use vstd::prelude::*;

verus! {

/// The decimal digit character for `d`.
pub open spec fn digit_char(d: int) -> char
    recommends
        0 <= d <= 9,
{
    (('0' as u8) + d) as char
}

/// `mm:ss` within the hour for a second count.
pub open spec fn mm_ss_spec(secs: u64) -> Seq<char> {
    let m = (secs / 60) % 60;
    let s = secs % 60;
    seq![
        digit_char(m as int / 10),
        digit_char(m as int % 10),
        ':',
        digit_char(s as int / 10),
        digit_char(s as int % 10),
    ]
}

fn digit_str(d: u64) -> (r: &'static str)
    requires
        d <= 9,
    ensures
        r@ =~= seq![digit_char(d as int)],
{
    proof {
        reveal_strlit("0");
        reveal_strlit("1");
        reveal_strlit("2");
        reveal_strlit("3");
        reveal_strlit("4");
        reveal_strlit("5");
        reveal_strlit("6");
        reveal_strlit("7");
        reveal_strlit("8");
        reveal_strlit("9");
    }
    match d {
        0 => "0",
        1 => "1",
        2 => "2",
        3 => "3",
        4 => "4",
        5 => "5",
        6 => "6",
        7 => "7",
        8 => "8",
        _ => "9",
    }
}

/// `mm:ss` within the hour for a second count.
pub fn format_mm_ss(secs: u64) -> (r: String)
    ensures
        r@ == mm_ss_spec(secs),
{
    let m = (secs / 60) % 60;
    let s = secs % 60;
    let mut out = String::new();
    out.append(digit_str(m / 10));
    out.append(digit_str(m % 10));
    out.append(":");
    out.append(digit_str(s / 10));
    out.append(digit_str(s % 10));
    proof {
        reveal_strlit(":");
        assert(out@ =~= mm_ss_spec(secs));
    }
    out
}

/// Relies on std::time::SystemTime: seconds of the wall clock since the
/// Unix epoch, or zero should the clock read earlier than the epoch. A
/// clock reading promises nothing about its value.
#[verifier::external_body]
fn now_unix_secs() -> u64 {
    match std::time::SystemTime::now().duration_since(std::time::SystemTime::UNIX_EPOCH) {
        Ok(d) => d.as_secs(),
        Err(_) => 0,
    }
}

/// The current wall-clock time as `mm:ss` within the hour.
pub fn ts_now() -> (r: String)
    ensures
        exists|secs: u64| r@ == mm_ss_spec(secs),
        r@.len() == 5,
{
    let secs = now_unix_secs();
    let r = format_mm_ss(secs);
    proof {
        assert(r@ == mm_ss_spec(secs));
    }
    r
}

} // verus!
