//! Time-derived labels: timestamps and identifiers made from the system clock.

use vstd::prelude::*;
use crate::text::{decimal, push_decimal};

verus! {

/// Reads the system clock (`SystemTime::now().duration_since(UNIX_EPOCH)`).
///
/// On success it returns the whole seconds and the sub-second nanoseconds of the
/// elapsed `Duration`; `None` when the clock stands before the epoch. Which
/// instant is read is not stated: it depends on the machine's clock.
#[verifier::external_body]
pub(crate) fn since_epoch() -> (r: Option<(u64, u32)>)
    ensures
        r matches Some(t) ==> t.1 < 1_000_000_000,
{
    match std::time::SystemTime::now().duration_since(std::time::UNIX_EPOCH) {
        Ok(d) => Some((d.as_secs(), d.subsec_nanos())),
        Err(_) => None,
    }
}

/// Whole seconds of a clock reading, the zero duration standing in for a failed one.
pub open spec fn whole_secs(t: Option<(u64, u32)>) -> nat {
    match t {
        Some(t) => t.0 as nat,
        None => 0,
    }
}

/// Whole milliseconds of a clock reading (`Duration::as_millis`).
pub open spec fn whole_millis(t: Option<(u64, u32)>) -> nat {
    match t {
        Some(t) => (t.0 * 1000 + t.1 / 1_000_000) as nat,
        None => 0,
    }
}

/// Whole nanoseconds of a clock reading (`Duration::as_nanos`).
pub open spec fn whole_nanos(t: Option<(u64, u32)>) -> nat {
    match t {
        Some(t) => (t.0 * 1_000_000_000 + t.1) as nat,
        None => 0,
    }
}

/// The timestamp label for `secs` seconds: the number followed by `s`.
pub open spec fn stamp(secs: nat) -> Seq<char> {
    decimal(secs).push('s')
}

/// The project identifier for a time of `millis` milliseconds.
pub open spec fn project_id(millis: nat) -> Seq<char> {
    seq!['p', 'r', 'o', 'j', '_'] + decimal(millis)
}

/// The timestamp label for `secs` seconds since the epoch, e.g. `"1700000000s"`.
pub fn timestamp_label(secs: u64) -> (r: String)
    ensures
        r@ == stamp(secs as nat),
{
    let mut r = String::new();
    push_decimal(&mut r, secs as u128);
    crate::text::push_char(&mut r, 's');
    assert(r@ =~= stamp(secs as nat));
    r
}

/// The identifier given to a project created `millis` milliseconds after the epoch.
pub fn project_id_for(millis: u128) -> (r: String)
    ensures
        r@ == project_id(millis as nat),
{
    let mut r = String::new();
    crate::text::push_char(&mut r, 'p');
    crate::text::push_char(&mut r, 'r');
    crate::text::push_char(&mut r, 'o');
    crate::text::push_char(&mut r, 'j');
    crate::text::push_char(&mut r, '_');
    push_decimal(&mut r, millis);
    assert(r@ =~= project_id(millis as nat));
    r
}

/// Milliseconds of a clock reading, computed without overflow.
fn millis_of(t: Option<(u64, u32)>) -> (m: u128)
    ensures
        m == whole_millis(t),
{
    match t {
        Some((secs, nanos)) => {
            let s = secs as u128;
            assert(s * 1000 <= 18446744073709551615u128 * 1000) by (nonlinear_arith)
                requires
                    s <= 18446744073709551615u128,
            ;
            s * 1000 + (nanos / 1_000_000) as u128
        },
        None => 0,
    }
}

/// Whole nanoseconds of a clock reading, zero when the clock stood before the
/// epoch.
pub fn nanos_for_reading(t: Option<(u64, u32)>) -> (m: u128)
    ensures
        m == whole_nanos(t),
{
    match t {
        Some((secs, nanos)) => {
            let s = secs as u128;
            assert(s * 1_000_000_000 <= 18446744073709551615u128 * 1_000_000_000) by (nonlinear_arith)
                requires
                    s <= 18446744073709551615u128,
            ;
            s * 1_000_000_000 + nanos as u128
        },
        None => 0,
    }
}

/// The timestamp label for a clock reading: whole seconds, `"0s"` when the
/// clock stood before the epoch.
pub fn label_for_reading(t: Option<(u64, u32)>) -> (r: String)
    ensures
        r@ == stamp(whole_secs(t)),
{
    let secs: u64 = match t {
        Some((s, _)) => s,
        None => 0,
    };
    timestamp_label(secs)
}

/// The project identifier for a clock reading: whole milliseconds, `proj_0`
/// when the clock stood before the epoch.
pub fn id_for_reading(t: Option<(u64, u32)>) -> (r: String)
    ensures
        r@ == project_id(whole_millis(t)),
{
    project_id_for(millis_of(t))
}

/// The current time as a label of whole seconds since the epoch (`"0s"` when the
/// clock stands before the epoch).
pub fn now_iso() -> (r: String)
    ensures
        exists|t: Option<(u64, u32)>| r@ == stamp(whole_secs(t)),
{
    label_for_reading(since_epoch())
}

/// A fresh project identifier: `proj_` followed by the milliseconds since the epoch.
pub fn gen_id() -> (r: String)
    ensures
        exists|t: Option<(u64, u32)>| r@ == project_id(whole_millis(t)),
{
    id_for_reading(since_epoch())
}

} // verus!
