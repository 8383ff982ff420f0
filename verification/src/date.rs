//! Synthesis of the `Date` header value from the wall clock.

use vstd::prelude::*;

verus! {

/// The name of the `Date` header: the four ASCII bytes of `Date`.
pub open spec fn date_name() -> Seq<u8> {
    seq![68u8, 97u8, 116u8, 101u8]
}

/// The name of the `Date` header as a vector of bytes.
pub fn date_name_vec() -> (r: Vec<u8>)
    ensures
        r@ == date_name(),
{
    let mut r: Vec<u8> = Vec::new();
    r.push(68u8);
    r.push(97u8);
    r.push(116u8);
    r.push(101u8);
    proof {
        assert(r@ =~= date_name());
    }
    r
}

/// What a synthesized `Date` value looks like on the wire: not empty, and
/// printable ASCII throughout — in particular no carriage return or line
/// feed, so the value stays on its own header line.
pub open spec fn clean_date_value(v: Seq<u8>) -> bool {
    v.len() > 0 && forall|i: int| 0 <= i < v.len() ==> 32 <= #[trigger] v[i] <= 126
}

/// Relies on `std::time::SystemTime::now` and `duration_since` (an `Err`
/// for a clock before the epoch), `time::OffsetDateTime::from_unix_timestamp`
/// (range-checked: an `Err` for a moment outside the years the crate
/// supports) and the crate's RFC 2822 formatter (an `Err` for a year before
/// 1900).  Every step returns a result, so the body is total.  A formatted
/// value is exactly 31 bytes of printable ASCII: three-letter day and month
/// names, two-digit day and time fields, a four-digit year, and the UTC
/// offset.  The value depends on the clock, so nothing more is stated.
#[verifier::external_body]
fn format_now_rfc2822() -> (r: Option<Vec<u8>>)
    ensures
        r matches Some(v) ==> v@.len() == 31 && forall|i: int|
            0 <= i < v@.len() ==> 32 <= #[trigger] v@[i] <= 126,
{
    let since_epoch = std::time::SystemTime::now().duration_since(std::time::UNIX_EPOCH).ok()?;
    let seconds = i64::try_from(since_epoch.as_secs()).ok()?;
    let moment = time::OffsetDateTime::from_unix_timestamp(seconds).ok()?;
    let text = moment.format(&time::format_description::well_known::Rfc2822).ok()?;
    Some(text.into_bytes())
}

/// The current wall-clock time rendered as a `Date` header value, or
/// `None` when the clock cannot be expressed in the header's format.
pub fn now_date_value() -> (r: Option<Vec<u8>>)
    ensures
        r matches Some(v) ==> clean_date_value(v@),
{
    format_now_rfc2822()
}

} // verus!
