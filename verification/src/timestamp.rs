use vstd::prelude::*;

verus! {

/// The RFC 3339 text of the instant `nanos` nanoseconds after the Unix
/// epoch, in UTC, as chrono writes it.
pub uninterp spec fn rfc3339_text(nanos: i64) -> Seq<char>;

/// Calls chrono's `DateTime::from_timestamp_nanos` and `DateTime::to_rfc3339`.
///
/// Not proved: that the text depends on `nanos` alone. Chrono builds the UTC
/// date and time from the count and writes it with a fixed format; every
/// `i64` is in its range, so neither call panics.
#[verifier::external_body]
pub(crate) fn format_rfc3339(nanos: i64) -> (text: String)
    ensures
        text@ == rfc3339_text(nanos),
{
    chrono::DateTime::from_timestamp_nanos(nanos).to_rfc3339()
}

} // verus!
