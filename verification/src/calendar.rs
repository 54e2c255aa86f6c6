use vstd::prelude::*;

verus! {

#[verifier::external_type_specification]
#[verifier::external_body]
pub struct ExNaiveDateTime(chrono::NaiveDateTime);

/// The calendar value for a whole number of non-leap seconds since the Unix
/// epoch, as chrono computes it.
pub uninterp spec fn naive_datetime_of_secs(secs: u32) -> chrono::NaiveDateTime;

/// Relies on chrono's DateTime::from_timestamp: the calendar value for a
/// count of non-leap seconds since the Unix epoch, a function of that count
/// alone. It returns None only out of chrono's representable range, which
/// every u32 second count is well within, so the unwrap cannot panic.
#[verifier::external_body]
pub(crate) fn naive_datetime_from_secs(secs: u32) -> (r: chrono::NaiveDateTime)
    ensures
        r == naive_datetime_of_secs(secs),
{
    let dt = chrono::DateTime::<chrono::Utc>::from_timestamp(secs as i64, 0);
    dt.unwrap().naive_utc()
}

} // verus!
