use vstd::prelude::*;

verus! {

/// Relies on chrono::Local::now and the Display of chrono::NaiveDateTime,
/// which writes the date, a space and the time: the formatted local
/// date-time is never empty. Nothing more is assumed of the clock.
#[verifier::external_body]
pub(crate) fn now_timestamp() -> (r: String)
    ensures
        r@.len() > 0,
{
    format!("{}", chrono::Local::now().naive_local())
}

} // verus!
