//! Times as the exemption list writes them: RFC 3339 text of a UTC time, made by `chrono`.
use vstd::prelude::*;

verus! {

/// The seconds since the Unix epoch that `chrono` can turn into a UTC time: from the
/// first second of the year -262143 to the last second of the year 262142.
pub open spec fn timestamp_in_range(secs: int) -> bool {
    -8_334_601_228_800 <= secs <= 8_210_266_876_799
}

/// The RFC 3339 text (`to_rfc3339`) of the UTC time `secs` seconds after the Unix epoch.
pub uninterp spec fn rfc3339_text(secs: i64) -> Seq<char>;

/// `chrono::DateTime::<Utc>::from_timestamp(secs, 0)`, written out by `to_rfc3339`: the RFC
/// 3339 text of the UTC time `secs` seconds after the Unix epoch. `from_timestamp` gives a
/// time for exactly the seconds in range, which `requires` keeps to.
#[verifier::external_body]
fn rfc3339_of_timestamp(secs: i64) -> (s: String)
    requires
        timestamp_in_range(secs as int),
    ensures
        s@ == rfc3339_text(secs),
{
    chrono::DateTime::<chrono::Utc>::from_timestamp(secs, 0).unwrap().to_rfc3339()
}

/// The time that a stored timestamp shows: itself when `chrono` can represent it, the Unix
/// epoch (`chrono`'s default time) otherwise.
pub open spec fn shown_timestamp(secs: i64) -> i64 {
    if timestamp_in_range(secs as int) {
        secs
    } else {
        0
    }
}

/// The text of a stored time, as the exemption list shows it.
pub fn timestamp_text(secs: i64) -> (s: String)
    ensures
        s@ == rfc3339_text(shown_timestamp(secs)),
{
    if -8_334_601_228_800 <= secs && secs <= 8_210_266_876_799 {
        rfc3339_of_timestamp(secs)
    } else {
        rfc3339_of_timestamp(0)
    }
}

} // verus!
