use vstd::prelude::*;

verus! {

/// The shape of a synthesized timestamp title: the compact year-to-second
/// numeric form.  Month, day, hour, minute and second print two zero-padded
/// digits each and the year at least four, so the title has at least 14
/// characters; every character past the first is a decimal digit, and the
/// first is a digit too except for the explicit sign that far-future years
/// carry.
pub open spec fn is_datestamp_title(s: Seq<char>) -> bool {
    &&& s.len() >= 14
    &&& forall|i: int| 1 <= i < s.len() ==> '0' <= #[trigger] s[i] <= '9'
    &&& ('0' <= s[0] <= '9' || s[0] == '+')
}

/// Relies on chrono's `Utc::now` and `DateTime::format` with the
/// year-to-second numeric layout: every field is zero-padded decimal, the
/// year prints four or more digits with an explicit sign only outside
/// 0..=9999.  Which moment it names depends on the clock, so nothing more
/// is promised.
#[verifier::external_body]
pub(crate) fn datestamp_now() -> (r: String)
    ensures
        is_datestamp_title(r@),
{
    chrono::Utc::now().format("%Y%m%d%H%M%S").to_string()
}

} // verus!
