use percent_encoding::{utf8_percent_encode, NON_ALPHANUMERIC};
use vstd::prelude::*;

verus! {

/// What percent-encoding `s` against the non-alphanumeric set produces.
pub uninterp spec fn percent_encoded(s: Seq<char>) -> Seq<char>;

pub open spec fn is_ascii_alphanumeric(c: char) -> bool {
    ('a' <= c && c <= 'z') || ('A' <= c && c <= 'Z') || ('0' <= c && c <= '9')
}

/// Relies on `percent_encoding::utf8_percent_encode` with `NON_ALPHANUMERIC`:
/// ASCII letters and digits are kept as they are, every other byte of the
/// UTF-8 encoding becomes `%XX`.
#[verifier::external_body]
pub(crate) fn encode_segment(s: &str) -> (r: String)
    ensures
        r@ == percent_encoded(s@),
        (forall|i: int| 0 <= i < s@.len() ==> is_ascii_alphanumeric(#[trigger] s@[i])) ==> r@
            == s@,
{
    utf8_percent_encode(s, NON_ALPHANUMERIC).to_string()
}

} // verus!
