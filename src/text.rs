use vstd::prelude::*;

verus! {

/// What `str::trim` returns for a text: the text without its leading and
/// trailing Unicode white space.
pub uninterp spec fn trim_of(s: Seq<char>) -> Seq<char>;

/// A text is blank when nothing is left of it once trimmed.
pub open spec fn is_blank(s: Seq<char>) -> bool {
    trim_of(s).len() == 0
}

/// Relies on `str::trim`: the result depends on the characters alone, and
/// an empty text stays empty.
#[verifier::external_body]
pub(crate) fn trim(s: &str) -> (r: String)
    ensures
        r@ == trim_of(s@),
        s@.len() == 0 ==> r@.len() == 0,
{
    s.trim().to_string()
}

/// Whether a text is blank.
pub fn blank(s: &str) -> (r: bool)
    ensures
        r == is_blank(s@),
{
    let t = trim(s);
    t.as_str().is_empty()
}

} // verus!
