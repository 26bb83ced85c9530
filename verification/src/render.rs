use vstd::prelude::*;

verus! {

/// The plain-text (markdown) rendering of an HTML fragment. What the
/// rendering is on given characters is not stated here; it is whatever the
/// renderer produces, a function of the fragment alone.
pub uninterp spec fn rendered_of(s: Seq<char>) -> Seq<char>;

/// Relies on html2md::parse_html: it renders an HTML fragment as plain
/// (markdown) text, and the result depends on the fragment's characters
/// alone.
#[verifier::external_body]
pub(crate) fn render_html(fragment: &str) -> (r: String)
    ensures
        r@ == rendered_of(fragment@),
{
    html2md::parse_html(fragment)
}

} // verus!
