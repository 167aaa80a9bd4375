//! Turning a subdomain label into the text it stands for: a label holding the
//! ASCII-compatible-encoding marker is punycode, anything else is plain text.
use vstd::prelude::*;
use crate::text::{contains, contains_exec, replace_all, replace_all_exec, lemma_replace_absent};

verus! {

/// The ASCII-compatible-encoding marker.
pub const ACE_MARKER: &'static str = "xn--";

/// The marker as characters.
pub open spec fn ace_marker() -> Seq<char> {
    seq!['x', 'n', '-', '-']
}

/// What `punycode::decode` returns for a string: the decoded text, or
/// nothing when the input is not valid punycode.
pub uninterp spec fn punycode_decoded(s: Seq<char>) -> Option<Seq<char>>;

/// Relies on `punycode::decode`: `Ok` carries the decoded text, which depends
/// on the input alone; any `Err` is reported as `None`.
#[verifier::external_body]
fn decode_punycode(s: &str) -> (r: Option<String>)
    ensures
        r is Some <==> punycode_decoded(s@) is Some,
        r is Some ==> r->0@ == punycode_decoded(s@)->0,
{
    punycode::decode(s).ok()
}

/// The text a decode attempt leaves: the decoded text, or the empty text
/// when decoding failed.
pub open spec fn decoded_or_empty(decoded: Option<Seq<char>>) -> Seq<char> {
    match decoded {
        Some(t) => t,
        None => Seq::empty(),
    }
}

/// The text a label stands for: a label holding the marker loses every
/// marker and is punycode-decoded (empty on failure); any other label is
/// kept as it is.
pub open spec fn label_text(sub: Seq<char>) -> Seq<char> {
    if contains(sub, ace_marker()) {
        decoded_or_empty(punycode_decoded(replace_all(sub, ace_marker(), Seq::empty())))
    } else {
        sub
    }
}

/// Resolves the outcome of a decode attempt to text, failure becoming the
/// empty text.
pub fn text_from_decoded(decoded: Option<String>) -> (r: String)
    ensures
        r@ == decoded_or_empty(
            match decoded {
                Some(t) => Some(t@),
                None => None,
            },
        ),
{
    match decoded {
        Some(t) => t,
        None => String::new(),
    }
}

/// The text a subdomain label stands for, as `label_text` states: a label
/// without the marker comes back unchanged; one with it is decoded, and a
/// decoding failure gives the empty text.
pub fn convert_punycode(sub: String) -> (r: String)
    ensures
        r@ == label_text(sub@),
        !contains(sub@, ace_marker()) ==> r@ == sub@,
        contains(sub@, ace_marker()) ==> (match punycode_decoded(
            replace_all(sub@, ace_marker(), Seq::empty()),
        ) {
            Some(t) => r@ == t,
            None => r@ == Seq::<char>::empty(),
        }),
{
    let marker: &str = ACE_MARKER;
    let nothing: &str = "";
    proof {
        reveal_strlit("xn--");
        reveal_strlit("");
    }
    assert(marker@ == ace_marker());
    assert(nothing@ =~= Seq::<char>::empty());
    if contains_exec(sub.as_str(), marker) {
        let stripped = replace_all_exec(sub.as_str(), marker, nothing);
        let decoded = decode_punycode(stripped.as_str());
        text_from_decoded(decoded)
    } else {
        sub
    }
}

/// A label without the marker stands for itself.
pub proof fn lemma_plain_label_unchanged(sub: Seq<char>)
    requires
        !contains(sub, ace_marker()),
    ensures
        label_text(sub) == sub,
        replace_all(sub, ace_marker(), Seq::empty()) == sub,
{
    lemma_replace_absent(sub, ace_marker(), Seq::empty());
}

/// A label with the marker stands for the decoded text of what remains once
/// the markers are gone, or for the empty text when that does not decode.
pub proof fn lemma_marked_label_decodes(sub: Seq<char>)
    requires
        contains(sub, ace_marker()),
    ensures
        punycode_decoded(replace_all(sub, ace_marker(), Seq::empty())) is Some ==> label_text(sub)
            == punycode_decoded(replace_all(sub, ace_marker(), Seq::empty()))->0,
        punycode_decoded(replace_all(sub, ace_marker(), Seq::empty())) is None ==> label_text(sub)
            == Seq::<char>::empty(),
{
}

/// A label made of the marker and a marker-free text that decodes to `u`
/// stands for `u`.
pub proof fn lemma_marker_and_punycode_decode(p: Seq<char>, u: Seq<char>)
    requires
        !contains(p, ace_marker()),
        punycode_decoded(p) == Some(u),
    ensures
        label_text(ace_marker() + p) == u,
{
    let s = ace_marker() + p;
    assert(s.subrange(0, 4) =~= ace_marker());
    assert(crate::text::occurs_at(s, ace_marker(), 0));
    assert(s.take(4) =~= ace_marker());
    assert(s.skip(4) =~= p);
    lemma_replace_absent(p, ace_marker(), Seq::empty());
    assert(Seq::<char>::empty() + p =~= p);
}

} // verus!
