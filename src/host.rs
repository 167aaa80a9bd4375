//! Splitting a `Host` header value into a subdomain label and the host.
use vstd::prelude::*;

verus! {

/// The parent domain, with its leading dot, under which labels are served.
pub const PARENT_SUFFIX: &'static str = ".owari.shop";

/// The parent suffix as characters.
pub open spec fn parent_suffix() -> Seq<char> {
    seq!['.', 'o', 'w', 'a', 'r', 'i', '.', 's', 'h', 'o', 'p']
}

/// Whether `s` ends with `suffix`.
pub open spec fn ends_with(s: Seq<char>, suffix: Seq<char>) -> bool {
    suffix.len() <= s.len() && s.subrange(s.len() - suffix.len(), s.len() as int) == suffix
}

/// The subdomain label of a host: the host without the parent suffix when it
/// ends with it, else the empty label.
pub open spec fn host_subdomain(h: Seq<char>) -> Seq<char> {
    if ends_with(h, parent_suffix()) {
        h.subrange(0, h.len() - parent_suffix().len())
    } else {
        Seq::empty()
    }
}

/// Returns `(subdomain, host)`: the label before the parent domain (empty
/// when the host is not under it) and the host itself, unchanged.
pub fn parse_host(host: String) -> (r: (String, String))
    ensures
        r.0@ == host_subdomain(host@),
        r.1@ == host@,
{
    let suffix: &str = PARENT_SUFFIX;
    proof {
        reveal_strlit(".owari.shop");
    }
    assert(suffix@ == parent_suffix());
    let n: usize = host.as_str().unicode_len();
    let m: usize = suffix.unicode_len();
    let mut matched: bool = m <= n;
    if matched {
        let mut k: usize = 0;
        while k < m
            invariant
                m <= n,
                n == host@.len(),
                m == suffix@.len(),
                suffix@ == parent_suffix(),
                k <= m,
                matched ==> forall|j: int|
                    0 <= j < k ==> host@[n - m + j] == suffix@[j],
                !matched ==> !ends_with(host@, parent_suffix()),
            decreases m - k,
        {
            if host.as_str().get_char(n - m + k) != suffix.get_char(k) {
                matched = false;
                assert(host@.subrange(n - m, n as int)[k as int] != suffix@[k as int]);
            }
            k = k + 1;
        }
        if matched {
            assert(host@.subrange(n - m, n as int) =~= parent_suffix());
        }
    }
    let subdomain = if matched {
        String::from_str(host.as_str().substring_char(0, n - m))
    } else {
        String::new()
    };
    (subdomain, host)
}

/// A host made of a label and the parent suffix yields that label.
pub proof fn lemma_label_under_parent(x: Seq<char>)
    ensures
        host_subdomain(x + parent_suffix()) == x,
{
    let h = x + parent_suffix();
    assert(h.subrange(h.len() - parent_suffix().len(), h.len() as int) =~= parent_suffix());
    assert(h.subrange(0, h.len() - parent_suffix().len()) =~= x);
}

/// A host that does not end with the parent suffix yields the empty label;
/// the host itself is handed back unchanged by `parse_host`.
pub proof fn lemma_foreign_host_has_no_label(h: Seq<char>)
    requires
        !ends_with(h, parent_suffix()),
    ensures
        host_subdomain(h) == Seq::<char>::empty(),
{
}

/// The bare parent domain, without a leading label, yields the empty label.
pub proof fn lemma_bare_parent_has_no_label()
    ensures
        host_subdomain(seq!['o', 'w', 'a', 'r', 'i', '.', 's', 'h', 'o', 'p'])
            == Seq::<char>::empty(),
{
    let h = seq!['o', 'w', 'a', 'r', 'i', '.', 's', 'h', 'o', 'p'];
    assert(h.len() < parent_suffix().len());
}

} // verus!
