//! The envelope tag codec: a composite tag `"domain/bareType"` is split on a
//! single `/` delimiter, and joined back from its two halves. A tag that does
//! not contain exactly one delimiter is malformed and decodes to two empty
//! strings, which callers must treat as unroutable.

use vstd::prelude::*;

verus! {

/// The character at position `i` of `s` is the delimiter.
pub open spec fn slash_at(s: Seq<char>, i: int) -> bool {
    0 <= i < s.len() && s[i] == '/'
}

/// Position `i` holds the only delimiter occurring anywhere in `s`.
pub open spec fn lone_slash_at(s: Seq<char>, i: int) -> bool {
    slash_at(s, i) && (forall|j: int| slash_at(s, j) ==> j == i)
}

/// A composite tag is well formed when it contains exactly one delimiter.
pub open spec fn tag_wf(s: Seq<char>) -> bool {
    exists|i: int| lone_slash_at(s, i)
}

/// The position of the single delimiter of a well-formed tag.
pub open spec fn slash_pos(s: Seq<char>) -> int {
    choose|i: int| lone_slash_at(s, i)
}

/// What decoding a composite tag yields: the domain before the delimiter and
/// the bare type after it, or two empty strings when the tag is malformed.
pub open spec fn decode_tag_spec(s: Seq<char>) -> (Seq<char>, Seq<char>) {
    if tag_wf(s) {
        (s.subrange(0, slash_pos(s)), s.subrange(slash_pos(s) + 1, s.len() as int))
    } else {
        (Seq::<char>::empty(), Seq::<char>::empty())
    }
}

/// What joining a domain and a bare type yields.
pub open spec fn encode_tag_spec(domain: Seq<char>, bare: Seq<char>) -> Seq<char> {
    domain + seq!['/'] + bare
}

/// Finds the position of the delimiter when the tag holds exactly one.
fn find_lone_slash(tag: &str) -> (r: Option<usize>)
    ensures
        match r {
            Some(i) => lone_slash_at(tag@, i as int),
            None => !tag_wf(tag@),
        },
{
    let n = tag.unicode_len();
    let mut i: usize = 0;
    let mut first: Option<usize> = None;
    while i < n
        invariant
            i <= n,
            n == tag@.len(),
            match first {
                Some(p) => p < i && slash_at(tag@, p as int) && (forall|j: int|
                    0 <= j < i && tag@[j] == '/' ==> j == p as int),
                None => forall|j: int| 0 <= j < i ==> tag@[j] != '/',
            },
        decreases n - i,
    {
        let c = tag.get_char(i);
        if c == '/' {
            match first {
                Some(p) => {
                    proof {
                        assert forall|k: int| !lone_slash_at(tag@, k) by {
                            if lone_slash_at(tag@, k) {
                                assert(slash_at(tag@, p as int));
                                assert(slash_at(tag@, i as int));
                            }
                        }
                    }
                    return None;
                },
                None => {
                    first = Some(i);
                },
            }
        }
        i += 1;
    }
    proof {
        if first is None {
            assert forall|k: int| !lone_slash_at(tag@, k) by {
                if lone_slash_at(tag@, k) {
                    assert(slash_at(tag@, k));
                }
            }
        }
    }
    first
}

/// Whether a composite tag contains exactly one delimiter.
pub fn tag_well_formed(tag: &str) -> (r: bool)
    ensures
        r == tag_wf(tag@),
{
    find_lone_slash(tag).is_some()
}

/// Splits a composite tag into its domain and bare type. A tag without
/// exactly one delimiter yields two empty strings rather than an error:
/// callers treat an empty domain as "no handler".
pub fn decode_domain_and_type(tag: &str) -> (r: (String, String))
    ensures
        (r.0@, r.1@) == decode_tag_spec(tag@),
        !tag_wf(tag@) ==> r.0@ == Seq::<char>::empty() && r.1@ == Seq::<char>::empty(),
{
    match find_lone_slash(tag) {
        None => (String::new(), String::new()),
        Some(p) => {
            proof {
                assert(lone_slash_at(tag@, slash_pos(tag@)));
            }
            let n = tag.unicode_len();
            let d = tag.substring_char(0, p).to_owned();
            let t = tag.substring_char(p + 1, n).to_owned();
            (d, t)
        },
    }
}

/// Joins a domain and a bare type into a composite tag; the inverse of
/// `decode_domain_and_type` on well-formed tags.
pub fn encode_tag(domain: &str, bare: &str) -> (r: String)
    ensures
        r@ == encode_tag_spec(domain@, bare@),
{
    proof {
        reveal_strlit("/");
    }
    let mut s = domain.to_owned();
    s.append("/");
    s.append(bare);
    proof {
        assert(s@ =~= encode_tag_spec(domain@, bare@));
    }
    s
}

/// Law: decoding a well-formed composite tag and joining the two halves back
/// yields the original tag.
pub proof fn lemma_tag_round_trip(s: Seq<char>)
    requires
        tag_wf(s),
    ensures
        encode_tag_spec(decode_tag_spec(s).0, decode_tag_spec(s).1) == s,
{
    let i = slash_pos(s);
    assert(lone_slash_at(s, i));
    assert(encode_tag_spec(s.subrange(0, i), s.subrange(i + 1, s.len() as int)) =~= s);
}

/// Law: joining a domain and a bare type that are themselves free of the
/// delimiter yields a well-formed composite tag that decodes back to exactly
/// those two halves.
pub proof fn lemma_encoded_tag_decodes_back(d: Seq<char>, t: Seq<char>)
    requires
        forall|i: int| 0 <= i < d.len() ==> d[i] != '/',
        forall|i: int| 0 <= i < t.len() ==> t[i] != '/',
    ensures
        tag_wf(encode_tag_spec(d, t)),
        decode_tag_spec(encode_tag_spec(d, t)).0 == d,
        decode_tag_spec(encode_tag_spec(d, t)).1 == t,
{
    let s = encode_tag_spec(d, t);
    assert(s[d.len() as int] == '/');
    assert forall|j: int| slash_at(s, j) implies j == d.len() by {
        if j < d.len() {
            assert(s[j] == d[j]);
        } else if j > d.len() {
            assert(s[j] == t[j - d.len() - 1]);
        }
    }
    assert(lone_slash_at(s, d.len() as int));
    assert(lone_slash_at(s, slash_pos(s)));
    assert(decode_tag_spec(s).0 =~= d);
    assert(decode_tag_spec(s).1 =~= t);
}

/// Law: a malformed composite tag always decodes to two empty strings.
pub proof fn lemma_malformed_tag_decodes_empty(s: Seq<char>)
    requires
        !tag_wf(s),
    ensures
        decode_tag_spec(s) == (Seq::<char>::empty(), Seq::<char>::empty()),
{
}

} // verus!
