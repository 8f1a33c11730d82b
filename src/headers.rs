//! Header policy: the outbound header list is the inbound one without the
//! connection-target header, and, when a credential is configured, with every
//! inbound authorization header replaced by exactly one bearer header.
use vstd::prelude::*;
use crate::text::chars_of;
use vstd::string::{StringExecFns, StringSliceAdditionalSpecFns};

verus! {

/// One header line: a name (compared without regard to ASCII case) and raw value bytes.
pub struct Header {
    pub name: String,
    pub value: Vec<u8>,
}

impl View for Header {
    type V = (Seq<char>, Seq<u8>);

    open spec fn view(&self) -> (Seq<char>, Seq<u8>) {
        (self.name@, self.value@)
    }
}

/// The abstract header list: each header as (name, value).
pub open spec fn header_views(hs: Seq<Header>) -> Seq<(Seq<char>, Seq<u8>)> {
    hs.map_values(|h: Header| h@)
}

/// `c` equals the lowercase character `l`, ignoring ASCII case.
pub open spec fn char_eq_ignore_case(c: char, l: char) -> bool {
    c == l || ('a' <= l && l <= 'z' && c as u32 + 32 == l as u32)
}

/// The name `n` spells `lower` when ASCII case is ignored.
pub open spec fn name_is(n: Seq<char>, lower: Seq<char>) -> bool {
    n.len() == lower.len() && forall|i: int| 0 <= i < n.len() ==> char_eq_ignore_case(n[i], lower[i])
}

pub open spec fn host_name() -> Seq<char> {
    seq!['h', 'o', 's', 't']
}

pub open spec fn authorization_name() -> Seq<char> {
    seq!['a', 'u', 't', 'h', 'o', 'r', 'i', 'z', 'a', 't', 'i', 'o', 'n']
}

pub open spec fn is_host(n: Seq<char>) -> bool {
    name_is(n, host_name())
}

pub open spec fn is_authorization(n: Seq<char>) -> bool {
    name_is(n, authorization_name())
}

/// The value `Bearer <credential>`.
pub open spec fn bearer_value(credential: Seq<u8>) -> Seq<u8> {
    seq![66u8, 101u8, 97u8, 114u8, 101u8, 114u8, 32u8] + credential
}

/// Whether an inbound header is passed on; authorization headers are dropped
/// only when they are to be replaced.
pub open spec fn forwarded(h: (Seq<char>, Seq<u8>), replace_auth: bool) -> bool {
    !is_host(h.0) && !(replace_auth && is_authorization(h.0))
}

/// `forwarded` as a predicate for filtering.
pub open spec fn forwarded_pred(replace_auth: bool) -> spec_fn((Seq<char>, Seq<u8>)) -> bool {
    |h: (Seq<char>, Seq<u8>)| forwarded(h, replace_auth)
}

/// The outbound header list for the inbound list `hs` and an optional credential.
pub open spec fn outbound_spec(
    hs: Seq<(Seq<char>, Seq<u8>)>,
    credential: Option<Seq<u8>>,
) -> Seq<(Seq<char>, Seq<u8>)> {
    match credential {
        Some(c) => hs.filter(forwarded_pred(true)).push(
            (authorization_name(), bearer_value(c)),
        ),
        None => hs.filter(forwarded_pred(false)),
    }
}

impl Header {
    pub fn new(name: String, value: Vec<u8>) -> (r: Header)
        ensures
            r@ == (name@, value@),
    {
        Header { name, value }
    }

    /// A header with the same name and value.
    pub fn duplicate(&self) -> (r: Header)
        ensures
            r@ == self@,
    {
        Header { name: self.name.clone(), value: self.value.clone() }
    }
}

/// Whether `name` spells `lower` when ASCII case is ignored.
pub fn name_matches(name: &str, lower: &str) -> (r: bool)
    ensures
        r == name_is(name@, lower@),
{
    let n = chars_of(name);
    let l = chars_of(lower);
    if n.len() != l.len() {
        return false;
    }
    let mut i: usize = 0;
    while i < n.len()
        invariant
            n@.len() == l@.len(),
            n@ == name@,
            l@ == lower@,
            forall|k: int| 0 <= k < i ==> char_eq_ignore_case(n@[k], l@[k]),
        decreases n@.len() - i,
    {
        let c = n[i];
        let d = l[i];
        let same = c == d || ('a' <= d && d <= 'z' && (d as u32) - 32 == c as u32);
        if !same {
            return false;
        }
        i = i + 1;
    }
    true
}

/// The bytes of `Bearer <credential>`.
pub fn bearer_bytes(credential: &str) -> (r: Vec<u8>)
    ensures
        r@ == bearer_value(credential.spec_bytes()),
{
    let mut out: Vec<u8> = vec![66u8, 101u8, 97u8, 114u8, 101u8, 114u8, 32u8];
    let bytes = credential.as_bytes();
    let mut i: usize = 0;
    while i < bytes.len()
        invariant
            bytes@ == credential.spec_bytes(),
            i <= bytes@.len(),
            out@ == bearer_value(bytes@.subrange(0, i as int)),
        decreases bytes@.len() - i,
    {
        out.push(bytes[i]);
        i = i + 1;
        proof {
            assert(out@ =~= bearer_value(bytes@.subrange(0, i as int)));
        }
    }
    proof {
        assert(bytes@.subrange(0, i as int) =~= bytes@);
    }
    out
}

/// Builds the outbound header list from the inbound one: drops the
/// connection-target header, keeps every other header in order, and, when a
/// credential is given, sets a single `authorization: Bearer <credential>`.
pub fn outbound_headers(inbound: &Vec<Header>, credential: Option<&str>) -> (out: Vec<Header>)
    ensures
        header_views(out@) == outbound_spec(
            header_views(inbound@),
            match credential {
                Some(c) => Some(c.spec_bytes()),
                None => None,
            },
        ),
        forall|i: int| 0 <= i < out@.len() ==> !is_host(#[trigger] out@[i].name@),
        credential matches Some(c) ==> exists|j: int|
            0 <= j < out@.len() && is_authorization(out@[j].name@) && out@[j].value@ == bearer_value(
                c.spec_bytes(),
            ) && forall|i: int|
                0 <= i < out@.len() && i != j ==> !is_authorization(#[trigger] out@[i].name@),
{
    let replace_auth = credential.is_some();
    let ghost pred = forwarded_pred(replace_auth);
    let ghost hs = header_views(inbound@);
    let mut out: Vec<Header> = Vec::new();
    let mut i: usize = 0;
    proof {
        reveal(Seq::filter);
        assert(header_views(out@) =~= hs.subrange(0, 0).filter(pred));
    }
    while i < inbound.len()
        invariant
            i <= inbound@.len(),
            hs == header_views(inbound@),
            pred == forwarded_pred(replace_auth),
            replace_auth == credential.is_some(),
            header_views(out@) == hs.subrange(0, i as int).filter(pred),
        decreases inbound@.len() - i,
    {
        let h = &inbound[i];
        let host = name_matches(h.name.as_str(), "host");
        let auth = name_matches(h.name.as_str(), "authorization");
        proof {
            reveal_strlit("host");
            reveal_strlit("authorization");
            assert("host"@ =~= host_name());
            assert("authorization"@ =~= authorization_name());
            reveal(Seq::filter);
            let s1 = hs.subrange(0, i + 1);
            assert(s1.drop_last() =~= hs.subrange(0, i as int));
            assert(s1.last() == h@);
            assert(host == is_host(h@.0));
            assert(auth == is_authorization(h@.0));
            assert(pred(h@) == forwarded(h@, replace_auth));
            assert(pred(h@) == (!host && !(replace_auth && auth)));
            assert(s1.filter(pred) == if pred(h@) {
                hs.subrange(0, i as int).filter(pred).push(h@)
            } else {
                hs.subrange(0, i as int).filter(pred)
            });
        }
        let ghost before = out@;
        if !host && !(replace_auth && auth) {
            out.push(h.duplicate());
            proof {
                assert(header_views(out@) =~= header_views(before).push(h@));
            }
        }
        i = i + 1;
    }
    proof {
        assert(hs.subrange(0, i as int) =~= hs);
        let kept = hs.filter(pred);
        assert forall|k: int| 0 <= k < kept.len() implies pred(kept[k]) by {
            hs.lemma_filter_pred(pred, k);
        }
        assert forall|k: int| 0 <= k < out@.len() implies header_views(out@)[k] == out@[k]@ by {}
        assert forall|k: int| 0 <= k < out@.len() implies !is_host(#[trigger] out@[k].name@) by {
            assert(pred(kept[k]));
        }
    }
    match credential {
        Some(c) => {
            let ghost kept_len = out@.len();
            let name = String::from_str("authorization");
            let value = bearer_bytes(c);
            proof {
                reveal_strlit("authorization");
                assert(name@ =~= authorization_name());
            }
            let ghost before = out@;
            out.push(Header::new(name, value));
            proof {
                assert(header_views(out@) =~= header_views(before).push(out@[kept_len as int]@));
                assert forall|i: int|
                    0 <= i < out@.len() && i != kept_len implies !is_authorization(
                    #[trigger] out@[i].name@,
                ) by {
                    assert(out@[i] == before[i]);
                    assert(header_views(before)[i] == before[i]@);
                }
                assert forall|i: int| 0 <= i < out@.len() implies !is_host(#[trigger] out@[i].name@) by {
                    if i < kept_len {
                        assert(out@[i] == before[i]);
                        assert(header_views(before)[i] == before[i]@);
                    } else {
                        assert(out@[i].name@ == authorization_name());
                        assert(!char_eq_ignore_case(out@[i].name@[0], host_name()[0]));
                    }
                }
            }
        },
        None => {},
    }
    out
}

} // verus!
