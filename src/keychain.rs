//! Credential store keyed by endpoint. This build has no OS-native secret
//! store: the store operations report that it is not enabled. The account
//! name under which a credential for a remote URL is kept is computed here.
use vstd::prelude::*;
use std::collections::hash_map::DefaultHasher;
use std::hash::Hasher;
use vstd::std_specs::hash::DefaultHasherAdditionalSpecFns;
use vstd::string::{StrSliceExecFns, StringExecFns, StringSliceAdditionalSpecFns};
use vstd::utf8::encode_utf8;
use crate::forward::{http_scheme, https_scheme};
use crate::text::{chars_of, has_prefix, occurs_at_exec};

verus! {

/// Identifiers longer than this many bytes are stored under a hash.
pub const MAX_PLAIN_ID_BYTES: usize = 50;

/// Whether this build stores credentials in an OS-native secret store.
pub fn is_keychain_enabled() -> (r: bool)
    ensures
        !r,
{
    false
}

/// `s` with every leading repetition of the non-empty `p` removed.
pub open spec fn strip_prefix_all(s: Seq<char>, p: Seq<char>) -> Seq<char>
    decreases s.len(),
{
    if p.len() > 0 && has_prefix(s, p) {
        strip_prefix_all(s.subrange(p.len() as int, s.len() as int), p)
    } else {
        s
    }
}

/// `s` with every trailing `c` removed.
pub open spec fn strip_suffix_all(s: Seq<char>, c: char) -> Seq<char>
    decreases s.len(),
{
    if s.len() > 0 && s.last() == c {
        strip_suffix_all(s.drop_last(), c)
    } else {
        s
    }
}

/// The normalized endpoint identifier: leading `http://`, then leading
/// `https://`, then trailing `/` removed.
pub open spec fn endpoint_id(url: Seq<char>) -> Seq<char> {
    strip_suffix_all(strip_prefix_all(strip_prefix_all(url, http_scheme()), https_scheme()), '/')
}

/// The standard library's default hash of a string: its bytes, then `0xff`.
pub open spec fn endpoint_hash(id: Seq<char>) -> u64 {
    DefaultHasher::spec_finish(seq![encode_utf8(id), seq![255u8]])
}

pub open spec fn digit_char(d: nat) -> char {
    seq!['0', '1', '2', '3', '4', '5', '6', '7', '8', '9'][d as int]
}

/// The decimal digits of `n`, most significant first.
pub open spec fn decimal(n: nat) -> Seq<char>
    decreases n,
{
    if n < 10 {
        seq![digit_char(n)]
    } else {
        decimal(n / 10).push(digit_char(n % 10))
    }
}

pub open spec fn account_prefix() -> Seq<char> {
    seq!['a', 'p', 'i', '-', 'k', 'e', 'y', '-']
}

/// The account name for a remote URL: `api-key-` followed by the endpoint
/// identifier, or by the decimal hash of it when it is over the byte limit.
pub open spec fn account_name(url: Seq<char>) -> Seq<char> {
    let id = endpoint_id(url);
    if encode_utf8(id).len() > MAX_PLAIN_ID_BYTES {
        account_prefix() + decimal(endpoint_hash(id) as nat)
    } else {
        account_prefix() + id
    }
}

fn digit_text(d: u64) -> (r: &'static str)
    requires
        d < 10,
    ensures
        r@ == seq![digit_char(d as nat)],
{
    proof {
        reveal_strlit("0");
        reveal_strlit("1");
        reveal_strlit("2");
        reveal_strlit("3");
        reveal_strlit("4");
        reveal_strlit("5");
        reveal_strlit("6");
        reveal_strlit("7");
        reveal_strlit("8");
        reveal_strlit("9");
    }
    let r = if d == 0 {
        "0"
    } else if d == 1 {
        "1"
    } else if d == 2 {
        "2"
    } else if d == 3 {
        "3"
    } else if d == 4 {
        "4"
    } else if d == 5 {
        "5"
    } else if d == 6 {
        "6"
    } else if d == 7 {
        "7"
    } else if d == 8 {
        "8"
    } else {
        "9"
    };
    proof {
        assert(r@ =~= seq![digit_char(d as nat)]);
    }
    r
}

/// Appends the decimal digits of `n`.
fn push_decimal(out: &mut String, n: u64)
    ensures
        final(out)@ == old(out)@ + decimal(n as nat),
    decreases n,
{
    if n >= 10 {
        push_decimal(out, n / 10);
    }
    out.append(digit_text(n % 10));
    proof {
        if n >= 10 {
            assert(decimal(n as nat) == decimal((n / 10) as nat).push(digit_char((n % 10) as nat)));
        }
    }
    assert(final(out)@ =~= old(out)@ + decimal(n as nat));
}

/// The default hash of a string, as `Hash for str` feeds it to the hasher.
fn hash_endpoint(id: &str) -> (r: u64)
    ensures
        r == endpoint_hash(id@),
{
    let mut h = DefaultHasher::new();
    let bytes = id.as_bytes();
    h.write(bytes);
    assert(h@ =~= seq![encode_utf8(id@)]);
    let tail: Vec<u8> = vec![255u8];
    let ts = tail.as_slice();
    assert(ts@ =~= seq![255u8]);
    h.write(ts);
    proof {
        assert(h@ =~= seq![encode_utf8(id@), seq![255u8]]);
    }
    h.finish()
}

/// The account name under which the credential for `remote_url` is kept.
pub fn create_account_name(remote_url: &str) -> (r: String)
    ensures
        r@ == account_name(remote_url@),
{
    let cs = chars_of(remote_url);
    let http = chars_of("http://");
    let https = chars_of("https://");
    proof {
        reveal_strlit("http://");
        reveal_strlit("https://");
        assert(http@ =~= http_scheme());
        assert(https@ =~= https_scheme());
    }
    let n = cs.len();
    let mut start: usize = 0;
    proof {
        assert(cs@.subrange(0, n as int) =~= cs@);
    }
    while occurs_at_exec(&cs, &http, start)
        invariant
            start <= n == cs@.len(),
            http@ == http_scheme(),
            strip_prefix_all(cs@, http@) == strip_prefix_all(cs@.subrange(start as int, n as int), http@),
        decreases n - start,
    {
        proof {
            let rest = cs@.subrange(start as int, n as int);
            assert(rest.subrange(0, 7) =~= cs@.subrange(start as int, start + 7));
            assert(rest.subrange(7, rest.len() as int) =~= cs@.subrange(start + 7, n as int));
        }
        start = start + 7;
    }
    proof {
        let rest = cs@.subrange(start as int, n as int);
        if has_prefix(rest, http@) {
            assert(rest.subrange(0, 7) =~= cs@.subrange(start as int, start + 7));
        }
    }
    let mid: usize = start;
    while occurs_at_exec(&cs, &https, start)
        invariant
            mid <= start <= n == cs@.len(),
            https@ == https_scheme(),
            strip_prefix_all(cs@.subrange(mid as int, n as int), https@) == strip_prefix_all(
                cs@.subrange(start as int, n as int),
                https@,
            ),
        decreases n - start,
    {
        proof {
            let rest = cs@.subrange(start as int, n as int);
            assert(rest.subrange(0, 8) =~= cs@.subrange(start as int, start + 8));
            assert(rest.subrange(8, rest.len() as int) =~= cs@.subrange(start + 8, n as int));
        }
        start = start + 8;
    }
    proof {
        let rest = cs@.subrange(start as int, n as int);
        if has_prefix(rest, https@) {
            assert(rest.subrange(0, 8) =~= cs@.subrange(start as int, start + 8));
        }
    }
    let mut end: usize = n;
    while end > start && cs[end - 1] == '/'
        invariant
            start <= end <= n == cs@.len(),
            strip_suffix_all(cs@.subrange(start as int, n as int), '/') == strip_suffix_all(
                cs@.subrange(start as int, end as int),
                '/',
            ),
        decreases end,
    {
        proof {
            assert(cs@.subrange(start as int, end as int).drop_last() =~= cs@.subrange(
                start as int,
                end - 1,
            ));
        }
        end = end - 1;
    }
    let id = remote_url.substring_char(start, end);
    proof {
        let rest = cs@.subrange(start as int, end as int);
        assert(strip_prefix_all(cs@.subrange(mid as int, n as int), https@) == cs@.subrange(start as int, n as int));
        assert(strip_prefix_all(cs@, http@) == cs@.subrange(mid as int, n as int));
        assert(strip_suffix_all(rest, '/') == rest);
        assert(id@ == endpoint_id(remote_url@));
    }
    let mut out = String::from_str("api-key-");
    proof {
        reveal_strlit("api-key-");
        assert(out@ =~= account_prefix());
    }
    let id_bytes = id.as_bytes().len();
    assert(id_bytes == encode_utf8(id@).len());
    if id_bytes > MAX_PLAIN_ID_BYTES {
        let h = hash_endpoint(id);
        push_decimal(&mut out, h);
    } else {
        out.append(id);
    }
    out
}

/// A credential-store operation that could not be carried out.
#[derive(Debug, PartialEq, Eq, Structural)]
pub enum KeychainError {
    /// This build has no OS-native secret store.
    NotEnabled,
}

impl KeychainError {
    /// A sentence for the operator.
    pub fn message(&self) -> (r: String)
        ensures
            r@.len() > 0,
    {
        let r = String::from_str("Keychain support is not enabled in this build");
        proof {
            reveal_strlit("Keychain support is not enabled in this build");
        }
        r
    }
}

/// Stores `api_key` for `remote_url`; this build has no store to write to.
pub fn save_api_key(api_key: &str, remote_url: &str) -> (r: Result<(), KeychainError>)
    ensures
        r == Err::<(), KeychainError>(KeychainError::NotEnabled),
{
    Err(KeychainError::NotEnabled)
}

/// Looks up the credential for `remote_url`; this build has no store to read.
pub fn get_api_key(remote_url: &str) -> (r: Result<String, KeychainError>)
    ensures
        r matches Err(e) && e == KeychainError::NotEnabled,
{
    Err(KeychainError::NotEnabled)
}

/// Removes the credential for `remote_url`; this build has no store.
pub fn delete_api_key(remote_url: &str) -> (r: Result<(), KeychainError>)
    ensures
        r == Err::<(), KeychainError>(KeychainError::NotEnabled),
{
    Err(KeychainError::NotEnabled)
}

/// Lists the remote URLs that have a stored credential; this build has no store.
pub fn list_saved_urls() -> (r: Result<Vec<String>, KeychainError>)
    ensures
        r matches Err(e) && e == KeychainError::NotEnabled,
{
    Err(KeychainError::NotEnabled)
}

} // verus!
