//! The bijection between lease identifiers and the token identifiers that
//! the outside world sees: a token id is the lease id followed by a fixed tag.
use vstd::prelude::*;
use vstd::string::{StrSliceExecFns, StringExecFns};

verus! {

/// The tag appended to a lease identifier to form its token identifier.
pub open spec fn token_tag() -> Seq<char> {
    seq!['_', 'l', 'e', 'n', 'd', 'e', 'r']
}

/// The token identifier of lease `lease_id`.
pub open spec fn token_of(lease_id: Seq<char>) -> Seq<char> {
    lease_id + token_tag()
}

/// The lease identifier behind token `token_id`, if it has the token form.
pub open spec fn lease_of(token_id: Seq<char>) -> Option<Seq<char>> {
    let n = token_id.len() as int;
    let k = token_tag().len() as int;
    if n >= k && token_id.subrange(n - k, n) == token_tag() {
        Some(token_id.subrange(0, n - k))
    } else {
        None
    }
}

/// Decoding an encoded lease identifier gives it back, and every token id that
/// decodes is the encoding of what it decodes to.
pub proof fn lemma_token_id_round_trip(lease_id: Seq<char>, token_id: Seq<char>)
    ensures
        lease_of(token_of(lease_id)) == Some(lease_id),
        lease_of(token_id) matches Some(l) ==> token_of(l) == token_id,
{
    let t = token_of(lease_id);
    let n = t.len() as int;
    assert(t.subrange(n - 7, n) =~= token_tag());
    assert(t.subrange(0, n - 7) =~= lease_id);
    if let Some(l) = lease_of(token_id) {
        let m = token_id.len() as int;
        assert(token_of(l) =~= token_id) by {
            assert(token_id =~= token_id.subrange(0, m - 7) + token_id.subrange(m - 7, m));
        }
    }
}

/// The token identifier of a lease: the lease id followed by the tag.
pub fn lease_id_to_lease_token_id(lease_id: &String) -> (r: String)
    ensures
        r@ == token_of(lease_id@),
{
    let tag = "_lender";
    proof {
        reveal_strlit("_lender");
    }
    let mut r = lease_id.clone();
    r.append(tag);
    assert(r@ =~= token_of(lease_id@));
    r
}

/// The lease identifier behind a token identifier; `None` where the token id
/// does not end with the tag.
pub fn lease_token_id_to_lease_id(token_id: &String) -> (r: Option<String>)
    ensures
        r matches Some(s) ==> lease_of(token_id@) == Some(s@),
        r is None ==> lease_of(token_id@) is None,
{
    let tag = "_lender";
    proof {
        reveal_strlit("_lender");
    }
    assert(tag@ =~= token_tag());
    let s = token_id.as_str();
    let n = s.unicode_len();
    if n < 7 {
        return None;
    }
    let tail = String::from_str(s.substring_char(n - 7, n));
    let tag_string = String::from_str(tag);
    if tail == tag_string {
        Some(String::from_str(s.substring_char(0, n - 7)))
    } else {
        None
    }
}

} // verus!
