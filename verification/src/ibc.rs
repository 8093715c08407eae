use vstd::prelude::*;
use vstd::string::*;

verus! {

/// Whether a character is alphanumeric, as `char::is_alphanumeric` decides it.
pub uninterp spec fn alphanumeric(c: char) -> bool;

/// Calls `char::is_alphanumeric`; the result is the named predicate
/// `alphanumeric` of the character, which depends on the character alone.
#[verifier::external_body]
fn char_is_alphanumeric(c: char) -> (r: bool)
    ensures
        r == alphanumeric(c),
{
    c.is_alphanumeric()
}

/// The prefix of a relayed denom, `ibc/`.
pub open spec fn ibc_prefix() -> Seq<char> {
    seq!['i', 'b', 'c', '/']
}

/// The ellipsis that replaces the middle of the hash in a label.
pub open spec fn ellipsis() -> Seq<char> {
    seq!['.', '.', '.']
}

/// Number of characters in the hash of a relayed denom.
pub const IBC_HASH_SIZE: usize = 64;

/// Number of hash characters kept at each end of a label.
pub const IBC_HASH_TAKE: usize = 4;

/// A denom is relayed iff it is `ibc/` followed by exactly 64 alphanumeric
/// characters.
pub open spec fn is_ibc_denom(denom: Seq<char>) -> bool {
    &&& denom.len() == 4 + IBC_HASH_SIZE
    &&& denom.subrange(0, 4) == ibc_prefix()
    &&& forall|i: int| 4 <= i < denom.len() ==> alphanumeric(#[trigger] denom[i])
}

/// The label of a relayed denom: the prefix, the first four characters of
/// the hash, an ellipsis, and the last four characters of the hash.
pub open spec fn ibc_label(denom: Seq<char>) -> Seq<char> {
    ibc_prefix() + denom.subrange(4, 8) + ellipsis() + denom.subrange(
        denom.len() - 4,
        denom.len() as int,
    )
}

/// Verifies if the given denom is an ibc token or not.
pub fn is_ibc_token(denom: &str) -> (r: bool)
    ensures
        r == is_ibc_denom(denom@),
{
    let n: usize = denom.unicode_len();
    if n != 4 + IBC_HASH_SIZE {
        return false;
    }
    if denom.get_char(0) != 'i' || denom.get_char(1) != 'b' || denom.get_char(2) != 'c'
        || denom.get_char(3) != '/' {
        assert(denom@.subrange(0, 4) != ibc_prefix()) by {
            let p = denom@.subrange(0, 4);
            assert(p[0] == denom@[0] && p[1] == denom@[1] && p[2] == denom@[2] && p[3]
                == denom@[3]);
        }
        return false;
    }
    assert(denom@.subrange(0, 4) =~= ibc_prefix());
    let mut i: usize = 4;
    while i < n
        invariant
            4 <= i <= n,
            n == denom@.len(),
            forall|j: int| 4 <= j < i ==> alphanumeric(#[trigger] denom@[j]),
        decreases n - i,
    {
        if !char_is_alphanumeric(denom.get_char(i)) {
            return false;
        }
        i += 1;
    }
    true
}

/// Builds the label for an ibc token denom, such as `ibc/1234...5678`.
/// Call after `is_ibc_token` has been successful.
pub fn get_ibc_token_label(denom: &str) -> (label: String)
    requires
        is_ibc_denom(denom@),
    ensures
        label@ == ibc_label(denom@),
{
    let n: usize = denom.unicode_len();
    let mut label = String::from_str("ibc/");
    label.append(denom.substring_char(IBC_HASH_TAKE, 2 * IBC_HASH_TAKE));
    label.append("...");
    label.append(denom.substring_char(n - IBC_HASH_TAKE, n));
    proof {
        reveal_strlit("ibc/");
        reveal_strlit("...");
        assert("ibc/"@ =~= ibc_prefix());
        assert("..."@ =~= ellipsis());
    }
    label
}

} // verus!
