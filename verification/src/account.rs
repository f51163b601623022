//! Account names that the host accepts.

use vstd::prelude::*;
use vstd::string::StringExecFns;
use crate::types::byte_len;

verus! {

/// The shortest account name that the host accepts, in bytes.
pub const MIN_ACCOUNT_ID_LEN: usize = 2;

/// The longest account name that the host accepts, in bytes.
pub const MAX_ACCOUNT_ID_LEN: usize = 64;

/// A lower-case letter or a digit.
pub open spec fn is_plain(b: u8) -> bool {
    (0x61 <= b <= 0x7a) || (0x30 <= b <= 0x39)
}

/// One of `-`, `_` and `.`.
pub open spec fn is_separator(b: u8) -> bool {
    b == 0x2d || b == 0x5f || b == 0x2e
}

/// Whether `id` is an account name: between two and sixty-four bytes, each a
/// lower-case letter, a digit or a separator, where no separator stands
/// first, last or next to another.
pub open spec fn valid_account_id(id: Seq<u8>) -> bool {
    &&& MIN_ACCOUNT_ID_LEN <= id.len() <= MAX_ACCOUNT_ID_LEN
    &&& forall|i: int| 0 <= i < id.len() ==> is_plain(#[trigger] id[i]) || is_separator(id[i])
    &&& !is_separator(id[0])
    &&& !is_separator(id[id.len() - 1])
    &&& forall|i: int|
        0 <= i < id.len() - 1 ==> !(is_separator(#[trigger] id[i]) && is_separator(id[i + 1]))
}

/// `near_sdk::env::is_valid_account_id` decides whether a byte string is an
/// account name. It rejects a string shorter than two or longer than
/// sixty-four bytes, then walks the bytes once: a byte that is neither a
/// lower-case letter, a digit nor one of `-`, `_`, `.` is rejected, and so is
/// a separator that stands first or follows another; at the end the last byte
/// must not be a separator. It reads nothing but its argument. The contract
/// below says that its answer is [`valid_account_id`]; this is taken from the
/// function's source and not proved.
pub assume_specification[ near_sdk::env::is_valid_account_id ](account_id: &[u8]) -> (r: bool)
    ensures
        r == valid_account_id(account_id@),
;

/// An account name that has been checked against the host's rules.
#[derive(Debug)]
pub struct ValidAccountId {
    id: String,
}

impl View for ValidAccountId {
    type V = Seq<char>;

    closed spec fn view(&self) -> Seq<char> {
        self.id@
    }
}

impl ValidAccountId {
    /// The name obeys the host's rules.
    #[verifier::type_invariant]
    spec fn checked(self) -> bool {
        valid_account_id(vstd::utf8::encode_utf8(self.id@))
    }

    /// Checks `id` against the host's rules and keeps it if it obeys them.
    pub fn new(id: String) -> (r: Option<Self>)
        ensures
            match r {
                Some(a) => a@ == id@ && valid_account_id(vstd::utf8::encode_utf8(id@)),
                None => !valid_account_id(vstd::utf8::encode_utf8(id@)),
            },
    {
        if near_sdk::env::is_valid_account_id(id.as_str().as_bytes()) {
            Some(ValidAccountId { id })
        } else {
            None
        }
    }

    /// The name as a string.
    pub fn as_string(&self) -> (r: &String)
        ensures
            r@ == self@,
            valid_account_id(vstd::utf8::encode_utf8(self@)),
    {
        proof {
            use_type_invariant(self);
        }
        &self.id
    }

    /// Gives up the check and returns the name.
    pub fn into_string(self) -> (r: String)
        ensures
            r@ == self@,
            valid_account_id(vstd::utf8::encode_utf8(self@)),
    {
        proof {
            use_type_invariant(&self);
        }
        self.id
    }
}

impl Clone for ValidAccountId {
    fn clone(&self) -> (r: Self)
        ensures
            r@ == self@,
    {
        proof {
            use_type_invariant(self);
        }
        ValidAccountId { id: self.id.clone() }
    }
}

/// The name of the longest account that the host accepts: sixty-four times
/// the letter `a`.
pub open spec fn longest_account_id() -> Seq<char> {
    Seq::new(MAX_ACCOUNT_ID_LEN as nat, |i: int| 'a')
}

/// A sequence of the letter `a` is written in UTF-8 as as many bytes `0x61`.
proof fn lemma_letters_encode(s: Seq<char>)
    requires
        forall|i: int| 0 <= i < s.len() ==> s[i] == 'a',
    ensures
        vstd::utf8::encode_utf8(s).len() == s.len(),
        forall|i: int| 0 <= i < s.len() ==> vstd::utf8::encode_utf8(s)[i] == 0x61u8,
{
    assert(vstd::utf8::is_ascii_chars(s)) by {
        assert forall|i: int| 0 <= i < s.len() implies '\0' <= #[trigger] s[i] <= '\u{7f}' by {
            assert(s[i] == 'a');
        }
    }
    vstd::utf8::is_ascii_chars_encode_utf8(s);
    assert forall|i: int| 0 <= i < s.len() implies vstd::utf8::encode_utf8(s)[i] == 0x61u8 by {
        assert(s[i] == 'a');
        assert(s[i] as u8 == vstd::utf8::encode_utf8(s)[i]);
        assert('a' as u8 == 0x61u8);
    }
}

/// The synthetic account of the greatest length that the host accepts. The
/// embedding program stores an entry under it to measure what one entry of
/// the owner index costs at most.
pub fn storage_probe_account_id() -> (r: String)
    ensures
        r@ == longest_account_id(),
        byte_len(r@) == MAX_ACCOUNT_ID_LEN,
        valid_account_id(vstd::utf8::encode_utf8(r@)),
{
    let mut id = String::new();
    let mut i: usize = 0;
    while i < MAX_ACCOUNT_ID_LEN
        invariant
            0 <= i <= MAX_ACCOUNT_ID_LEN,
            id@.len() == i,
            forall|j: int| 0 <= j < i ==> id@[j] == 'a',
        decreases MAX_ACCOUNT_ID_LEN - i,
    {
        proof {
            reveal_strlit("a");
        }
        id.append("a");
        i += 1;
    }
    proof {
        assert(id@ =~= longest_account_id());
        lemma_letters_encode(id@);
    }
    id
}

} // verus!
