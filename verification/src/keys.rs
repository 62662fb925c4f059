//! Where the records live: the key of each record in the store.
//!
//! The administrator record has one fixed key. The key of a poll is a fixed
//! namespace followed by the UTF-8 bytes of its question, so that two polls
//! never share a key and no poll can take the key of another kind of record.

use vstd::prelude::*;
use vstd::utf8::{encode_utf8, encode_utf8_decode_utf8};
use crate::bindings::contract_info_key;

verus! {

/// The key of the administrator record: the ASCII bytes of `config`.
pub open spec fn config_key() -> Seq<u8> {
    seq![99u8, 111u8, 110u8, 102u8, 105u8, 103u8]
}

/// What every poll key starts with: the length of the name `polls` in two
/// bytes, big end first, and then the ASCII bytes of that name.
pub open spec fn poll_namespace() -> Seq<u8> {
    seq![0u8, 5u8, 112u8, 111u8, 108u8, 108u8, 115u8]
}

/// The key of the poll with the given question.
pub open spec fn poll_key(question: Seq<char>) -> Seq<u8> {
    poll_namespace() + encode_utf8(question)
}

/// Builds the key of the administrator record.
pub fn config_storage_key() -> (key: Vec<u8>)
    ensures
        key@ == config_key(),
{
    let key: Vec<u8> = vec![99u8, 111u8, 110u8, 102u8, 105u8, 103u8];
    assert(key@ =~= config_key());
    key
}

/// Builds the key of the poll with the given question.
pub fn poll_storage_key(question: &str) -> (key: Vec<u8>)
    ensures
        key@ == poll_key(question@),
{
    let mut key: Vec<u8> = vec![0u8, 5u8, 112u8, 111u8, 108u8, 108u8, 115u8];
    key.extend_from_slice(question.as_bytes());
    assert(key@ =~= poll_key(question@));
    key
}

/// Two questions have the same key only if they are the same question.
pub proof fn lemma_poll_key_injective(first: Seq<char>, second: Seq<char>)
    ensures
        poll_key(first) == poll_key(second) <==> first == second,
{
    if poll_key(first) == poll_key(second) {
        let skip = poll_namespace().len() as int;
        assert(poll_key(first).subrange(skip, poll_key(first).len() as int) =~= encode_utf8(first));
        assert(poll_key(second).subrange(skip, poll_key(second).len() as int) =~= encode_utf8(
            second,
        ));
        encode_utf8_decode_utf8(first);
        encode_utf8_decode_utf8(second);
    }
}

/// No poll has the key of the administrator record or of the contract
/// information, and those two keys differ.
pub proof fn lemma_key_spaces_apart(question: Seq<char>)
    ensures
        poll_key(question) != config_key(),
        poll_key(question) != contract_info_key(),
        config_key() != contract_info_key(),
{
    assert(poll_key(question)[0] == 0u8);
    assert(config_key()[0] == 99u8);
    assert(contract_info_key()[0] == 99u8);
    assert(config_key().len() == 6);
    assert(contract_info_key().len() == 13);
}

} // verus!
