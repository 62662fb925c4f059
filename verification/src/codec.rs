//! How the records are written down: the bytes of each record, and how they
//! are read back.
//!
//! A poll is stored as sixteen bytes, the `yes` count and then the `no`
//! count, each as eight bytes with the little end first; its question is in
//! its key. The administrator record is stored as one format byte followed
//! by the UTF-8 bytes of the address. Neither record is ever empty.

use vstd::prelude::*;
use vstd::bytes::{
    lemma_auto_spec_u64_to_from_le_bytes, spec_u64_from_le_bytes, spec_u64_to_le_bytes,
    u64_from_le_bytes, u64_to_le_bytes,
};
use vstd::slice::{slice_subrange, slice_to_vec};
use vstd::utf8::{decode_utf8, encode_utf8, encode_utf8_decode_utf8, encode_utf8_valid_utf8, valid_utf8};
use crate::bindings::string_from_utf8;
use crate::state::{Config, ConfigView, Poll, PollView};

verus! {

/// The format byte that opens every administrator record.
pub const CONFIG_FORMAT: u8 = 1;

/// The bytes stored for a poll.
pub open spec fn poll_bytes(poll: PollView) -> Seq<u8> {
    spec_u64_to_le_bytes(poll.yes_votes) + spec_u64_to_le_bytes(poll.no_votes)
}

/// The poll that stored bytes stand for under the given question, or `None`
/// where they are not the bytes of any poll.
pub open spec fn parse_poll(question: Seq<char>, bytes: Seq<u8>) -> Option<PollView> {
    if bytes.len() == 16 {
        Some(
            PollView {
                question,
                yes_votes: spec_u64_from_le_bytes(bytes.subrange(0, 8)),
                no_votes: spec_u64_from_le_bytes(bytes.subrange(8, 16)),
            },
        )
    } else {
        None
    }
}

/// The bytes stored for an administrator record.
pub open spec fn config_bytes(config: ConfigView) -> Seq<u8> {
    seq![CONFIG_FORMAT] + encode_utf8(config.admin_address)
}

/// The administrator record that stored bytes stand for, or `None` where they
/// are not the bytes of any such record.
pub open spec fn parse_config(bytes: Seq<u8>) -> Option<ConfigView> {
    if bytes.len() >= 1 && bytes[0] == CONFIG_FORMAT && valid_utf8(
        bytes.subrange(1, bytes.len() as int),
    ) {
        Some(ConfigView { admin_address: decode_utf8(bytes.subrange(1, bytes.len() as int)) })
    } else {
        None
    }
}

/// Reading the bytes of a poll back gives that poll.
pub proof fn lemma_poll_round_trip(poll: PollView)
    ensures
        poll_bytes(poll).len() == 16,
        parse_poll(poll.question, poll_bytes(poll)) == Some(poll),
{
    lemma_auto_spec_u64_to_from_le_bytes();
    let bytes = poll_bytes(poll);
    assert(bytes.subrange(0, 8) =~= spec_u64_to_le_bytes(poll.yes_votes));
    assert(bytes.subrange(8, 16) =~= spec_u64_to_le_bytes(poll.no_votes));
}

/// Reading the bytes of an administrator record back gives that record.
pub proof fn lemma_config_round_trip(config: ConfigView)
    ensures
        config_bytes(config).len() >= 1,
        parse_config(config_bytes(config)) == Some(config),
{
    let bytes = config_bytes(config);
    assert(bytes.subrange(1, bytes.len() as int) =~= encode_utf8(config.admin_address));
    encode_utf8_valid_utf8(config.admin_address);
    encode_utf8_decode_utf8(config.admin_address);
}

/// Writes a poll down.
pub fn encode_poll(poll: &Poll) -> (bytes: Vec<u8>)
    ensures
        bytes@ == poll_bytes(poll@),
        bytes@.len() == 16,
{
    let mut bytes = u64_to_le_bytes(poll.yes_votes);
    let mut no_bytes = u64_to_le_bytes(poll.no_votes);
    bytes.append(&mut no_bytes);
    bytes
}

/// Reads a poll back from the bytes stored under its question.
pub fn decode_poll(question: &str, bytes: &[u8]) -> (poll: Option<Poll>)
    ensures
        poll is Some <==> parse_poll(question@, bytes@) is Some,
        poll matches Some(read) ==> parse_poll(question@, bytes@) == Some(read@),
{
    if bytes.len() != 16 {
        return None;
    }
    let yes_votes = u64_from_le_bytes(slice_subrange(bytes, 0, 8));
    let no_votes = u64_from_le_bytes(slice_subrange(bytes, 8, 16));
    Some(Poll { question: question.to_owned(), yes_votes, no_votes })
}

/// Writes an administrator record down.
pub fn encode_config(config: &Config) -> (bytes: Vec<u8>)
    ensures
        bytes@ == config_bytes(config@),
        bytes@.len() >= 1,
{
    let mut bytes: Vec<u8> = vec![CONFIG_FORMAT];
    bytes.extend_from_slice(config.admin_address.as_str().as_bytes());
    assert(bytes@ =~= config_bytes(config@));
    bytes
}

/// Reads an administrator record back.
pub fn decode_config(bytes: &[u8]) -> (config: Option<Config>)
    ensures
        config is Some <==> parse_config(bytes@) is Some,
        config matches Some(read) ==> parse_config(bytes@) == Some(read@),
{
    if bytes.len() == 0 || bytes[0] != CONFIG_FORMAT {
        return None;
    }
    let rest = slice_to_vec(slice_subrange(bytes, 1, bytes.len()));
    match string_from_utf8(rest) {
        Some(admin_address) => {
            proof {
                encode_utf8_decode_utf8(admin_address@);
            }
            Some(Config { admin_address })
        },
        None => None,
    }
}

} // verus!
