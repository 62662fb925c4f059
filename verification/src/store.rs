//! Typed access to the store: the records that its raw entries stand for,
//! and the functions that read and write them.

use vstd::prelude::*;
use cosmwasm_std::MemoryStorage;
use crate::bindings::{storage_entries, storage_get, storage_set};
use crate::codec::{
    config_bytes, decode_config, decode_poll, encode_config, encode_poll, lemma_config_round_trip,
    lemma_poll_round_trip, parse_config, parse_poll, poll_bytes,
};
use crate::error::{ContractError, Record};
use crate::keys::{
    config_key, config_storage_key, lemma_key_spaces_apart, lemma_poll_key_injective, poll_key,
    poll_storage_key,
};
use crate::state::{Config, ConfigView, Poll, PollView};

verus! {

/// The raw entries of a store.
pub type Entries = Map<Seq<u8>, Seq<u8>>;

/// What the store holds in the place of one record.
pub enum Stored<T> {
    /// Nothing is stored under the key of the record.
    Absent,
    /// Bytes are stored under the key, but they are not those of a record.
    Unreadable,
    /// The record.
    Present(T),
}

/// What the entries hold for the poll with the given question.
pub open spec fn poll_at(entries: Entries, question: Seq<char>) -> Stored<PollView> {
    if !entries.contains_key(poll_key(question)) {
        Stored::Absent
    } else {
        match parse_poll(question, entries[poll_key(question)]) {
            Some(poll) => Stored::Present(poll),
            None => Stored::Unreadable,
        }
    }
}

/// What the entries hold for the administrator record.
pub open spec fn config_at(entries: Entries) -> Stored<ConfigView> {
    if !entries.contains_key(config_key()) {
        Stored::Absent
    } else {
        match parse_config(entries[config_key()]) {
            Some(config) => Stored::Present(config),
            None => Stored::Unreadable,
        }
    }
}

/// The entries after the given poll has been written.
pub open spec fn with_poll(entries: Entries, poll: PollView) -> Entries {
    entries.insert(poll_key(poll.question), poll_bytes(poll))
}

/// The entries after the given administrator record has been written.
pub open spec fn with_config(entries: Entries, config: ConfigView) -> Entries {
    entries.insert(config_key(), config_bytes(config))
}

/// Whether a read of a poll returned what is stored: nothing for an absent
/// poll, the poll for one that is present, and a read failure for bytes that
/// are not those of a poll.
pub open spec fn poll_found(
    stored: Stored<PollView>,
    found: Result<Option<Poll>, ContractError>,
) -> bool {
    match stored {
        Stored::Absent => found matches Ok(None),
        Stored::Present(poll) => found matches Ok(Some(read)) && read@ == poll,
        Stored::Unreadable => found matches Err(ContractError::StorageReadFailure),
    }
}

/// Whether a read of the administrator record returned what is stored: the
/// record where it is present, `NotFound` where it is absent, and a read
/// failure for bytes that are not those of such a record.
pub open spec fn config_found(
    stored: Stored<ConfigView>,
    found: Result<Config, ContractError>,
) -> bool {
    match stored {
        Stored::Absent => found matches Err(ContractError::NotFound(Record::Config)),
        Stored::Present(config) => found matches Ok(read) && read@ == config,
        Stored::Unreadable => found matches Err(ContractError::StorageReadFailure),
    }
}

/// Writing a poll makes it the poll of its question, and changes neither
/// another poll nor the administrator record.
pub proof fn lemma_with_poll(entries: Entries, poll: PollView)
    ensures
        poll_at(with_poll(entries, poll), poll.question) == Stored::Present(poll),
        forall|other: Seq<char>|
            other != poll.question ==> #[trigger] poll_at(with_poll(entries, poll), other)
                == poll_at(entries, other),
        config_at(with_poll(entries, poll)) == config_at(entries),
{
    lemma_poll_round_trip(poll);
    lemma_key_spaces_apart(poll.question);
    assert forall|other: Seq<char>| other != poll.question implies #[trigger] poll_at(
        with_poll(entries, poll),
        other,
    ) == poll_at(entries, other) by {
        lemma_poll_key_injective(other, poll.question);
    }
}

/// Writing the administrator record makes it the one that is read back, and
/// changes no poll.
pub proof fn lemma_with_config(entries: Entries, config: ConfigView)
    ensures
        config_at(with_config(entries, config)) == Stored::Present(config),
        forall|question: Seq<char>| #[trigger]
            poll_at(with_config(entries, config), question) == poll_at(entries, question),
{
    lemma_config_round_trip(config);
    assert forall|question: Seq<char>| #[trigger]
        poll_at(with_config(entries, config), question) == poll_at(entries, question) by {
        lemma_key_spaces_apart(question);
    }
}

/// Tells whether anything is stored under the key of the given question.
pub fn has_poll(storage: &MemoryStorage, question: &str) -> (present: bool)
    ensures
        present == storage_entries(*storage).contains_key(poll_key(question@)),
        present == !(poll_at(storage_entries(*storage), question@) is Absent),
{
    let key = poll_storage_key(question);
    storage_get(storage, key.as_slice()).is_some()
}

/// Reads the poll with the given question: `Ok(None)` where there is none,
/// and an error where the stored bytes are not those of a poll.
pub fn may_load_poll(storage: &MemoryStorage, question: &str) -> (found: Result<
    Option<Poll>,
    ContractError,
>)
    ensures
        poll_found(poll_at(storage_entries(*storage), question@), found),
{
    let key = poll_storage_key(question);
    match storage_get(storage, key.as_slice()) {
        None => Ok(None),
        Some(bytes) => match decode_poll(question, bytes.as_slice()) {
            Some(poll) => Ok(Some(poll)),
            None => Err(ContractError::StorageReadFailure),
        },
    }
}

/// Writes a poll under the key of its question, replacing what was there.
pub fn save_poll(storage: &mut MemoryStorage, poll: &Poll)
    ensures
        storage_entries(*final(storage)) == with_poll(storage_entries(*old(storage)), poll@),
{
    let key = poll_storage_key(poll.question.as_str());
    let bytes = encode_poll(poll);
    storage_set(storage, key.as_slice(), bytes.as_slice());
}

/// Reads the administrator record; it is an error if there is none, or if the
/// stored bytes are not those of such a record.
pub fn load_config(storage: &MemoryStorage) -> (found: Result<Config, ContractError>)
    ensures
        config_found(config_at(storage_entries(*storage)), found),
{
    let key = config_storage_key();
    match storage_get(storage, key.as_slice()) {
        None => Err(ContractError::NotFound(Record::Config)),
        Some(bytes) => match decode_config(bytes.as_slice()) {
            Some(config) => Ok(config),
            None => Err(ContractError::StorageReadFailure),
        },
    }
}

/// Writes the administrator record, replacing what was there.
pub fn save_config(storage: &mut MemoryStorage, config: &Config)
    ensures
        storage_entries(*final(storage)) == with_config(storage_entries(*old(storage)), config@),
{
    let key = config_storage_key();
    let bytes = encode_config(config);
    storage_set(storage, key.as_slice(), bytes.as_slice());
}

} // verus!
