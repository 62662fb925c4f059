//! Everything this crate takes on trust: from `cosmwasm_std`, from `cw2`,
//! and of one function of `std`.
//!
//! The types declared here are opaque to the verifier, and the contracts of
//! the functions in this file are assumed, not proved. All other modules are
//! verified against these contracts.

use vstd::prelude::*;
use vstd::utf8::{encode_utf8, valid_utf8};

verus! {

/// `cosmwasm_std::MemoryStorage`, the in-memory key-value store.
#[verifier::external_type_specification]
#[verifier::external_body]
pub struct ExMemoryStorage(cosmwasm_std::MemoryStorage);

/// `cosmwasm_std::testing::MockApi`, the address validator used off-chain.
#[verifier::external_type_specification]
#[verifier::external_body]
pub struct ExMockApi(cosmwasm_std::testing::MockApi);

/// `cosmwasm_std::Env`, the block and contract context of a call.
#[verifier::external_type_specification]
#[verifier::external_body]
pub struct ExEnv(cosmwasm_std::Env);

/// `cosmwasm_std::MessageInfo`, the sender and funds of a call.
#[verifier::external_type_specification]
#[verifier::external_body]
pub struct ExMessageInfo(cosmwasm_std::MessageInfo);

/// `cosmwasm_std::StdError`, the error type of the `cosmwasm_std` functions.
#[verifier::external_type_specification]
#[verifier::external_body]
pub struct ExStdError(cosmwasm_std::StdError);

/// `cosmwasm_std::Empty`, the placeholder for "no custom message".
#[verifier::external_type_specification]
#[verifier::external_body]
pub struct ExEmpty(cosmwasm_std::Empty);

/// `cosmwasm_std::Response`, the success envelope of an entry point.
#[verifier::external_type_specification]
#[verifier::external_body]
#[verifier::reject_recursive_types(T)]
pub struct ExResponse<T>(cosmwasm_std::Response<T>);

/// The entries of a store: each key that is present, with its value.
pub uninterp spec fn storage_entries(storage: cosmwasm_std::MemoryStorage) -> Map<Seq<u8>, Seq<u8>>;

/// The attributes of a response, in order, each as a key and a value.
pub uninterp spec fn response_attributes(
    response: cosmwasm_std::Response<cosmwasm_std::Empty>,
) -> Seq<(Seq<char>, Seq<char>)>;

/// Whether a response carries nothing besides its attributes: no messages,
/// no events and no data.
pub uninterp spec fn response_is_bare(response: cosmwasm_std::Response<cosmwasm_std::Empty>) -> bool;

/// Whether `MockApi::addr_validate` accepts the given text as an address.
pub uninterp spec fn address_accepted(input: Seq<char>) -> bool;

/// The bytes that `cw2::set_contract_version` stores for a contract name and
/// a version, or `None` where it fails to serialize them.
pub uninterp spec fn contract_info_record(name: Seq<char>, version: Seq<char>) -> Option<Seq<u8>>;

/// The key under which `cw2` keeps the contract information: the ASCII bytes
/// of `contract_info`.
pub open spec fn contract_info_key() -> Seq<u8> {
    seq![99u8, 111u8, 110u8, 116u8, 114u8, 97u8, 99u8, 116u8, 95u8, 105u8, 110u8, 102u8, 111u8]
}

/// The entries of a store after `cw2` has tried to store a contract
/// information record in it: with the record under its key where there is
/// one, and unchanged where there is none.
pub open spec fn tagged_entries(entries: Map<Seq<u8>, Seq<u8>>, record: Option<Seq<u8>>) -> Map<
    Seq<u8>,
    Seq<u8>,
> {
    match record {
        Some(bytes) => entries.insert(contract_info_key(), bytes),
        None => entries,
    }
}

/// Calls `Storage::get` on a `MemoryStorage`, which looks the key up in its
/// map and returns a copy of the value found, or `None` for a missing key.
#[verifier::external_body]
pub(crate) fn storage_get(storage: &cosmwasm_std::MemoryStorage, key: &[u8]) -> (value: Option<
    Vec<u8>,
>)
    ensures
        value is Some <==> storage_entries(*storage).contains_key(key@),
        value matches Some(bytes) ==> storage_entries(*storage)[key@] == bytes@,
{
    cosmwasm_std::Storage::get(storage, key)
}

/// Calls `Storage::set` on a `MemoryStorage`, which panics on an empty value
/// and otherwise inserts the pair into its map, replacing any earlier value
/// of the key.
#[verifier::external_body]
pub(crate) fn storage_set(storage: &mut cosmwasm_std::MemoryStorage, key: &[u8], value: &[u8])
    requires
        value@.len() > 0,
    ensures
        storage_entries(*final(storage)) == storage_entries(*old(storage)).insert(key@, value@),
{
    cosmwasm_std::Storage::set(storage, key, value)
}

/// Calls `Api::addr_validate` on a `MockApi`. The outcome depends on the input
/// alone; an accepted address is returned with exactly the text of the input.
#[verifier::external_body]
pub(crate) fn validate_address(api: &cosmwasm_std::testing::MockApi, input: &str) -> (validated:
    Result<String, cosmwasm_std::StdError>)
    ensures
        validated is Ok <==> address_accepted(input@),
        validated matches Ok(address) ==> address@ == input@,
{
    cosmwasm_std::Api::addr_validate(api, input).map(String::from)
}

/// Calls `cw2::set_contract_version`, which serializes the name and the
/// version into one record and, if that succeeds, stores the record under
/// `contract_info`; if it fails, the store is left as it was.
#[verifier::external_body]
pub(crate) fn set_contract_version(
    storage: &mut cosmwasm_std::MemoryStorage,
    name: &str,
    version: &str,
) -> (tagged: Result<(), cosmwasm_std::StdError>)
    ensures
        tagged is Ok <==> contract_info_record(name@, version@) is Some,
        storage_entries(*final(storage)) == tagged_entries(
            storage_entries(*old(storage)),
            contract_info_record(name@, version@),
        ),
{
    cw2::set_contract_version(storage, name, version)
}

/// Calls `Response::new`, which yields a response without attributes,
/// messages, events or data.
#[verifier::external_body]
pub(crate) fn new_response() -> (response: cosmwasm_std::Response)
    ensures
        response_attributes(response) == Seq::<(Seq<char>, Seq<char>)>::empty(),
        response_is_bare(response),
{
    cosmwasm_std::Response::new()
}

/// Calls `Response::add_attribute`, which appends the given pair to the
/// attributes of the response and leaves the rest of it. In debug builds it
/// panics on a key that starts with an underscore.
#[verifier::external_body]
pub(crate) fn add_attribute(response: cosmwasm_std::Response, key: &str, value: &str) -> (extended:
    cosmwasm_std::Response)
    requires
        key@.len() == 0 || key@[0] != '_',
    ensures
        response_attributes(extended) == response_attributes(response).push((key@, value@)),
        response_is_bare(extended) == response_is_bare(response),
{
    response.add_attribute(key, value)
}

/// Calls `String::from_utf8`, which succeeds exactly on valid UTF-8 and then
/// returns the text that these bytes encode.
#[verifier::external_body]
pub(crate) fn string_from_utf8(bytes: Vec<u8>) -> (text: Option<String>)
    ensures
        text is Some <==> valid_utf8(bytes@),
        text matches Some(decoded) ==> encode_utf8(decoded@) == bytes@,
{
    String::from_utf8(bytes).ok()
}

} // verus!
