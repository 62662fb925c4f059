//! The entry points of the ledger: initialization, the two commands and the
//! two queries.
//!
//! What each entry point does is written down twice: once as a `spec`
//! function from the entries of the store to an outcome, and once as the
//! executable function, whose contract says that it returns and writes
//! exactly that outcome. A call that fails writes nothing.

use vstd::prelude::*;
use cosmwasm_std::testing::MockApi;
use cosmwasm_std::{Env, MemoryStorage, MessageInfo, Response, StdError};
use crate::bindings::{
    add_attribute, address_accepted, contract_info_key, contract_info_record, new_response,
    response_attributes, response_is_bare, set_contract_version, storage_entries,
    validate_address,
};
use crate::error::{ContractError, Record};
use crate::msg::{
    ExecuteMsg, ExecuteMsgView, GetPollResponse, GetPollResponseView, InstantiateMsg, QueryMsg,
    QueryMsgView, QueryResponse, QueryResponseView,
};
use crate::state::{fresh_poll, Config, ConfigView, Poll, PollView};
use crate::store::{
    config_at, has_poll, load_config, may_load_poll, poll_at, save_config, save_poll, with_config,
    with_poll, Entries, Stored,
};
use crate::text::same_text;

verus! {

/// The name under which the ledger tags the store.
pub const CONTRACT_NAME: &'static str = "crates.io:poll_ledger";

/// The version with which the ledger tags the store.
pub const CONTRACT_VERSION: &'static str = "0.1.0";

/// The attributes of the response to a command that succeeded: the one
/// attribute `action`, with the tag of the command.
pub open spec fn action_attributes(tag: Seq<char>) -> Seq<(Seq<char>, Seq<char>)> {
    seq![("action"@, tag)]
}

/// The entries after a successful initialization that stored the given
/// contract information: that record, and the administrator record.
pub open spec fn initialized(
    entries: Entries,
    record: Seq<u8>,
    admin_address: Seq<char>,
) -> Entries {
    with_config(entries.insert(contract_info_key(), record), ConfigView { admin_address })
}

/// What initialization does once the address has been accepted: it fails if
/// the contract information cannot be stored, and otherwise stores it and
/// the administrator record.
pub open spec fn initialize_outcome(entries: Entries, admin_address: Seq<char>) -> Result<
    Entries,
    ContractError,
> {
    match contract_info_record(CONTRACT_NAME@, CONTRACT_VERSION@) {
        Some(record) => Ok(initialized(entries, record, admin_address)),
        None => Err(ContractError::StorageWriteFailure),
    }
}

/// What initialization does with the verdict of a validator: it fails on a
/// rejection, and otherwise initializes the ledger for the address as
/// validated.
pub open spec fn validated_outcome(entries: Entries, validated: Result<String, StdError>) -> Result<
    Entries,
    ContractError,
> {
    match validated {
        Ok(admin_address) => initialize_outcome(entries, admin_address@),
        Err(_) => Err(ContractError::InvalidAddress),
    }
}

/// What the last step of an initialization does, after the attempt to tag
/// the store: it fails where the attempt failed, and otherwise writes the
/// administrator record.
pub open spec fn recorded_outcome(
    entries: Entries,
    tagged: Result<(), StdError>,
    admin_address: Seq<char>,
) -> Result<Entries, ContractError> {
    match tagged {
        Ok(_) => Ok(with_config(entries, ConfigView { admin_address })),
        Err(_) => Err(ContractError::StorageWriteFailure),
    }
}

/// What `instantiate` does: it rejects an address that the validator does not
/// accept, and otherwise initializes the ledger for that address.
pub open spec fn instantiate_outcome(entries: Entries, admin_address: Seq<char>) -> Result<
    Entries,
    ContractError,
> {
    if address_accepted(admin_address) {
        initialize_outcome(entries, admin_address)
    } else {
        Err(ContractError::InvalidAddress)
    }
}

/// What creating a poll does: it fails if the key of the question is taken,
/// and otherwise writes a poll without votes.
pub open spec fn create_poll_outcome(entries: Entries, question: Seq<char>) -> Result<
    Entries,
    ContractError,
> {
    if poll_at(entries, question) is Absent {
        Ok(with_poll(entries, fresh_poll(question)))
    } else {
        Err(ContractError::DuplicateKey)
    }
}

/// The poll after one more vote of the given choice, which is `yes` or `no`.
pub open spec fn counted(poll: PollView, choice: Seq<char>) -> PollView {
    if choice == "yes"@ {
        PollView { yes_votes: (poll.yes_votes + 1) as u64, ..poll }
    } else {
        PollView { no_votes: (poll.no_votes + 1) as u64, ..poll }
    }
}

/// Whether the counter that a vote would raise can still be raised. This
/// fails only for a poll that holds the largest count a counter can hold.
pub open spec fn vote_fits(entries: Entries, question: Seq<char>, choice: Seq<char>) -> bool {
    poll_at(entries, question) matches Stored::Present(poll) ==> {
        &&& choice == "yes"@ ==> poll.yes_votes < u64::MAX
        &&& choice == "no"@ ==> poll.no_votes < u64::MAX
    }
}

/// What casting a vote does: the poll must exist and be readable, then the
/// choice must be `yes` or `no`; the vote is then counted on the poll.
pub open spec fn vote_outcome(entries: Entries, question: Seq<char>, choice: Seq<char>) -> Result<
    Entries,
    ContractError,
> {
    match poll_at(entries, question) {
        Stored::Absent => Err(ContractError::NotFound(Record::Poll)),
        Stored::Unreadable => Err(ContractError::StorageReadFailure),
        Stored::Present(poll) => if choice == "yes"@ || choice == "no"@ {
            Ok(with_poll(entries, counted(poll, choice)))
        } else {
            Err(ContractError::InvalidChoice)
        },
    }
}

/// Whether a command can be carried out without a counter running over.
pub open spec fn execute_fits(entries: Entries, msg: ExecuteMsgView) -> bool {
    match msg {
        ExecuteMsgView::CreatePoll { .. } => true,
        ExecuteMsgView::Vote { question, choise } => vote_fits(entries, question, choise),
    }
}

/// What a command does to the entries.
pub open spec fn execute_outcome(entries: Entries, msg: ExecuteMsgView) -> Result<
    Entries,
    ContractError,
> {
    match msg {
        ExecuteMsgView::CreatePoll { question } => create_poll_outcome(entries, question),
        ExecuteMsgView::Vote { question, choise } => vote_outcome(entries, question, choise),
    }
}

/// The tag that the response to a command carries.
pub open spec fn action_tag(msg: ExecuteMsgView) -> Seq<char> {
    match msg {
        ExecuteMsgView::CreatePoll { .. } => "create_poll"@,
        ExecuteMsgView::Vote { .. } => "vote"@,
    }
}

/// The answer to the query for a poll: the poll, or nothing where there is
/// none; an error only where the stored bytes cannot be read.
pub open spec fn get_poll_outcome(entries: Entries, question: Seq<char>) -> Result<
    QueryResponseView,
    ContractError,
> {
    match poll_at(entries, question) {
        Stored::Absent => Ok(QueryResponseView::Poll(GetPollResponseView { poll: None })),
        Stored::Present(poll) => Ok(
            QueryResponseView::Poll(GetPollResponseView { poll: Some(poll) }),
        ),
        Stored::Unreadable => Err(ContractError::StorageReadFailure),
    }
}

/// The answer to the query for the administrator record, which must exist.
pub open spec fn get_config_outcome(entries: Entries) -> Result<QueryResponseView, ContractError> {
    match config_at(entries) {
        Stored::Absent => Err(ContractError::NotFound(Record::Config)),
        Stored::Present(config) => Ok(QueryResponseView::Config(config)),
        Stored::Unreadable => Err(ContractError::StorageReadFailure),
    }
}

/// The answer to a query.
pub open spec fn query_outcome(entries: Entries, msg: QueryMsgView) -> Result<
    QueryResponseView,
    ContractError,
> {
    match msg {
        QueryMsgView::GetPoll { question } => get_poll_outcome(entries, question),
        QueryMsgView::GetConfig => get_config_outcome(entries),
    }
}

/// The entries that an outcome leaves behind: the new entries where it is a
/// success, and the entries as they were where it is a failure.
pub open spec fn settled(outcome: Result<Entries, ContractError>, before: Entries) -> Entries {
    match outcome {
        Ok(next) => next,
        Err(_) => before,
    }
}

/// Whether a response is the one that answers a command with the given tag:
/// it carries the tag as its one attribute and nothing else.
pub open spec fn is_action_response(response: Response, tag: Seq<char>) -> bool {
    response_attributes(response) == action_attributes(tag) && response_is_bare(response)
}

/// Whether a call ended as its outcome says: the store holds what the outcome
/// leaves behind, and the call returned the response with the given tag on
/// success, and the error of the outcome on failure.
pub open spec fn carried_out(
    outcome: Result<Entries, ContractError>,
    tag: Seq<char>,
    result: Result<Response, ContractError>,
    before: Entries,
    after: Entries,
) -> bool {
    &&& after == settled(outcome, before)
    &&& match outcome {
        Ok(_) => result matches Ok(response) && is_action_response(response, tag),
        Err(error) => result matches Err(reported) && reported == error,
    }
}

/// Whether a query ended as its outcome says: with that answer, or with that
/// error.
pub open spec fn answered(
    outcome: Result<QueryResponseView, ContractError>,
    result: Result<QueryResponse, ContractError>,
) -> bool {
    match outcome {
        Ok(answer) => result matches Ok(response) && response@ == answer,
        Err(error) => result matches Err(reported) && reported == error,
    }
}

/// The two choices are different texts.
pub proof fn lemma_choices_differ()
    ensures
        "yes"@ != "no"@,
{
    reveal_strlit("yes");
    reveal_strlit("no");
    assert("yes"@.len() == 3);
    assert("no"@.len() == 2);
}

/// The response to a command that succeeded.
fn action_response(tag: &str) -> (response: Response)
    ensures
        is_action_response(response, tag@),
{
    proof {
        reveal_strlit("action");
    }
    let response = add_attribute(new_response(), "action", tag);
    assert(response_attributes(response) =~= action_attributes(tag@));
    response
}

/// Initializes the ledger: validates the administrator address, tags the
/// store with the name and version of the ledger, and writes the
/// administrator record. A second call replaces the record of the first.
pub fn instantiate(
    storage: &mut MemoryStorage,
    api: &MockApi,
    _env: Env,
    _info: MessageInfo,
    msg: InstantiateMsg,
) -> (result: Result<Response, ContractError>)
    ensures
        carried_out(
            instantiate_outcome(storage_entries(*old(storage)), msg@.admin_address),
            "instantiate"@,
            result,
            storage_entries(*old(storage)),
            storage_entries(*final(storage)),
        ),
{
    let validated = validate_address(api, msg.admin_address.as_str());
    instantiate_validated(storage, validated)
}

/// Initializes the ledger for an address that a validator has already
/// judged: `Ok` with the address as validated, or the validator's error.
pub fn instantiate_validated(
    storage: &mut MemoryStorage,
    validated: Result<String, StdError>,
) -> (result: Result<Response, ContractError>)
    ensures
        carried_out(
            validated_outcome(storage_entries(*old(storage)), validated),
            "instantiate"@,
            result,
            storage_entries(*old(storage)),
            storage_entries(*final(storage)),
        ),
{
    match validated {
        Ok(admin_address) => {
            let tagged = set_contract_version(storage, CONTRACT_NAME, CONTRACT_VERSION);
            record_admin(storage, tagged, admin_address)
        },
        Err(_) => Err(ContractError::InvalidAddress),
    }
}

/// Ends an initialization after the attempt to tag the store: where the
/// attempt failed, so does the initialization; where it succeeded, the
/// administrator record is written.
pub fn record_admin(
    storage: &mut MemoryStorage,
    tagged: Result<(), StdError>,
    admin_address: String,
) -> (result: Result<Response, ContractError>)
    ensures
        carried_out(
            recorded_outcome(storage_entries(*old(storage)), tagged, admin_address@),
            "instantiate"@,
            result,
            storage_entries(*old(storage)),
            storage_entries(*final(storage)),
        ),
{
    match tagged {
        Ok(_) => {
            let config = Config { admin_address };
            save_config(storage, &config);
            Ok(action_response("instantiate"))
        },
        Err(_) => Err(ContractError::StorageWriteFailure),
    }
}

/// Carries out a command. The caller has to know that the command raises no
/// counter beyond the largest count; `can_execute` tells, and `try_execute`
/// asks before it acts.
pub fn execute(
    storage: &mut MemoryStorage,
    env: Env,
    info: MessageInfo,
    msg: ExecuteMsg,
) -> (result: Result<Response, ContractError>)
    requires
        execute_fits(storage_entries(*old(storage)), msg@),
    ensures
        carried_out(
            execute_outcome(storage_entries(*old(storage)), msg@),
            action_tag(msg@),
            result,
            storage_entries(*old(storage)),
            storage_entries(*final(storage)),
        ),
{
    match msg {
        ExecuteMsg::CreatePoll { question } => execute_create_poll(storage, env, info, question),
        ExecuteMsg::Vote { question, choise } => execute_vote(storage, env, info, question, choise),
    }
}

/// Carries out a command if no counter would run over, and returns `None`
/// without touching the store if one would.
pub fn try_execute(
    storage: &mut MemoryStorage,
    env: Env,
    info: MessageInfo,
    msg: ExecuteMsg,
) -> (result: Option<Result<Response, ContractError>>)
    ensures
        result is Some <==> execute_fits(storage_entries(*old(storage)), msg@),
        result is None ==> storage_entries(*final(storage)) == storage_entries(*old(storage)),
        result matches Some(done) ==> carried_out(
            execute_outcome(storage_entries(*old(storage)), msg@),
            action_tag(msg@),
            done,
            storage_entries(*old(storage)),
            storage_entries(*final(storage)),
        ),
{
    if can_execute(storage, &msg) {
        Some(execute(storage, env, info, msg))
    } else {
        None
    }
}

/// Tells whether `execute` may be called with this command on this store:
/// whether the counter that the command would raise can still be raised.
pub fn can_execute(storage: &MemoryStorage, msg: &ExecuteMsg) -> (fits: bool)
    ensures
        fits == execute_fits(storage_entries(*storage), msg@),
{
    proof {
        lemma_choices_differ();
    }
    match msg {
        ExecuteMsg::CreatePoll { .. } => true,
        ExecuteMsg::Vote { question, choise } => {
            match may_load_poll(storage, question.as_str()) {
                Ok(Some(poll)) => {
                    if same_text(choise.as_str(), "yes") {
                        poll.yes_votes < u64::MAX
                    } else if same_text(choise.as_str(), "no") {
                        poll.no_votes < u64::MAX
                    } else {
                        true
                    }
                },
                _ => true,
            }
        },
    }
}

/// Creates the poll with the given question, without votes, unless the key
/// of that question is taken.
pub fn execute_create_poll(
    storage: &mut MemoryStorage,
    _env: Env,
    _info: MessageInfo,
    question: String,
) -> (result: Result<Response, ContractError>)
    ensures
        carried_out(
            create_poll_outcome(storage_entries(*old(storage)), question@),
            "create_poll"@,
            result,
            storage_entries(*old(storage)),
            storage_entries(*final(storage)),
        ),
{
    if has_poll(storage, question.as_str()) {
        return Err(ContractError::DuplicateKey);
    }
    let poll = Poll { question, yes_votes: 0, no_votes: 0 };
    save_poll(storage, &poll);
    Ok(action_response("create_poll"))
}

/// Counts one vote on the poll with the given question. The poll must exist
/// and the choice must be `yes` or `no`, in this order of precedence. The
/// caller has to know that the counter of the choice can still be raised.
pub fn execute_vote(
    storage: &mut MemoryStorage,
    _env: Env,
    _info: MessageInfo,
    question: String,
    choice: String,
) -> (result: Result<Response, ContractError>)
    requires
        vote_fits(storage_entries(*old(storage)), question@, choice@),
    ensures
        carried_out(
            vote_outcome(storage_entries(*old(storage)), question@, choice@),
            "vote"@,
            result,
            storage_entries(*old(storage)),
            storage_entries(*final(storage)),
        ),
{
    let mut poll = match may_load_poll(storage, question.as_str()) {
        Ok(Some(poll)) => poll,
        Ok(None) => {
            return Err(ContractError::NotFound(Record::Poll));
        },
        Err(error) => {
            return Err(error);
        },
    };
    if same_text(choice.as_str(), "yes") {
        poll.yes_votes = poll.yes_votes + 1;
    } else if same_text(choice.as_str(), "no") {
        poll.no_votes = poll.no_votes + 1;
    } else {
        return Err(ContractError::InvalidChoice);
    }
    save_poll(storage, &poll);
    Ok(action_response("vote"))
}

/// Answers a query. The store is not changed.
pub fn query(storage: &MemoryStorage, env: Env, msg: QueryMsg) -> (result: Result<
    QueryResponse,
    ContractError,
>)
    ensures
        answered(query_outcome(storage_entries(*storage), msg@), result),
{
    match msg {
        QueryMsg::GetPoll { question } => query_get_poll(storage, env, question),
        QueryMsg::GetConfig {  } => match load_config(storage) {
            Ok(config) => Ok(QueryResponse::Config(config)),
            Err(error) => Err(error),
        },
    }
}

/// Answers the query for the poll with the given question.
pub fn query_get_poll(storage: &MemoryStorage, _env: Env, question: String) -> (result: Result<
    QueryResponse,
    ContractError,
>)
    ensures
        answered(get_poll_outcome(storage_entries(*storage), question@), result),
{
    match may_load_poll(storage, question.as_str()) {
        Ok(poll) => Ok(QueryResponse::Poll(GetPollResponse { poll })),
        Err(error) => Err(error),
    }
}

} // verus!
