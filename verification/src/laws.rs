//! Laws of the ledger: what holds of its entry points taken together, for
//! every store and every input.
//!
//! The laws are stated over the outcome functions of the entry points, the
//! same functions that the contracts of the executable entry points are
//! stated over.

use vstd::prelude::*;
use crate::bindings::{address_accepted, contract_info_key, contract_info_record};
use crate::contract::{
    counted, create_poll_outcome, execute_fits, execute_outcome, initialize_outcome, initialized,
    instantiate_outcome, lemma_choices_differ, query_outcome, settled, vote_fits, vote_outcome,
    CONTRACT_NAME, CONTRACT_VERSION,
};
use crate::error::{ContractError, Record};
use crate::keys::lemma_key_spaces_apart;
use crate::msg::{ExecuteMsgView, GetPollResponseView, QueryMsgView, QueryResponseView};
use crate::state::{fresh_poll, ConfigView, PollView};
use crate::store::{config_at, lemma_with_config, lemma_with_poll, poll_at, Entries, Stored};

verus! {

/// The answer to a query that found the given administrator record.
pub open spec fn config_answer(admin_address: Seq<char>) -> Result<QueryResponseView, ContractError> {
    Ok(QueryResponseView::Config(ConfigView { admin_address }))
}

/// The answer to a query for a poll that found the given poll, or none.
pub open spec fn poll_answer(poll: Option<PollView>) -> Result<QueryResponseView, ContractError> {
    Ok(QueryResponseView::Poll(GetPollResponseView { poll }))
}

/// Initialization with an address that the validator accepts fails only
/// where the store cannot be tagged; where it succeeds, the query for the
/// administrator record returns that address.
pub proof fn law_instantiate_then_get_config(entries: Entries, admin_address: Seq<char>)
    requires
        address_accepted(admin_address),
    ensures
        instantiate_outcome(entries, admin_address) matches Ok(next) ==> query_outcome(
            next,
            QueryMsgView::GetConfig,
        ) == config_answer(admin_address),
        instantiate_outcome(entries, admin_address) matches Err(error) ==> error
            == ContractError::StorageWriteFailure,
{
    law_initialize_then_get_config(entries, admin_address);
}

/// Initialization with an address that was validated elsewhere fails only
/// where the store cannot be tagged; where it succeeds, the query for the
/// administrator record returns that address, and no poll has changed.
pub proof fn law_initialize_then_get_config(entries: Entries, admin_address: Seq<char>)
    ensures
        initialize_outcome(entries, admin_address) matches Ok(next) ==> query_outcome(
            next,
            QueryMsgView::GetConfig,
        ) == config_answer(admin_address),
        initialize_outcome(entries, admin_address) matches Ok(next) ==> forall|question: Seq<char>|
            #[trigger] poll_at(next, question) == poll_at(entries, question),
        initialize_outcome(entries, admin_address) matches Err(error) ==> error
            == ContractError::StorageWriteFailure,
{
    match contract_info_record(CONTRACT_NAME@, CONTRACT_VERSION@) {
        Some(record) => {
            lemma_with_config(
                entries.insert(contract_info_key(), record),
                ConfigView { admin_address },
            );
            assert forall|question: Seq<char>| #[trigger]
                poll_at(initialized(entries, record, admin_address), question) == poll_at(
                    entries,
                    question,
                ) by {
                lemma_key_spaces_apart(question);
            }
        },
        None => {},
    }
}

/// Creating a poll whose question is not in the store succeeds, and the query
/// for that question then returns the poll without votes.
pub proof fn law_create_then_get_poll(entries: Entries, question: Seq<char>)
    requires
        poll_at(entries, question) is Absent,
    ensures
        create_poll_outcome(entries, question) matches Ok(next) && query_outcome(
            next,
            (QueryMsgView::GetPoll { question }),
        ) == poll_answer(Some(fresh_poll(question))),
{
    lemma_with_poll(entries, fresh_poll(question));
}

/// Creating a poll a second time fails with `DuplicateKey`, whatever the
/// first attempt did, and the failed attempt leaves the entries as they were.
pub proof fn law_create_twice(entries: Entries, question: Seq<char>)
    ensures
        ({
            let once = settled(create_poll_outcome(entries, question), entries);
            &&& create_poll_outcome(once, question) matches Err(ContractError::DuplicateKey)
            &&& settled(create_poll_outcome(once, question), once) == once
        }),
{
    lemma_with_poll(entries, fresh_poll(question));
}

/// A vote `yes` on a poll raises its `yes` count by one and leaves its `no`
/// count; a vote `no` raises its `no` count by one and leaves its `yes`
/// count. No other poll changes, and neither does the administrator record.
pub proof fn law_vote_counts_once(entries: Entries, poll: PollView, choice: Seq<char>)
    requires
        poll_at(entries, poll.question) == Stored::Present(poll),
        choice == "yes"@ || choice == "no"@,
        vote_fits(entries, poll.question, choice),
    ensures
        vote_outcome(entries, poll.question, choice) matches Ok(next) && ({
            &&& poll_at(next, poll.question) matches Stored::Present(voted)
            &&& voted.question == poll.question
            &&& choice == "yes"@ ==> voted.yes_votes == poll.yes_votes + 1 && voted.no_votes
                == poll.no_votes
            &&& choice == "no"@ ==> voted.no_votes == poll.no_votes + 1 && voted.yes_votes
                == poll.yes_votes
            &&& forall|other: Seq<char>|
                other != poll.question ==> #[trigger] poll_at(next, other) == poll_at(
                    entries,
                    other,
                )
            &&& config_at(next) == config_at(entries)
        }),
{
    lemma_choices_differ();
    lemma_with_poll(entries, counted(poll, choice));
}

/// A vote that is neither `yes` nor `no` fails and leaves the entries as
/// they were; on a poll that is in the store it fails with `InvalidChoice`.
pub proof fn law_vote_rejects_other_choices(
    entries: Entries,
    question: Seq<char>,
    choice: Seq<char>,
)
    requires
        choice != "yes"@,
        choice != "no"@,
    ensures
        vote_fits(entries, question, choice),
        vote_outcome(entries, question, choice) is Err,
        settled(vote_outcome(entries, question, choice), entries) == entries,
        poll_at(entries, question) is Present ==> vote_outcome(
            entries,
            question,
            choice,
        ) matches Err(ContractError::InvalidChoice),
{
}

/// A vote on a question that is not in the store fails with `NotFound`,
/// whatever the choice, and leaves the entries as they were.
pub proof fn law_vote_needs_poll(entries: Entries, question: Seq<char>, choice: Seq<char>)
    requires
        poll_at(entries, question) is Absent,
    ensures
        vote_fits(entries, question, choice),
        vote_outcome(entries, question, choice) matches Err(ContractError::NotFound(Record::Poll)),
        settled(vote_outcome(entries, question, choice), entries) == entries,
{
}

/// The query for a question that is not in the store succeeds and returns no
/// poll.
pub proof fn law_get_unknown_poll(entries: Entries, question: Seq<char>)
    requires
        poll_at(entries, question) is Absent,
    ensures
        query_outcome(entries, (QueryMsgView::GetPoll { question })) == poll_answer(None),
{
}

/// No command removes a poll or lowers a count, and no command touches the
/// administrator record.
pub proof fn law_execute_keeps_records(entries: Entries, msg: ExecuteMsgView, poll: PollView)
    requires
        execute_fits(entries, msg),
        poll_at(entries, poll.question) == Stored::Present(poll),
    ensures
        ({
            let after = settled(execute_outcome(entries, msg), entries);
            &&& poll_at(after, poll.question) matches Stored::Present(kept)
            &&& kept.yes_votes >= poll.yes_votes
            &&& kept.no_votes >= poll.no_votes
            &&& kept.yes_votes + kept.no_votes <= poll.yes_votes + poll.no_votes + 1
            &&& config_at(after) == config_at(entries)
        }),
{
    lemma_choices_differ();
    match msg {
        ExecuteMsgView::CreatePoll { question } => {
            lemma_with_poll(entries, fresh_poll(question));
        },
        ExecuteMsgView::Vote { question, choise } => {
            if let Stored::Present(target) = poll_at(entries, question) {
                lemma_with_poll(entries, counted(target, choise));
            }
        },
    }
}

/// A command changes no poll but the one that it names.
pub proof fn law_execute_changes_one_poll(entries: Entries, msg: ExecuteMsgView, other: Seq<char>)
    requires
        other != msg.question(),
    ensures
        poll_at(settled(execute_outcome(entries, msg), entries), other) == poll_at(entries, other),
{
    match msg {
        ExecuteMsgView::CreatePoll { question } => {
            lemma_with_poll(entries, fresh_poll(question));
        },
        ExecuteMsgView::Vote { question, choise } => {
            if let Stored::Present(target) = poll_at(entries, question) {
                lemma_with_poll(entries, counted(target, choise));
            }
        },
    }
}

} // verus!
