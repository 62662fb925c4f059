//! The commands and queries that the ledger accepts, and the answers to the
//! queries.

use vstd::prelude::*;
use crate::state::{Config, ConfigView, Poll, PollView};

verus! {

/// The command that initializes the ledger.
#[derive(Clone, Debug, PartialEq, Eq)]
pub struct InstantiateMsg {
    /// The address of the administrator, not yet validated.
    pub admin_address: String,
}

/// What an [`InstantiateMsg`] holds, as a mathematical value.
pub struct InstantiateMsgView {
    pub admin_address: Seq<char>,
}

impl View for InstantiateMsg {
    type V = InstantiateMsgView;

    open spec fn view(&self) -> InstantiateMsgView {
        InstantiateMsgView { admin_address: self.admin_address@ }
    }
}

/// A command that changes the ledger.
#[derive(Clone, Debug, PartialEq, Eq)]
pub enum ExecuteMsg {
    /// Create a poll with this question.
    CreatePoll { question: String },
    /// Cast one vote, `yes` or `no`, on the poll with this question. The
    /// field of the vote is spelled `choise`, as it is in the JSON form of
    /// the command.
    Vote { question: String, choise: String },
}

/// What an [`ExecuteMsg`] holds, as a mathematical value.
pub enum ExecuteMsgView {
    CreatePoll { question: Seq<char> },
    Vote { question: Seq<char>, choise: Seq<char> },
}

impl ExecuteMsgView {
    /// The question of the poll that the command is about.
    pub open spec fn question(self) -> Seq<char> {
        match self {
            ExecuteMsgView::CreatePoll { question } => question,
            ExecuteMsgView::Vote { question, .. } => question,
        }
    }
}

impl View for ExecuteMsg {
    type V = ExecuteMsgView;

    open spec fn view(&self) -> ExecuteMsgView {
        match self {
            ExecuteMsg::CreatePoll { question } => ExecuteMsgView::CreatePoll {
                question: question@,
            },
            ExecuteMsg::Vote { question, choise } => ExecuteMsgView::Vote {
                question: question@,
                choise: choise@,
            },
        }
    }
}

/// A question put to the ledger. It changes nothing.
#[derive(Clone, Debug, PartialEq, Eq)]
pub enum QueryMsg {
    /// Ask for the poll with this question.
    GetPoll { question: String },
    /// Ask for the administrator record.
    GetConfig {},
}

/// What a [`QueryMsg`] holds, as a mathematical value.
pub enum QueryMsgView {
    GetPoll { question: Seq<char> },
    GetConfig,
}

impl View for QueryMsg {
    type V = QueryMsgView;

    open spec fn view(&self) -> QueryMsgView {
        match self {
            QueryMsg::GetPoll { question } => QueryMsgView::GetPoll { question: question@ },
            QueryMsg::GetConfig {  } => QueryMsgView::GetConfig,
        }
    }
}

/// The answer to [`QueryMsg::GetPoll`]: the poll, or `None` where no poll has
/// this question.
#[derive(Clone, Debug, PartialEq, Eq)]
pub struct GetPollResponse {
    pub poll: Option<Poll>,
}

/// What a [`GetPollResponse`] holds, as a mathematical value.
pub struct GetPollResponseView {
    pub poll: Option<PollView>,
}

impl View for GetPollResponse {
    type V = GetPollResponseView;

    open spec fn view(&self) -> GetPollResponseView {
        GetPollResponseView {
            poll: match self.poll {
                Some(poll) => Some(poll@),
                None => None,
            },
        }
    }
}

/// The answer to a [`QueryMsg`], one variant for each query.
#[derive(Clone, Debug, PartialEq, Eq)]
pub enum QueryResponse {
    /// The answer to [`QueryMsg::GetPoll`].
    Poll(GetPollResponse),
    /// The answer to [`QueryMsg::GetConfig`].
    Config(Config),
}

/// What a [`QueryResponse`] holds, as a mathematical value.
pub enum QueryResponseView {
    Poll(GetPollResponseView),
    Config(ConfigView),
}

impl View for QueryResponse {
    type V = QueryResponseView;

    open spec fn view(&self) -> QueryResponseView {
        match self {
            QueryResponse::Poll(response) => QueryResponseView::Poll(response@),
            QueryResponse::Config(config) => QueryResponseView::Config(config@),
        }
    }
}

} // verus!
