//! The records of the ledger.

use vstd::prelude::*;

verus! {

/// The administrator record, written once when the ledger is initialized.
#[derive(Clone, Debug, PartialEq, Eq)]
pub struct Config {
    /// The validated address of the administrator.
    pub admin_address: String,
}

/// What a [`Config`] holds, as a mathematical value.
pub struct ConfigView {
    pub admin_address: Seq<char>,
}

impl View for Config {
    type V = ConfigView;

    open spec fn view(&self) -> ConfigView {
        ConfigView { admin_address: self.admin_address@ }
    }
}

/// One poll: its question, which names it, and the votes counted so far.
#[derive(Clone, Debug, PartialEq, Eq)]
pub struct Poll {
    /// The question. Polls are told apart by the exact text of it.
    pub question: String,
    /// How many `yes` votes were cast.
    pub yes_votes: u64,
    /// How many `no` votes were cast.
    pub no_votes: u64,
}

/// What a [`Poll`] holds, as a mathematical value.
pub struct PollView {
    pub question: Seq<char>,
    pub yes_votes: u64,
    pub no_votes: u64,
}

impl View for Poll {
    type V = PollView;

    open spec fn view(&self) -> PollView {
        PollView {
            question: self.question@,
            yes_votes: self.yes_votes,
            no_votes: self.no_votes,
        }
    }
}

/// The poll that `create_poll` writes for a question: nobody has voted yet.
pub open spec fn fresh_poll(question: Seq<char>) -> PollView {
    PollView { question, yes_votes: 0, no_votes: 0 }
}

} // verus!
