//! The boundary of the trade operations.

use crate::object_id::{object_id_to_hex, ObjectId};
use vstd::prelude::*;

verus! {

/// The query string of a request for the trades of an account.
#[derive(Debug, PartialEq)]
pub struct UserIdQuery {
    /// The account's identifier in hexadecimal.
    pub user_id: String,
}

/// How the submission of a trade ended.
#[derive(Debug, PartialEq)]
pub enum Submission {
    /// The trade is stored and the account is charged.
    Submitted { trade_id: String },
    /// The trade is stored, but the account could not be charged.
    UpdateFailed,
    /// The trade could not be stored.
    CreateFailed,
}

/// The mathematical value of a [`Submission`].
pub enum SubmissionView {
    Submitted { trade_id: Seq<char> },
    UpdateFailed,
    CreateFailed,
}

impl View for Submission {
    type V = SubmissionView;

    open spec fn view(&self) -> SubmissionView {
        match self {
            Submission::Submitted { trade_id } => SubmissionView::Submitted { trade_id: trade_id@ },
            Submission::UpdateFailed => SubmissionView::UpdateFailed,
            Submission::CreateFailed => SubmissionView::CreateFailed,
        }
    }
}

/// How a submission ends, given the identifier under which the trade was
/// stored, if it was, and whether the account was charged afterwards.
pub open spec fn submission_of(created: Option<ObjectId>, charged: bool) -> SubmissionView {
    match created {
        Some(id) => if charged {
            SubmissionView::Submitted { trade_id: object_id_to_hex(id.bytes@) }
        } else {
            SubmissionView::UpdateFailed
        },
        None => SubmissionView::CreateFailed,
    }
}

/// Decides how the submission of a trade ended, once the store has been asked
/// to keep the trade and, where it did, to charge the account.
pub fn submit_trade(created: Option<ObjectId>, charged: bool) -> (outcome: Submission)
    ensures
        outcome@ == submission_of(created, charged),
{
    match created {
        Some(id) => if charged {
            Submission::Submitted { trade_id: id.to_hex() }
        } else {
            Submission::UpdateFailed
        },
        None => Submission::CreateFailed,
    }
}

/// The HTTP status of a submission: success where it went through, a server
/// error where either step failed.
pub open spec fn submission_status_of(outcome: SubmissionView) -> u16 {
    match outcome {
        SubmissionView::Submitted { trade_id } => 200,
        _ => 500,
    }
}

/// The message of a submission.
pub open spec fn submission_message_of(outcome: SubmissionView) -> Seq<char> {
    match outcome {
        SubmissionView::Submitted { trade_id } => "Trade submitted successfully"@,
        SubmissionView::UpdateFailed => "Failed to update user balance and trades"@,
        SubmissionView::CreateFailed => "Failed to create trade"@,
    }
}

impl Submission {
    /// The HTTP status to answer with.
    pub fn status(&self) -> (status: u16)
        ensures
            status == submission_status_of(self@),
    {
        match self {
            Submission::Submitted { trade_id } => 200,
            _ => 500,
        }
    }

    /// The message to answer with.
    pub fn message(&self) -> (text: String)
        ensures
            text@ == submission_message_of(self@),
    {
        match self {
            Submission::Submitted { trade_id } => "Trade submitted successfully".to_owned(),
            Submission::UpdateFailed => "Failed to update user balance and trades".to_owned(),
            Submission::CreateFailed => "Failed to create trade".to_owned(),
        }
    }
}

} // verus!
