//! The order of the checks of `/approve`, `/decline` and their chat versions:
//! the id is read first, then the sender is looked at, then the sender must be
//! an admin, and only then is the request looked up.
use vstd::prelude::*;

use super::reply::Reply;
use crate::text::{parse_i32, parsed_integer};

verus! {

/// Whose request is reviewed.
#[derive(PartialEq, Eq, Structural, Clone, Copy, Debug)]
pub enum ReviewKind {
    /// A user's request to download.
    User,
    /// A request that a chat may download.
    Chat,
}

/// Where a review stands.
#[derive(PartialEq, Eq, Structural, Clone, Copy, Debug)]
pub enum ReviewState {
    /// The id was read; the message's sender is to be looked at.
    AwaitSender { id: i32 },
    /// The sender's user row is to be loaded.
    AwaitUser { id: i32 },
    /// The request is to be looked up.
    AwaitLookup { id: i32 },
    /// Nothing more is done.
    Finished,
}

/// What a lookup of the request by its id found.
#[derive(PartialEq, Eq, Structural, Clone, Copy, Debug)]
pub enum LookupOutcome {
    /// A pending request with that id.
    Found,
    /// No pending request with that id.
    NotFound,
    /// The database failed.
    Failed,
}

/// What the program learnt since the last step.
#[derive(PartialEq, Eq, Structural, Clone, Copy, Debug)]
pub enum ReviewEvent {
    /// Whether the message has a sender.
    Sender { present: bool },
    /// Whether the sender is an admin.
    User { is_admin: bool },
    /// What the lookup of the request found.
    Lookup { outcome: LookupOutcome },
}

/// What the program does next.
#[derive(PartialEq, Eq, Structural, Clone, Copy, Debug)]
pub enum ReviewAction {
    /// Look at the message's sender.
    InspectSender,
    /// Load (or create) the sender's user row.
    LoadUser,
    /// Look up the pending request with this id.
    Lookup { id: i32 },
    /// Approve or decline the request with this id, and send what that sends.
    Apply { id: i32 },
    /// Answer the sender, and stop.
    Answer { reply: Reply },
    /// Stop with the database's error.
    Fail,
    /// Stop without an answer.
    Stop,
}

/// How a review starts from the text of the id.
pub open spec fn review_begin_spec(text: Seq<char>) -> (ReviewState, ReviewAction) {
    match parsed_integer(text, true, i32::MIN as int, i32::MAX as int) {
        Some(v) => (ReviewState::AwaitSender { id: v as i32 }, ReviewAction::InspectSender),
        None => (ReviewState::Finished, ReviewAction::Answer { reply: Reply::NotValidInteger }),
    }
}

/// The answer when there is no pending request with the id.
pub open spec fn not_found_reply(kind: ReviewKind) -> Reply {
    match kind {
        ReviewKind::User => Reply::RequestNotFound,
        ReviewKind::Chat => Reply::ChatRequestNotFound,
    }
}

/// One step of a review: the next state and action, from the state and what
/// was learnt. An event that does not belong to the state stops the review.
pub open spec fn review_step_spec(kind: ReviewKind, state: ReviewState, event: ReviewEvent) -> (ReviewState, ReviewAction) {
    match (state, event) {
        (ReviewState::AwaitSender { id }, ReviewEvent::Sender { present }) => if present {
            (ReviewState::AwaitUser { id }, ReviewAction::LoadUser)
        } else {
            (ReviewState::Finished, ReviewAction::Stop)
        },
        (ReviewState::AwaitUser { id }, ReviewEvent::User { is_admin }) => if is_admin {
            (ReviewState::AwaitLookup { id }, ReviewAction::Lookup { id })
        } else {
            (ReviewState::Finished, ReviewAction::Answer { reply: Reply::NotAnAdmin })
        },
        (ReviewState::AwaitLookup { id }, ReviewEvent::Lookup { outcome }) => match outcome {
            LookupOutcome::Found => (ReviewState::Finished, ReviewAction::Apply { id }),
            LookupOutcome::NotFound => (ReviewState::Finished, ReviewAction::Answer { reply: not_found_reply(kind) }),
            LookupOutcome::Failed => (ReviewState::Finished, ReviewAction::Fail),
        },
        _ => (ReviewState::Finished, ReviewAction::Stop),
    }
}

/// Law: a step never changes the id it carries: a state's id comes from the
/// state before it, and the lookup and the application of a request name
/// exactly the id that the review holds, for user and chat requests alike.
pub proof fn law_review_step_keeps_id(kind: ReviewKind, state: ReviewState, event: ReviewEvent)
    ensures
        review_step_spec(kind, state, event).0 matches ReviewState::AwaitUser { id } ==> state == (ReviewState::AwaitSender { id }),
        review_step_spec(kind, state, event).0 matches ReviewState::AwaitLookup { id } ==> state == (ReviewState::AwaitUser { id }),
        review_step_spec(kind, state, event).0 matches ReviewState::AwaitSender { id } ==> false,
        review_step_spec(kind, state, event).1 matches ReviewAction::Lookup { id } ==> state == (ReviewState::AwaitUser { id }),
        review_step_spec(kind, state, event).1 matches ReviewAction::Apply { id } ==> state == (ReviewState::AwaitLookup { id }),
{
}

/// Law: for an admin's command whose text is the decimal `i32` `v`, the
/// review looks up request `v`, and applies request `v` where it is found.
pub proof fn law_review_looks_up_command_id(kind: ReviewKind, text: Seq<char>)
    ensures
        parsed_integer(text, true, i32::MIN as int, i32::MAX as int) matches Some(v) ==> ({
            let s1 = review_step_spec(kind, review_begin_spec(text).0, ReviewEvent::Sender { present: true }).0;
            let (s2, a2) = review_step_spec(kind, s1, ReviewEvent::User { is_admin: true });
            &&& review_begin_spec(text).1 == ReviewAction::InspectSender
            &&& a2 == (ReviewAction::Lookup { id: v as i32 })
            &&& review_step_spec(kind, s2, ReviewEvent::Lookup { outcome: LookupOutcome::Found }).1
                == (ReviewAction::Apply { id: v as i32 })
        }),
{
}

/// Starts a review from the text of the id: an id that is not a decimal `i32`
/// is answered `not_valid_integer`.
pub fn review_begin(text: &str) -> (res: (ReviewState, ReviewAction))
    ensures
        res == review_begin_spec(text@),
{
    match parse_i32(text) {
        Some(v) => (ReviewState::AwaitSender { id: v }, ReviewAction::InspectSender),
        None => (ReviewState::Finished, ReviewAction::Answer { reply: Reply::NotValidInteger }),
    }
}

/// One step of a review.
pub fn review_step(kind: ReviewKind, state: ReviewState, event: ReviewEvent) -> (res: (ReviewState, ReviewAction))
    ensures
        res == review_step_spec(kind, state, event),
{
    match (state, event) {
        (ReviewState::AwaitSender { id }, ReviewEvent::Sender { present }) => if present {
            (ReviewState::AwaitUser { id }, ReviewAction::LoadUser)
        } else {
            (ReviewState::Finished, ReviewAction::Stop)
        },
        (ReviewState::AwaitUser { id }, ReviewEvent::User { is_admin }) => if is_admin {
            (ReviewState::AwaitLookup { id }, ReviewAction::Lookup { id })
        } else {
            (ReviewState::Finished, ReviewAction::Answer { reply: Reply::NotAnAdmin })
        },
        (ReviewState::AwaitLookup { id }, ReviewEvent::Lookup { outcome }) => match outcome {
            LookupOutcome::Found => (ReviewState::Finished, ReviewAction::Apply { id }),
            LookupOutcome::NotFound => {
                let reply = match kind {
                    ReviewKind::User => Reply::RequestNotFound,
                    ReviewKind::Chat => Reply::ChatRequestNotFound,
                };
                (ReviewState::Finished, ReviewAction::Answer { reply })
            },
            LookupOutcome::Failed => (ReviewState::Finished, ReviewAction::Fail),
        },
        _ => (ReviewState::Finished, ReviewAction::Stop),
    }
}

/// The action that a whole review ends in, for the id text, whether the
/// message has a sender, whether the sender is an admin and what the lookup
/// finds (each used only where the review gets that far).
pub open spec fn review_outcome(kind: ReviewKind, text: Seq<char>, sender: bool, is_admin: bool, lookup: LookupOutcome) -> ReviewAction {
    let (s0, a0) = review_begin_spec(text);
    if s0 == ReviewState::Finished {
        a0
    } else {
        let (s1, a1) = review_step_spec(kind, s0, ReviewEvent::Sender { present: sender });
        if s1 == ReviewState::Finished {
            a1
        } else {
            let (s2, a2) = review_step_spec(kind, s1, ReviewEvent::User { is_admin });
            if s2 == ReviewState::Finished {
                a2
            } else {
                review_step_spec(kind, s2, ReviewEvent::Lookup { outcome: lookup }).1
            }
        }
    }
}

/// Law: a review applies a request only where the id is a decimal `i32`, the
/// message has a sender, the sender is an admin and the request is found; a
/// bad id is answered first, then a missing sender stops, then a non-admin is
/// answered, and only then does the lookup decide.
pub proof fn law_review_order(kind: ReviewKind, text: Seq<char>, sender: bool, is_admin: bool, lookup: LookupOutcome)
    ensures
        ({
            let out = review_outcome(kind, text, sender, is_admin, lookup);
            let id = parsed_integer(text, true, i32::MIN as int, i32::MAX as int);
            &&& id is None ==> out == ReviewAction::Answer { reply: Reply::NotValidInteger }
            &&& id is Some && !sender ==> out == ReviewAction::Stop
            &&& id is Some && sender && !is_admin ==> out == ReviewAction::Answer { reply: Reply::NotAnAdmin }
            &&& id is Some && sender && is_admin ==> out == match lookup {
                LookupOutcome::Found => ReviewAction::Apply { id: id->0 as i32 },
                LookupOutcome::NotFound => ReviewAction::Answer { reply: not_found_reply(kind) },
                LookupOutcome::Failed => ReviewAction::Fail,
            }
        }),
{
}

} // verus!
