//! The rule of `/start`, and of the bot being added to a chat.
use vstd::prelude::*;

verus! {

/// What `/start` registers.
#[derive(PartialEq, Eq, Structural, Clone, Copy, Debug)]
pub enum StartAction {
    /// The user who wrote in a private chat, who now has a private chat.
    PrivateUser,
    /// The group, supergroup or channel that it was sent in.
    PublicChat,
    /// Nothing.
    Nothing,
}

/// What `/start` does: in a private chat it registers the user who sent it
/// (if the message has a sender); in a group, supergroup or channel it
/// registers the chat.
pub fn start_decision(is_private: bool, has_sender: bool, is_public: bool) -> (res: StartAction)
    ensures
        res == (if is_private {
            if has_sender { StartAction::PrivateUser } else { StartAction::Nothing }
        } else if is_public {
            StartAction::PublicChat
        } else {
            StartAction::Nothing
        }),
{
    if is_private {
        if has_sender {
            StartAction::PrivateUser
        } else {
            StartAction::Nothing
        }
    } else if is_public {
        StartAction::PublicChat
    } else {
        StartAction::Nothing
    }
}

/// How many times `x` occurs in `s`.
pub open spec fn count_of(s: Seq<u64>, x: u64) -> nat
    decreases s.len(),
{
    if s.len() == 0 {
        0
    } else {
        count_of(s.drop_last(), x) + if s.last() == x { 1nat } else { 0nat }
    }
}

/// How many of the new members of a chat are the bot itself: the chat is
/// registered and greeted once for each.
pub fn bot_joins(new_members: &[u64], me: u64) -> (res: usize)
    ensures
        res == count_of(new_members@, me),
{
    let mut count: usize = 0;
    let mut i: usize = 0;
    while i < new_members.len()
        invariant
            i <= new_members@.len(),
            count == count_of(new_members@.take(i as int), me),
            count <= i,
        decreases new_members@.len() - i,
    {
        proof {
            let t = new_members@.take(i + 1);
            assert(t.drop_last() =~= new_members@.take(i as int));
            assert(t.last() == new_members@[i as int]);
        }
        if new_members[i] == me {
            count = count + 1;
        }
        i = i + 1;
    }
    assert(new_members@.take(new_members@.len() as int) =~= new_members@);
    count
}

} // verus!
