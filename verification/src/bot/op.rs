//! The rule of `/op`: the first user to ask becomes the admin.
use vstd::prelude::*;

verus! {

/// The answer to `/op`.
#[derive(PartialEq, Eq, Structural, Clone, Copy, Debug)]
pub enum OpReply {
    /// The user is made an admin.
    MadeAdmin,
    /// There is an admin already.
    Refused,
}

/// What `/op` does when the bot has `admins` admins: the first user to ask,
/// while there is none, is made an admin.
pub fn op_decision(admins: i64) -> (res: OpReply)
    ensures
        admins == 0 <==> res == OpReply::MadeAdmin,
        admins != 0 <==> res == OpReply::Refused,
{
    if admins == 0 {
        OpReply::MadeAdmin
    } else {
        OpReply::Refused
    }
}

impl OpReply {
    /// The text that the user is answered.
    pub fn text(&self) -> (res: &'static str)
        ensures
            *self == OpReply::MadeAdmin ==> res@ == "Now you're an admin"@,
            *self == OpReply::Refused ==> res@ == "You can't do that anymore"@,
    {
        match self {
            OpReply::MadeAdmin => "Now you're an admin",
            OpReply::Refused => "You can't do that anymore",
        }
    }
}

} // verus!
