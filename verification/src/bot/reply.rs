//! The answers of the bot, named by their keys among the localized texts.
use vstd::prelude::*;

verus! {

/// An answer of the bot, sent as a localized text.
#[derive(PartialEq, Eq, Structural, Clone, Copy, Debug)]
pub enum Reply {
    StartedPrivateChat,
    StartedPublicChat,
    RequestTextIsTooShort,
    RequestTextIsTooLong,
    AlreadyCanDownload,
    AlreadyHasRequested,
    RequestAdded,
    NotAnAdmin,
    NotValidInteger,
    RequestNotFound,
    RequestApproved,
    YourRequestApproved,
    RequestDeclined,
    YourRequestDeclined,
    ChatAlreadyCanDownload,
    ChatAlreadyHasRequested,
    ChatRequestAdded,
    ChatRequestNotFound,
    ChatRequestApproved,
    ChatRequestDeclined,
}

/// The key of an answer among the localized texts.
pub open spec fn reply_key(r: Reply) -> Seq<char> {
    match r {
        Reply::StartedPrivateChat => "started_private_chat"@,
        Reply::StartedPublicChat => "started_public_chat"@,
        Reply::RequestTextIsTooShort => "request_text_is_too_short"@,
        Reply::RequestTextIsTooLong => "request_text_is_too_long"@,
        Reply::AlreadyCanDownload => "already_can_download"@,
        Reply::AlreadyHasRequested => "already_has_requested"@,
        Reply::RequestAdded => "request_added"@,
        Reply::NotAnAdmin => "not_an_admin"@,
        Reply::NotValidInteger => "not_valid_integer"@,
        Reply::RequestNotFound => "request_not_found"@,
        Reply::RequestApproved => "request_approved"@,
        Reply::YourRequestApproved => "your_request_approved"@,
        Reply::RequestDeclined => "request_declined"@,
        Reply::YourRequestDeclined => "your_request_declined"@,
        Reply::ChatAlreadyCanDownload => "chat_already_can_download"@,
        Reply::ChatAlreadyHasRequested => "chat_already_has_requested"@,
        Reply::ChatRequestAdded => "chat_request_added"@,
        Reply::ChatRequestNotFound => "chat_request_not_found"@,
        Reply::ChatRequestApproved => "chat_request_approved"@,
        Reply::ChatRequestDeclined => "chat_request_declined"@,
    }
}

impl Reply {
    /// The key of the answer among the localized texts.
    pub fn key(&self) -> (res: &'static str)
        ensures
            res@ == reply_key(*self),
    {
        match self {
            Reply::StartedPrivateChat => "started_private_chat",
            Reply::StartedPublicChat => "started_public_chat",
            Reply::RequestTextIsTooShort => "request_text_is_too_short",
            Reply::RequestTextIsTooLong => "request_text_is_too_long",
            Reply::AlreadyCanDownload => "already_can_download",
            Reply::AlreadyHasRequested => "already_has_requested",
            Reply::RequestAdded => "request_added",
            Reply::NotAnAdmin => "not_an_admin",
            Reply::NotValidInteger => "not_valid_integer",
            Reply::RequestNotFound => "request_not_found",
            Reply::RequestApproved => "request_approved",
            Reply::YourRequestApproved => "your_request_approved",
            Reply::RequestDeclined => "request_declined",
            Reply::YourRequestDeclined => "your_request_declined",
            Reply::ChatAlreadyCanDownload => "chat_already_can_download",
            Reply::ChatAlreadyHasRequested => "chat_already_has_requested",
            Reply::ChatRequestAdded => "chat_request_added",
            Reply::ChatRequestNotFound => "chat_request_not_found",
            Reply::ChatRequestApproved => "chat_request_approved",
            Reply::ChatRequestDeclined => "chat_request_declined",
        }
    }
}

/// A notice sent to a Telegram id.
#[derive(PartialEq, Eq, Structural, Clone, Copy, Debug)]
pub struct Notice {
    pub tg_id: i64,
    pub reply: Reply,
}

/// What a review of a request sends: an answer to the admin who reviewed it,
/// and a notice to the Telegram id that the request was for.
#[derive(PartialEq, Eq, Structural, Clone, Copy, Debug)]
pub struct ReviewActions {
    pub reply: Option<Reply>,
    pub notify: Option<Notice>,
}

} // verus!
