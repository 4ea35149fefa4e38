//! The rules of requests that a chat be allowed to download.
use vstd::prelude::*;

use super::reply::{Notice, Reply, ReviewActions};
use crate::db::{chat_text, Chat, RequestChatWithChat};
use crate::text::{parse_i32, parsed_integer, push_chars, push_signed_decimal, signed_decimal_text};

verus! {

/// What a request for `chat`, for which `existing` requests were made, is
/// answered: a chat that can download, or that was asked for already, is refused.
pub fn chat_request_decision(chat: &Chat, existing: i64) -> (res: Reply)
    ensures
        res == (if chat.can_download {
            Reply::ChatAlreadyCanDownload
        } else if existing > 0 {
            Reply::ChatAlreadyHasRequested
        } else {
            Reply::ChatRequestAdded
        }),
{
    if chat.can_download {
        Reply::ChatAlreadyCanDownload
    } else if existing > 0 {
        Reply::ChatAlreadyHasRequested
    } else {
        Reply::ChatRequestAdded
    }
}

/// Reads the id of the chat request to review: a decimal `i32`.
pub fn review_chat_id(text: &str) -> (res: Result<i32, Reply>)
    ensures
        match parsed_integer(text@, true, i32::MIN as int, i32::MAX as int) {
            Some(v) => res == Ok::<i32, Reply>(v as i32),
            None => res == Err::<i32, Reply>(Reply::NotValidInteger),
        },
{
    match parse_i32(text) {
        Some(v) => Ok(v),
        None => Err(Reply::NotValidInteger),
    }
}

/// What approving a chat request sends: only the chat is told.
pub fn approve_chat_actions(request: &RequestChatWithChat) -> (res: ReviewActions)
    ensures
        res.reply is None,
        res.notify == (Some(Notice { tg_id: request.chat.tg_id, reply: Reply::ChatRequestApproved })),
{
    ReviewActions { reply: None, notify: Some(Notice { tg_id: request.chat.tg_id, reply: Reply::ChatRequestApproved }) }
}

/// What declining a chat request sends: the admin and the chat are told.
pub fn decline_chat_actions(request: &RequestChatWithChat) -> (res: ReviewActions)
    ensures
        res.reply == Some(Reply::RequestDeclined),
        res.notify == (Some(Notice { tg_id: request.chat.tg_id, reply: Reply::ChatRequestDeclined })),
{
    ReviewActions {
        reply: Some(Reply::RequestDeclined),
        notify: Some(Notice { tg_id: request.chat.tg_id, reply: Reply::ChatRequestDeclined }),
    }
}

/// One line of the list of chat requests: the id, the chat and the text.
pub open spec fn chat_request_line(r: RequestChatWithChat) -> Seq<char> {
    signed_decimal_text(r.request_id as int) + ": "@ + chat_text(r.chat) + ": "@ + r.message@ + "\n"@
}

/// The list of chat requests: the header, then one line for each in turn.
pub open spec fn chat_request_list_text(header: Seq<char>, rs: Seq<RequestChatWithChat>) -> Seq<char>
    decreases rs.len(),
{
    if rs.len() == 0 {
        header
    } else {
        chat_request_list_text(header, rs.drop_last()) + chat_request_line(rs.last())
    }
}

/// Law: the list of chat requests is the header, and each request adds its
/// line at the end: the id, ` - `-joined chat text, the request's text and a
/// line break, so every pending request is listed, in order.
pub proof fn law_chat_request_list_appends(header: Seq<char>, rs: Seq<RequestChatWithChat>, r: RequestChatWithChat)
    ensures
        chat_request_list_text(header, Seq::empty()) == header,
        chat_request_list_text(header, rs.push(r)) == chat_request_list_text(header, rs)
            + (signed_decimal_text(r.request_id as int) + ": "@ + chat_text(r.chat) + ": "@ + r.message@ + "\n"@),
{
    assert(rs.push(r).drop_last() =~= rs);
}

/// Writes the list of pending chat requests under `header`.
pub fn format_chat_request_list(header: &str, requests: &[RequestChatWithChat]) -> (res: String)
    ensures
        res@ == chat_request_list_text(header@, requests@),
{
    let mut out = String::new();
    push_chars(&mut out, header);
    let mut i: usize = 0;
    while i < requests.len()
        invariant
            i <= requests@.len(),
            out@ == chat_request_list_text(header@, requests@.take(i as int)),
        decreases requests@.len() - i,
    {
        let r = &requests[i];
        let ghost before = out@;
        push_signed_decimal(&mut out, r.request_id as i64);
        push_chars(&mut out, ": ");
        r.chat.push_text(&mut out);
        push_chars(&mut out, ": ");
        push_chars(&mut out, r.message.as_str());
        push_chars(&mut out, "\n");
        proof {
            let t = requests@.take(i + 1);
            assert(t.drop_last() =~= requests@.take(i as int));
            assert(t.last() == requests@[i as int]);
            assert(out@ =~= before + chat_request_line(requests@[i as int]));
        }
        i = i + 1;
    }
    assert(requests@.take(requests@.len() as int) =~= requests@);
    out
}

} // verus!
