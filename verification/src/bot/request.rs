//! The rules of users' requests to download: making, listing and reviewing them.
use vstd::prelude::*;
use vstd::utf8::encode_utf8;

use super::reply::{Notice, Reply, ReviewActions};
use crate::db::{user_text, RequestWithUser, User};
use crate::text::{parse_i32, parsed_integer, push_chars, push_signed_decimal, signed_decimal_text};

verus! {

/// Request texts shorter than this many bytes are refused.
pub const MIN_REQUEST_LEN: usize = 16;

/// Request texts longer than this many bytes are refused.
pub const MAX_REQUEST_LEN: usize = 100;

/// The length of `text` in bytes, as UTF-8.
pub open spec fn byte_len(text: Seq<char>) -> int {
    encode_utf8(text).len() as int
}

/// The answer to a request text of the wrong length, if it has one.
pub open spec fn request_text_reply(text: Seq<char>) -> Option<Reply> {
    if byte_len(text) < MIN_REQUEST_LEN {
        Some(Reply::RequestTextIsTooShort)
    } else if byte_len(text) > MAX_REQUEST_LEN {
        Some(Reply::RequestTextIsTooLong)
    } else {
        None
    }
}

/// Checks the length of a request text: `None` where it may be sent on.
pub fn check_request_text(text: &str) -> (res: Option<Reply>)
    ensures
        res == request_text_reply(text@),
{
    let n = text.as_bytes().len();
    if n < MIN_REQUEST_LEN {
        Some(Reply::RequestTextIsTooShort)
    } else if n > MAX_REQUEST_LEN {
        Some(Reply::RequestTextIsTooLong)
    } else {
        None
    }
}

/// The answer to a request of a user who can download or not and has made
/// `existing` requests.
pub open spec fn request_reply(can_download: bool, existing: int) -> Reply {
    if can_download {
        Reply::AlreadyCanDownload
    } else if existing > 0 {
        Reply::AlreadyHasRequested
    } else {
        Reply::RequestAdded
    }
}

/// What a request of `user`, who has made `existing` requests, is answered:
/// a user who can download, or who has asked already, is refused.
pub fn request_decision(user: &User, existing: i64) -> (res: Reply)
    ensures
        res == request_reply(user.can_download, existing as int),
{
    if user.can_download {
        Reply::AlreadyCanDownload
    } else if existing > 0 {
        Reply::AlreadyHasRequested
    } else {
        Reply::RequestAdded
    }
}

/// A row of the request table, as far as the rules of requests read it: who
/// made the request, and its text.
pub struct RequestRow {
    pub requested_by: i32,
    pub message: Seq<char>,
}

/// How many rows of the table a user made (what the count query of `/request`
/// reads).
pub open spec fn requests_by(rows: Seq<RequestRow>, id: i32) -> nat
    decreases rows.len(),
{
    if rows.len() == 0 {
        0
    } else {
        requests_by(rows.drop_last(), id) + if rows.last().requested_by == id { 1nat } else { 0nat }
    }
}

/// The request table is sound: no user has two requests, and every text has
/// an accepted length.
pub open spec fn request_table_ok(rows: Seq<RequestRow>) -> bool {
    &&& forall|i: int, j: int| 0 <= i < j < rows.len() ==> #[trigger] rows[i].requested_by != #[trigger] rows[j].requested_by
    &&& forall|i: int| 0 <= i < rows.len() ==> request_text_reply(#[trigger] rows[i].message) is None
}

/// The request table after `/request` with `text` from `user`: a row is added
/// only where the text has an accepted length and the decision is to add it.
pub open spec fn after_request(rows: Seq<RequestRow>, user: User, text: Seq<char>) -> Seq<RequestRow> {
    if request_text_reply(text) is None
        && request_reply(user.can_download, requests_by(rows, user.id) as int) == Reply::RequestAdded {
        rows.push(RequestRow { requested_by: user.id, message: text })
    } else {
        rows
    }
}

proof fn lemma_requests_by_zero(rows: Seq<RequestRow>, id: i32, i: int)
    requires
        requests_by(rows, id) == 0,
        0 <= i < rows.len(),
    ensures
        rows[i].requested_by != id,
    decreases rows.len(),
{
    if i < rows.len() - 1 {
        assert(rows.drop_last()[i] == rows[i]);
        lemma_requests_by_zero(rows.drop_last(), id, i);
    }
}

/// Law: `/request` keeps the request table sound: each user has one request
/// at most, and every request text has an accepted length.
pub proof fn law_request_table_kept(rows: Seq<RequestRow>, user: User, text: Seq<char>)
    requires
        request_table_ok(rows),
    ensures
        request_table_ok(after_request(rows, user, text)),
{
    let next = after_request(rows, user, text);
    if next != rows {
        let n = rows.len() as int;
        assert forall|i: int, j: int| 0 <= i < j < next.len() implies #[trigger] next[i].requested_by != #[trigger] next[j].requested_by by {
            if j < n {
                assert(next[i] == rows[i] && next[j] == rows[j]);
            } else {
                assert(next[i] == rows[i]);
                lemma_requests_by_zero(rows, user.id, i);
            }
        }
        assert forall|i: int| 0 <= i < next.len() implies request_text_reply(#[trigger] next[i].message) is None by {
            if i < n {
                assert(next[i] == rows[i]);
            }
        }
    }
}

/// Reads the id of the request to review: a decimal `i32`.
pub fn review_id(text: &str) -> (res: Result<i32, Reply>)
    ensures
        match parsed_integer(text@, true, i32::MIN as int, i32::MAX as int) {
            Some(v) => res == Ok::<i32, Reply>(v as i32),
            None => res == Err::<i32, Reply>(Reply::NotValidInteger),
        },
{
    match parse_i32(text) {
        Some(v) => Ok(v),
        None => Err(Reply::NotValidInteger),
    }
}

/// Only admins review requests.
pub fn admin_gate(user: &User) -> (res: Result<(), Reply>)
    ensures
        user.is_admin ==> res is Ok,
        !user.is_admin ==> res == Err::<(), Reply>(Reply::NotAnAdmin),
{
    if user.is_admin {
        Ok(())
    } else {
        Err(Reply::NotAnAdmin)
    }
}

/// What approving a request sends: the admin is told, and the user too where
/// the user has a private chat with the bot.
pub fn approve_actions(request: &RequestWithUser) -> (res: ReviewActions)
    ensures
        res.reply == Some(Reply::RequestApproved),
        res.notify == (if request.user.has_private_chat {
            Some(Notice { tg_id: request.user.tg_id, reply: Reply::YourRequestApproved })
        } else {
            None
        }),
{
    let notify = if request.user.has_private_chat {
        Some(Notice { tg_id: request.user.tg_id, reply: Reply::YourRequestApproved })
    } else {
        None
    };
    ReviewActions { reply: Some(Reply::RequestApproved), notify }
}

/// What declining a request sends: the admin is told, and the user too where
/// the user has a private chat with the bot.
pub fn decline_actions(request: &RequestWithUser) -> (res: ReviewActions)
    ensures
        res.reply == Some(Reply::RequestDeclined),
        res.notify == (if request.user.has_private_chat {
            Some(Notice { tg_id: request.user.tg_id, reply: Reply::YourRequestDeclined })
        } else {
            None
        }),
{
    let notify = if request.user.has_private_chat {
        Some(Notice { tg_id: request.user.tg_id, reply: Reply::YourRequestDeclined })
    } else {
        None
    };
    ReviewActions { reply: Some(Reply::RequestDeclined), notify }
}

/// One line of the list of requests: the id, the user and the text.
pub open spec fn request_line(r: RequestWithUser) -> Seq<char> {
    signed_decimal_text(r.request_id as int) + ": "@ + user_text(r.user) + ": "@ + r.message@ + "\n"@
}

/// The list of requests: the header, then one line for each request in turn.
pub open spec fn request_list_text(header: Seq<char>, rs: Seq<RequestWithUser>) -> Seq<char>
    decreases rs.len(),
{
    if rs.len() == 0 {
        header
    } else {
        request_list_text(header, rs.drop_last()) + request_line(rs.last())
    }
}

/// Law: the list of requests is the header, and each request adds its line at
/// the end: the id, the user's text, the request's text and a line break, so
/// every pending request is listed, in order.
pub proof fn law_request_list_appends(header: Seq<char>, rs: Seq<RequestWithUser>, r: RequestWithUser)
    ensures
        request_list_text(header, Seq::empty()) == header,
        request_list_text(header, rs.push(r)) == request_list_text(header, rs)
            + (signed_decimal_text(r.request_id as int) + ": "@ + user_text(r.user) + ": "@ + r.message@ + "\n"@),
{
    assert(rs.push(r).drop_last() =~= rs);
}

/// Writes the list of pending requests under `header`.
pub fn format_request_list(header: &str, requests: &[RequestWithUser]) -> (res: String)
    ensures
        res@ == request_list_text(header@, requests@),
{
    let mut out = String::new();
    push_chars(&mut out, header);
    let mut i: usize = 0;
    while i < requests.len()
        invariant
            i <= requests@.len(),
            out@ == request_list_text(header@, requests@.take(i as int)),
        decreases requests@.len() - i,
    {
        let r = &requests[i];
        let ghost before = out@;
        push_signed_decimal(&mut out, r.request_id);
        push_chars(&mut out, ": ");
        r.user.push_text(&mut out);
        push_chars(&mut out, ": ");
        push_chars(&mut out, r.message.as_str());
        push_chars(&mut out, "\n");
        proof {
            let t = requests@.take(i + 1);
            assert(t.drop_last() =~= requests@.take(i as int));
            assert(t.last() == requests@[i as int]);
            assert(out@ =~= before + request_line(requests@[i as int]));
        }
        i = i + 1;
    }
    assert(requests@.take(requests@.len() as int) =~= requests@);
    out
}

} // verus!
