//! The rows that the bot keeps in its database, and the database's address.
use vstd::prelude::*;

use crate::text::{push_chars, push_signed_decimal, signed_decimal_text};

verus! {

/// A Telegram user known to the bot.
pub struct User {
    pub id: i32,
    pub tg_id: i64,
    pub username: Option<String>,
    pub first_name: String,
    pub last_name: Option<String>,
    pub can_download: bool,
    pub is_admin: bool,
    pub has_private_chat: bool,
}

/// A Telegram chat known to the bot.
pub struct Chat {
    pub id: i32,
    pub tg_id: i64,
    pub username: Option<String>,
    pub title: String,
    pub can_download: bool,
}

/// A link pattern and what the bot may do with it.
pub struct Link {
    pub id: i32,
    pub domain: String,
    pub path: Option<String>,
    pub download_allowed: bool,
    pub auto_download: bool,
}

/// A user's request to be allowed to download.
pub struct Request {
    pub id: i32,
    pub requested_by: i32,
    pub approved_by: Option<i32>,
    pub message: String,
    pub is_approved: bool,
}

/// A request that a chat be allowed to download.
pub struct RequestChat {
    pub id: i32,
    pub requested_by: i32,
    pub requested_for: i32,
    pub approved_by: Option<i32>,
    pub message: String,
    pub is_approved: bool,
}

/// A pending request, with the user who made it.
pub struct RequestWithUser {
    pub request_id: i64,
    pub message: String,
    pub user: User,
}

/// A pending chat request, with the chat it is for.
pub struct RequestChatWithChat {
    pub request_id: i32,
    pub message: String,
    pub chat: Chat,
}

/// The name under which a user is shown: the username, or else the first name.
pub open spec fn user_shown_name(u: User) -> Seq<char> {
    match u.username {
        Some(n) => n@,
        None => u.first_name@,
    }
}

/// The name under which a chat is shown: the username, or else the title.
pub open spec fn chat_shown_name(c: Chat) -> Seq<char> {
    match c.username {
        Some(n) => n@,
        None => c.title@,
    }
}

/// How a user is written in messages: the Telegram id, ` - `, and the name.
pub open spec fn user_text(u: User) -> Seq<char> {
    signed_decimal_text(u.tg_id as int) + " - "@ + user_shown_name(u)
}

/// How a chat is written in messages: the Telegram id, ` - `, and the name.
pub open spec fn chat_text(c: Chat) -> Seq<char> {
    signed_decimal_text(c.tg_id as int) + " - "@ + chat_shown_name(c)
}

impl User {
    /// The username, or else the first name.
    pub fn username_or_name(&self) -> (res: &String)
        ensures
            res@ == user_shown_name(*self),
            self.username matches Some(n) ==> *res == n,
            self.username is None ==> *res == self.first_name,
    {
        match &self.username {
            Some(n) => n,
            None => &self.first_name,
        }
    }

    /// Appends how the user is written in messages to `out`.
    pub fn push_text(&self, out: &mut String)
        ensures
            final(out)@ == old(out)@ + user_text(*self),
    {
        push_signed_decimal(out, self.tg_id);
        push_chars(out, " - ");
        push_chars(out, self.username_or_name().as_str());
        assert(out@ =~= old(out)@ + user_text(*self));
    }

    /// How the user is written in messages.
    pub fn to_text(&self) -> (res: String)
        ensures
            res@ == user_text(*self),
    {
        let mut out = String::new();
        self.push_text(&mut out);
        out
    }
}

impl Chat {
    /// The username, or else the title.
    pub fn username_or_title(&self) -> (res: &String)
        ensures
            res@ == chat_shown_name(*self),
            self.username matches Some(n) ==> *res == n,
            self.username is None ==> *res == self.title,
    {
        match &self.username {
            Some(n) => n,
            None => &self.title,
        }
    }

    /// Appends how the chat is written in messages to `out`.
    pub fn push_text(&self, out: &mut String)
        ensures
            final(out)@ == old(out)@ + chat_text(*self),
    {
        push_signed_decimal(out, self.tg_id);
        push_chars(out, " - ");
        push_chars(out, self.username_or_title().as_str());
        assert(out@ =~= old(out)@ + chat_text(*self));
    }

    /// How the chat is written in messages.
    pub fn to_text(&self) -> (res: String)
        ensures
            res@ == chat_text(*self),
    {
        let mut out = String::new();
        self.push_text(&mut out);
        out
    }
}

/// The address of the PostgreSQL database.
pub open spec fn database_url_spec(user: Seq<char>, password: Seq<char>, host: Seq<char>, db: Seq<char>) -> Seq<char> {
    "postgres://"@ + user + ":"@ + password + "@"@ + host + "/"@ + db
}

/// The address of the PostgreSQL database, from the user, the password, the
/// host and the database's name.
pub fn make_database_url(user: &str, password: &str, host: &str, db: &str) -> (res: String)
    ensures
        res@ == database_url_spec(user@, password@, host@, db@),
{
    let mut out = String::new();
    push_chars(&mut out, "postgres://");
    push_chars(&mut out, user);
    push_chars(&mut out, ":");
    push_chars(&mut out, password);
    push_chars(&mut out, "@");
    push_chars(&mut out, host);
    push_chars(&mut out, "/");
    push_chars(&mut out, db);
    assert(out@ =~= database_url_spec(user@, password@, host@, db@));
    out
}

} // verus!
