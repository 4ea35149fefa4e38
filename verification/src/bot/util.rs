//! Where the bot keeps its database and its log.
use vstd::prelude::*;

use crate::text::{joined_path, path_join, push_chars};

verus! {

/// The directory of the database in a debug build.
pub const VAR_LIB_DEBUG: &'static str = ".";

/// The directory of the database in a release build.
pub const VAR_LIB_RELEASE: &'static str = "/var/lib/mk-dl-bot";

/// The directory of the log in a debug build.
pub const VAR_LOG_DEBUG: &'static str = ".";

/// The directory of the log in a release build.
pub const VAR_LOG_RELEASE: &'static str = "/var/log/mk-dl-bot";

/// The address of the SQLite database file `mk-dl-bot.db` in `var_lib`.
pub fn make_database_url(var_lib: &str) -> (res: String)
    ensures
        res@ == "sqlite://"@ + joined_path(var_lib@, "mk-dl-bot.db"@),
{
    let path = path_join(var_lib, "mk-dl-bot.db");
    let mut out = String::new();
    push_chars(&mut out, "sqlite://");
    push_chars(&mut out, path.as_str());
    out
}

/// The path of the log file `mk-dl-bot.log` in `var_log`.
pub fn make_log_path(var_log: &str) -> (res: String)
    ensures
        res@ == joined_path(var_log@, "mk-dl-bot.log"@),
{
    path_join(var_log, "mk-dl-bot.log")
}

} // verus!
