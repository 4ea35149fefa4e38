//! Finding the link in a message and reading its parts.
use vstd::prelude::*;

use crate::text::occurs_in;

verus! {

/// regex's error for a pattern that it cannot compile.
#[verifier::external_type_specification]
#[verifier::external_body]
pub struct ExRegexError(regex::Error);

/// The pattern of a link: a scheme among http, https and ftp, `://`, a host
/// of dot-separated words, and a path.
pub const RE_URL: &'static str = r"(http|ftp|https):\/\/([\w_-]+(?:(?:\.[\w_-]+)+))([\w.,@?^=%&:\/~+#-]*[\w@?^=%&\/~+#-])";

/// Whether the regex crate compiles `pattern` (`Regex::new` succeeds).
pub uninterp spec fn regex_compiles(pattern: Seq<char>) -> bool;

/// The text of the leftmost-first match of `pattern` in `haystack`, as the
/// regex crate's `Regex::find` gives it.
pub uninterp spec fn regex_first_match(pattern: Seq<char>, haystack: Seq<char>) -> Option<Seq<char>>;

/// What `url::Url::parse` makes of `input`: the URL's serialization and its
/// host, or `None` where `input` is not an absolute URL.
pub uninterp spec fn url_parse_spec(input: Seq<char>) -> Option<(Seq<char>, Option<Seq<char>>)>;

/// The characters of an optional text.
pub open spec fn opt_text(t: Option<&str>) -> Option<Seq<char>> {
    match t {
        Some(s) => Some(s@),
        None => None,
    }
}

/// The characters of an optional string.
pub open spec fn opt_string(t: Option<String>) -> Option<Seq<char>> {
    match t {
        Some(s) => Some(s@),
        None => None,
    }
}

/// Compiles `pattern` with `regex::Regex::new` and searches `haystack` with
/// `Regex::find`. Claimed: the call fails exactly where the pattern does not
/// compile; otherwise it gives the first match, as a part of `haystack`.
#[verifier::external_body]
fn regex_find<'h>(pattern: &str, haystack: &'h str) -> (res: Result<Option<&'h str>, regex::Error>)
    ensures
        res is Ok <==> regex_compiles(pattern@),
        res matches Ok(m) ==> opt_text(m) == regex_first_match(pattern@, haystack@),
        res matches Ok(Some(m)) ==> occurs_in(m@, haystack@),
{
    match regex::Regex::new(pattern) {
        Ok(re) => Ok(re.find(haystack).map(|m| m.as_str())),
        Err(e) => Err(e),
    }
}

/// Parses `input` with `url::Url::parse`, and keeps of the URL its
/// serialization (`Url::as_str`) and its host (`Url::host_str`). Claimed: the
/// result is what `url_parse_spec` names.
#[verifier::external_body]
fn url_parse(input: &str) -> (res: Option<(String, Option<String>)>)
    ensures
        match res {
            Some((s, h)) => url_parse_spec(input@) == Some((s@, opt_string(h))),
            None => url_parse_spec(input@) is None,
        },
{
    match url::Url::parse(input) {
        Ok(u) => Some((u.as_str().to_string(), u.host_str().map(|h| h.to_string()))),
        Err(_) => None,
    }
}

/// The link that `extract_url` finds in `text`.
pub open spec fn extracted_url(text: Seq<char>) -> Option<Seq<char>> {
    if regex_compiles(RE_URL@) {
        regex_first_match(RE_URL@, text)
    } else {
        None
    }
}

/// The first link in `text`, if there is one.
pub fn extract_url(text: &str) -> (res: Option<&str>)
    ensures
        opt_text(res) == extracted_url(text@),
        res matches Some(m) ==> occurs_in(m@, text@),
{
    match regex_find(RE_URL, text) {
        Ok(m) => m,
        Err(_) => None,
    }
}

/// An absolute URL, as far as the bot reads it.
pub struct ParsedUrl {
    serialization: String,
    host: Option<String>,
}

impl View for ParsedUrl {
    type V = (Seq<char>, Option<Seq<char>>);

    closed spec fn view(&self) -> (Seq<char>, Option<Seq<char>>) {
        (self.serialization@, opt_string(self.host))
    }
}

impl ParsedUrl {
    /// The URL's serialization.
    pub fn as_str(&self) -> (res: &str)
        ensures
            res@ == self@.0,
    {
        self.serialization.as_str()
    }

    /// The URL's host, where it has one.
    pub fn host_str(&self) -> (res: Option<&str>)
        ensures
            opt_text(res) == self@.1,
    {
        match &self.host {
            Some(h) => Some(h.as_str()),
            None => None,
        }
    }
}

/// Parses `url` as an absolute URL.
pub fn parse_url(url: &str) -> (res: Option<ParsedUrl>)
    ensures
        match res {
            Some(u) => url_parse_spec(url@) == Some(u@),
            None => url_parse_spec(url@) is None,
        },
{
    match url_parse(url) {
        Some((serialization, host)) => Some(ParsedUrl { serialization, host }),
        None => None,
    }
}

} // verus!
