//! Errors of running an outside program, and the check of what it returned.
use vstd::prelude::*;
use vstd::utf8::{decode_utf8, valid_utf8};

verus! {

/// std's I/O error, carried through as it is.
#[verifier::external_type_specification]
#[verifier::external_body]
pub struct ExIoError(std::io::Error);

/// std's error for bytes that are not UTF-8, carried through as it is.
#[verifier::external_type_specification]
#[verifier::external_body]
pub struct ExUtf8Error(std::str::Utf8Error);

/// Why running an outside program failed.
pub enum SpawnError {
    CommandError(std::io::Error),
    NoStdErr,
    PipeError(std::io::Error),
    UtfError(std::str::Utf8Error),
    ErrorMessage(String),
}

/// The text of an I/O error (std's `Display` for `std::io::Error`). It comes
/// from the operating system, so nothing is promised of it.
#[verifier::external_body]
fn io_error_text(e: &std::io::Error) -> String {
    e.to_string()
}

/// std's `str::from_utf8`: succeeds exactly on valid UTF-8, and then holds the
/// characters that the bytes encode.
#[verifier::external_body]
pub(crate) fn utf8_decode(bytes: &[u8]) -> (res: Result<&str, std::str::Utf8Error>)
    ensures
        res is Ok <==> valid_utf8(bytes@),
        res matches Ok(s) ==> s@ == decode_utf8(bytes@),
{
    std::str::from_utf8(bytes)
}

/// `text` describes `e`: the texts are fixed but for the operating system's
/// own description of an I/O error, which may be any text.
pub open spec fn spawn_message_of(e: SpawnError, text: Seq<char>) -> bool {
    match e {
        SpawnError::CommandError(_) => exists|t: Seq<char>| text == "Command::new - "@ + t,
        SpawnError::NoStdErr => text == "spawned process has closed stderr!"@,
        SpawnError::PipeError(_) => exists|t: Seq<char>| text == "pipe error - "@ + t,
        SpawnError::UtfError(_) => text == "Error while decoding UTF8"@,
        SpawnError::ErrorMessage(msg) => text == "ffmpeg error - "@ + msg@,
    }
}

impl SpawnError {
    /// The text that describes the error.
    pub fn message(&self) -> (res: String)
        ensures
            spawn_message_of(*self, res@),
    {
        match self {
            SpawnError::CommandError(e) => {
                let mut out = String::from_str("Command::new - ");
                let t = io_error_text(e);
                let ghost start = out@;
                out.append(t.as_str());
                assert(out@ == start + t@);
                out
            },
            SpawnError::NoStdErr => String::from_str("spawned process has closed stderr!"),
            SpawnError::PipeError(e) => {
                let mut out = String::from_str("pipe error - ");
                let t = io_error_text(e);
                let ghost start = out@;
                out.append(t.as_str());
                assert(out@ == start + t@);
                out
            },
            SpawnError::UtfError(_) => String::from_str("Error while decoding UTF8"),
            SpawnError::ErrorMessage(msg) => {
                let mut out = String::from_str("ffmpeg error - ");
                out.append(msg.as_str());
                out
            },
        }
    }

    /// Turns the exit status and error output of a finished program into the
    /// outcome of running it: success passes, a failure carries the error
    /// output as its message, or the decoding error where it is not UTF-8.
    pub fn check_status(success: bool, stderr: &[u8]) -> (res: Result<(), SpawnError>)
        ensures
            success ==> res is Ok,
            !success && !valid_utf8(stderr@) ==> res matches Err(SpawnError::UtfError(_)),
            !success && valid_utf8(stderr@) ==> (res matches Err(SpawnError::ErrorMessage(m))
                && m@ == decode_utf8(stderr@)),
    {
        if success {
            return Ok(());
        }
        match utf8_decode(stderr) {
            Ok(message) => Err(SpawnError::ErrorMessage(String::from_str(message))),
            Err(e) => Err(SpawnError::UtfError(e)),
        }
    }
}

impl From<std::io::Error> for SpawnError {
    fn from(value: std::io::Error) -> (res: Self) {
        SpawnError::CommandError(value)
    }
}

impl vstd::std_specs::convert::FromSpecImpl<std::io::Error> for SpawnError {
    open spec fn obeys_from_spec() -> bool {
        true
    }

    open spec fn from_spec(v: std::io::Error) -> Self {
        SpawnError::CommandError(v)
    }
}

impl From<std::str::Utf8Error> for SpawnError {
    fn from(value: std::str::Utf8Error) -> (res: Self) {
        SpawnError::UtfError(value)
    }
}

impl vstd::std_specs::convert::FromSpecImpl<std::str::Utf8Error> for SpawnError {
    open spec fn obeys_from_spec() -> bool {
        true
    }

    open spec fn from_spec(v: std::str::Utf8Error) -> Self {
        SpawnError::UtfError(v)
    }
}

} // verus!
