//! ffprobe: the command line that asks for the streams of a file, and its errors.
use vstd::prelude::*;

use super::spawn::{spawn_message_of, SpawnError};
use crate::text::{push_text, texts};

verus! {

/// Runs ffprobe.
pub struct FFProbe {}

/// Why asking ffprobe failed.
pub enum FFProbeError {
    SpawnError(SpawnError),
    JsonError,
}

/// The arguments with which ffprobe reports the streams of `input` as JSON.
pub open spec fn probe_args_spec(input: Seq<char>) -> Seq<Seq<char>> {
    seq!["-v"@, "quiet"@, "-print_format"@, "json"@, "-show_streams"@, input]
}

impl FFProbe {
    /// The program that is run.
    pub fn program() -> (res: &'static str)
        ensures
            res@ == "ffprobe"@,
    {
        "ffprobe"
    }

    /// The arguments with which ffprobe reports the streams of `input_path`.
    pub fn probe_args(input_path: &str) -> (res: Vec<String>)
        ensures
            texts(res@) == probe_args_spec(input_path@),
    {
        let mut args: Vec<String> = Vec::new();
        push_text(&mut args, "-v");
        push_text(&mut args, "quiet");
        push_text(&mut args, "-print_format");
        push_text(&mut args, "json");
        push_text(&mut args, "-show_streams");
        push_text(&mut args, input_path);
        assert(texts(args@) =~= probe_args_spec(input_path@));
        args
    }
}

impl FFProbeError {
    /// The text that describes the error.
    pub fn message(&self) -> (res: String)
        ensures
            match self {
                FFProbeError::SpawnError(e) => spawn_message_of(*e, res@),
                FFProbeError::JsonError => res@ == "ffprobe json error"@,
            },
    {
        match self {
            FFProbeError::SpawnError(e) => e.message(),
            FFProbeError::JsonError => String::from_str("ffprobe json error"),
        }
    }
}

impl From<SpawnError> for FFProbeError {
    fn from(value: SpawnError) -> (res: Self) {
        FFProbeError::SpawnError(value)
    }
}

impl vstd::std_specs::convert::FromSpecImpl<SpawnError> for FFProbeError {
    open spec fn obeys_from_spec() -> bool {
        true
    }

    open spec fn from_spec(v: SpawnError) -> Self {
        FFProbeError::SpawnError(v)
    }
}

} // verus!
