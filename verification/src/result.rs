//! The one error type of the library: a kind that callers branch on, and a
//! short reason for people to read.

use vstd::prelude::*;
use vstd::string::*;

verus! {

/// What went wrong with a read, a write or a piece of input.
#[derive(Debug, Clone, Copy, PartialEq, Eq)]
pub enum IoKind {
    NotFound,
    InvalidInput,
    InvalidData,
    UnexpectedEof,
    Other,
}

/// Which part of the audio path failed, with what it reported.
#[derive(Debug, Clone)]
pub enum AudioError {
    Play(String),
    Stream(String),
    Device(String),
    Decode(String),
    Mp3(String),
}

/// An error of the library. The first field tells the kind apart further,
/// the second says in a few words where the error arose.
#[derive(Debug, Clone)]
pub enum DictError {
    /// The file system, or input that could not be decoded.
    Io(IoKind, &'static str),
    /// The network request.
    Http(String, &'static str),
    /// The command line.
    Arg(String, &'static str),
    /// The cache store.
    Db(String, &'static str),
    /// Decoding or playing audio.
    Audio(AudioError, &'static str),
}

/// The name of an I/O kind.
pub open spec fn io_kind_name(kind: IoKind) -> Seq<char> {
    match kind {
        IoKind::NotFound => "NotFound"@,
        IoKind::InvalidInput => "InvalidInput"@,
        IoKind::InvalidData => "InvalidData"@,
        IoKind::UnexpectedEof => "UnexpectedEof"@,
        IoKind::Other => "Other"@,
    }
}

/// An audio error written as its variant with the report in brackets.
pub open spec fn audio_error_text(e: AudioError) -> Seq<char> {
    match e {
        AudioError::Play(d) => "Play"@ + "("@ + d@ + ")"@,
        AudioError::Stream(d) => "Stream"@ + "("@ + d@ + ")"@,
        AudioError::Device(d) => "Device"@ + "("@ + d@ + ")"@,
        AudioError::Decode(d) => "Decode"@ + "("@ + d@ + ")"@,
        AudioError::Mp3(d) => "Mp3"@ + "("@ + d@ + ")"@,
    }
}

/// The line that reports an error.
pub open spec fn error_text(e: DictError) -> Seq<char> {
    match e {
        DictError::Io(kind, reason) => "IO error: ("@ + io_kind_name(kind) + ", "@ + reason@ + ")"@,
        DictError::Http(kind, reason) => "HTTP error: ("@ + kind@ + ", "@ + reason@ + ")"@,
        DictError::Arg(kind, reason) => "Parsing Argument error: "@ + kind@ + ", "@ + reason@,
        DictError::Db(kind, reason) => "sled error: "@ + kind@ + " "@ + reason@,
        DictError::Audio(kind, reason) => "audio error: "@ + audio_error_text(kind) + " "@ + reason@,
    }
}

impl IoKind {
    /// The name of this kind.
    pub fn name(&self) -> (s: &'static str)
        ensures
            s@ == io_kind_name(*self),
    {
        match self {
            IoKind::NotFound => "NotFound",
            IoKind::InvalidInput => "InvalidInput",
            IoKind::InvalidData => "InvalidData",
            IoKind::UnexpectedEof => "UnexpectedEof",
            IoKind::Other => "Other",
        }
    }
}

fn bracketed(name: &str, detail: &str) -> (out: String)
    ensures
        out@ == name@ + "("@ + detail@ + ")"@,
{
    let mut out = String::from_str(name);
    out.append("(");
    out.append(detail);
    out.append(")");
    out
}

impl AudioError {
    /// This error written as its variant with the report in brackets.
    pub fn to_string(&self) -> (out: String)
        ensures
            out@ == audio_error_text(*self),
    {
        match self {
            AudioError::Play(d) => bracketed("Play", d.as_str()),
            AudioError::Stream(d) => bracketed("Stream", d.as_str()),
            AudioError::Device(d) => bracketed("Device", d.as_str()),
            AudioError::Decode(d) => bracketed("Decode", d.as_str()),
            AudioError::Mp3(d) => bracketed("Mp3", d.as_str()),
        }
    }
}

impl DictError {
    /// The line that reports this error.
    pub fn to_string(&self) -> (out: String)
        ensures
            out@ == error_text(*self),
    {
        match self {
            DictError::Io(kind, reason) => {
                let mut out = String::from_str("IO error: (");
                out.append(kind.name());
                out.append(", ");
                out.append(reason);
                out.append(")");
                out
            },
            DictError::Http(kind, reason) => {
                let mut out = String::from_str("HTTP error: (");
                out.append(kind.as_str());
                out.append(", ");
                out.append(reason);
                out.append(")");
                out
            },
            DictError::Arg(kind, reason) => {
                let mut out = String::from_str("Parsing Argument error: ");
                out.append(kind.as_str());
                out.append(", ");
                out.append(reason);
                out
            },
            DictError::Db(kind, reason) => {
                let mut out = String::from_str("sled error: ");
                out.append(kind.as_str());
                out.append(" ");
                out.append(reason);
                out
            },
            DictError::Audio(kind, reason) => {
                let mut out = String::from_str("audio error: ");
                let k = kind.to_string();
                out.append(k.as_str());
                out.append(" ");
                out.append(reason);
                out
            },
        }
    }
}

} // verus!
