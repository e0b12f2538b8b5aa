//! Discovery of the engine's default graph root from its `info` output.

use crate::text::trimmed;
use vstd::prelude::*;
use vstd::utf8::{decode_utf8, valid_utf8};

verus! {

/// What one invocation of the engine's `info` primitive gave back.
#[derive(Clone, Debug)]
pub struct EngineOutput {
    /// The bytes written to standard output.
    pub stdout: Vec<u8>,
    /// The bytes written to standard error.
    pub stderr: Vec<u8>,
    /// The exit code, or `None` where a signal ended the process.
    pub exit_code: Option<i32>,
}

/// Why no graph root could be read from the engine's output.
#[derive(Clone, Copy, Debug, PartialEq, Eq, Structural)]
pub enum GraphrootError {
    /// The output is text, but the engine did not exit with code 0.
    Engine,
    /// The output is not valid UTF-8, however the engine exited.
    Decode,
}

/// The graph root that an `info` output with the given exit code and
/// standard output stands for. Output that cannot be decoded is a decode
/// error before anything else is looked at.
pub open spec fn graphroot_spec(exit_code: Option<i32>, stdout: Seq<u8>) -> Result<
    Seq<char>,
    GraphrootError,
> {
    if !valid_utf8(stdout) {
        Err(GraphrootError::Decode)
    } else if exit_code != Some(0i32) {
        Err(GraphrootError::Engine)
    } else {
        Ok(trimmed(decode_utf8(stdout)))
    }
}

/// The view of a discovery result: the path as a sequence of characters.
pub open spec fn graphroot_view(r: Result<String, GraphrootError>) -> Result<
    Seq<char>,
    GraphrootError,
> {
    match r {
        Ok(path) => Ok(path@),
        Err(e) => Err(e),
    }
}

/// Reads the engine's default graph root from the output of its `info`
/// primitive, asked for the graph root alone.
///
/// Output that is not valid UTF-8 is a decode error, whatever the exit code.
/// Valid output of an engine that did not exit with code 0 is an engine
/// error. Otherwise the graph root is the decoded output without the
/// whitespace around it.
pub fn get_podman_default_graphroot(info: &EngineOutput) -> (r: Result<String, GraphrootError>)
    ensures
        graphroot_view(r) == graphroot_spec(info.exit_code, info.stdout@),
{
    match str::from_utf8(info.stdout.as_slice()) {
        Err(_) => Err(GraphrootError::Decode),
        Ok(text) => match info.exit_code {
            Some(0) => {
                proof {
                    vstd::utf8::encode_utf8_decode_utf8(text@);
                }
                Ok(text.trim().to_owned())
            },
            _ => Err(GraphrootError::Engine),
        },
    }
}

} // verus!
