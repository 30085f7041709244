use vstd::prelude::*;
use crate::stage::{Stage, StageModel, clone_chars};

verus! {

/// How a file-backed endpoint opens its file.
#[derive(Clone, Copy, PartialEq, Eq, Structural, Debug)]
pub enum FileMode {
    /// Open an existing file for reading.
    Read,
    /// Create the file, or truncate it when it exists, for writing.
    Truncate,
}

/// Where one standard stream of a stage connects.
#[derive(Debug)]
pub enum StreamEndpoint {
    /// The shell's own stream.
    Inherited,
    /// A pipe shared with the adjacent stage.
    Piped,
    /// A file, opened with the given mode.
    FromFile(Vec<char>, FileMode),
    /// Discarded output.
    Null,
}

/// The mathematical content of a [`StreamEndpoint`].
pub enum EndpointModel {
    Inherited,
    Piped,
    FromFile(Seq<char>, FileMode),
    Null,
}

impl View for StreamEndpoint {
    type V = EndpointModel;

    open spec fn view(&self) -> EndpointModel {
        match self {
            StreamEndpoint::Inherited => EndpointModel::Inherited,
            StreamEndpoint::Piped => EndpointModel::Piped,
            StreamEndpoint::FromFile(p, m) => EndpointModel::FromFile(p@, *m),
            StreamEndpoint::Null => EndpointModel::Null,
        }
    }
}

/// A stage's input: the predecessor's pipe when one exists, else the
/// stage's own input redirection, else the shell's input.
pub open spec fn stdin_spec(st: StageModel, has_predecessor: bool) -> EndpointModel {
    if has_predecessor {
        EndpointModel::Piped
    } else {
        match st.redirect_in {
            Some(p) => EndpointModel::FromFile(p, FileMode::Read),
            None => EndpointModel::Inherited,
        }
    }
}

/// A stage's output: a pipe to the next stage when one follows, else the
/// stage's own output redirection, else the shell's output in the
/// foreground and nothing in the background.
pub open spec fn stdout_spec(st: StageModel, is_last: bool, background: bool) -> EndpointModel {
    if !is_last {
        EndpointModel::Piped
    } else {
        match st.redirect_out {
            Some(p) => EndpointModel::FromFile(p, FileMode::Truncate),
            None => if background {
                EndpointModel::Null
            } else {
                EndpointModel::Inherited
            },
        }
    }
}

/// A stage's error stream: its own error redirection, else the shell's.
pub open spec fn stderr_spec(st: StageModel) -> EndpointModel {
    match st.redirect_err {
        Some(p) => EndpointModel::FromFile(p, FileMode::Truncate),
        None => EndpointModel::Inherited,
    }
}

/// Resolves the three stream endpoints of one stage before it is spawned.
pub fn plan_endpoints(st: &Stage, has_predecessor: bool, is_last: bool, background: bool) -> (r: (
    StreamEndpoint,
    StreamEndpoint,
    StreamEndpoint,
))
    ensures
        r.0@ == stdin_spec(st@, has_predecessor),
        r.1@ == stdout_spec(st@, is_last, background),
        r.2@ == stderr_spec(st@),
{
    let stdin = if has_predecessor {
        StreamEndpoint::Piped
    } else {
        match &st.redirect_in {
            Some(p) => StreamEndpoint::FromFile(clone_chars(p), FileMode::Read),
            None => StreamEndpoint::Inherited,
        }
    };
    let stdout = if !is_last {
        StreamEndpoint::Piped
    } else {
        match &st.redirect_out {
            Some(p) => StreamEndpoint::FromFile(clone_chars(p), FileMode::Truncate),
            None => if background {
                StreamEndpoint::Null
            } else {
                StreamEndpoint::Inherited
            },
        }
    };
    let stderr = match &st.redirect_err {
        Some(p) => StreamEndpoint::FromFile(clone_chars(p), FileMode::Truncate),
        None => StreamEndpoint::Inherited,
    };
    (stdin, stdout, stderr)
}

/// Adjacent stages share one pipe: a stage that is not the pipeline's last
/// sends its output to a pipe whatever its redirections say, and the stage
/// after a successful spawn reads its input from that same pipe, so the
/// successor's input endpoint equals its predecessor's output endpoint.
/// Only the last stage's output is inherited, redirected or discarded.
pub proof fn lemma_pipe_wiring(a: StageModel, b: StageModel, background: bool)
    ensures
        stdout_spec(a, false, background) == EndpointModel::Piped,
        stdin_spec(b, true) == EndpointModel::Piped,
        stdout_spec(a, false, background) == stdin_spec(b, true),
{
}

} // verus!
