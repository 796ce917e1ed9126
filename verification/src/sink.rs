use vstd::prelude::*;

verus! {

/// The one destination that receives the interleaved transcript.
/// Exactly one is active per session.
#[derive(Debug, PartialEq, Eq)]
pub enum SinkChoice {
    /// Transcript interleaved with the operator's own standard output (the default).
    OperatorStdout,
    /// Transcript written to the operator's own standard error.
    OperatorStderr,
    /// Transcript written to a file at this path (created or truncated).
    TranscriptFile(String),
}

/// A configuration that cannot be honored, rejected before anything is spawned.
#[derive(Clone, Copy, Debug, PartialEq, Eq, Structural)]
pub enum ConfigError {
    /// A file sink and the standard-error sink were both requested;
    /// the two options are mutually exclusive.
    ConflictingSinks,
}

/// Selects the session's transcript sink from the two recognized options:
/// an optional file path and a flag asking for the standard-error stream.
/// Requesting both at once is a configuration error; with neither, the
/// transcript goes to the operator's standard output.
pub fn select_sink(file: Option<String>, to_stderr: bool) -> (r: Result<SinkChoice, ConfigError>)
    ensures
        (r is Err) <==> (file is Some && to_stderr),
        r is Err ==> (r matches Err(e) && e is ConflictingSinks),
        file matches Some(p) ==> to_stderr || (r matches Ok(s) && s matches SinkChoice::TranscriptFile(q) && q == p),
        (file is None && to_stderr) ==> (r matches Ok(s) && s is OperatorStderr),
        (file is None && !to_stderr) ==> (r matches Ok(s) && s is OperatorStdout),
{
    if to_stderr {
        match file {
            Some(_) => Err(ConfigError::ConflictingSinks),
            None => Ok(SinkChoice::OperatorStderr),
        }
    } else {
        match file {
            Some(p) => Ok(SinkChoice::TranscriptFile(p)),
            None => Ok(SinkChoice::OperatorStdout),
        }
    }
}

} // verus!
