use vstd::prelude::*;
use crate::error::Error;
use crate::mode::VideoAnalyzerMode;
use crate::output::{kept_suggestions, InferenceOutput, VideoAnalyzerOutput};
use crate::task::Task;

verus! {

/// The command-line arguments of the inference procedure for `task`, writing
/// into `output_dir`.
pub open spec fn spec_invocation_args(
    task: (Seq<char>, Seq<char>, VideoAnalyzerMode),
    output_dir: Seq<char>,
) -> Seq<Seq<char>> {
    seq![
        "inference.py"@,
        "--video_path"@,
        task.0,
        "--video_name"@,
        task.1,
        "--output_dir"@,
        output_dir,
    ]
}

/// The interpreter that runs the inference procedure, relative to its directory.
pub fn inference_program() -> (r: &'static str)
    ensures
        r@ == "./.venv/bin/python"@,
{
    "./.venv/bin/python"
}

/// The directory the inference procedure is run in.
pub fn inference_dir() -> (r: &'static str)
    ensures
        r@ == "../streameme_inference"@,
{
    "../streameme_inference"
}

/// The name of the file, inside the output directory, that the procedure writes
/// its records to.
pub fn result_file_name() -> (r: &'static str)
    ensures
        r@ == "suggestions.json"@,
{
    "suggestions.json"
}

/// The arguments passed to the interpreter for `task`: the script, then the video
/// location, the run name and the output directory, each after its flag.
///
/// The analysis mode is not among the arguments: the procedure is run the same
/// way in either mode.
pub fn invocation_args(task: &Task, output_dir: &str) -> (r: Vec<String>)
    ensures
        r@.map_values(|a: String| a@) == spec_invocation_args(task@, output_dir@),
{
    let mut args: Vec<String> = Vec::new();
    args.push(String::from_str("inference.py"));
    args.push(String::from_str("--video_path"));
    args.push(task.video_path().to_owned());
    args.push(String::from_str("--video_name"));
    args.push(task.video_name().to_owned());
    args.push(String::from_str("--output_dir"));
    args.push(output_dir.to_owned());
    proof {
        assert(args@.map_values(|a: String| a@) =~= spec_invocation_args(task@, output_dir@));
    }
    args
}

/// How a run of the inference procedure ended.
#[derive(Debug)]
pub enum ExitReport {
    /// It could not be started (no interpreter, no permission, no directory); why.
    NotStarted(String),
    /// It ran to completion with this exit status.
    Exited { success: bool },
}

/// What the worker does once the procedure has ended.
#[derive(Debug)]
pub enum InvokerStep {
    /// Read and parse the result file, then call [`on_result`].
    ReadResult,
    /// The task's reply is final.
    Finish(Result<VideoAnalyzerOutput, Error>),
}

/// The step after the procedure ended: a procedure that never started is a
/// terminal `SpawnFailed` error; a non-zero exit is no error but an output
/// without suggestions; a successful exit leads to reading the result file.
pub fn on_exit(report: ExitReport) -> (r: InvokerStep)
    ensures
        match report {
            ExitReport::NotStarted(m) => r == InvokerStep::Finish(Err(Error::SpawnFailed(m))),
            ExitReport::Exited { success } => if success {
                r is ReadResult
            } else {
                r == InvokerStep::Finish(Ok(VideoAnalyzerOutput(None)))
            },
        },
{
    match report {
        ExitReport::NotStarted(m) => InvokerStep::Finish(Err(Error::SpawnFailed(m))),
        ExitReport::Exited { success } => {
            if success {
                InvokerStep::ReadResult
            } else {
                InvokerStep::Finish(Ok(VideoAnalyzerOutput::default()))
            }
        },
    }
}

/// The reply for a successful run, given what reading and parsing its result file
/// gave: the suggestions of the records, or a terminal `ParseFailed` error.
pub fn on_result(parsed: Result<InferenceOutput, String>) -> (r: Result<VideoAnalyzerOutput, Error>)
    ensures
        match parsed {
            Ok(o) => r matches Ok(out) && out@ == Some(kept_suggestions(o@)) && out.wf(),
            Err(m) => r == Err::<VideoAnalyzerOutput, Error>(Error::ParseFailed(m)),
        },
{
    match parsed {
        Ok(o) => Ok(VideoAnalyzerOutput::from_inference(o)),
        Err(m) => Err(Error::ParseFailed(m)),
    }
}

/// What a submitter's wait on its reply slot resolves to: the reply, or a
/// terminal `ChannelClosed` error when the worker dropped the slot unanswered.
pub fn resolve_reply(received: Option<Result<VideoAnalyzerOutput, Error>>) -> (r: Result<
    VideoAnalyzerOutput,
    Error,
>)
    ensures
        match received {
            Some(x) => r == x,
            None => r == Err::<VideoAnalyzerOutput, Error>(Error::ChannelClosed),
        },
{
    match received {
        Some(x) => x,
        None => Err(Error::ChannelClosed),
    }
}

} // verus!
