use vstd::prelude::*;
use crate::dispatch::DispatchQueue;
use crate::error::Error;
use crate::mode::VideoAnalyzerMode;

verus! {

/// The run name of a task whose request gave none.
pub open spec fn anonymous_name() -> Seq<char> {
    "_anonymous"@
}

/// A builder of [`Task`]s: the video path is required, the name and mode may be
/// left unset and are then filled with defaults by [`TaskConfig::build`].
#[derive(Debug)]
pub struct TaskConfig {
    video_path: String,
    video_name: Option<String>,
    analyze_mode: Option<VideoAnalyzerMode>,
}

impl View for TaskConfig {
    type V = (Seq<char>, Option<Seq<char>>, Option<VideoAnalyzerMode>);

    closed spec fn view(&self) -> (Seq<char>, Option<Seq<char>>, Option<VideoAnalyzerMode>) {
        (
            self.video_path@,
            match self.video_name {
                Some(n) => Some(n@),
                None => None,
            },
            self.analyze_mode,
        )
    }
}

/// One analysis request: the video to analyse, the name the run is given, and the mode.
///
/// A task cannot be changed once built.
#[derive(Debug)]
pub struct Task {
    video_path: String,
    video_name: String,
    analyze_mode: VideoAnalyzerMode,
}

impl View for Task {
    type V = (Seq<char>, Seq<char>, VideoAnalyzerMode);

    closed spec fn view(&self) -> (Seq<char>, Seq<char>, VideoAnalyzerMode) {
        (self.video_path@, self.video_name@, self.analyze_mode)
    }
}

/// The task that a builder in state `c` produces.
pub open spec fn built_task(c: (Seq<char>, Option<Seq<char>>, Option<VideoAnalyzerMode>)) -> (
    Seq<char>,
    Seq<char>,
    VideoAnalyzerMode,
) {
    (
        c.0,
        match c.1 {
            Some(n) => n,
            None => anonymous_name(),
        },
        match c.2 {
            Some(m) => m,
            None => VideoAnalyzerMode::spec_default(),
        },
    )
}

impl TaskConfig {
    /// A builder for a task on the video at `path`, with no name and no mode set.
    pub fn new(path: &str) -> (r: TaskConfig)
        ensures
            r@ == (path@, None::<Seq<char>>, None::<VideoAnalyzerMode>),
    {
        TaskConfig { video_path: path.to_owned(), video_name: None, analyze_mode: None }
    }

    /// Sets the run name; the path and mode are kept.
    pub fn video_name(&mut self, video_name: &str) -> (r: &mut TaskConfig)
        ensures
            r@ == (old(self)@.0, Some(video_name@), old(self)@.2),
            *final(self) == *final(r),
    {
        self.video_name = Some(video_name.to_owned());
        self
    }

    /// Sets the analysis mode; the path and name are kept.
    pub fn analyze_mode(&mut self, analyze_mode: VideoAnalyzerMode) -> (r: &mut TaskConfig)
        ensures
            r@ == (old(self)@.0, old(self)@.1, Some(analyze_mode)),
            *final(self) == *final(r),
    {
        self.analyze_mode = Some(analyze_mode);
        self
    }

    /// The task described so far: an unset name becomes `"_anonymous"`, an unset
    /// mode the default mode.
    pub fn build(&self) -> (r: Task)
        ensures
            r@ == built_task(self@),
    {
        let video_name = match &self.video_name {
            Some(n) => n.clone(),
            None => String::from_str("_anonymous"),
        };
        let analyze_mode = match self.analyze_mode {
            Some(m) => m,
            None => VideoAnalyzerMode::default(),
        };
        Task { video_path: self.video_path.clone(), video_name, analyze_mode }
    }
}

impl Task {
    /// A task on the video at `video_path`, run under `video_name`, in `analyze_mode`.
    pub fn new(video_path: &str, video_name: &str, analyze_mode: VideoAnalyzerMode) -> (r: Task)
        ensures
            r@ == (video_path@, video_name@, analyze_mode),
    {
        Task { video_path: video_path.to_owned(), video_name: video_name.to_owned(), analyze_mode }
    }

    /// The location of the video.
    pub fn video_path(&self) -> (r: &str)
        ensures
            r@ == self@.0,
    {
        self.video_path.as_str()
    }

    /// The name the run is given.
    pub fn video_name(&self) -> (r: &str)
        ensures
            r@ == self@.1,
    {
        self.video_name.as_str()
    }

    /// The analysis mode.
    pub fn analyze_mode(&self) -> (r: VideoAnalyzerMode)
        ensures
            r == self@.2,
    {
        self.analyze_mode
    }
}

/// The run name under which a [`VideoAnalyzerConfig`] runs its video.
pub open spec fn config_run_name() -> Seq<char> {
    "video"@
}

/// The settings for analysing one video directly: its path and the mode, which
/// starts as the default mode.
#[derive(Debug)]
pub struct VideoAnalyzerConfig {
    video_path: String,
    analyze_mode: VideoAnalyzerMode,
}

impl View for VideoAnalyzerConfig {
    type V = (Seq<char>, VideoAnalyzerMode);

    closed spec fn view(&self) -> (Seq<char>, VideoAnalyzerMode) {
        (self.video_path@, self.analyze_mode)
    }
}

impl VideoAnalyzerConfig {
    /// The settings for the video at `path`, in the default mode.
    pub fn new(path: &str) -> (r: VideoAnalyzerConfig)
        ensures
            r@ == (path@, VideoAnalyzerMode::spec_default()),
    {
        VideoAnalyzerConfig { video_path: path.to_owned(), analyze_mode: VideoAnalyzerMode::default() }
    }

    /// Sets the analysis mode; the path is kept.
    pub fn analyze_mode(&mut self, analyze_mode: VideoAnalyzerMode) -> (r: &mut VideoAnalyzerConfig)
        ensures
            r@ == (old(self)@.0, analyze_mode),
            *final(self) == *final(r),
    {
        self.analyze_mode = analyze_mode;
        self
    }

    /// The task that analyses this video in this mode, under the run name `"video"`.
    pub fn build(&self) -> (r: Task)
        ensures
            r@ == (self@.0, config_run_name(), self@.1),
    {
        Task {
            video_path: self.video_path.clone(),
            video_name: String::from_str("video"),
            analyze_mode: self.analyze_mode,
        }
    }
}

/// A task on its way to the worker, with the slot its reply goes into.
#[derive(Debug)]
pub struct SpawnedTask<R> {
    pub task: Task,
    pub reply: R,
}

impl<R> SpawnedTask<R> {
    /// The task.
    pub fn task(&self) -> (r: &Task)
        ensures
            r == &self.task,
    {
        &self.task
    }
}

impl Task {
    /// Queues the task, with the slot `reply` for its answer, behind every task
    /// accepted before it. A closed queue refuses it with `DispatchClosed` and
    /// hands the task back.
    pub fn spawn<R>(self, reply: R, queue: &mut DispatchQueue<SpawnedTask<R>>) -> (r: Result<(), (Error, Task)>)
        ensures
            final(queue)@.wf(),
            old(queue)@.closed ==> r == Err::<(), (Error, Task)>((Error::DispatchClosed, self))
                && final(queue)@ == old(queue)@,
            !old(queue)@.closed ==> r is Ok && final(queue)@ == old(queue)@.after_submit(
                SpawnedTask { task: self, reply },
            ),
    {
        match queue.submit(SpawnedTask { task: self, reply }) {
            Ok(()) => Ok(()),
            Err(refused) => Err((Error::DispatchClosed, refused.task)),
        }
    }
}

} // verus!
