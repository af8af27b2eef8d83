use vstd::prelude::*;

verus! {

/// How a video is analysed.
#[derive(Debug, Clone, Copy, PartialEq, Eq, Structural)]
pub enum VideoAnalyzerMode {
    Binary,
    Multi,
}

/// The wire label of an analysis mode.
pub open spec fn mode_label(mode: VideoAnalyzerMode) -> Seq<char> {
    match mode {
        VideoAnalyzerMode::Binary => "binary"@,
        VideoAnalyzerMode::Multi => "multi"@,
    }
}

impl VideoAnalyzerMode {
    /// The mode that a request gets when it names none.
    pub open spec fn spec_default() -> VideoAnalyzerMode {
        VideoAnalyzerMode::Multi
    }

    /// The wire label of the mode.
    pub fn label(self) -> (r: &'static str)
        ensures
            r@ == mode_label(self),
    {
        match self {
            VideoAnalyzerMode::Binary => "binary",
            VideoAnalyzerMode::Multi => "multi",
        }
    }
}

impl Default for VideoAnalyzerMode {
    fn default() -> (r: VideoAnalyzerMode)
        ensures
            r == VideoAnalyzerMode::spec_default(),
    {
        VideoAnalyzerMode::Multi
    }
}

/// The textual description of an analysis mode, as reported to clients.
#[derive(Debug)]
pub struct VideoAnalyzerModeDesc(pub String);

impl View for VideoAnalyzerModeDesc {
    type V = Seq<char>;

    open spec fn view(&self) -> Seq<char> {
        self.0@
    }
}

impl VideoAnalyzerModeDesc {
    /// The description of `mode`: `"binary"` or `"multi"`.
    pub fn new(mode: VideoAnalyzerMode) -> (r: VideoAnalyzerModeDesc)
        ensures
            r@ == mode_label(mode),
    {
        VideoAnalyzerModeDesc(mode.label().to_owned())
    }

    /// The description as a string slice.
    pub fn as_str(&self) -> (r: &str)
        ensures
            r@ == self@,
    {
        self.0.as_str()
    }
}

} // verus!
