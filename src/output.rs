use vstd::prelude::*;
use crate::meme::{meme_label, meme_of_label, MemeType, MemeTypeDesc};

verus! {

/// One recommended segment of a video: where it starts and ends, and its category.
///
/// `start <= end` is expected of every suggestion but not enforced: the bounds are
/// taken from the inference procedure's output as they stand.
#[derive(Debug)]
pub struct VideoAnalyzerSuggestion {
    pub start: u32,
    pub end: u32,
    pub meme_type: MemeType,
    pub meme_type_desc: MemeTypeDesc,
}

impl View for VideoAnalyzerSuggestion {
    type V = (u32, u32, MemeType);

    open spec fn view(&self) -> (u32, u32, MemeType) {
        (self.start, self.end, self.meme_type)
    }
}

impl VideoAnalyzerSuggestion {
    /// The description is the label of the meme type.
    pub open spec fn wf(&self) -> bool {
        self.meme_type_desc@ == meme_label(self.meme_type)
    }

    /// A suggestion for the segment `start..end` of the given type.
    pub fn new(start: u32, end: u32, meme_type: MemeType) -> (r: VideoAnalyzerSuggestion)
        ensures
            r@ == (start, end, meme_type),
            r.wf(),
    {
        VideoAnalyzerSuggestion { start, end, meme_type, meme_type_desc: MemeTypeDesc::new(meme_type) }
    }
}

/// The views of a sequence of suggestions.
pub open spec fn suggestions_view(s: Seq<VideoAnalyzerSuggestion>) -> Seq<(u32, u32, MemeType)> {
    s.map_values(|x: VideoAnalyzerSuggestion| x@)
}

/// One record of the inference procedure's result file.
#[derive(Debug)]
pub struct InferenceUnit {
    pub start: u32,
    pub end: u32,
    pub suggestion: String,
}

impl View for InferenceUnit {
    type V = (u32, u32, Seq<char>);

    open spec fn view(&self) -> (u32, u32, Seq<char>) {
        (self.start, self.end, self.suggestion@)
    }
}

/// The parsed result file of the inference procedure: its records in file order.
#[derive(Debug)]
pub struct InferenceOutput(pub Vec<InferenceUnit>);

impl View for InferenceOutput {
    type V = Seq<(u32, u32, Seq<char>)>;

    open spec fn view(&self) -> Seq<(u32, u32, Seq<char>)> {
        self.0@.map_values(|u: InferenceUnit| u@)
    }
}

impl InferenceOutput {
    /// The records, in file order.
    pub fn into_inner(self) -> (r: Vec<InferenceUnit>)
        ensures
            r@ == self.0@,
    {
        self.0
    }
}

/// The suggestions that the records give: each record whose label names a meme
/// type becomes a suggestion with the same bounds, in the same order; records
/// with any other label are left out.
pub open spec fn kept_suggestions(units: Seq<(u32, u32, Seq<char>)>) -> Seq<(u32, u32, MemeType)>
    decreases units.len(),
{
    if units.len() == 0 {
        Seq::empty()
    } else {
        let u = units.last();
        let prefix = kept_suggestions(units.drop_last());
        match meme_of_label(u.2) {
            Some(t) => prefix.push((u.0, u.1, t)),
            None => prefix,
        }
    }
}

/// The result handed back for one task: `None` when there is no usable result,
/// otherwise the suggestions in order.
#[derive(Debug)]
pub struct VideoAnalyzerOutput(pub Option<Vec<VideoAnalyzerSuggestion>>);

impl View for VideoAnalyzerOutput {
    type V = Option<Seq<(u32, u32, MemeType)>>;

    open spec fn view(&self) -> Option<Seq<(u32, u32, MemeType)>> {
        match self.0 {
            Some(v) => Some(suggestions_view(v@)),
            None => None,
        }
    }
}

impl Default for VideoAnalyzerOutput {
    /// No usable result.
    fn default() -> (r: VideoAnalyzerOutput)
        ensures
            r@ is None,
    {
        VideoAnalyzerOutput(None)
    }
}

impl VideoAnalyzerOutput {
    /// Every suggestion held is well formed.
    pub open spec fn wf(&self) -> bool {
        self.0 matches Some(v) ==> forall|i: int| 0 <= i < v@.len() ==> (#[trigger] v@[i]).wf()
    }

    /// An output that holds exactly `suggestions`.
    pub fn from_suggestions(suggestions: Vec<VideoAnalyzerSuggestion>) -> (r: VideoAnalyzerOutput)
        ensures
            r@ == Some(suggestions_view(suggestions@)),
            r.0 == Some(suggestions),
    {
        VideoAnalyzerOutput(Some(suggestions))
    }

    /// Whether the output holds no suggestion; an absent list and an empty one
    /// both mean that nothing was found.
    pub fn is_empty(&self) -> (r: bool)
        ensures
            r == (self@ is None || self@->Some_0.len() == 0),
    {
        match &self.0 {
            Some(v) => v.len() == 0,
            None => true,
        }
    }

    /// The output for a parsed result file: the records whose label names a meme
    /// type, in file order; the others are dropped without error. The bounds are
    /// taken as the records give them.
    pub fn from_inference(output: InferenceOutput) -> (r: VideoAnalyzerOutput)
        ensures
            r@ == Some(kept_suggestions(output@)),
            r.wf(),
    {
        let ghost units = output@;
        let records = output.into_inner();
        let mut suggestions: Vec<VideoAnalyzerSuggestion> = Vec::new();
        let mut i: usize = 0;
        while i < records.len()
            invariant
                i <= records@.len(),
                units == records@.map_values(|u: InferenceUnit| u@),
                suggestions_view(suggestions@) == kept_suggestions(units.subrange(0, i as int)),
                forall|k: int| 0 <= k < suggestions@.len() ==> (#[trigger] suggestions@[k]).wf(),
            decreases records.len() - i,
        {
            let unit = &records[i];
            let kind = MemeType::from_label(unit.suggestion.as_str());
            proof {
                assert(units.subrange(0, i + 1).drop_last() =~= units.subrange(0, i as int));
                assert(units.subrange(0, i + 1).last() == unit@);
            }
            match kind {
                Some(t) => {
                    let s = VideoAnalyzerSuggestion::new(unit.start, unit.end, t);
                    let ghost before = suggestions@;
                    suggestions.push(s);
                    proof {
                        assert(suggestions_view(suggestions@) =~= suggestions_view(before).push(s@));
                    }
                },
                None => {},
            }
            i = i + 1;
        }
        proof {
            assert(units.subrange(0, i as int) =~= units);
        }
        VideoAnalyzerOutput(Some(suggestions))
    }

}

} // verus!
