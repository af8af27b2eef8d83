use streameme_backend::meme::MemeType;
use streameme_backend::mode::VideoAnalyzerMode;
use streameme_backend::{
    InferenceOutput, InferenceUnit, MemeTypeDesc, Task, TaskConfig, VideoAnalyzerConfig,
    VideoAnalyzerModeDesc, VideoAnalyzerOutput, VideoAnalyzerSuggestion,
};

fn unit(start: u32, end: u32, label: &str) -> InferenceUnit {
    InferenceUnit { start, end, suggestion: label.to_string() }
}

#[test]
fn mode_descriptions() {
    assert_eq!(VideoAnalyzerModeDesc::new(VideoAnalyzerMode::Binary).as_str(), "binary");
    assert_eq!(VideoAnalyzerModeDesc::new(VideoAnalyzerMode::Multi).as_str(), "multi");
}

#[test]
fn mode_default_and_labels() {
    assert_eq!(VideoAnalyzerMode::default(), VideoAnalyzerMode::Multi);
    assert_eq!(VideoAnalyzerMode::Binary.label(), "binary");
    assert_eq!(VideoAnalyzerMode::Multi.label(), "multi");
}

#[test]
fn meme_labels_round_trip() {
    let all = [
        (MemeType::Happiness, "happiness"),
        (MemeType::Love, "love"),
        (MemeType::Anger, "anger"),
        (MemeType::Sorrow, "sorrow"),
        (MemeType::Hate, "hate"),
        (MemeType::Surprise, "surprise"),
    ];
    for (t, label) in all {
        assert_eq!(MemeTypeDesc::new(t).as_str(), label);
        assert_eq!(t.label(), label);
        assert_eq!(MemeType::from_label(label), Some(t));
    }
    assert_eq!(MemeType::all().len(), 6);
}

#[test]
fn meme_unknown_labels() {
    assert_eq!(MemeType::from_label("confusion"), None);
    assert_eq!(MemeType::from_label(""), None);
    assert_eq!(MemeType::from_label("Anger"), None);
    assert_eq!(MemeType::from_label("anger "), None);
}

#[test]
fn suggestion_new_sets_description() {
    let s = VideoAnalyzerSuggestion::new(3, 7, MemeType::Sorrow);
    assert_eq!(s.start, 3);
    assert_eq!(s.end, 7);
    assert_eq!(s.meme_type, MemeType::Sorrow);
    assert_eq!(s.meme_type_desc.as_str(), "sorrow");
}

#[test]
fn unknown_label_filtering() {
    let out = VideoAnalyzerOutput::from_inference(InferenceOutput(vec![
        unit(0, 5, "anger"),
        unit(5, 9, "confusion"),
    ]));
    let v = out.0.expect("a parsed result file gives suggestions");
    assert_eq!(v.len(), 1);
    assert!(!VideoAnalyzerOutput::from_suggestions(vec![VideoAnalyzerSuggestion::new(0, 5, MemeType::Anger)]).is_empty());
    assert_eq!(v[0].start, 0);
    assert_eq!(v[0].end, 5);
    assert_eq!(v[0].meme_type, MemeType::Anger);
    assert_eq!(v[0].meme_type_desc.as_str(), "anger");
}

#[test]
fn filtering_keeps_file_order() {
    let out = VideoAnalyzerOutput::from_inference(InferenceOutput(vec![
        unit(10, 20, "love"),
        unit(1, 2, "meh"),
        unit(0, 4, "surprise"),
        unit(4, 8, "happiness"),
    ]));
    let v = out.0.unwrap();
    let got: Vec<(u32, u32, MemeType)> = v.iter().map(|s| (s.start, s.end, s.meme_type)).collect();
    assert_eq!(
        got,
        vec![(10, 20, MemeType::Love), (0, 4, MemeType::Surprise), (4, 8, MemeType::Happiness)]
    );
}

#[test]
fn empty_result_file_gives_empty_suggestions() {
    let out = VideoAnalyzerOutput::from_inference(InferenceOutput(vec![]));
    assert!(out.is_empty());
    assert_eq!(out.0.map(|v| v.len()), Some(0));
}

#[test]
fn default_output_has_no_suggestions() {
    assert!(VideoAnalyzerOutput::default().0.is_none());
    assert!(VideoAnalyzerOutput::default().is_empty());
    let out = VideoAnalyzerOutput::from_suggestions(vec![VideoAnalyzerSuggestion::new(1, 2, MemeType::Hate)]);
    assert_eq!(out.0.unwrap()[0].meme_type, MemeType::Hate);
}

#[test]
fn task_builder_defaults() {
    let t = TaskConfig::new("/tmp/x.mp4").build();
    assert_eq!(t.video_path(), "/tmp/x.mp4");
    assert_eq!(t.video_name(), "_anonymous");
    assert_eq!(t.analyze_mode(), VideoAnalyzerMode::Multi);
}

#[test]
fn task_builder_sets_fields() {
    let t = TaskConfig::new("a.avi").analyze_mode(VideoAnalyzerMode::Binary).video_name("clip").build();
    assert_eq!(t.video_path(), "a.avi");
    assert_eq!(t.video_name(), "clip");
    assert_eq!(t.analyze_mode(), VideoAnalyzerMode::Binary);
}

#[test]
fn task_new_keeps_fields() {
    let t = Task::new("p", "n", VideoAnalyzerMode::Binary);
    assert_eq!((t.video_path(), t.video_name(), t.analyze_mode()), ("p", "n", VideoAnalyzerMode::Binary));
}

#[test]
fn analyzer_config_builds_task() {
    let t = VideoAnalyzerConfig::new("v.mov").build();
    assert_eq!(t.video_path(), "v.mov");
    assert_eq!(t.video_name(), "video");
    assert_eq!(t.analyze_mode(), VideoAnalyzerMode::Multi);
    let t = VideoAnalyzerConfig::new("v.mov").analyze_mode(VideoAnalyzerMode::Binary).build();
    assert_eq!(t.analyze_mode(), VideoAnalyzerMode::Binary);
}
