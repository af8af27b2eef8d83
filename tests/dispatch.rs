use streameme_backend::invoke::{
    inference_dir, inference_program, invocation_args, on_exit, on_result, resolve_reply,
    result_file_name, ExitReport, InvokerStep,
};
use streameme_backend::upload::video_name_of;
use streameme_backend::{
    DispatchQueue, Error, InferenceOutput, InferenceUnit, MemeType, Task, VideoAnalyzerMode,
    VideoAnalyzerOutput, WorkerAction, WorkerPhase,
};

fn executed(a: WorkerAction<u32>) -> Option<u32> {
    match a {
        WorkerAction::Execute(t) => Some(t),
        _ => None,
    }
}

#[test]
fn fifo_three_tasks() {
    let mut q = DispatchQueue::new();
    assert!(q.submit(1u32).is_ok());
    assert!(q.submit(2).is_ok());
    assert!(q.submit(3).is_ok());
    let mut order = Vec::new();
    for _ in 0..3 {
        let t = executed(q.next()).expect("a queued task is handed out");
        // While a task runs, nothing else starts.
        assert!(matches!(q.next(), WorkerAction::Wait));
        assert_eq!(q.phase(), WorkerPhase::Executing);
        order.push(t);
        q.finish();
    }
    assert_eq!(order, vec![1, 2, 3]);
    assert!(matches!(q.next(), WorkerAction::Wait));
}

#[test]
fn submissions_while_running_keep_order() {
    let mut q = DispatchQueue::new();
    q.submit(10u32).unwrap();
    assert_eq!(executed(q.next()), Some(10));
    q.submit(11).unwrap();
    q.submit(12).unwrap();
    assert!(matches!(q.next(), WorkerAction::Wait));
    assert_eq!(q.pending_len(), 2);
    q.finish();
    assert_eq!(executed(q.next()), Some(11));
    q.finish();
    assert_eq!(executed(q.next()), Some(12));
}

#[test]
fn no_overlap_while_executing() {
    let mut q = DispatchQueue::new();
    q.submit(1u32).unwrap();
    q.submit(2).unwrap();
    assert_eq!(executed(q.next()), Some(1));
    for _ in 0..5 {
        assert!(matches!(q.next(), WorkerAction::Wait));
    }
    assert_eq!(q.pending_len(), 1);
}

#[test]
fn every_accepted_task_runs_once_before_stop() {
    let mut q = DispatchQueue::new();
    for t in 0..5u32 {
        q.submit(t).unwrap();
    }
    q.close();
    let mut seen = Vec::new();
    loop {
        match q.next() {
            WorkerAction::Execute(t) => {
                seen.push(t);
                q.finish();
            }
            WorkerAction::Wait => panic!("an idle worker with queued tasks never waits"),
            WorkerAction::Stop => break,
        }
    }
    assert_eq!(seen, vec![0, 1, 2, 3, 4]);
    assert_eq!(q.phase(), WorkerPhase::Terminated);
    assert!(matches!(q.next(), WorkerAction::Stop));
}

#[test]
fn closed_queue_returns_task() {
    let mut q = DispatchQueue::new();
    q.close();
    assert!(q.is_closed());
    assert_eq!(q.submit(7u32), Err(7));
    assert_eq!(q.pending_len(), 0);
}

#[test]
fn abandoned_reply_does_not_stall_worker() {
    let mut q = DispatchQueue::new();
    q.submit(1u32).unwrap();
    q.submit(2).unwrap();
    assert_eq!(executed(q.next()), Some(1));
    // The submitter of task 1 has gone; its reply is dropped and the worker finishes.
    q.finish();
    assert_eq!(executed(q.next()), Some(2));
}

#[test]
fn idle_empty_open_queue_waits() {
    let mut q: DispatchQueue<u32> = DispatchQueue::new();
    assert!(matches!(q.next(), WorkerAction::Wait));
    assert_eq!(q.phase(), WorkerPhase::Idle);
    q.finish();
    assert_eq!(q.phase(), WorkerPhase::Idle);
}

#[test]
fn soft_failure_gives_no_suggestions() {
    match on_exit(ExitReport::Exited { success: false }) {
        InvokerStep::Finish(Ok(out)) => assert!(out.0.is_none()),
        other => panic!("unexpected step {:?}", other),
    }
}

#[test]
fn missing_binary_is_spawn_failed() {
    match on_exit(ExitReport::NotStarted("No such file or directory".to_string())) {
        InvokerStep::Finish(Err(e)) => {
            assert_eq!(e, Error::SpawnFailed("No such file or directory".to_string()))
        }
        other => panic!("unexpected step {:?}", other),
    }
}

#[test]
fn successful_exit_reads_result() {
    assert!(matches!(on_exit(ExitReport::Exited { success: true }), InvokerStep::ReadResult));
}

#[test]
fn malformed_result_is_parse_failed() {
    let r = on_result(Err("expected value at line 1 column 1".to_string()));
    assert_eq!(r.unwrap_err(), Error::ParseFailed("expected value at line 1 column 1".to_string()));
}

#[test]
fn parsed_result_is_filtered() {
    let parsed = InferenceOutput(vec![
        InferenceUnit { start: 0, end: 5, suggestion: "anger".to_string() },
        InferenceUnit { start: 5, end: 9, suggestion: "confusion".to_string() },
    ]);
    let out = on_result(Ok(parsed)).unwrap().0.unwrap();
    assert_eq!(out.len(), 1);
    assert_eq!((out[0].start, out[0].end, out[0].meme_type), (0, 5, MemeType::Anger));
}

#[test]
fn dropped_reply_slot_is_channel_closed() {
    assert_eq!(resolve_reply(None).unwrap_err(), Error::ChannelClosed);
    let r = resolve_reply(Some(Ok(VideoAnalyzerOutput::default()))).unwrap();
    assert!(r.0.is_none());
    assert_eq!(
        resolve_reply(Some(Err(Error::SpawnFailed("x".to_string())))).unwrap_err(),
        Error::SpawnFailed("x".to_string())
    );
}

#[test]
fn invocation_arguments() {
    let task = Task::new("/up/a.mp4", "a", VideoAnalyzerMode::Binary);
    assert_eq!(
        invocation_args(&task, "/scratch/1"),
        vec!["inference.py", "--video_path", "/up/a.mp4", "--video_name", "a", "--output_dir", "/scratch/1"]
    );
    assert_eq!(inference_program(), "./.venv/bin/python");
    assert_eq!(inference_dir(), "../streameme_inference");
    assert_eq!(result_file_name(), "suggestions.json");
}

#[test]
fn upload_names() {
    assert_eq!(video_name_of("clip.mp4"), Some("clip".to_string()));
    assert_eq!(video_name_of("my.holiday.mov"), Some("my.holiday".to_string()));
    assert_eq!(video_name_of("été.avi"), Some("été".to_string()));
    assert_eq!(video_name_of("clip.mkv"), None);
    assert_eq!(video_name_of("clip.MP4"), None);
    assert_eq!(video_name_of(".mp4"), None);
    assert_eq!(video_name_of("clip"), None);
    assert_eq!(video_name_of("clip.mp4x"), None);
    assert_eq!(video_name_of(""), None);
}

#[test]
fn spawn_queues_task_with_reply_slot() {
    let mut q = DispatchQueue::new();
    let t = Task::new("a.mp4", "a", VideoAnalyzerMode::Multi);
    assert!(t.spawn(41u8, &mut q).is_ok());
    match q.next() {
        WorkerAction::Execute(s) => {
            assert_eq!(s.task().video_path(), "a.mp4");
            assert_eq!(s.reply, 41);
        }
        _ => panic!("the spawned task is handed out"),
    }
}

#[test]
fn spawn_on_closed_queue_is_dispatch_closed() {
    let mut q = DispatchQueue::new();
    q.close();
    let t = Task::new("b.mov", "b", VideoAnalyzerMode::Binary);
    match t.spawn((), &mut q) {
        Err((e, back)) => {
            assert_eq!(e, Error::DispatchClosed);
            assert_eq!(back.video_path(), "b.mov");
            assert_eq!(back.video_name(), "b");
        }
        Ok(()) => panic!("a closed queue accepts nothing"),
    }
    assert_eq!(q.pending_len(), 0);
}
