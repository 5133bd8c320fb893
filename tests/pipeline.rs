use godeo::context::{Context, Joined, Task};
use godeo::error::ContextError;
use godeo::frame::{Frame, MediaKind};
use godeo::hook::{hooks_report, Hook, HookMethod, HookOutcome};
use godeo::input::{check_content_type, Input, InputPath};
use godeo::worker::{RecvEvent, Worker, WorkerStep};

fn task(width: u32, height: u32, encoder: &str, output_file: &str) -> Task {
    Task {
        width,
        height,
        output_file: output_file.to_string(),
        encoder: encoder.to_string(),
        format: "mp4".to_string(),
    }
}

fn two_task_context() -> Context {
    let mut ctx = Context::new("/tmp/out".to_string(), InputPath::Path("in.mp4".to_string()));
    ctx.add_task(task(1280, 720, "libx264", "x264.mp4"));
    ctx.add_task(task(1920, 1080, "libx265", "x265.mp4"));
    ctx
}

fn web_hook(u: &str, m: HookMethod) -> Hook {
    Hook::Web(url::Url::parse(u).unwrap(), m)
}

fn video(ts: i64) -> Frame {
    Frame::Video { width: 1920, height: 1080, timestamp: Some(ts) }
}

#[test]
fn run_without_tasks_fails_before_any_endpoint() {
    let ctx = Context::new("/tmp/out".to_string(), InputPath::Path("in.mp4".to_string()));
    assert!(matches!(ctx.start(Some(0), Some(1)), Err(ContextError::NoTask)));
}

#[test]
fn run_without_streams_fails() {
    let ctx = two_task_context();
    assert!(matches!(ctx.start(None, None), Err(ContextError::NoStream)));
}

#[test]
fn scenario_two_frames_two_tasks() {
    let mut ctx = two_task_context();
    ctx.add_hook(web_hook("http://a.example/done", HookMethod::Post));
    ctx.add_hook(web_hook("http://b.example/done", HookMethod::Get));
    let (mut dist, mut readers) = ctx.start(Some(0), None).unwrap();
    assert_eq!(readers.len(), 2);
    let route = dist.route(0);
    assert!(route.video && !route.audio);

    let mut workers = vec![Worker::new(0), Worker::new(1)];
    let mut seen: Vec<Vec<Frame>> = vec![Vec::new(), Vec::new()];
    for ts in 1..=2 {
        assert!(dist.publish(Ok(video(ts))).is_ok());
        for i in 0..2 {
            let f = readers[i].try_recv().unwrap();
            match workers[i].on_event(RecvEvent::Frame(f)) {
                WorkerStep::Handle(f) => seen[i].push(f),
                WorkerStep::Finish(_) => panic!("a frame does not end a worker"),
            }
        }
    }
    drop(dist);

    let mut joined = Vec::new();
    for i in 0..2 {
        assert!(readers[i].try_recv().is_err());
        match workers[i].on_event(RecvEvent::Closed) {
            WorkerStep::Finish(r) => joined.push(Joined::Finished(r)),
            WorkerStep::Handle(_) => panic!("a closed channel carries no frame"),
        }
        assert_eq!(seen[i], vec![video(1), video(2)]);
    }
    let hooks = ctx.conclude(Ok(()), joined).unwrap();
    assert_eq!(hooks.len(), 2);
    match &hooks[0] {
        Hook::Web(u, m) => {
            assert_eq!(u.as_str(), "http://a.example/done");
            assert_eq!(*m, HookMethod::Post);
        }
    }
    match &hooks[1] {
        Hook::Web(u, m) => {
            assert_eq!(u.as_str(), "http://b.example/done");
            assert_eq!(*m, HookMethod::Get);
        }
    }
    assert!(ctx.tasks().is_empty());
    assert!(ctx.hooks().is_empty());
}

#[test]
fn audio_and_video_packets_are_routed_by_stream() {
    let ctx = two_task_context();
    let (dist, _readers) = ctx.start(Some(0), Some(1)).unwrap();
    let v = dist.route(0);
    let a = dist.route(1);
    let other = dist.route(2);
    assert!(v.video && !v.audio);
    assert!(!a.video && a.audio);
    assert!(!other.video && !other.audio);
}

#[test]
fn decode_error_stops_publishing_and_is_reported_after_join() {
    let mut ctx = two_task_context();
    let (mut dist, mut readers) = ctx.start(None, Some(3)).unwrap();
    let audio = Frame::Audio { timestamp: Some(7) };
    assert!(dist.publish(Ok(audio)).is_ok());
    let err = dist.publish(Err("invalid data".to_string()));
    assert_eq!(err, Err(ContextError::FFmpeg("invalid data".to_string())));
    assert!(dist.failed());
    drop(dist);
    for rx in readers.iter_mut() {
        assert_eq!(rx.try_recv().unwrap(), audio);
        assert!(rx.try_recv().is_err());
    }
    let joined = vec![Joined::Finished(Ok(())), Joined::Finished(Ok(()))];
    let r = ctx.conclude(Err(ContextError::FFmpeg("invalid data".to_string())), joined);
    assert!(matches!(r, Err(ContextError::FFmpeg(m)) if m == "invalid data"));
    assert!(ctx.tasks().is_empty());
}

#[test]
fn idle_worker_times_out_while_sibling_completes() {
    let mut slow = Worker::new(1);
    let mut busy = Worker::new(0);
    assert!(matches!(busy.on_event(RecvEvent::Frame(video(1))), WorkerStep::Handle(_)));
    assert!(matches!(busy.on_event(RecvEvent::Closed), WorkerStep::Finish(Ok(()))));
    let slow_result = match slow.on_event(RecvEvent::Timeout) {
        WorkerStep::Finish(r) => r,
        WorkerStep::Handle(_) => panic!("a timeout is no frame"),
    };
    assert_eq!(slow_result, Err(ContextError::WorkerTimeout(1)));
    assert!(slow.is_done() && busy.is_done());

    let mut ctx = two_task_context();
    let joined = vec![Joined::Finished(Ok(())), Joined::Finished(slow_result)];
    assert!(matches!(ctx.conclude(Ok(()), joined), Err(ContextError::WorkerTimeout(1))));
}

#[test]
fn first_failed_join_is_reported() {
    let mut ctx = two_task_context();
    let joined = vec![
        Joined::Panicked,
        Joined::Finished(Err(ContextError::FFmpeg("encode".to_string()))),
    ];
    assert!(matches!(ctx.conclude(Ok(()), joined), Err(ContextError::JoinFailed)));

    let mut ctx = two_task_context();
    let joined = vec![
        Joined::Finished(Err(ContextError::FFmpeg("encode".to_string()))),
        Joined::Panicked,
    ];
    assert!(matches!(ctx.conclude(Ok(()), joined), Err(ContextError::FFmpeg(m)) if m == "encode"));
}

#[test]
fn failed_hook_does_not_hide_later_ones() {
    let outcomes = vec![
        HookOutcome::Delivered(true),
        HookOutcome::Delivered(false),
        HookOutcome::Failed("refused".to_string()),
        HookOutcome::Delivered(true),
    ];
    assert_eq!(hooks_report(&outcomes), Err(ContextError::HookFailed(1)));
    let outcomes = vec![HookOutcome::Failed("refused".to_string()), HookOutcome::Delivered(true)];
    assert_eq!(hooks_report(&outcomes), Err(ContextError::HookFailed(0)));
    let outcomes = vec![HookOutcome::Delivered(true), HookOutcome::Delivered(true)];
    assert_eq!(hooks_report(&outcomes), Ok(()));
    assert_eq!(hooks_report(&Vec::new()), Ok(()));
}

#[test]
fn content_type_must_be_audio_or_video() {
    assert_eq!(check_content_type("video/mp4"), Ok(MediaKind::Video));
    assert_eq!(check_content_type("audio/ogg"), Ok(MediaKind::Audio));
    assert_eq!(
        check_content_type("text/html"),
        Err(ContextError::InvalidContentType("text/html".to_string()))
    );
    assert_eq!(
        check_content_type("video"),
        Err(ContextError::InvalidContentType("video".to_string()))
    );
    assert_eq!(
        check_content_type("videos/x"),
        Err(ContextError::InvalidContentType("videos/x".to_string()))
    );
}

#[test]
fn argument_is_url_or_path() {
    assert!(matches!(Input::from_arg("https://example.com/a.mp4"), Input::URL(_)));
    match Input::from_arg("movies/a.mp4") {
        Input::Path(p) => assert_eq!(p, "movies/a.mp4"),
        Input::URL(_) => panic!("a relative path is no URL"),
    }
}

#[test]
fn frame_kind_and_timestamp() {
    let f = video(40);
    assert_eq!(f.kind(), MediaKind::Video);
    assert_eq!(f.timestamp(), Some(40));
    let a = Frame::Audio { timestamp: None };
    assert_eq!(a.kind(), MediaKind::Audio);
    assert_eq!(a.timestamp(), None);
}

#[test]
fn context_keeps_registration_order() {
    let mut ctx = Context::new("/tmp/run".to_string(), InputPath::Path("in.mp4".to_string()));
    ctx.add_task(task(640, 360, "libx264", "a.mp4"));
    ctx.add_task(task(1280, 720, "libx265", "b.mp4"));
    assert_eq!(ctx.dest(), "/tmp/run");
    assert!(matches!(ctx.input_path(), InputPath::Path(p) if p == "in.mp4"));
    assert_eq!(ctx.tasks().len(), 2);
    assert_eq!(ctx.tasks()[0].output_file, "a.mp4");
    assert_eq!(ctx.tasks()[1].width, 1280);
    let (dist, readers) = ctx.start(Some(0), None).unwrap();
    assert_eq!(readers.len(), 2);
    assert!(!dist.failed());
}

#[test]
fn dropped_endpoint_does_not_stall_its_sibling() {
    let ctx = two_task_context();
    let (mut dist, mut readers) = ctx.start(Some(0), None).unwrap();
    let gone = readers.pop().unwrap();
    assert!(dist.publish(Ok(video(1))).is_ok());
    drop(gone);
    assert_eq!(readers[0].try_recv().unwrap(), video(1));
    assert!(dist.publish(Ok(video(2))).is_ok());
    assert_eq!(readers[0].try_recv().unwrap(), video(2));
    assert!(dist.publish(Ok(video(3))).is_ok());
    assert_eq!(readers[0].try_recv().unwrap(), video(3));
}

#[test]
fn single_task_receives_every_frame() {
    let mut ctx = Context::new("/tmp/out".to_string(), InputPath::Path("in.mp4".to_string()));
    ctx.add_task(task(1280, 720, "libx264", "x264.mp4"));
    let (mut dist, mut readers) = ctx.start(Some(0), None).unwrap();
    assert_eq!(readers.len(), 1);
    assert!(dist.publish(Ok(video(1))).is_ok());
    assert_eq!(readers[0].try_recv().unwrap(), video(1));
    assert!(dist.publish(Ok(video(2))).is_ok());
    assert_eq!(readers[0].try_recv().unwrap(), video(2));
    drop(dist);
    assert!(readers[0].try_recv().is_err());
}
