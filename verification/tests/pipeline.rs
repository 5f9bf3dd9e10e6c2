use fbr_service::config::{Config, PathKind};
use fbr_service::error::Error;
use fbr_service::event::{CreateKind, DebouncedEvent, EventKind, ModifyKind};
use fbr_service::file_watcher::FileWatcher;
use fbr_service::pipeline::{
    accept, allowed_kinds, collect_paths, Bridge, BridgeAction, BridgeEvent, FileAction,
    PipelineState,
};
use fbr_service::processor::{capture, Dispatch, Inner};
use fbr_service::registry::Processors;

fn event(kind: EventKind, paths: &[&str]) -> DebouncedEvent {
    let mut event = DebouncedEvent::new(kind);
    for path in paths {
        event = event.add_path(path.to_string());
    }
    event
}

fn bridge(whitelist: &str) -> Bridge {
    Bridge::new(Config::build_globset(Some(whitelist)).unwrap(), allowed_kinds(false))
}

#[test]
fn allowed_kinds_follow_the_platform() {
    assert_eq!(allowed_kinds(false), vec![EventKind::Create(CreateKind::File)]);
    assert_eq!(allowed_kinds(true), vec![EventKind::Create(CreateKind::Any)]);
}

#[test]
fn paths_are_collected_event_by_event() {
    let paths = collect_paths(vec![
        event(EventKind::Any, &["a", "b"]),
        event(EventKind::Other, &[]),
        event(EventKind::Any, &["c"]),
        event(EventKind::Any, &["a"]),
    ]);
    assert_eq!(paths, vec!["a", "b", "c", "a"]);
    assert!(collect_paths(vec![]).is_empty());
}

#[test]
fn bridge_starts_then_waits() {
    let mut bridge = bridge("*.json");
    assert_eq!(bridge.current_state(), PipelineState::Starting);
    assert!(matches!(bridge.listen(BridgeEvent::BatchDone), BridgeAction::Ignore));
    assert!(matches!(bridge.listen(BridgeEvent::Batch(vec![])), BridgeAction::Ignore));
    assert!(matches!(
        bridge.listen(BridgeEvent::WatcherFailed("x".to_string())),
        BridgeAction::Ignore
    ));
    assert_eq!(bridge.current_state(), PipelineState::Starting);
    assert!(matches!(bridge.listen(BridgeEvent::Started), BridgeAction::Receive));
    assert_eq!(bridge.current_state(), PipelineState::Watching);
    assert!(matches!(bridge.listen(BridgeEvent::Started), BridgeAction::Ignore));
    assert_eq!(bridge.current_state(), PipelineState::Watching);
}

#[test]
fn bridge_hands_out_the_paths_of_the_passing_events() {
    let mut bridge = bridge("*.json");
    bridge.listen(BridgeEvent::Started);
    let batch = vec![
        event(EventKind::Create(CreateKind::File), &["in/b.json"]),
        event(EventKind::Create(CreateKind::File), &["in/skip.txt"]),
        event(EventKind::Modify(ModifyKind::Any), &["in/c.json"]),
        event(EventKind::Create(CreateKind::File), &["in/a.tmp", "in/a.json"]),
    ];
    match bridge.listen(BridgeEvent::Batch(batch)) {
        BridgeAction::Process(paths) => {
            assert_eq!(paths, vec!["in/b.json", "in/a.tmp", "in/a.json"]);
        }
        other => panic!("unexpected: {:?}", other),
    }
    assert_eq!(bridge.current_state(), PipelineState::ProcessingBatch);
    assert!(matches!(bridge.listen(BridgeEvent::Batch(vec![])), BridgeAction::Ignore));
    assert!(matches!(
        bridge.listen(BridgeEvent::ChannelClosed("closed".to_string())),
        BridgeAction::Ignore
    ));
    assert_eq!(bridge.current_state(), PipelineState::ProcessingBatch);
    assert!(matches!(bridge.listen(BridgeEvent::BatchDone), BridgeAction::Receive));
    assert_eq!(bridge.current_state(), PipelineState::Watching);
}

#[test]
fn batch_without_passing_events_is_passed_over() {
    let mut bridge = bridge("*.json");
    bridge.listen(BridgeEvent::Started);
    let batch = vec![
        event(EventKind::Create(CreateKind::File), &["in/skip.txt"]),
        event(EventKind::Create(CreateKind::Folder), &["in/dir.json"]),
    ];
    assert!(matches!(bridge.listen(BridgeEvent::Batch(batch)), BridgeAction::Receive));
    assert_eq!(bridge.current_state(), PipelineState::Watching);
    assert!(matches!(bridge.listen(BridgeEvent::Batch(vec![])), BridgeAction::Receive));
    assert_eq!(bridge.current_state(), PipelineState::Watching);
}

#[test]
fn watcher_failure_ends_the_pipeline() {
    let mut bridge = bridge("*.json");
    bridge.listen(BridgeEvent::Started);
    match bridge.listen(BridgeEvent::WatcherFailed("[Error { kind: Generic }]".to_string())) {
        BridgeAction::Stop(error) => {
            assert_eq!(error.message(), "notify errors: [Error { kind: Generic }]");
        }
        other => panic!("unexpected: {:?}", other),
    }
    assert_eq!(bridge.current_state(), PipelineState::Terminated);
    assert!(matches!(bridge.listen(BridgeEvent::Started), BridgeAction::Ignore));
    assert!(matches!(bridge.listen(BridgeEvent::Batch(vec![])), BridgeAction::Ignore));
    assert!(matches!(bridge.listen(BridgeEvent::BatchDone), BridgeAction::Ignore));
    assert_eq!(bridge.current_state(), PipelineState::Terminated);
}

#[test]
fn closed_channel_ends_the_pipeline() {
    let mut bridge = bridge("*.json");
    bridge.listen(BridgeEvent::Started);
    match bridge.listen(BridgeEvent::ChannelClosed("receiving on a closed channel".to_string())) {
        BridgeAction::Stop(Error::MpscRecv(cause)) => {
            assert_eq!(cause, "receiving on a closed channel");
        }
        other => panic!("unexpected: {:?}", other),
    }
    assert_eq!(bridge.current_state(), PipelineState::Terminated);
}

#[test]
fn unreadable_file_is_passed_over() {
    let processors = Processors::new(vec![("com.proxy.network.io", 1)]);
    match accept(&processors, Err("No such file or directory (os error 2)".to_string())) {
        FileAction::Skip(Error::DirDoesNotExist(cause)) => {
            assert_eq!(cause, "No such file or directory (os error 2)");
        }
        _ => panic!("unexpected"),
    }
}

#[test]
fn file_that_holds_no_job_is_passed_over() {
    let processors = Processors::new(vec![("com.proxy.network.io", 1)]);
    assert!(matches!(
        accept(&processors, Ok(b"{ not json".to_vec())),
        FileAction::Skip(Error::SerdeJson(_))
    ));
    assert!(matches!(
        accept(
            &processors,
            Ok(br#"{"processor_id":"com.proxy.unknown","method":"GET","url":"http://example.com","headers":[],"result_path":"out/job1.json"}"#.to_vec())
        ),
        FileAction::Skip(Error::SerdeJson(_))
    ));
}

#[test]
fn job_with_a_fault_is_passed_over() {
    let processors = Processors::new(vec![("com.proxy.network.io", 1)]);
    assert!(matches!(
        accept(
            &processors,
            Ok(br#"{"processor_id":"com.proxy.network.io","method":"G E T","url":"http://example.com","headers":[],"result_path":"out/job1.json"}"#.to_vec())
        ),
        FileAction::Skip(Error::InvalidMethod(_))
    ));
    assert!(matches!(
        accept(
            &processors,
            Ok(br#"{"processor_id":"com.proxy.network.io","method":"GET","url":"example","headers":[],"result_path":"out/job1.json"}"#.to_vec())
        ),
        FileAction::Skip(Error::UrlParse(_))
    ));
    assert!(matches!(
        accept(
            &processors,
            Ok(br#"{"processor_id":"com.proxy.network.io","method":"GET","url":"http://example.com","headers":[{"name":"a b","value":"c"}],"result_path":"out/job1.json"}"#.to_vec())
        ),
        FileAction::Skip(Error::InvalidHeaderName(_))
    ));
    assert!(matches!(
        accept(
            &processors,
            Ok(br#"{"processor_id":"com.proxy.network.io","method":"GET","url":"http://example.com","headers":[{"name":"a","value":"c\n"}],"result_path":"out/job1.json"}"#.to_vec())
        ),
        FileAction::Skip(Error::InvalidHeaderValue(_))
    ));
}

#[test]
fn dropped_job_file_leads_to_one_request() {
    let whitelist = Config::build_globset(Some("*.json")).unwrap();
    let mut bridge = Bridge::new(whitelist, vec![EventKind::Create(CreateKind::File)]);
    let processors = Processors::new(vec![("com.proxy.network.io", "network")]);
    assert!(matches!(bridge.listen(BridgeEvent::Started), BridgeAction::Receive));

    let batch = vec![event(EventKind::Create(CreateKind::File), &["job1.json"])];
    let paths = match bridge.listen(BridgeEvent::Batch(batch)) {
        BridgeAction::Process(paths) => paths,
        other => panic!("unexpected: {:?}", other),
    };
    assert_eq!(paths, vec!["job1.json"]);

    let content = br#"{"processor_id":"com.proxy.network.io","method":"GET","url":"http://example.com","headers":[],"result_path":"out/job1.json"}"#;
    let mut requests = 0;
    for _path in &paths {
        match accept(&processors, Ok(content.to_vec())) {
            FileAction::Dispatch(Dispatch::Run { processor, io, result_path }) => {
                assert_eq!(*processor, "network");
                assert_eq!(result_path, "out/job1.json");
                match io.into_inner() {
                    Inner::NetworkIO(network) => {
                        assert_eq!(network.method().as_str(), "GET");
                        assert_eq!(network.url().as_str(), "http://example.com/");
                        assert!(network.headers().is_empty());
                        assert_eq!(network.body(), &None);
                        assert_eq!(network.timeout(), None);
                    }
                }
                requests += 1;

                assert!(capture(result_path.clone(), &Ok(())).is_none());

                let failed = Err(Error::Reqwest("connection refused".to_string()));
                let artifact = capture(result_path, &failed).unwrap();
                assert_eq!(artifact.path, "out/job1.json");
                let written: serde_json::Value =
                    serde_json::from_slice(&artifact.to_bytes().unwrap()).unwrap();
                assert!(written.is_object());
                assert_eq!(
                    written["message"].as_str().unwrap(),
                    "reqwest error: connection refused"
                );
            }
            _ => panic!("unexpected"),
        }
    }
    assert_eq!(requests, 1);
    assert!(matches!(bridge.listen(BridgeEvent::BatchDone), BridgeAction::Receive));
    assert_eq!(bridge.current_state(), PipelineState::Watching);
}

#[test]
fn dropped_job_file_without_processor_is_recorded_and_the_pipeline_goes_on() {
    let mut bridge = bridge("*.json");
    let processors: Processors<u8> = Processors::new(vec![]);
    bridge.listen(BridgeEvent::Started);
    for round in 0..2 {
        let batch = vec![event(EventKind::Create(CreateKind::File), &["job1.json"])];
        assert!(matches!(bridge.listen(BridgeEvent::Batch(batch)), BridgeAction::Process(_)));
        let content = format!(
            r#"{{"processor_id":"com.proxy.network.io","method":"GET","url":"http://example.com","headers":[],"result_path":"out/job{}.json"}}"#,
            round
        );
        match accept(&processors, Ok(content.into_bytes())) {
            FileAction::Dispatch(Dispatch::Capture(artifact)) => {
                assert_eq!(artifact.path, format!("out/job{}.json", round));
                assert_eq!(
                    artifact.to_bytes().unwrap(),
                    br#"{"message":"processor not found: com.proxy.network.io"}"#.to_vec()
                );
            }
            _ => panic!("unexpected"),
        }
        assert!(matches!(bridge.listen(BridgeEvent::BatchDone), BridgeAction::Receive));
        assert_eq!(bridge.current_state(), PipelineState::Watching);
    }
}

#[test]
fn watcher_is_made_for_anything_but_a_regular_file() {
    for kind in [PathKind::Directory, PathKind::Missing, PathKind::Other] {
        let watcher = FileWatcher::new("./test_file_watcher".to_string(), kind).unwrap();
        assert_eq!(watcher.path(), "./test_file_watcher");
    }
    match FileWatcher::new("./some \"file\"".to_string(), PathKind::File) {
        Err(Error::NotDirectory(cause)) => {
            assert_eq!(cause, "The specified path is a file: \"./some \\\"file\\\"\"");
            assert_eq!(
                Error::NotDirectory(cause).message(),
                "the specified path is a file: The specified path is a file: \"./some \\\"file\\\"\""
            );
        }
        other => panic!("unexpected: {:?}", other),
    }
}

#[test]
fn watched_directory_is_created_where_nothing_stands() {
    assert!(FileWatcher::must_create(PathKind::Missing));
    assert!(!FileWatcher::must_create(PathKind::Directory));
    assert!(!FileWatcher::must_create(PathKind::File));
    assert!(!FileWatcher::must_create(PathKind::Other));
}

#[test]
fn watch_is_flat_and_debounced_over_one_millisecond() {
    let watcher = FileWatcher::new("./test_file_watcher".to_string(), PathKind::Directory).unwrap();
    let plan = watcher.debouncer();
    assert_eq!(plan.path, "./test_file_watcher");
    assert!(!plan.recursive);
    assert_eq!(plan.debounce_millis, 1);
}
