use fbr_service::event::{CreateKind, DebouncedEvent, EventKind, ModifyKind, RemoveKind};
use fbr_service::file_watcher::filter_events;
use globset::{Glob, GlobSet, GlobSetBuilder};

fn create_event(kind: EventKind, path: &str) -> DebouncedEvent {
    DebouncedEvent::new(kind).add_path(path.into())
}

fn whitelist(patterns: &[&str]) -> GlobSet {
    let mut builder = GlobSetBuilder::new();
    for pattern in patterns {
        builder.add(Glob::new(pattern).unwrap());
    }
    builder.build().unwrap()
}

#[test]
fn test_filter_events() {
    let events = vec![
        create_event(EventKind::Create(CreateKind::File), "foo.txt"),
        create_event(EventKind::Create(CreateKind::Folder), "text.txt"),
        create_event(EventKind::Create(CreateKind::File), "bar.json"),
    ];

    let mut builder = GlobSetBuilder::new();
    builder.add(Glob::new("*.txt").unwrap());
    let globset = builder.build().unwrap();

    let events = filter_events(events, vec![EventKind::Create(CreateKind::File)], globset);

    assert_eq!(events.len(), 1);
}

#[test]
fn test_filter_events_no_match() {
    let events = vec![
        create_event(EventKind::Create(CreateKind::File), "foo.txt"),
        create_event(EventKind::Create(CreateKind::Folder), "text.txt"),
        create_event(EventKind::Create(CreateKind::Other), "bar.json"),
    ];

    let mut builder = GlobSetBuilder::new();
    builder.add(Glob::new("*.json").unwrap());
    let globset = builder.build().unwrap();

    let events = filter_events(events, vec![EventKind::Create(CreateKind::File)], globset);

    assert_eq!(events.len(), 0);
}

#[test]
fn filter_keeps_exactly_the_passing_events() {
    let events = vec![
        create_event(EventKind::Create(CreateKind::File), "foo.txt"),
        create_event(EventKind::Create(CreateKind::Folder), "text.txt"),
        create_event(EventKind::Create(CreateKind::File), "bar.json"),
    ];
    let kept = filter_events(
        events,
        vec![EventKind::Create(CreateKind::File)],
        whitelist(&["*.txt"]),
    );
    assert_eq!(kept.len(), 1);
    assert_eq!(kept[0].kind, EventKind::Create(CreateKind::File));
    assert_eq!(kept[0].paths, vec!["foo.txt".to_string()]);
}

#[test]
fn filter_keeps_the_order_of_the_batch() {
    let events = vec![
        create_event(EventKind::Create(CreateKind::File), "c.json"),
        create_event(EventKind::Remove(RemoveKind::File), "x.json"),
        create_event(EventKind::Create(CreateKind::File), "a.json"),
        create_event(EventKind::Create(CreateKind::File), "skip.txt"),
        create_event(EventKind::Modify(ModifyKind::Any), "b.json"),
        create_event(EventKind::Create(CreateKind::File), "a.json"),
    ];
    let kept = filter_events(
        events,
        vec![EventKind::Create(CreateKind::File), EventKind::Modify(ModifyKind::Any)],
        whitelist(&["*.json"]),
    );
    let paths: Vec<String> = kept.iter().map(|event| event.paths[0].clone()).collect();
    assert_eq!(paths, vec!["c.json", "a.json", "b.json", "a.json"]);
}

#[test]
fn filter_with_empty_whitelist_keeps_nothing() {
    let events = vec![
        create_event(EventKind::Create(CreateKind::File), "foo.txt"),
        create_event(EventKind::Create(CreateKind::File), "bar.json"),
        create_event(EventKind::Any, ""),
    ];
    let kept = filter_events(
        events,
        vec![EventKind::Create(CreateKind::File), EventKind::Any],
        whitelist(&[]),
    );
    assert!(kept.is_empty());
}

#[test]
fn filter_with_no_allowed_kind_keeps_nothing() {
    let events = vec![create_event(EventKind::Create(CreateKind::File), "foo.txt")];
    let kept = filter_events(events, vec![], whitelist(&["*"]));
    assert!(kept.is_empty());
}

#[test]
fn filter_needs_one_matching_path_only() {
    let two_paths = DebouncedEvent::new(EventKind::Create(CreateKind::File))
        .add_path("notes.md".into())
        .add_path("job.json".into());
    let no_paths = DebouncedEvent::new(EventKind::Create(CreateKind::File));
    let kept = filter_events(
        vec![no_paths, two_paths],
        vec![EventKind::Create(CreateKind::File)],
        whitelist(&["*.json"]),
    );
    assert_eq!(kept.len(), 1);
    assert_eq!(kept[0].paths, vec!["notes.md".to_string(), "job.json".to_string()]);
}

#[test]
fn filter_tells_generic_creation_from_file_creation() {
    let events = vec![
        create_event(EventKind::Create(CreateKind::Any), "a.json"),
        create_event(EventKind::Create(CreateKind::File), "b.json"),
    ];
    let kept = filter_events(
        events,
        vec![EventKind::Create(CreateKind::Any)],
        whitelist(&["*.json"]),
    );
    assert_eq!(kept.len(), 1);
    assert_eq!(kept[0].paths, vec!["a.json".to_string()]);
}

#[test]
fn filter_matches_any_pattern_of_the_whitelist() {
    let events = vec![
        create_event(EventKind::Create(CreateKind::File), "dir/a.json"),
        create_event(EventKind::Create(CreateKind::File), "b.txt"),
        create_event(EventKind::Create(CreateKind::File), "c.bin"),
    ];
    let kept = filter_events(
        events,
        vec![EventKind::Create(CreateKind::File)],
        whitelist(&["*.json", "*.txt"]),
    );
    assert_eq!(kept.len(), 2);
}
