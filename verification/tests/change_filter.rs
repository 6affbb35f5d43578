use unitctl::change_filter::{
    classify, content_changed, filter_events, AccessKind, AccessMode, ChangeSignal, CreateKind,
    DataChange, EventKind, MetadataKind, ModifyKind, RawEvent, RemoveKind, RenameMode, Verdict,
};

fn content() -> EventKind {
    EventKind::Modify(ModifyKind::Data(DataChange::Content))
}

fn event(kind: EventKind, paths: &[&str]) -> RawEvent {
    RawEvent { kind, paths: paths.iter().map(|p| String::from(*p)).collect() }
}

fn signal(path: &str) -> ChangeSignal {
    ChangeSignal { path: String::from(path) }
}

fn other_kinds() -> Vec<EventKind> {
    vec![
        EventKind::Any,
        EventKind::Other,
        EventKind::Access(AccessKind::Any),
        EventKind::Access(AccessKind::Read),
        EventKind::Access(AccessKind::Open(AccessMode::Write)),
        EventKind::Access(AccessKind::Close(AccessMode::Write)),
        EventKind::Create(CreateKind::File),
        EventKind::Create(CreateKind::Folder),
        EventKind::Remove(RemoveKind::File),
        EventKind::Remove(RemoveKind::Any),
        EventKind::Modify(ModifyKind::Any),
        EventKind::Modify(ModifyKind::Other),
        EventKind::Modify(ModifyKind::Data(DataChange::Any)),
        EventKind::Modify(ModifyKind::Data(DataChange::Size)),
        EventKind::Modify(ModifyKind::Data(DataChange::Other)),
        EventKind::Modify(ModifyKind::Metadata(MetadataKind::Any)),
        EventKind::Modify(ModifyKind::Metadata(MetadataKind::AccessTime)),
        EventKind::Modify(ModifyKind::Metadata(MetadataKind::WriteTime)),
        EventKind::Modify(ModifyKind::Metadata(MetadataKind::Permissions)),
        EventKind::Modify(ModifyKind::Metadata(MetadataKind::Ownership)),
        EventKind::Modify(ModifyKind::Metadata(MetadataKind::Extended)),
        EventKind::Modify(ModifyKind::Name(RenameMode::To)),
        EventKind::Modify(ModifyKind::Name(RenameMode::From)),
        EventKind::Modify(ModifyKind::Name(RenameMode::Both)),
    ]
}

#[test]
fn content_write_on_one_path_is_signalled() {
    let verdict = classify(&event(content(), &["app.conf"]));
    assert_eq!(verdict, Verdict::Changed(signal("app.conf")));
}

#[test]
fn only_the_content_kind_counts_as_a_content_change() {
    assert!(content_changed(content()));
    for kind in other_kinds() {
        assert!(!content_changed(kind), "{:?}", kind);
    }
}

#[test]
fn other_kinds_are_dropped_whatever_their_paths() {
    for kind in other_kinds() {
        assert_eq!(classify(&event(kind, &["app.conf"])), Verdict::NotContent);
        assert_eq!(classify(&event(kind, &[])), Verdict::NotContent);
        assert_eq!(classify(&event(kind, &["a", "b"])), Verdict::NotContent);
    }
}

#[test]
fn metadata_touch_gives_no_signal() {
    let touch = event(EventKind::Modify(ModifyKind::Metadata(MetadataKind::WriteTime)), &["app.conf"]);
    assert_eq!(classify(&touch), Verdict::NotContent);
    assert_eq!(filter_events(&vec![touch]), Vec::<ChangeSignal>::new());
}

#[test]
fn content_change_without_a_path_is_dropped() {
    assert_eq!(classify(&event(content(), &[])), Verdict::NoPaths);
}

#[test]
fn content_change_on_several_paths_is_dropped() {
    assert_eq!(classify(&event(content(), &["a.conf", "b.conf"])), Verdict::SeveralPaths);
    assert_eq!(classify(&event(content(), &["a", "b", "c"])), Verdict::SeveralPaths);
}

#[test]
fn no_events_give_no_signals() {
    assert_eq!(filter_events(&Vec::new()), Vec::<ChangeSignal>::new());
}

#[test]
fn signals_keep_the_order_of_arrival() {
    let events = vec![
        event(content(), &["first.conf"]),
        event(EventKind::Access(AccessKind::Read), &["noise"]),
        event(content(), &[]),
        event(content(), &["second.conf"]),
        event(content(), &["x", "y"]),
        event(EventKind::Modify(ModifyKind::Name(RenameMode::Both)), &["old", "new"]),
        event(content(), &["third.conf"]),
    ];
    assert_eq!(
        filter_events(&events),
        vec![signal("first.conf"), signal("second.conf"), signal("third.conf")]
    );
}

#[test]
fn rapid_writes_are_not_merged() {
    let burst = vec![
        event(content(), &["app.conf"]),
        event(content(), &["app.conf"]),
        event(content(), &["app.conf"]),
    ];
    assert_eq!(
        filter_events(&burst),
        vec![signal("app.conf"), signal("app.conf"), signal("app.conf")]
    );
}

#[test]
fn signal_count_equals_qualifying_count() {
    let mut events: Vec<RawEvent> = Vec::new();
    for kind in other_kinds() {
        events.push(event(kind, &["app.conf"]));
        events.push(event(content(), &["app.conf"]));
        events.push(event(content(), &[]));
    }
    let qualifying: usize = events
        .iter()
        .filter(|e| matches!(classify(e), Verdict::Changed(_)))
        .count();
    assert_eq!(qualifying, other_kinds().len());
    assert_eq!(filter_events(&events).len(), qualifying);
}
