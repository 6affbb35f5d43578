//! Reduces the raw events of one watched file to change signals: an event
//! becomes a signal exactly when it reports that the content of one path was
//! modified. Everything else is dropped, with the reason given so that the
//! caller can log it.

use crate::text::string_views;
use vstd::prelude::*;

verus! {

/// How a file was opened or closed.
#[derive(Debug, Clone, Copy, PartialEq, Eq, Structural)]
pub enum AccessMode {
    Any,
    Execute,
    Read,
    Write,
    Other,
}

/// An access that changed nothing.
#[derive(Debug, Clone, Copy, PartialEq, Eq, Structural)]
pub enum AccessKind {
    Any,
    Read,
    Open(AccessMode),
    Close(AccessMode),
    Other,
}

/// What was created.
#[derive(Debug, Clone, Copy, PartialEq, Eq, Structural)]
pub enum CreateKind {
    Any,
    File,
    Folder,
    Other,
}

/// Which part of a file's data changed.
#[derive(Debug, Clone, Copy, PartialEq, Eq, Structural)]
pub enum DataChange {
    Any,
    Size,
    Content,
    Other,
}

/// Which part of a file's metadata changed.
#[derive(Debug, Clone, Copy, PartialEq, Eq, Structural)]
pub enum MetadataKind {
    Any,
    AccessTime,
    WriteTime,
    Permissions,
    Ownership,
    Extended,
    Other,
}

/// Which side of a rename an event reports.
#[derive(Debug, Clone, Copy, PartialEq, Eq, Structural)]
pub enum RenameMode {
    Any,
    To,
    From,
    Both,
    Other,
}

/// What was modified.
#[derive(Debug, Clone, Copy, PartialEq, Eq, Structural)]
pub enum ModifyKind {
    Any,
    Data(DataChange),
    Metadata(MetadataKind),
    Name(RenameMode),
    Other,
}

/// What was removed.
#[derive(Debug, Clone, Copy, PartialEq, Eq, Structural)]
pub enum RemoveKind {
    Any,
    File,
    Folder,
    Other,
}

/// The classification that the platform's watcher gives an event.
#[derive(Debug, Clone, Copy, PartialEq, Eq, Structural)]
pub enum EventKind {
    Any,
    Access(AccessKind),
    Create(CreateKind),
    Modify(ModifyKind),
    Remove(RemoveKind),
    Other,
}

/// One raw filesystem event: its classification and the paths it affects.
#[derive(Debug, Clone, PartialEq, Eq)]
pub struct RawEvent {
    pub kind: EventKind,
    pub paths: Vec<String>,
}

/// The mathematical value of a `RawEvent`.
pub ghost struct RawEventModel {
    pub kind: EventKind,
    pub paths: Seq<Seq<char>>,
}

impl View for RawEvent {
    type V = RawEventModel;

    open spec fn view(&self) -> RawEventModel {
        RawEventModel { kind: self.kind, paths: string_views(self.paths@) }
    }
}

/// "The content of the watched file changed": carries the path of the file.
#[derive(Debug, Clone, PartialEq, Eq)]
pub struct ChangeSignal {
    pub path: String,
}

impl View for ChangeSignal {
    type V = Seq<char>;

    open spec fn view(&self) -> Seq<char> {
        self.path@
    }
}

/// What the filter made of one event.
#[derive(Debug, Clone, PartialEq, Eq)]
pub enum Verdict {
    /// The content of exactly one path changed.
    Changed(ChangeSignal),
    /// A content change that names no path: dropped.
    NoPaths,
    /// A content change that names more than one path: dropped.
    SeveralPaths,
    /// Not a change of content: dropped.
    NotContent,
}

/// The mathematical value of a `Verdict`.
pub ghost enum VerdictModel {
    Changed(Seq<char>),
    NoPaths,
    SeveralPaths,
    NotContent,
}

impl View for Verdict {
    type V = VerdictModel;

    open spec fn view(&self) -> VerdictModel {
        match self {
            Verdict::Changed(signal) => VerdictModel::Changed(signal@),
            Verdict::NoPaths => VerdictModel::NoPaths,
            Verdict::SeveralPaths => VerdictModel::SeveralPaths,
            Verdict::NotContent => VerdictModel::NotContent,
        }
    }
}

/// Whether `kind` says that the bytes of a file were modified: not its size
/// alone, its metadata or its name, and not an unspecified modification.
pub open spec fn is_content_change(kind: EventKind) -> bool {
    kind == EventKind::Modify(ModifyKind::Data(DataChange::Content))
}

impl RawEventModel {
    /// Whether this event becomes a change signal: a content change on
    /// exactly one path.
    pub open spec fn qualifies(self) -> bool {
        is_content_change(self.kind) && self.paths.len() == 1
    }

    /// What the filter makes of this event.
    pub open spec fn verdict(self) -> VerdictModel {
        if !is_content_change(self.kind) {
            VerdictModel::NotContent
        } else if self.paths.len() == 0 {
            VerdictModel::NoPaths
        } else if self.paths.len() > 1 {
            VerdictModel::SeveralPaths
        } else {
            VerdictModel::Changed(self.paths[0])
        }
    }

    /// The path that this event signals, if it signals one.
    pub open spec fn signal(self) -> Option<Seq<char>> {
        if self.qualifies() {
            Some(self.paths[0])
        } else {
            None
        }
    }
}

/// The views of `events`, in order.
pub open spec fn event_views(events: Seq<RawEvent>) -> Seq<RawEventModel> {
    events.map_values(|event: RawEvent| event@)
}

/// The views of `signals`, in order.
pub open spec fn signal_views(signals: Seq<ChangeSignal>) -> Seq<Seq<char>> {
    signals.map_values(|signal: ChangeSignal| signal@)
}

/// The paths signalled for a run of events: one per qualifying event, in the
/// order of arrival, nothing merged and nothing added.
pub open spec fn signals_of(events: Seq<RawEventModel>) -> Seq<Seq<char>> {
    events.filter_map(|event: RawEventModel| event.signal())
}

/// Whether `kind` says that the bytes of a file were modified.
pub fn content_changed(kind: EventKind) -> (changed: bool)
    ensures
        changed == is_content_change(kind),
{
    match kind {
        EventKind::Modify(ModifyKind::Data(DataChange::Content)) => true,
        _ => false,
    }
}

/// Judges one event. A signal comes out exactly when the event qualifies, and
/// it carries the one path of the event.
pub fn classify(event: &RawEvent) -> (verdict: Verdict)
    ensures
        verdict@ == event@.verdict(),
        verdict is Changed <==> event@.qualifies(),
{
    if !content_changed(event.kind) {
        Verdict::NotContent
    } else if event.paths.len() > 1 {
        Verdict::SeveralPaths
    } else if event.paths.len() == 0 {
        Verdict::NoPaths
    } else {
        Verdict::Changed(ChangeSignal { path: event.paths[0].clone() })
    }
}

/// Filters a run of events, in order of arrival.
pub fn filter_events(events: &Vec<RawEvent>) -> (signals: Vec<ChangeSignal>)
    ensures
        signal_views(signals@) == signals_of(event_views(events@)),
{
    let mut signals: Vec<ChangeSignal> = Vec::new();
    let ghost models = event_views(events@);
    let ghost pick = |event: RawEventModel| event.signal();
    let mut i: usize = 0;
    assert(models.take(0) =~= Seq::<RawEventModel>::empty());
    while i < events.len()
        invariant
            i <= events.len(),
            models == event_views(events@),
            pick == |event: RawEventModel| event.signal(),
            signal_views(signals@) == models.take(i as int).filter_map(pick),
        decreases events.len() - i,
    {
        proof {
            models.lemma_filter_map_take_succ(pick, i as int);
        }
        let ghost before = signals@;
        match classify(&events[i]) {
            Verdict::Changed(signal) => {
                signals.push(signal);
                assert(signal_views(signals@) =~= signal_views(before) + seq![signal@]);
            },
            _ => {},
        }
        i += 1;
    }
    assert(models.take(i as int) =~= models);
    signals
}

/// As many signals come out as events qualify, neither fewer nor more, and
/// they are the paths of the qualifying events in order of arrival.
pub proof fn signals_match_qualifying_events(events: Seq<RawEventModel>)
    ensures
        signals_of(events) == events.filter(|event: RawEventModel| event.qualifies()).map_values(
            |event: RawEventModel| event.paths[0],
        ),
        signals_of(events).len() == events.filter(
            |event: RawEventModel| event.qualifies(),
        ).len(),
        signals_of(events).len() <= events.len(),
    decreases events.len(),
{
    let pick = |event: RawEventModel| event.signal();
    let wanted = |event: RawEventModel| event.qualifies();
    let path = |event: RawEventModel| event.paths[0];
    reveal(Seq::filter);
    if events.len() > 0 {
        let rest = events.drop_last();
        signals_match_qualifying_events(rest);
        if events.last().qualifies() {
            assert(events.filter(wanted) == rest.filter(wanted).push(events.last()));
            assert(events.filter(wanted).map_values(path) =~= rest.filter(wanted).map_values(
                path,
            ).push(events.last().paths[0]));
            assert(events.filter_map(pick) =~= rest.filter_map(pick).push(
                events.last().paths[0],
            ));
        }
    } else {
        assert(events.filter(wanted).map_values(path) =~= Seq::<Seq<char>>::empty());
    }
}

} // verus!
