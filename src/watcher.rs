use crate::error::ErrorKind;
use vstd::prelude::*;

verus! {

/// How the file that an access event concerns was opened.
#[derive(Debug, Clone, Copy, PartialEq, Eq, Structural)]
pub enum AccessMode {
    Any,
    Execute,
    Read,
    Write,
    Other,
}

/// What happened in an access event.
#[derive(Debug, Clone, Copy, PartialEq, Eq, Structural)]
pub enum AccessKind {
    Any,
    Read,
    Open(AccessMode),
    Close(AccessMode),
    Other,
}

/// Which side of a rename a modify-name event reports.
#[derive(Debug, Clone, Copy, PartialEq, Eq, Structural)]
pub enum RenameMode {
    Any,
    To,
    From,
    Both,
    Other,
}

/// What a modify event changed.
#[derive(Debug, Clone, Copy, PartialEq, Eq, Structural)]
pub enum ModifyKind {
    Any,
    Data,
    Metadata,
    Name(RenameMode),
    Other,
}

/// The kind of a raw change notification.
#[derive(Debug, Clone, Copy, PartialEq, Eq, Structural)]
pub enum EventKind {
    Any,
    Access(AccessKind),
    Create,
    Modify(ModifyKind),
    Remove,
    Other,
}

/// A raw change notification: its kind and the paths it concerns.
#[derive(Debug)]
pub struct RawEvent {
    pub kind: EventKind,
    pub paths: Vec<String>,
}

/// A file under the watched tree was closed after being opened for writing.
#[derive(Debug)]
pub struct DispatchableEvent {
    pub paths: Vec<String>,
}

/// What the notification backend delivers: an event, or a failure of its own.
#[derive(Debug)]
pub enum Notification {
    Event(RawEvent),
    BackendFailure,
}

/// What the caller does with a notification.
#[derive(Debug)]
pub enum Action {
    /// Drop it.
    Ignore,
    /// Hand the event to the downstream consumer.
    Dispatch(DispatchableEvent),
    /// Report the failure and keep watching.
    Report(ErrorKind),
}

/// Lifecycle of a watch.
#[derive(Debug, Clone, Copy, PartialEq, Eq, Structural)]
pub enum WatchState {
    Unregistered,
    Active,
    Closed,
}

/// What to ask the notification facility for.
#[derive(Debug)]
pub struct WatchRequest {
    pub path: String,
    pub recursive: bool,
}

/// A watch on a directory tree: its root and where it stands in its lifecycle.
#[derive(Debug)]
pub struct WatchSession {
    target: String,
    state: WatchState,
}

/// The one kind of raw event that is passed on: a close after a write-open.
pub open spec fn is_write_close(kind: EventKind) -> bool {
    kind == EventKind::Access(AccessKind::Close(AccessMode::Write))
}

/// What a session in `state` does with a notification.
pub open spec fn action_for(state: WatchState, n: Notification) -> Action {
    if state == WatchState::Active {
        match n {
            Notification::Event(e) => if is_write_close(e.kind) {
                Action::Dispatch(DispatchableEvent { paths: e.paths })
            } else {
                Action::Ignore
            },
            Notification::BackendFailure => Action::Report(ErrorKind::WatchBackendError),
        }
    } else {
        Action::Ignore
    }
}

/// The paths of the events dispatched, in order, when a session in `state`
/// receives the notifications `ns`.
pub open spec fn dispatched(state: WatchState, ns: Seq<Notification>) -> Seq<Vec<String>>
    decreases ns.len(),
{
    if ns.len() == 0 {
        Seq::empty()
    } else {
        let earlier = dispatched(state, ns.drop_last());
        match action_for(state, ns.last()) {
            Action::Dispatch(d) => earlier.push(d.paths),
            _ => earlier,
        }
    }
}

/// The paths of the write-close events among `ns`, in order.
pub open spec fn write_closes(ns: Seq<Notification>) -> Seq<Vec<String>>
    decreases ns.len(),
{
    if ns.len() == 0 {
        Seq::empty()
    } else {
        let earlier = write_closes(ns.drop_last());
        match ns.last() {
            Notification::Event(e) => if is_write_close(e.kind) {
                earlier.push(e.paths)
            } else {
                earlier
            },
            Notification::BackendFailure => earlier,
        }
    }
}

/// Reduces a raw event to a dispatchable one: only a close after a
/// write-open passes, with its paths.
pub fn event_dispatcher(event: RawEvent) -> (r: Option<DispatchableEvent>)
    ensures
        r == (if is_write_close(event.kind) {
            Some(DispatchableEvent { paths: event.paths })
        } else {
            None
        }),
{
    match event.kind {
        EventKind::Access(AccessKind::Close(AccessMode::Write)) => {
            Some(DispatchableEvent { paths: event.paths })
        },
        _ => None,
    }
}

impl WatchSession {
    pub closed spec fn target_view(&self) -> Seq<char> {
        self.target@
    }

    pub closed spec fn state_view(&self) -> WatchState {
        self.state
    }

    /// A watch on the tree rooted at `target`, not yet registered.
    pub fn new(target: String) -> (s: WatchSession)
        ensures
            s.target_view() == target@,
            s.state_view() == WatchState::Unregistered,
    {
        WatchSession { target, state: WatchState::Unregistered }
    }

    pub fn state(&self) -> (r: WatchState)
        ensures
            r == self.state_view(),
    {
        self.state
    }

    /// The registration to make: always recursive, so that the whole tree,
    /// subdirectories created later included, is covered.
    pub fn request(&self) -> (r: WatchRequest)
        ensures
            r.path@ == self.target_view(),
            r.recursive,
    {
        WatchRequest { path: self.target.clone(), recursive: true }
    }

    /// Records the outcome of the registration: success makes the watch
    /// active, failure leaves it unregistered and is reported as
    /// `WatchRegistrationError`.
    pub fn on_registration(&mut self, succeeded: bool) -> (r: Result<(), ErrorKind>)
        requires
            old(self).state_view() == WatchState::Unregistered,
        ensures
            final(self).target_view() == old(self).target_view(),
            succeeded ==> r is Ok && final(self).state_view() == WatchState::Active,
            !succeeded ==> r == Err::<(), ErrorKind>(ErrorKind::WatchRegistrationError)
                && final(self).state_view() == WatchState::Unregistered,
    {
        if succeeded {
            self.state = WatchState::Active;
            Ok(())
        } else {
            Err(ErrorKind::WatchRegistrationError)
        }
    }

    /// Decides what to do with a notification. Only an active watch acts:
    /// write-close events are dispatched, backend failures reported, and
    /// the watch stays active either way.
    pub fn on_notification(&self, n: Notification) -> (r: Action)
        ensures
            r == action_for(self.state_view(), n),
    {
        if self.state == WatchState::Active {
            match n {
                Notification::Event(e) => match event_dispatcher(e) {
                    Some(d) => Action::Dispatch(d),
                    None => Action::Ignore,
                },
                Notification::BackendFailure => Action::Report(ErrorKind::WatchBackendError),
            }
        } else {
            Action::Ignore
        }
    }

    /// Ends an active watch; a watch in any other state is left as it is.
    pub fn release(&mut self)
        ensures
            final(self).target_view() == old(self).target_view(),
            old(self).state_view() == WatchState::Active ==> final(self).state_view()
                == WatchState::Closed,
            old(self).state_view() != WatchState::Active ==> final(self).state_view() == old(
                self,
            ).state_view(),
    {
        if self.state == WatchState::Active {
            self.state = WatchState::Closed;
        }
    }
}

/// A raw event of the given kind on the given paths.
pub open spec fn raw(kind: EventKind, paths: Vec<String>) -> Notification {
    Notification::Event(RawEvent { kind, paths })
}

/// An active watch dispatches exactly the write-close events it receives,
/// one for each, with their paths and in the order they came.
pub proof fn lemma_active_dispatches_write_closes(ns: Seq<Notification>)
    ensures
        dispatched(WatchState::Active, ns) == write_closes(ns),
    decreases ns.len(),
{
    if ns.len() > 0 {
        lemma_active_dispatches_write_closes(ns.drop_last());
    }
}

/// Creating a file, opening it, writing to it and closing it gives one
/// dispatched event for its path; opening and closing it without a write
/// gives none.
pub proof fn lemma_write_then_close_dispatches_once(paths: Vec<String>)
    ensures
        dispatched(
            WatchState::Active,
            seq![
                raw(EventKind::Create, paths),
                raw(EventKind::Access(AccessKind::Open(AccessMode::Any)), paths),
                raw(EventKind::Modify(ModifyKind::Data), paths),
                raw(EventKind::Access(AccessKind::Close(AccessMode::Write)), paths),
            ],
        ) == seq![paths],
        dispatched(
            WatchState::Active,
            seq![
                raw(EventKind::Access(AccessKind::Open(AccessMode::Any)), paths),
                raw(EventKind::Access(AccessKind::Close(AccessMode::Read)), paths),
            ],
        ).len() == 0,
{
    let written = seq![
        raw(EventKind::Create, paths),
        raw(EventKind::Access(AccessKind::Open(AccessMode::Any)), paths),
        raw(EventKind::Modify(ModifyKind::Data), paths),
        raw(EventKind::Access(AccessKind::Close(AccessMode::Write)), paths),
    ];
    let read = seq![
        raw(EventKind::Access(AccessKind::Open(AccessMode::Any)), paths),
        raw(EventKind::Access(AccessKind::Close(AccessMode::Read)), paths),
    ];
    assert(written.drop_last() =~= written.take(3));
    assert(written.take(3).drop_last() =~= written.take(2));
    assert(written.take(2).drop_last() =~= written.take(1));
    assert(written.take(1).drop_last() =~= Seq::<Notification>::empty());
    reveal_with_fuel(dispatched, 5);
    assert(dispatched(WatchState::Active, written) =~= seq![paths]);
    assert(read.drop_last() =~= read.take(1));
    assert(read.take(1).drop_last() =~= Seq::<Notification>::empty());
    reveal_with_fuel(dispatched, 3);
}

/// Whatever an active watch received before (files and subdirectories
/// created anywhere in the tree, other events, backend failures), a
/// write-close event that follows is dispatched.
pub proof fn lemma_write_close_dispatched_after_any_history(ns: Seq<Notification>, e: RawEvent)
    requires
        is_write_close(e.kind),
    ensures
        dispatched(WatchState::Active, ns.push(Notification::Event(e))) == dispatched(
            WatchState::Active,
            ns,
        ).push(e.paths),
{
    assert(ns.push(Notification::Event(e)).drop_last() =~= ns);
}

/// A released watch dispatches nothing, whatever the backend still delivers.
pub proof fn lemma_released_watch_dispatches_nothing(ns: Seq<Notification>)
    ensures
        dispatched(WatchState::Closed, ns).len() == 0,
    decreases ns.len(),
{
    if ns.len() > 0 {
        lemma_released_watch_dispatches_nothing(ns.drop_last());
    }
}

} // verus!
