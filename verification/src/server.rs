//! The supervisor: it owns the set of live workers and is the only one to
//! change it. Commands reach it one at a time; for each it decides whether a
//! worker is spawned or stopped, and its driver carries the decision out.

use crate::config::{ConfigError, GlobalListenerConfig, GlobalListenerConfigView, ListenerConfig,
    ListenerConfigView};
use crate::listener::{Listener, ListenerView};
use crate::model::{ListenerRow, ListenerRowView};
use crate::text::clone_strings;
use vstd::prelude::*;

verus! {

/// A command for the supervisor.
#[derive(Debug)]
pub enum ListenerCmd {
    /// Spawn a worker for this listener.
    Add(ListenerConfig),
    /// Stop the worker with this id.
    Remove(String),
}

/// Why a command changes nothing.
#[derive(Clone, Copy, Debug, PartialEq, Eq, Structural)]
pub enum Skipped {
    /// A worker with this id is live already.
    AlreadyExists,
    /// The effective configuration is not valid.
    Invalid(ConfigError),
    /// No worker with this id is live.
    NotFound,
}

/// Why the supervisor refuses a request.
#[derive(Clone, Copy, Debug, PartialEq, Eq, Structural)]
pub enum ServerError {
    /// No worker with this id is live.
    NotFound,
    /// The effective configuration is not valid.
    Invalid(ConfigError),
}

/// What the driver reports to the supervisor.
#[derive(Debug)]
pub enum ServerEvent {
    /// The shutdown handle fired.
    Shutdown,
    /// A command arrived in the mailbox.
    Command(ListenerCmd),
    /// The mailbox is closed.
    Closed,
    /// The worker with this id, whose spawn was asked for, could not be
    /// started.
    SpawnFailed(String),
}

/// What the supervisor asks its driver to do.
pub enum ServerAction {
    /// Start this worker.
    Spawn(Listener),
    /// Stop the worker with this id.
    Stop(String),
    /// Stop the workers with these ids and leave the loop.
    Halt(Vec<String>),
    /// Fire the shutdown handle.
    Cancel,
    /// Nothing is to be done, for this reason.
    Skip(Skipped),
    /// Nothing is to be done.
    Continue,
}

/// What a request to add a listener leads to: the row is written to the
/// store, then the command is put in the mailbox.
#[derive(Debug)]
pub struct Enqueue {
    pub row: ListenerRow,
    pub cmd: ListenerCmd,
}

/// What a request to update a listener leads to: the worker is
/// reconfigured with `cfg` under `global`, then the row is written to the
/// store.
#[derive(Debug)]
pub struct Update {
    pub global: GlobalListenerConfig,
    pub cfg: ListenerConfig,
    pub row: ListenerRow,
}

/// How many commands the mailbox of the supervisor holds at most.
pub const MAILBOX_CAPACITY: usize = 100;

/// The supervisor.
pub struct Server {
    /// Whether shutdown was asked for. Once set it stays set.
    shutdown: bool,
    /// The ids of the live workers; no id stands twice.
    listeners: Vec<String>,
    /// The global configuration in force.
    global: GlobalListenerConfig,
}

/// The mathematical value of a [`ListenerCmd`].
#[verifier::ext_equal]
pub enum ListenerCmdView {
    Add(ListenerConfigView),
    Remove(Seq<char>),
}

/// The mathematical value of a [`ServerEvent`].
#[verifier::ext_equal]
pub enum ServerEventView {
    Shutdown,
    Command(ListenerCmdView),
    Closed,
    SpawnFailed(Seq<char>),
}

/// The mathematical value of a [`ServerAction`].
#[verifier::ext_equal]
pub enum ServerActionView {
    Spawn(ListenerView),
    Stop(Seq<char>),
    Halt(Set<Seq<char>>),
    Cancel,
    Skip(Skipped),
    Continue,
}

/// The mathematical value of an [`Enqueue`].
#[verifier::ext_equal]
pub struct EnqueueView {
    pub row: ListenerRowView,
    pub cmd: ListenerCmdView,
}

/// The mathematical value of an [`Update`].
#[verifier::ext_equal]
pub struct UpdateView {
    pub global: GlobalListenerConfigView,
    pub cfg: ListenerConfigView,
    pub row: ListenerRowView,
}

/// The mathematical value of a [`Server`]. The live workers are a set of
/// ids: no id is live twice.
#[verifier::ext_equal]
pub struct ServerView {
    /// Whether shutdown was asked for.
    pub shutdown: bool,
    /// The ids of the live workers.
    pub listeners: Set<Seq<char>>,
    /// The global configuration in force.
    pub global: GlobalListenerConfigView,
}

impl View for ListenerCmd {
    type V = ListenerCmdView;

    open spec fn view(&self) -> ListenerCmdView {
        match self {
            ListenerCmd::Add(cfg) => ListenerCmdView::Add(cfg@),
            ListenerCmd::Remove(id) => ListenerCmdView::Remove(id@),
        }
    }
}

impl View for ServerEvent {
    type V = ServerEventView;

    open spec fn view(&self) -> ServerEventView {
        match self {
            ServerEvent::Shutdown => ServerEventView::Shutdown,
            ServerEvent::Command(cmd) => ServerEventView::Command(cmd@),
            ServerEvent::Closed => ServerEventView::Closed,
            ServerEvent::SpawnFailed(id) => ServerEventView::SpawnFailed(id@),
        }
    }
}

impl View for ServerAction {
    type V = ServerActionView;

    open spec fn view(&self) -> ServerActionView {
        match self {
            ServerAction::Spawn(l) => ServerActionView::Spawn(l@),
            ServerAction::Stop(id) => ServerActionView::Stop(id@),
            ServerAction::Halt(ids) => ServerActionView::Halt(ids.deep_view().to_set()),
            ServerAction::Cancel => ServerActionView::Cancel,
            ServerAction::Skip(why) => ServerActionView::Skip(*why),
            ServerAction::Continue => ServerActionView::Continue,
        }
    }
}

impl View for Enqueue {
    type V = EnqueueView;

    open spec fn view(&self) -> EnqueueView {
        EnqueueView { row: self.row@, cmd: self.cmd@ }
    }
}

impl View for Update {
    type V = UpdateView;

    open spec fn view(&self) -> UpdateView {
        UpdateView { global: self.global@, cfg: self.cfg@, row: self.row@ }
    }
}

impl View for Server {
    type V = ServerView;

    closed spec fn view(&self) -> ServerView {
        ServerView {
            shutdown: self.shutdown,
            listeners: self.listeners.deep_view().to_set(),
            global: self.global@,
        }
    }
}

impl ServerView {
    /// A supervisor without workers.
    pub open spec fn fresh(global: GlobalListenerConfigView) -> ServerView {
        ServerView { shutdown: false, listeners: Set::empty(), global }
    }

    /// The decision on a listener to spawn: its configuration is merged
    /// with the global one; where a worker with its id is live, or the
    /// merged configuration is not valid, nothing happens; else the id
    /// becomes live and a new worker is to be started.
    pub open spec fn spawn(self, cfg: ListenerConfigView) -> (ServerView, ServerActionView) {
        if self.listeners.contains(cfg.id) {
            (self, ServerActionView::Skip(Skipped::AlreadyExists))
        } else {
            match cfg.merged(self.global).validity() {
                Err(e) => (self, ServerActionView::Skip(Skipped::Invalid(e))),
                Ok(()) => (
                    ServerView { listeners: self.listeners.insert(cfg.id), ..self },
                    ServerActionView::Spawn(ListenerView::fresh(cfg, self.global)),
                ),
            }
        }
    }

    /// The decision on a worker to stop: where it is live it leaves the set
    /// and is to be stopped; else nothing happens.
    pub open spec fn stop_one(self, id: Seq<char>) -> (ServerView, ServerActionView) {
        if self.listeners.contains(id) {
            (
                ServerView { listeners: self.listeners.remove(id), ..self },
                ServerActionView::Stop(id),
            )
        } else {
            (self, ServerActionView::Skip(Skipped::NotFound))
        }
    }

    /// One step of the supervisor: the state after `event`, and what the
    /// driver is to do.
    ///
    /// Once shutdown was asked for, the next step stops every worker and
    /// ends the loop. A closed mailbox asks for shutdown. A worker that
    /// could not be started leaves the set.
    pub open spec fn step(self, event: ServerEventView) -> (ServerView, ServerActionView) {
        if self.shutdown {
            self.halt()
        } else {
            match event {
                ServerEventView::Shutdown => self.halt(),
                ServerEventView::Command(ListenerCmdView::Add(cfg)) => self.spawn(cfg),
                ServerEventView::Command(ListenerCmdView::Remove(id)) => self.stop_one(id),
                ServerEventView::SpawnFailed(id) => (
                    ServerView { listeners: self.listeners.remove(id), ..self },
                    ServerActionView::Continue,
                ),
                ServerEventView::Closed => (
                    ServerView { shutdown: true, ..self },
                    ServerActionView::Cancel,
                ),
            }
        }
    }

    /// The end of the loop: every live worker is to be stopped, and none is
    /// live any more.
    pub open spec fn halt(self) -> (ServerView, ServerActionView) {
        (
            ServerView { shutdown: true, listeners: Set::empty(), ..self },
            ServerActionView::Halt(self.listeners),
        )
    }

    /// The answer to a request to add a listener: the effective
    /// configuration has to be valid; then its row is to be stored and the
    /// command to spawn the listener is to be enqueued.
    pub open spec fn added(self, cfg: ListenerConfigView) -> Result<EnqueueView, ConfigError> {
        match cfg.merged(self.global).validity() {
            Err(e) => Err(e),
            Ok(()) => Ok(
                EnqueueView { row: cfg.merged(self.global).row(), cmd: ListenerCmdView::Add(cfg) },
            ),
        }
    }

    /// The answer to a request to update a listener: its worker has to be
    /// live and the effective configuration valid; then the worker is to be
    /// reconfigured and the row to be stored.
    pub open spec fn updated(self, cfg: ListenerConfigView) -> Result<UpdateView, ServerError> {
        if !self.listeners.contains(cfg.id) {
            Err(ServerError::NotFound)
        } else {
            match cfg.merged(self.global).validity() {
                Err(e) => Err(ServerError::Invalid(e)),
                Ok(()) => Ok(
                    UpdateView { global: self.global, cfg, row: cfg.merged(self.global).row() },
                ),
            }
        }
    }
}

/// The row that records a valid effective configuration.
fn row_of(merged: ListenerConfig) -> (row: ListenerRow)
    requires
        merged.webhook_url is Some,
    ensures
        row@ == merged@.row(),
{
    let interval = merged.interval();
    let mut filled = merged;
    filled.poll_interval = Some(interval);
    ListenerRow::from(filled)
}

impl Server {
    #[verifier::type_invariant]
    spec fn inv(self) -> bool {
        self.listeners.deep_view().no_duplicates()
    }

    /// A supervisor without workers, under the global configuration `global`.
    pub fn new(global: GlobalListenerConfig) -> (server: Server)
        ensures
            server@ == ServerView::fresh(global@),
    {
        let server = Server { shutdown: false, listeners: Vec::new(), global };
        assert(server.listeners.deep_view().to_set() =~= Set::<Seq<char>>::empty());
        server
    }

    /// Whether shutdown was asked for.
    pub fn shutdown(&self) -> (asked: bool)
        ensures
            asked == self@.shutdown,
    {
        self.shutdown
    }

    /// The global configuration in force.
    pub fn global(&self) -> (global: &GlobalListenerConfig)
        ensures
            global@ == self@.global,
    {
        &self.global
    }

    /// The ids of the live workers: each is live once.
    pub fn live(&self) -> (ids: Vec<String>)
        ensures
            ids.deep_view().no_duplicates(),
            ids.deep_view().to_set() == self@.listeners,
    {
        proof {
            use_type_invariant(self);
        }
        clone_strings(&self.listeners)
    }

    /// Where the worker `id` stands in the list of live workers.
    fn position(&self, id: &String) -> (at: Option<usize>)
        ensures
            match at {
                Some(i) => i < self.listeners.len() && self.listeners.deep_view()[i as int] == id@,
                None => !self@.listeners.contains(id@),
            },
            at is Some <==> self@.listeners.contains(id@),
    {
        let mut i: usize = 0;
        while i < self.listeners.len()
            invariant
                i <= self.listeners.len(),
                forall|j: int| 0 <= j < i ==> self.listeners.deep_view()[j] != id@,
            decreases self.listeners.len() - i,
        {
            if self.listeners[i] == *id {
                assert(self.listeners.deep_view()[i as int] == id@);
                return Some(i);
            }
            i = i + 1;
        }
        None
    }

    /// Asks for shutdown: the next step of the loop stops every worker.
    pub fn stop(&mut self)
        ensures
            final(self)@ == (ServerView { shutdown: true, ..old(self)@ }),
    {
        proof {
            use_type_invariant(&*self);
        }
        self.shutdown = true;
    }

    /// Puts `cfg` in force as the global configuration. Workers learn of it
    /// from their driver.
    pub fn update_global_config(&mut self, cfg: GlobalListenerConfig)
        ensures
            final(self)@ == (ServerView { global: cfg@, ..old(self)@ }),
    {
        proof {
            use_type_invariant(&*self);
        }
        self.global = cfg;
    }

    /// Answers a request to add a listener. The effective configuration has
    /// to be valid; the answer then holds the row to store and the command
    /// to enqueue.
    pub fn add_listener(&self, cfg: ListenerConfig) -> (r: Result<Enqueue, ConfigError>)
        ensures
            match r {
                Ok(e) => self@.added(cfg@) == Ok::<_, ConfigError>(e@),
                Err(e) => self@.added(cfg@) == Err::<EnqueueView, _>(e),
            },
    {
        let merged = cfg.clone().merge_with(&self.global);
        match merged.validate() {
            Err(e) => Err(e),
            Ok(()) => Ok(Enqueue { row: row_of(merged), cmd: ListenerCmd::Add(cfg) }),
        }
    }

    /// Answers a request to remove a listener with the command to enqueue.
    pub fn remove_listener(&self, id: &str) -> (cmd: ListenerCmd)
        ensures
            cmd@ == ListenerCmdView::Remove(id@),
    {
        ListenerCmd::Remove(String::from_str(id))
    }

    /// Answers a request to update a listener. Its worker has to be live
    /// and the effective configuration valid; the answer then holds what to
    /// reconfigure the worker with, and the row to store.
    pub fn update_listener(&self, cfg: ListenerConfig) -> (r: Result<Update, ServerError>)
        ensures
            match r {
                Ok(u) => self@.updated(cfg@) == Ok::<_, ServerError>(u@),
                Err(e) => self@.updated(cfg@) == Err::<UpdateView, _>(e),
            },
    {
        if self.position(&cfg.id).is_none() {
            return Err(ServerError::NotFound);
        }
        let merged = cfg.clone().merge_with(&self.global);
        match merged.validate() {
            Err(e) => Err(ServerError::Invalid(e)),
            Ok(()) => Ok(Update { global: self.global.clone(), cfg, row: row_of(merged) }),
        }
    }

    /// The commands that restore the listeners of these rows, in their
    /// order. They are served before any command of the mailbox.
    pub fn restore(rows: Vec<ListenerRow>) -> (cmds: Vec<ListenerCmd>)
        ensures
            cmds.len() == rows.len(),
            forall|i: int| 0 <= i < rows.len() ==> cmds@[i]@ == ListenerCmdView::Add(rows@[i]@.config()),
    {
        let mut cmds: Vec<ListenerCmd> = Vec::new();
        let mut i: usize = 0;
        while i < rows.len()
            invariant
                i <= rows.len(),
                cmds.len() == i,
                forall|j: int| 0 <= j < i ==> cmds@[j]@ == ListenerCmdView::Add(rows@[j]@.config()),
            decreases rows.len() - i,
        {
            let row = rows[i].clone();
            proof {
                crate::model::lemma_config_of_row(row);
            }
            cmds.push(ListenerCmd::Add(ListenerConfig::from(row)));
            i = i + 1;
        }
        cmds
    }

    /// Decides on a listener to spawn.
    pub fn spawn_listener(&mut self, cfg: ListenerConfig) -> (action: ServerAction)
        ensures
            (final(self)@, action@) == old(self)@.spawn(cfg@),
    {
        proof {
            use_type_invariant(&*self);
        }
        if self.position(&cfg.id).is_some() {
            return ServerAction::Skip(Skipped::AlreadyExists);
        }
        let id = cfg.id.clone();
        match Listener::new(cfg, &self.global) {
            Err(e) => ServerAction::Skip(Skipped::Invalid(e)),
            Ok(listener) => {
                let ghost before = self.listeners.deep_view();
                let mut ids: Vec<String> = Vec::new();
                std::mem::swap(&mut self.listeners, &mut ids);
                ids.push(id);
                proof {
                    let after = ids.deep_view();
                    assert(after =~= before.push(id@));
                    assert(after.no_duplicates()) by {
                        assert forall|i: int, j: int|
                            0 <= i < after.len() && 0 <= j < after.len() && i != j implies after[i]
                            != after[j] by {
                            if i < before.len() {
                                assert(before.contains(after[i]));
                            }
                            if j < before.len() {
                                assert(before.contains(after[j]));
                            }
                        }
                    }
                    assert(after.to_set() =~= before.to_set().insert(id@)) by {
                        assert forall|a: Seq<char>| after.contains(a) <==> before.contains(a) || a
                            == id@ by {
                            if before.contains(a) {
                                let i = before.index_of(a);
                                assert(after[i] == a);
                            }
                            if a == id@ {
                                assert(after[before.len() as int] == a);
                            }
                        }
                    }
                }
                self.listeners = ids;
                ServerAction::Spawn(listener)
            },
        }
    }

    /// Takes the worker at index `at` out of the list.
    fn take(&mut self, at: usize) -> (id: String)
        requires
            at < old(self).listeners.len(),
        ensures
            id@ == old(self).listeners.deep_view()[at as int],
            final(self)@ == (ServerView {
                listeners: old(self)@.listeners.remove(id@),
                ..old(self)@
            }),
    {
        proof {
            use_type_invariant(&*self);
        }
        let ghost before = self.listeners.deep_view();
        let mut ids: Vec<String> = Vec::new();
        std::mem::swap(&mut self.listeners, &mut ids);
        let id = ids.remove(at);
        proof {
            let after = ids.deep_view();
            assert(after =~= before.remove(at as int));
            assert(after.no_duplicates()) by {
                assert forall|i: int, j: int|
                    0 <= i < after.len() && 0 <= j < after.len() && i != j implies after[i]
                    != after[j] by {
                    let i0 = if i < at { i } else { i + 1 };
                    let j0 = if j < at { j } else { j + 1 };
                    assert(after[i] == before[i0]);
                    assert(after[j] == before[j0]);
                }
            }
            assert(after.to_set() =~= before.to_set().remove(id@)) by {
                assert forall|a: Seq<char>| after.contains(a) <==> before.contains(a) && a
                    != id@ by {
                    if after.contains(a) {
                        let i = after.index_of(a);
                        let i0 = if i < at { i } else { i + 1 };
                        assert(before[i0] == a);
                        assert(before[i0] != before[at as int]);
                    }
                    if before.contains(a) && a != id@ {
                        let i = before.index_of(a);
                        assert(i != at);
                        let i1 = if i < at { i } else { i - 1 };
                        assert(after[i1] == a);
                    }
                }
            }
        }
        self.listeners = ids;
        id
    }

    /// Decides on a worker to stop.
    pub fn shutdown_listener(&mut self, id: &str) -> (action: ServerAction)
        ensures
            (final(self)@, action@) == old(self)@.stop_one(id@),
    {
        let key = String::from_str(id);
        match self.position(&key) {
            Some(at) => ServerAction::Stop(self.take(at)),
            None => ServerAction::Skip(Skipped::NotFound),
        }
    }

    /// Empties the set of live workers and returns their ids: each of them
    /// is to be stopped.
    pub fn stop_all(&mut self) -> (ids: Vec<String>)
        ensures
            ids.deep_view().to_set() == old(self)@.listeners,
            ids.deep_view().no_duplicates(),
            final(self)@ == (ServerView { listeners: Set::empty(), ..old(self)@ }),
    {
        proof {
            use_type_invariant(&*self);
        }
        let mut ids: Vec<String> = Vec::new();
        std::mem::swap(&mut self.listeners, &mut ids);
        assert(self.listeners.deep_view().to_set() =~= Set::<Seq<char>>::empty());
        ids
    }

    /// Advances the supervisor by one event and returns what its driver is
    /// to do.
    pub fn run(&mut self, event: ServerEvent) -> (action: ServerAction)
        ensures
            (final(self)@, action@) == old(self)@.step(event@),
    {
        if self.shutdown {
            return ServerAction::Halt(self.stop_all());
        }
        match event {
            ServerEvent::Shutdown => {
                self.stop();
                ServerAction::Halt(self.stop_all())
            },
            ServerEvent::Command(ListenerCmd::Add(cfg)) => self.spawn_listener(cfg),
            ServerEvent::Command(ListenerCmd::Remove(id)) => self.shutdown_listener(id.as_str()),
            ServerEvent::SpawnFailed(id) => {
                match self.position(&id) {
                    Some(at) => {
                        self.take(at);
                    },
                    None => {
                        assert(self@.listeners.remove(id@) =~= self@.listeners);
                    },
                }
                ServerAction::Continue
            },
            ServerEvent::Closed => {
                self.stop();
                ServerAction::Cancel
            },
        }
    }
}

/// At most one worker is live for an id: a worker is spawned only for an id
/// that is not live, the id is live from then on, and a second command to
/// add the same id spawns nothing and changes nothing.
pub proof fn lemma_one_worker_per_id(
    s: ServerView,
    first: ListenerConfigView,
    second: ListenerConfigView,
)
    requires
        first.id == second.id,
    ensures
        s.step(ServerEventView::Command(ListenerCmdView::Add(first))).1 is Spawn ==> {
            let after = s.step(ServerEventView::Command(ListenerCmdView::Add(first))).0;
            &&& !s.listeners.contains(first.id)
            &&& after.listeners == s.listeners.insert(first.id)
            &&& after.step(ServerEventView::Command(ListenerCmdView::Add(second))) == (
                after,
                ServerActionView::Skip(Skipped::AlreadyExists),
            )
        },
{
}

/// A live worker stays live until it is removed, could not be started, or
/// shutdown is served; and nothing becomes live but by a spawn.
pub proof fn lemma_live_worker_stays(s: ServerView, event: ServerEventView, id: Seq<char>)
    requires
        !s.shutdown,
        !(event is Shutdown),
        event != ServerEventView::Command(ListenerCmdView::Remove(id)),
        event != ServerEventView::SpawnFailed(id),
    ensures
        s.listeners.contains(id) ==> s.step(event).0.listeners.contains(id),
        !s.listeners.contains(id) && s.step(event).0.listeners.contains(id) ==> s.step(event).1
            is Spawn,
{
}

/// No worker is spawned for a listener that is not valid: where the channel
/// URL lacks the public preview prefix, or the poll interval in force after
/// the merge is below three seconds, or no webhook URL is set after the
/// merge, the request to add it is refused, and a command to add it spawns
/// nothing and changes nothing.
pub proof fn lemma_invalid_listener_is_rejected(s: ServerView, cfg: ListenerConfigView)
    requires
        !crate::config::channel_prefix().is_prefix_of(cfg.channel_url) || cfg.merged(
            s.global,
        ).interval() < crate::config::MIN_POLL_INTERVAL || cfg.merged(s.global).webhook_url is None,
    ensures
        s.added(cfg) is Err,
        s.updated(cfg) is Err,
        !(s.step(ServerEventView::Command(ListenerCmdView::Add(cfg))).1 is Spawn),
        !s.shutdown ==> s.step(ServerEventView::Command(ListenerCmdView::Add(cfg))).0 == s,
{
}

/// A worker is spawned exactly for a valid listener whose id is not live,
/// and it starts with the listener's own configuration merged with the
/// global one.
pub proof fn lemma_spawn_needs_valid_listener(s: ServerView, cfg: ListenerConfigView)
    ensures
        s.step(ServerEventView::Command(ListenerCmdView::Add(cfg))).1 is Spawn <==> !s.shutdown
            && !s.listeners.contains(cfg.id) && cfg.merged(s.global).validity() is Ok,
        s.step(ServerEventView::Command(ListenerCmdView::Add(cfg))).1 matches ServerActionView::Spawn(
            worker,
        ) ==> worker == ListenerView::fresh(cfg, s.global) && !worker.shutdown && worker.cfg
            == cfg.merged(s.global),
{
}

/// Once shutdown was asked for, the next step stops every live worker and
/// leaves none, whatever the event.
pub proof fn lemma_shutdown_stops_all(s: ServerView, event: ServerEventView)
    requires
        s.shutdown || event is Shutdown,
    ensures
        s.step(event).1 == ServerActionView::Halt(s.listeners),
        s.step(event).0.listeners == Set::<Seq<char>>::empty(),
        s.step(event).0.shutdown,
{
}

/// A command to remove a listener, served after the command that added it,
/// leaves no worker for its id.
pub proof fn lemma_add_then_remove(s: ServerView, cfg: ListenerConfigView)
    requires
        !s.shutdown,
    ensures
        ({
            let added = s.step(ServerEventView::Command(ListenerCmdView::Add(cfg))).0;
            let removed = added.step(ServerEventView::Command(ListenerCmdView::Remove(cfg.id))).0;
            &&& !removed.listeners.contains(cfg.id)
            &&& removed.listeners == s.listeners.remove(cfg.id)
        }),
{
    let added = s.step(ServerEventView::Command(ListenerCmdView::Add(cfg))).0;
    let removed = added.step(ServerEventView::Command(ListenerCmdView::Remove(cfg.id))).0;
    assert(removed.listeners =~= s.listeners.remove(cfg.id));
}

} // verus!
