//! The state of the dashboard, and what each event does to it.

use vstd::prelude::*;
use crate::cadence::{asked, due, Scheduler};
use crate::cpu::CPUData;
use crate::frame::{compose, frame_of, Frame, FrameView};
use crate::registry::{fresh_entries, updated, Registry, RegistryError};
use crate::selection::{next_of, previous_of, valid, Selection, SelectionState};
use crate::server::{
    fetched_outcome, fresh_entry, read_fetched, FetchError, ServerStateView, StatusView,
};
use crate::stats::SystemStats;
use crate::sweep::{accepted, accepts, begun, SweepLog, SweepView};
use crate::usage::Usage;

verus! {

/// A key of the keyboard, as far as the dashboard tells keys apart.
#[derive(Clone, Copy, Debug, PartialEq, Eq, Structural)]
pub enum KeyCode {
    Char(char),
    Up,
    Down,
    Other,
}

/// What happened to a key.
#[derive(Clone, Copy, Debug, PartialEq, Eq, Structural)]
pub enum KeyEventKind {
    Press,
    Repeat,
    Release,
}

/// An event of the keyboard.
#[derive(Clone, Copy, Debug, PartialEq, Eq, Structural)]
pub struct KeyEvent {
    pub code: KeyCode,
    pub kind: KeyEventKind,
}

/// What the caller is to start on one pass of the control loop.
#[derive(Clone, Copy, Debug, PartialEq, Eq, Structural)]
pub struct Refresh {
    /// Whether to take a reading of the machine's load.
    pub system: bool,
    /// Whether to fetch the status of every server, and if so the number
    /// of the sweep, which comes back with each answer.
    pub servers: Option<u64>,
}

/// The dashboard: the monitored servers, the selected one, the load of the
/// machine, the cadences of the refreshes, the sweeps, and whether to
/// leave. A dashboard is made `consistent`, and nothing that is done to it
/// changes that.
#[derive(Debug)]
pub struct App {
    should_exit: bool,
    server_states: Registry,
    list_state: SelectionState,
    system_stats: SystemStats,
    scheduler: Scheduler,
    sweeps: SweepLog,
}

/// An `App` as plain values.
pub ghost struct AppView {
    pub should_exit: bool,
    pub servers: Seq<ServerStateView>,
    pub selection: Selection,
    pub stats: SystemStats,
    pub scheduler: Scheduler,
    pub sweeps: SweepView,
}

/// The addresses that are monitored unless others are given.
pub open spec fn default_addresses() -> Seq<Seq<char>> {
    seq!["129.80.58.106:8080"@, "129.80.58.106:8081"@, "129.80.58.106:8082"@]
}

/// The selection has as many rows as there are servers and is on one of
/// them, and the log of the sweeps is kept for as many servers.
pub open spec fn consistent(app: AppView) -> bool {
    &&& app.selection.count == app.servers.len()
    &&& valid(app.selection)
    &&& app.sweeps.applied.len() == app.servers.len()
}

/// The dashboard after an event of the keyboard. Only the press of a key
/// counts: `q` asks to leave, the arrows step up and down the list of
/// servers, any other key does nothing.
pub open spec fn after_key(app: AppView, key: KeyEvent) -> AppView {
    if key.kind == KeyEventKind::Press {
        match key.code {
            KeyCode::Char(c) => if c == 'q' {
                AppView { should_exit: true, ..app }
            } else {
                app
            },
            KeyCode::Up => AppView { selection: previous_of(app.selection), ..app },
            KeyCode::Down => AppView { selection: next_of(app.selection), ..app },
            KeyCode::Other => app,
        }
    } else {
        app
    }
}

/// The dashboard after the control loop asked at `now` what to refresh:
/// each cadence that was due has fired at `now`, and where the sweep over
/// the servers fired, a new sweep has begun.
pub open spec fn after_tick(app: AppView, now: u64) -> AppView {
    AppView {
        scheduler: Scheduler {
            system: asked(app.scheduler.system, now),
            servers: asked(app.scheduler.servers, now),
        },
        sweeps: if due(app.scheduler.servers, now) {
            begun(app.sweeps)
        } else {
            app.sweeps
        },
        ..app
    }
}

/// Whether the answer of the sweep `ticket` for the server at `index` is
/// taken in: there is such a server, and no answer of a later sweep was
/// taken in for it.
pub open spec fn takes_in(app: AppView, index: int, ticket: u64) -> bool {
    0 <= index < app.servers.len() && accepts(app.sweeps, index, ticket)
}

/// The dashboard after the answer of the sweep `ticket` for the server at
/// `index` came in. Where it is taken in, that server's entry takes the
/// outcome in; else nothing changes.
pub open spec fn after_answer(
    app: AppView,
    index: int,
    ticket: u64,
    outcome: Result<StatusView, FetchError>,
) -> AppView {
    if takes_in(app, index, ticket) {
        AppView {
            servers: updated(app.servers, index, outcome),
            sweeps: accepted(app.sweeps, index, ticket),
            ..app
        }
    } else {
        app
    }
}

/// What a draw shows of the dashboard.
pub open spec fn frame_of_app(app: AppView) -> FrameView {
    frame_of(
        app.stats.cpu_usages@,
        app.stats.mem_usage,
        app.stats.max_mem,
        app.servers,
        app.selection,
    )
}

/// The press of `q` asks to leave whatever else is going on: it waits for
/// no server and no reading, and changes nothing else.
pub proof fn lemma_quit_waits_for_nothing(app: AppView)
    ensures
        after_key(app, KeyEvent { code: KeyCode::Char('q'), kind: KeyEventKind::Press })
            == (AppView { should_exit: true, ..app }),
{
}

/// No key changes what is known of the servers or of the machine's load,
/// nor the cadences or the sweeps; and no key takes the selection off the
/// list.
pub proof fn lemma_keys_touch_only_selection_and_exit(app: AppView, key: KeyEvent)
    ensures
        after_key(app, key).servers == app.servers,
        after_key(app, key).stats == app.stats,
        after_key(app, key).scheduler == app.scheduler,
        after_key(app, key).sweeps == app.sweeps,
        consistent(app) ==> consistent(after_key(app, key)),
{
}

/// The answers for two different servers can come in either order, whatever
/// their sweeps: neither waits for the other, and what is known in the end
/// is the same.
pub proof fn lemma_answers_do_not_wait(
    app: AppView,
    i: int,
    first_ticket: u64,
    first: Result<StatusView, FetchError>,
    j: int,
    second_ticket: u64,
    second: Result<StatusView, FetchError>,
)
    requires
        i != j,
    ensures
        takes_in(after_answer(app, i, first_ticket, first), j, second_ticket) == takes_in(
            app,
            j,
            second_ticket,
        ),
        after_answer(after_answer(app, i, first_ticket, first), j, second_ticket, second)
            == after_answer(after_answer(app, j, second_ticket, second), i, first_ticket, first),
{
    let a = after_answer(after_answer(app, i, first_ticket, first), j, second_ticket, second);
    let b = after_answer(after_answer(app, j, second_ticket, second), i, first_ticket, first);
    assert(a.servers =~= b.servers);
    assert(a.sweeps.applied =~= b.sweeps.applied);
}

/// An answer that was overtaken by one of a newer sweep for the same server
/// is not taken in: it changes nothing, not even the noted error.
pub proof fn lemma_overtaken_answer_changes_nothing(
    app: AppView,
    index: int,
    newer: u64,
    newer_outcome: Result<StatusView, FetchError>,
    older: u64,
    older_outcome: Result<StatusView, FetchError>,
)
    requires
        older < newer,
        takes_in(app, index, newer),
    ensures
        after_answer(after_answer(app, index, newer, newer_outcome), index, older, older_outcome)
            == after_answer(app, index, newer, newer_outcome),
{
}

/// An answer changes neither the selection nor the wish to leave, nor the
/// load that is shown or the cadences, and keeps the dashboard consistent.
pub proof fn lemma_answers_touch_only_servers(
    app: AppView,
    index: int,
    ticket: u64,
    outcome: Result<StatusView, FetchError>,
)
    ensures
        after_answer(app, index, ticket, outcome).should_exit == app.should_exit,
        after_answer(app, index, ticket, outcome).selection == app.selection,
        after_answer(app, index, ticket, outcome).stats == app.stats,
        after_answer(app, index, ticket, outcome).scheduler == app.scheduler,
        after_answer(app, index, ticket, outcome).servers.len() == app.servers.len(),
        consistent(app) ==> consistent(after_answer(app, index, ticket, outcome)),
{
}

impl View for App {
    type V = AppView;

    closed spec fn view(&self) -> AppView {
        AppView {
            should_exit: self.should_exit,
            servers: self.server_states@,
            selection: self.list_state@,
            stats: self.system_stats,
            scheduler: self.scheduler,
            sweeps: self.sweeps@,
        }
    }
}

impl App {
    /// A dashboard for the usual three servers, on the machine whose
    /// processors `cpu_data` describes, started at `now`.
    pub fn new(cpu_data: CPUData, now: u64) -> (app: Self)
        ensures
            !app@.should_exit,
            app@.servers.len() == 3,
            forall|k: int|
                0 <= k < 3 ==> (#[trigger] app@.servers[k]) == fresh_entry(default_addresses()[k]),
            app@.selection == (Selection { selected_index: 0, count: 3 }),
            app@.stats.cpu_usages@ == Seq::<Usage>::empty(),
            app@.stats.mem_usage == 0,
            app@.stats.max_mem == 0,
            app@.stats.cpu_data == cpu_data,
            app@.scheduler == Scheduler::spec_new(now),
            app@.sweeps.started == 0,
            app@.sweeps.applied == Seq::new(3, |i: int| 0u64),
            consistent(app@),
    {
        let mut ips: Vec<String> = Vec::new();
        ips.push(String::from_str("129.80.58.106:8080"));
        ips.push(String::from_str("129.80.58.106:8081"));
        ips.push(String::from_str("129.80.58.106:8082"));
        App::with_addresses(&ips, cpu_data, now)
    }

    /// A dashboard for the servers at the given addresses, in their order.
    pub fn with_addresses(addresses: &Vec<String>, cpu_data: CPUData, now: u64) -> (app: Self)
        ensures
            !app@.should_exit,
            app@.servers == fresh_entries(addresses@),
            app@.selection == (Selection { selected_index: 0, count: addresses@.len() as int }),
            app@.stats.cpu_usages@ == Seq::<Usage>::empty(),
            app@.stats.mem_usage == 0,
            app@.stats.max_mem == 0,
            app@.stats.cpu_data == cpu_data,
            app@.scheduler == Scheduler::spec_new(now),
            app@.sweeps.started == 0,
            app@.sweeps.applied == Seq::new(addresses@.len(), |i: int| 0u64),
            consistent(app@),
    {
        let server_states = Registry::new(addresses);
        let list_state = SelectionState::new(server_states.len());
        let sweeps = SweepLog::new(server_states.len());
        App {
            should_exit: false,
            server_states,
            list_state,
            system_stats: SystemStats::new(cpu_data),
            scheduler: Scheduler::new(now),
            sweeps,
        }
    }

    /// Whether the user has asked to leave.
    pub fn should_exit(&self) -> (exit: bool)
        ensures
            exit == self@.should_exit,
    {
        self.should_exit
    }

    /// The monitored servers.
    pub fn server_states(&self) -> (servers: &Registry)
        ensures
            servers@ == self@.servers,
    {
        &self.server_states
    }

    /// The selection in the list of servers.
    pub fn list_state(&self) -> (selection: SelectionState)
        ensures
            selection@ == self@.selection,
    {
        self.list_state
    }

    /// The load of the machine as it is shown.
    pub fn system_stats(&self) -> (stats: &SystemStats)
        ensures
            *stats == self@.stats,
    {
        &self.system_stats
    }

    /// The number of the sweep over the servers that was started last. The
    /// first sweep, which the caller starts with the dashboard, has the
    /// number 0.
    pub fn current_sweep(&self) -> (ticket: u64)
        ensures
            ticket == self@.sweeps.started,
    {
        self.sweeps.current()
    }

    /// Takes in an event of the keyboard.
    pub fn handle_events(&mut self, key: KeyEvent)
        ensures
            final(self)@ == after_key(old(self)@, key),
            consistent(old(self)@) ==> consistent(final(self)@),
    {
        match key.kind {
            KeyEventKind::Press => match key.code {
                KeyCode::Char(c) => {
                    if c == 'q' {
                        self.should_exit = true;
                    }
                },
                KeyCode::Up => self.list_state_previous(),
                KeyCode::Down => self.list_state_next(),
                KeyCode::Other => {},
            },
            _ => {},
        }
    }

    /// Moves the selection one server down, from the last to the first.
    pub fn list_state_next(&mut self)
        ensures
            final(self)@ == (AppView { selection: next_of(old(self)@.selection), ..old(self)@ }),
            consistent(old(self)@) ==> consistent(final(self)@),
    {
        self.list_state.next();
    }

    /// Moves the selection one server up, from the first to the last.
    pub fn list_state_previous(&mut self)
        ensures
            final(self)@ == (AppView {
                selection: previous_of(old(self)@.selection),
                ..old(self)@
            }),
            consistent(old(self)@) ==> consistent(final(self)@),
    {
        self.list_state.previous();
    }

    /// Says what to refresh at `now`, and notes `now` as the time of firing
    /// for each refresh that is due. Nothing that is shown changes: the
    /// caller starts the refreshes without waiting for them, and hands in
    /// what they bring when it has arrived.
    pub fn tick(&mut self, now: u64) -> (r: Refresh)
        ensures
            final(self)@ == after_tick(old(self)@, now),
            r.system == due(old(self)@.scheduler.system, now),
            r.servers == (if due(old(self)@.scheduler.servers, now) {
                Some(final(self)@.sweeps.started)
            } else {
                None::<u64>
            }),
            consistent(old(self)@) ==> consistent(final(self)@),
    {
        let d = self.scheduler.tick(now);
        let servers: Option<u64> = if d.servers {
            Some(self.sweeps.begin())
        } else {
            None
        };
        Refresh { system: d.system, servers }
    }

    /// Takes in a reading of the machine's load and shows it from now on,
    /// in the place of the one before.
    pub fn record_system(&mut self, cpu_usages: Vec<Usage>, mem_used: u64, mem_total: u64)
        ensures
            final(self)@.stats.cpu_usages@ == cpu_usages@,
            final(self)@.stats.mem_usage == mem_used,
            final(self)@.stats.max_mem == mem_total,
            final(self)@.stats.cpu_data.usage == cpu_usages,
            final(self)@.stats.cpu_data.cpu_count == old(self)@.stats.cpu_data.cpu_count,
            final(self)@.stats.cpu_data.cpu_cores == old(self)@.stats.cpu_data.cpu_cores,
            final(self)@.stats.mem_data.used == mem_used,
            final(self)@.stats.mem_data.total == mem_total,
            final(self)@.should_exit == old(self)@.should_exit,
            final(self)@.servers == old(self)@.servers,
            final(self)@.selection == old(self)@.selection,
            final(self)@.scheduler == old(self)@.scheduler,
            final(self)@.sweeps == old(self)@.sweeps,
    {
        self.system_stats.cpu_data.record(cpu_usages);
        self.system_stats.mem_data.record(mem_used, mem_total);
        self.system_stats.update();
    }

    /// Takes in what the fetch of the sweep `ticket` for the server at
    /// `index` brought: the text of the answer, or the reason why there is
    /// none. The result says whether it was taken in: an answer that was
    /// overtaken by one of a later sweep is dropped. One that is taken in
    /// is read as `ServerState::update` reads it. No other server is
    /// touched, nor anything else of the dashboard.
    pub fn update_server(
        &mut self,
        index: usize,
        ticket: u64,
        fetched: Result<&str, FetchError>,
    ) -> (r: Result<bool, RegistryError>)
        ensures
            final(self)@ == after_answer(old(self)@, index as int, ticket, fetched_outcome(fetched)),
            r == (if index < old(self)@.servers.len() {
                Ok::<bool, RegistryError>(takes_in(old(self)@, index as int, ticket))
            } else {
                Err::<bool, RegistryError>(RegistryError::IndexOutOfRange)
            }),
            consistent(old(self)@) ==> consistent(final(self)@),
    {
        if index >= self.server_states.len() {
            return Err(RegistryError::IndexOutOfRange);
        }
        if !self.sweeps.accept(index, ticket) {
            return Ok(false);
        }
        let outcome = read_fetched(fetched);
        let _ = self.server_states.update(index, outcome);
        Ok(true)
    }

    /// What a draw of the screen shows now. Where there is a server, one
    /// row of the list is highlighted.
    pub fn render(&self) -> (frame: Frame)
        ensures
            frame@ == frame_of_app(self@),
            consistent(self@) && self@.servers.len() > 0 ==> frame@.highlighted == Some(
                self@.selection.selected_index as usize,
            ),
    {
        compose(&self.system_stats, &self.server_states, &self.list_state)
    }
}

} // verus!
