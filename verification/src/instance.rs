//! One managed instance and its process supervisor.
//!
//! The instance owns the mutable runtime fields: lifecycle state, the
//! process and stdin flags, the ready marker, and the player roster. Every
//! change funnels through the operations here, each of which publishes the
//! matching events on the bus it is handed. The operations decide; the
//! actions they return (spawn, write to stdin, kill) are performed by the
//! runtime around the library, which reports back through
//! [`Instance::process_spawned`], [`Instance::handle_line`] and
//! [`Instance::handle_eof`]. The reader task's end-of-stream handling is
//! the single path that reconciles a process exit with the state machine.

use vstd::prelude::*;
use vstd::string::StrSliceExecFns;

use crate::classifier::{
    joined_spec, left_spec, parse_player_joined, parse_player_left, parse_server_started,
    parse_system_msg, server_started_spec, sys_msg_spec,
};
use crate::config::RestoreConfig;
use crate::errors::{Error, ErrorKind};
use crate::events::{
    is_output_event, is_player_change_event, is_system_message_event, is_transition_event,
    CausedBy, Event, EventBus, InstanceEventKind,
};
use crate::players::MinecraftJavaPlayer;
use crate::state::{conflict_detail, conflict_message, State, StateAction};

verus! {

/// Why a write to the child's standard input failed.
#[derive(Clone, Copy, Debug, PartialEq, Eq, Structural)]
pub enum StdinOperationError {
    NotOpen,
    FailedToWrite,
    FailedToAquireLock,
}

/// An action the runtime must perform on the supervisor's behalf.
#[derive(Clone, Debug)]
pub enum SupervisorAction {
    /// Spawn the server process with piped standard streams.
    SpawnProcess,
    /// Write this line, plus a newline, to the child's standard input.
    WriteStdin { line: String },
    /// Send the child the forceful termination signal.
    KillProcess,
}

/// The first roster entry with this name.
pub open spec fn find_player(ps: Seq<MinecraftJavaPlayer>, n: Seq<char>) -> Option<int>
    decreases ps.len(),
{
    if ps.len() == 0 {
        None
    } else if ps[0].name@ == n {
        Some(0)
    } else {
        match find_player(ps.drop_first(), n) {
            Some(i) => Some(i + 1),
            None => None,
        }
    }
}

/// Whether some roster entry carries this name.
pub open spec fn roster_has(ps: Seq<MinecraftJavaPlayer>, n: Seq<char>) -> bool {
    find_player(ps, n) is Some
}

/// One managed game-server process and its metadata. The registry owns
/// every instance; nothing else mutates these fields.
pub struct Instance {
    /// Stable identifier.
    pub uuid: String,
    /// The persisted configuration.
    pub config: RestoreConfig,
    /// When the instance was created.
    pub creation_time: i64,
    /// The port claimed in the allocator when the instance was created.
    pub reserved_port: u32,
    /// Current lifecycle state.
    pub state: State,
    /// Whether a child process is running.
    pub process_alive: bool,
    /// Whether the child's standard input is open for writes.
    pub stdin_open: bool,
    /// Whether the ready marker has been seen for the current process.
    pub did_start: bool,
    /// The players currently known to be on the server.
    pub players: Vec<MinecraftJavaPlayer>,
}

impl Instance {
    /// The runtime fields agree: standard input exists only while the
    /// process does, a stopped instance has no process, and the roster
    /// names are unique.
    pub open spec fn wf(&self) -> bool {
        &&& (self.stdin_open ==> self.process_alive)
        &&& (self.state == State::Stopped ==> !self.process_alive && !self.stdin_open)
        &&& (forall|i: int, j: int|
            #![trigger self.players@[i], self.players@[j]]
            0 <= i < j < self.players@.len() ==> self.players@[i].name@ != self.players@[j].name@)
    }

    /// Rebuild an instance from its persisted record: stopped, with no
    /// process, no open stdin and an empty roster.
    pub fn restore(config: RestoreConfig, uuid: String, creation_time: i64, reserved_port: u32) -> (r:
        Instance)
        ensures
            r.wf(),
            r.uuid == uuid,
            r.config == config,
            r.creation_time == creation_time,
            r.reserved_port == reserved_port,
            r.state == State::Stopped,
            !r.process_alive,
            !r.stdin_open,
            !r.did_start,
            r.players@ == Seq::<MinecraftJavaPlayer>::empty(),
    {
        Instance {
            uuid,
            config,
            creation_time,
            reserved_port,
            state: State::Stopped,
            process_alive: false,
            stdin_open: false,
            did_start: false,
            players: Vec::new(),
        }
    }

    /// Identity and configuration are untouched by a supervisor step.
    pub open spec fn same_identity(&self, other: &Instance) -> bool {
        &&& self.uuid == other.uuid
        &&& self.creation_time == other.creation_time
        &&& self.reserved_port == other.reserved_port
    }

    /// Publish a state-transition event for this instance.
    fn publish_transition(&self, bus: &mut EventBus, to: State, details: String, now: i64, caused_by: CausedBy)
        ensures
            final(bus).events().len() == old(bus).events().len() + 1,
            final(bus).events().subrange(0, old(bus).events().len() as int) == old(bus).events(),
            is_transition_event(final(bus).events().last(), self.uuid@, self.config.name@, to),
    {
        let e = Event::instance_event(
            &self.uuid,
            &self.config.name,
            InstanceEventKind::StateTransition { to },
            details,
            now,
            caused_by,
        );
        bus.publish(e);
    }

    /// Ask the instance to start. Allowed only at rest in `Stopped`: the
    /// state moves to `Starting`, the transition is announced, the ready
    /// marker is reset, and the runtime is told to spawn the process.
    /// Any other state is a conflict naming that state, changing nothing.
    pub fn start(&mut self, bus: &mut EventBus, caused_by: CausedBy, now: i64) -> (r: Result<
        SupervisorAction,
        Error,
    >)
        requires
            old(self).wf(),
        ensures
            final(self).wf(),
            final(self).same_identity(old(self)),
            final(self).config == old(self).config,
            match r {
                Ok(a) => {
                    &&& old(self).state == State::Stopped
                    &&& a matches SupervisorAction::SpawnProcess
                    &&& final(self).state == State::Starting
                    &&& !final(self).process_alive
                    &&& !final(self).stdin_open
                    &&& !final(self).did_start
                    &&& final(self).players == old(self).players
                    &&& final(bus).events().len() == old(bus).events().len() + 1
                    &&& final(bus).events().subrange(0, old(bus).events().len() as int) == old(
                        bus,
                    ).events()
                    &&& is_transition_event(
                        final(bus).events().last(),
                        old(self).uuid@,
                        old(self).config.name@,
                        State::Starting,
                    )
                },
                Err(e) => {
                    &&& old(self).state != State::Stopped
                    &&& e.kind == ErrorKind::Conflict
                    &&& e.detail@ == conflict_detail(old(self).state)
                    &&& *final(self) == *old(self)
                    &&& final(bus).events() == old(bus).events()
                },
            },
    {
        match self.state.try_transition(StateAction::UserStart) {
            Ok(next) => {
                self.state = next;
                self.did_start = false;
                self.publish_transition(bus, next, "Starting server".to_owned(), now, caused_by);
                Ok(SupervisorAction::SpawnProcess)
            },
            Err(_) => Err(Error::new(ErrorKind::Conflict, conflict_message(self.state))),
        }
    }

    /// The runtime reports how the spawn went. On success the process and
    /// its standard input are live and the instance is marked as having
    /// started once. On failure the instance settles back to `Stopped`
    /// and the transition is announced.
    pub fn process_spawned(&mut self, ok: bool, bus: &mut EventBus, caused_by: CausedBy, now: i64)
        requires
            old(self).wf(),
            old(self).state == State::Starting,
            !old(self).process_alive,
        ensures
            final(self).wf(),
            final(self).same_identity(old(self)),
            final(self).players == old(self).players,
            final(self).did_start == old(self).did_start,
            ok ==> {
                &&& final(self).state == State::Starting
                &&& final(self).process_alive
                &&& final(self).stdin_open
                &&& final(self).config == RestoreConfig { has_started: true, ..old(self).config }
                &&& final(bus).events() == old(bus).events()
            },
            !ok ==> {
                &&& final(self).state == State::Stopped
                &&& !final(self).process_alive
                &&& !final(self).stdin_open
                &&& final(self).config == old(self).config
                &&& final(bus).events().len() == old(bus).events().len() + 1
                &&& final(bus).events().subrange(0, old(bus).events().len() as int) == old(
                    bus,
                ).events()
                &&& is_transition_event(
                    final(bus).events().last(),
                    old(self).uuid@,
                    old(self).config.name@,
                    State::Stopped,
                )
            },
    {
        if ok {
            self.process_alive = true;
            self.stdin_open = true;
            self.config.has_started = true;
        } else {
            self.state = State::Stopped;
            self.publish_transition(
                bus,
                State::Stopped,
                "Failed to start server".to_owned(),
                now,
                caused_by,
            );
        }
    }

    /// A fresh copy of the roster.
    pub fn get_player_list(&self) -> (r: Vec<MinecraftJavaPlayer>)
        ensures
            r@ == self.players@,
    {
        let mut out: Vec<MinecraftJavaPlayer> = Vec::new();
        let mut k: usize = 0;
        while k < self.players.len()
            invariant
                k <= self.players@.len(),
                out@.len() == k,
                forall|i: int| 0 <= i < k ==> out@[i] == self.players@[i],
            decreases self.players@.len() - k,
        {
            let p = &self.players[k];
            let uuid = match &p.uuid {
                Some(x) => Some(x.clone()),
                None => None,
            };
            out.push(MinecraftJavaPlayer { name: p.name.clone(), uuid });
            k = k + 1;
        }
        proof {
            assert(out@ =~= self.players@);
        }
        out
    }

    /// How many players are on.
    pub fn get_player_count(&self) -> (r: usize)
        ensures
            r == self.players@.len(),
    {
        self.players.len()
    }
}

proof fn lemma_find_player_at(ps: Seq<MinecraftJavaPlayer>, n: Seq<char>, i: int)
    requires
        0 <= i < ps.len(),
        ps[i].name@ == n,
        forall|j: int| 0 <= j < i ==> ps[j].name@ != n,
    ensures
        find_player(ps, n) == Some(i),
    decreases i,
{
    if i > 0 {
        lemma_find_player_at(ps.drop_first(), n, i - 1);
    }
}

proof fn lemma_find_player_none(ps: Seq<MinecraftJavaPlayer>, n: Seq<char>)
    requires
        forall|j: int| 0 <= j < ps.len() ==> ps[j].name@ != n,
    ensures
        find_player(ps, n) is None,
    decreases ps.len(),
{
    if ps.len() > 0 {
        lemma_find_player_none(ps.drop_first(), n);
    }
}

impl Instance {
    /// Add a player to the roster when no entry carries the name yet.
    /// Returns whether the roster changed.
    fn add_player(&mut self, name: String, xuid: String) -> (r: bool)
        requires
            old(self).wf(),
        ensures
            final(self).wf(),
            final(self).same_identity(old(self)),
            final(self).config == old(self).config,
            final(self).state == old(self).state,
            final(self).process_alive == old(self).process_alive,
            final(self).stdin_open == old(self).stdin_open,
            final(self).did_start == old(self).did_start,
            r == !roster_has(old(self).players@, name@),
            !r ==> final(self).players == old(self).players,
            r ==> {
                &&& final(self).players@.len() == old(self).players@.len() + 1
                &&& final(self).players@.subrange(0, old(self).players@.len() as int) == old(
                    self,
                ).players@
                &&& final(self).players@.last().name@ == name@
                &&& final(self).players@.last().uuid matches Some(x) && x@ == xuid@
            },
    {
        let ghost pre = self.players@;
        let mut k: usize = 0;
        while k < self.players.len()
            invariant
                old(self).wf(),
                self.players@ == pre,
                *self == *old(self),
                k <= pre.len(),
                forall|j: int| 0 <= j < k ==> pre[j].name@ != name@,
            decreases pre.len() - k,
        {
            if crate::text::str_eq(self.players[k].name_str(), name.as_str()) {
                proof {
                    lemma_find_player_at(pre, name@, k as int);
                }
                return false;
            }
            k = k + 1;
        }
        proof {
            lemma_find_player_none(pre, name@);
        }
        self.players.push(MinecraftJavaPlayer { name, uuid: Some(xuid) });
        proof {
            let post = self.players@;
            assert(post.subrange(0, pre.len() as int) =~= pre);
            assert forall|i: int, j: int|
                #![trigger post[i], post[j]]
                0 <= i < j < post.len() implies post[i].name@ != post[j].name@ by {
                if j < pre.len() {
                    assert(pre[i].name@ != pre[j].name@);
                } else {
                    assert(post[i] == pre[i]);
                }
            }
        }
        true
    }

    /// Remove the roster entry with this name, if one exists. Returns
    /// whether the roster changed.
    fn remove_by_name(&mut self, name: &str) -> (r: bool)
        requires
            old(self).wf(),
        ensures
            final(self).wf(),
            final(self).same_identity(old(self)),
            final(self).config == old(self).config,
            final(self).state == old(self).state,
            final(self).process_alive == old(self).process_alive,
            final(self).stdin_open == old(self).stdin_open,
            final(self).did_start == old(self).did_start,
            r == roster_has(old(self).players@, name@),
            !r ==> final(self).players == old(self).players,
            r ==> final(self).players@ == old(self).players@.remove(
                find_player(old(self).players@, name@).unwrap(),
            ),
    {
        let ghost pre = self.players@;
        let mut k: usize = 0;
        while k < self.players.len()
            invariant
                old(self).wf(),
                self.players@ == pre,
                *self == *old(self),
                k <= pre.len(),
                forall|j: int| 0 <= j < k ==> pre[j].name@ != name@,
            decreases pre.len() - k,
        {
            if crate::text::str_eq(self.players[k].name_str(), name) {
                proof {
                    lemma_find_player_at(pre, name@, k as int);
                }
                self.players.remove(k);
                proof {
                    let post = self.players@;
                    pre.remove_ensures(k as int);
                    assert(post == pre.remove(k as int));
                    assert forall|i: int, j: int|
                        #![trigger post[i], post[j]]
                        0 <= i < j < post.len() implies post[i].name@ != post[j].name@ by {
                        let pi: int = if i < k { i } else { i + 1 };
                        let pj: int = if j < k { j } else { j + 1 };
                        assert(post[i] == pre[pi]);
                        assert(post[j] == pre[pj]);
                        assert(pre[pi].name@ != pre[pj].name@);
                    }
                }
                return true;
            }
            k = k + 1;
        }
        proof {
            lemma_find_player_none(pre, name@);
        }
        false
    }
}


impl Instance {
    /// One line of process output arrived. The raw line is published; a
    /// first ready marker promotes `Starting` to `Running` and announces
    /// it; a line with a bracketed prefix is republished as a system
    /// message, and a player arrival or departure read out of its text
    /// updates the roster and announces the change.
    pub fn handle_line(&mut self, line: &str, bus: &mut EventBus, caused_by: CausedBy, now: i64)
        requires
            old(self).wf(),
            old(self).process_alive,
        ensures
            final(self).wf(),
            final(self).same_identity(old(self)),
            final(self).config == old(self).config,
            final(self).process_alive == old(self).process_alive,
            final(self).stdin_open == old(self).stdin_open,
            final(self).did_start == (old(self).did_start || server_started_spec(line@)),
            final(self).state == (if server_started_spec(line@) && !old(self).did_start && old(
                self,
            ).state == State::Starting {
                State::Running
            } else {
                old(self).state
            }),
            ({
                let log0 = old(bus).events();
                let log1 = final(bus).events();
                let promoted = server_started_spec(line@) && !old(self).did_start && old(
                    self,
                ).state == State::Starting;
                let u = old(self).uuid@;
                let nm = old(self).config.name@;
                let base = log0.len() as int + 1 + (if promoted {
                    1int
                } else {
                    0int
                });
                &&& log1.len() >= log0.len() + 1
                &&& log1.subrange(0, log0.len() as int) == log0
                &&& is_output_event(log1[log0.len() as int], u, nm, line@)
                &&& (promoted ==> log1.len() >= log0.len() + 2 && is_transition_event(
                    log1[log0.len() as int + 1],
                    u,
                    nm,
                    State::Running,
                ))
                &&& match sys_msg_spec(line@) {
                    None => {
                        &&& log1.len() == base
                        &&& final(self).players == old(self).players
                    },
                    Some(t) => {
                        &&& log1.len() >= base + 1
                        &&& is_system_message_event(log1[base], u, nm, line@)
                        &&& match joined_spec(t) {
                            Some(nx) => {
                                if roster_has(old(self).players@, nx.0) {
                                    &&& final(self).players == old(self).players
                                    &&& log1.len() == base + 1
                                } else {
                                    &&& final(self).players@.len() == old(self).players@.len() + 1
                                    &&& final(self).players@.subrange(
                                        0,
                                        old(self).players@.len() as int,
                                    ) == old(self).players@
                                    &&& final(self).players@.last().name@ == nx.0
                                    &&& final(self).players@.last().uuid matches Some(x) && x@
                                        == nx.1
                                    &&& log1.len() == base + 2
                                    &&& is_player_change_event(
                                        log1[base + 1],
                                        u,
                                        nm,
                                        final(self).players@,
                                        Some(nx.0),
                                        None::<Seq<char>>,
                                    )
                                }
                            },
                            None => match left_spec(t) {
                                Some(n) => match find_player(old(self).players@, n) {
                                    Some(pi) => {
                                        &&& final(self).players@ == old(self).players@.remove(pi)
                                        &&& log1.len() == base + 2
                                        &&& is_player_change_event(
                                            log1[base + 1],
                                            u,
                                            nm,
                                            final(self).players@,
                                            None::<Seq<char>>,
                                            Some(n),
                                        )
                                    },
                                    None => {
                                        &&& final(self).players == old(self).players
                                        &&& log1.len() == base + 1
                                    },
                                },
                                None => {
                                    &&& final(self).players == old(self).players
                                    &&& log1.len() == base + 1
                                },
                            },
                        }
                    },
                }
            }),
    {
        let ghost u = self.uuid@;
        let ghost nm = self.config.name@;
        let ghost log0 = bus.events();
        let out_ev = Event::instance_event(
            &self.uuid,
            &self.config.name,
            InstanceEventKind::InstanceOutput { message: line.to_owned() },
            String::new(),
            now,
            CausedBy::System,
        );
        bus.publish(out_ev);
        proof {
            assert(bus.events().subrange(0, log0.len() as int) =~= log0);
            assert(is_output_event(bus.events()[log0.len() as int], u, nm, line@));
        }
        if parse_server_started(line) && !self.did_start {
            self.did_start = true;
            if matches!(self.state, State::Starting) {
                self.state = State::Running;
                let ghost log_out = bus.events();
                self.publish_transition(
                    bus,
                    State::Running,
                    "Server started".to_owned(),
                    now,
                    caused_by,
                );
                proof {
                    let cur = bus.events();
                    assert forall|i: int| 0 <= i < log_out.len() implies cur[i] == log_out[i] by {
                        assert(cur.subrange(0, log_out.len() as int)[i] == cur[i]);
                    }
                    assert(cur.subrange(0, log0.len() as int) =~= log0);
                    assert(is_output_event(cur[log0.len() as int], u, nm, line@));
                    assert(is_transition_event(cur[log0.len() as int + 1], u, nm, State::Running));
                }
            }
        }
        proof {
            assert(bus.events().subrange(0, log0.len() as int) =~= log0);
            assert(is_output_event(bus.events()[log0.len() as int], u, nm, line@));
        }
        match parse_system_msg(line) {
            None => {},
            Some(m) => {
                let ghost log_pre_sys = bus.events();
                let sys_ev = Event::instance_event(
                    &self.uuid,
                    &self.config.name,
                    InstanceEventKind::SystemMessage { message: line.to_owned() },
                    String::new(),
                    now,
                    CausedBy::System,
                );
                bus.publish(sys_ev);
                proof {
                    let cur = bus.events();
                    assert forall|i: int|
                        0 <= i < log_pre_sys.len() implies cur[i] == log_pre_sys[i] by {
                        assert(cur.subrange(0, log_pre_sys.len() as int) =~= log_pre_sys);
                    }
                    assert(cur.subrange(0, log0.len() as int) =~= log0);
                    assert(is_output_event(cur[log0.len() as int], u, nm, line@));
                    assert(is_system_message_event(cur[log_pre_sys.len() as int], u, nm, line@));
                }
                match parse_player_joined(m.as_str()) {
                    Some(p) => {
                        let joined_name = p.0.clone();
                        if self.add_player(p.0, p.1) {
                            let ghost log_pre_pc = bus.events();
                            let list = self.get_player_list();
                            let mut joined: Vec<String> = Vec::new();
                            joined.push(joined_name);
                            let ev = Event::instance_event(
                                &self.uuid,
                                &self.config.name,
                                InstanceEventKind::PlayerChange {
                                    player_list: list,
                                    players_joined: joined,
                                    players_left: Vec::new(),
                                },
                                String::new(),
                                now,
                                CausedBy::System,
                            );
                            bus.publish(ev);
                            proof {
                                let cur = bus.events();
                                assert forall|i: int|
                                    0 <= i < log_pre_pc.len() implies cur[i] == log_pre_pc[i] by {
                                    assert(cur.subrange(0, log_pre_pc.len() as int)
                                        =~= log_pre_pc);
                                }
                                assert(cur.subrange(0, log0.len() as int) =~= log0);
                                assert(is_output_event(cur[log0.len() as int], u, nm, line@));
                            }
                        }
                    },
                    None => {
                        match parse_player_left(m.as_str()) {
                            Some(n) => {
                                if self.remove_by_name(n.as_str()) {
                                    let ghost log_pre_pc = bus.events();
                                    let list = self.get_player_list();
                                    let mut left: Vec<String> = Vec::new();
                                    left.push(n);
                                    let ev = Event::instance_event(
                                        &self.uuid,
                                        &self.config.name,
                                        InstanceEventKind::PlayerChange {
                                            player_list: list,
                                            players_joined: Vec::new(),
                                            players_left: left,
                                        },
                                        String::new(),
                                        now,
                                        CausedBy::System,
                                    );
                                    bus.publish(ev);
                                    proof {
                                        let cur = bus.events();
                                        assert forall|i: int|
                                            0 <= i < log_pre_pc.len() implies cur[i]
                                            == log_pre_pc[i] by {
                                            assert(cur.subrange(0, log_pre_pc.len() as int)
                                                =~= log_pre_pc);
                                        }
                                        assert(cur.subrange(0, log0.len() as int) =~= log0);
                                        assert(is_output_event(
                                            cur[log0.len() as int],
                                            u,
                                            nm,
                                            line@,
                                        ));
                                    }
                                }
                            },
                            None => {},
                        }
                    },
                }
            },
        }
    }

    /// The process's streams closed. The roster is cleared and the
    /// instance settles to `Stopped` — whatever the prior state — with the
    /// transition announced; this is the single path that reconciles a
    /// process exit (clean or crash) with the state machine.
    pub fn handle_eof(&mut self, bus: &mut EventBus, caused_by: CausedBy, now: i64)
        requires
            old(self).wf(),
            old(self).process_alive,
        ensures
            final(self).wf(),
            final(self).same_identity(old(self)),
            final(self).config == old(self).config,
            final(self).state == State::Stopped,
            !final(self).process_alive,
            !final(self).stdin_open,
            final(self).players@.len() == 0,
            final(bus).events().len() == old(bus).events().len() + 1,
            final(bus).events().subrange(0, old(bus).events().len() as int) == old(bus).events(),
            is_transition_event(
                final(bus).events().last(),
                old(self).uuid@,
                old(self).config.name@,
                State::Stopped,
            ),
    {
        self.players = Vec::new();
        self.process_alive = false;
        self.stdin_open = false;
        self.state = State::Stopped;
        self.publish_transition(
            bus,
            State::Stopped,
            "Instance stopping as server process exited".to_owned(),
            now,
            caused_by,
        );
    }

    /// Ask the instance to stop. Allowed only while `Running` with the
    /// child's standard input open: the state moves to `Stopping`, the
    /// transition is announced, and the runtime is told to write the
    /// shutdown command. Otherwise nothing changes: a conflict when not
    /// running, a process-communication failure when stdin is gone.
    pub fn stop(&mut self, bus: &mut EventBus, caused_by: CausedBy, now: i64) -> (r: Result<
        SupervisorAction,
        Error,
    >)
        requires
            old(self).wf(),
        ensures
            final(self).wf(),
            final(self).same_identity(old(self)),
            final(self).config == old(self).config,
            match r {
                Ok(a) => {
                    &&& old(self).state == State::Running
                    &&& old(self).stdin_open
                    &&& a matches SupervisorAction::WriteStdin { line } && line@ == "stop"@
                    &&& final(self).state == State::Stopping
                    &&& final(self).process_alive == old(self).process_alive
                    &&& final(self).stdin_open == old(self).stdin_open
                    &&& final(self).did_start == old(self).did_start
                    &&& final(self).players == old(self).players
                    &&& final(bus).events().len() == old(bus).events().len() + 1
                    &&& final(bus).events().subrange(0, old(bus).events().len() as int) == old(
                        bus,
                    ).events()
                    &&& is_transition_event(
                        final(bus).events().last(),
                        old(self).uuid@,
                        old(self).config.name@,
                        State::Stopping,
                    )
                },
                Err(e) => {
                    &&& *final(self) == *old(self)
                    &&& final(bus).events() == old(bus).events()
                    &&& (old(self).state != State::Running ==> e.kind == ErrorKind::Conflict
                        && e.detail@ == conflict_detail(old(self).state))
                    &&& (old(self).state == State::Running ==> !old(self).stdin_open && e.kind
                        == ErrorKind::ProcessCommunication)
                },
            },
    {
        if !matches!(self.state, State::Running) {
            return Err(Error::new(ErrorKind::Conflict, conflict_message(self.state)));
        }
        if !self.stdin_open {
            return Err(
                Error::new(
                    ErrorKind::ProcessCommunication,
                    "Failed to stop instance: stdin not available".to_owned(),
                ),
            );
        }
        self.state = State::Stopping;
        self.publish_transition(bus, State::Stopping, "Stopping server".to_owned(), now, caused_by);
        Ok(SupervisorAction::WriteStdin { line: "stop".to_owned() })
    }

    /// Ask for forceful termination. Refused while `Stopped`; a no-op when
    /// the process already exited on its own (the reader's end-of-stream
    /// handling settles the state); otherwise the runtime is told to kill
    /// the process. The state itself never changes here.
    pub fn kill(&self) -> (r: Result<Option<SupervisorAction>, Error>)
        ensures
            match r {
                Ok(a) => {
                    &&& self.state != State::Stopped
                    &&& (self.process_alive ==> (a matches Some(k) && k is KillProcess))
                    &&& (!self.process_alive ==> a is None)
                },
                Err(e) => self.state == State::Stopped && e.kind == ErrorKind::Conflict,
            },
    {
        if matches!(self.state, State::Stopped) {
            return Err(
                Error::new(ErrorKind::Conflict, "Instance is already stopped".to_owned()),
            );
        }
        if self.process_alive {
            Ok(Some(SupervisorAction::KillProcess))
        } else {
            Ok(None)
        }
    }

    /// Send a console command: the runtime is told to write the line to
    /// the child's standard input, unchanged. Refused while `Stopped`
    /// (a conflict naming the state) or with stdin gone (process
    /// communication). Nothing else happens here: no state moves and no
    /// event is published — a graceful shutdown is `stop`'s business, and
    /// a shutdown command written through here reaches the state machine
    /// only through the reader task's exit handling.
    pub fn send_command(&self, command: &str) -> (r: Result<SupervisorAction, Error>)
        ensures
            match r {
                Ok(a) => {
                    &&& self.state != State::Stopped
                    &&& self.stdin_open
                    &&& a matches SupervisorAction::WriteStdin { line } && line@ == command@
                },
                Err(e) => {
                    &&& (self.state == State::Stopped ==> e.kind == ErrorKind::Conflict
                        && e.detail@ == conflict_detail(State::Stopped))
                    &&& (self.state != State::Stopped ==> !self.stdin_open && e.kind
                        == ErrorKind::ProcessCommunication)
                },
            },
    {
        if matches!(self.state, State::Stopped) {
            return Err(Error::new(ErrorKind::Conflict, conflict_message(State::Stopped)));
        }
        if !self.stdin_open {
            return Err(
                Error::new(
                    ErrorKind::ProcessCommunication,
                    "Failed to write to stdin because stdin is None".to_owned(),
                ),
            );
        }
        Ok(SupervisorAction::WriteStdin { line: command.to_owned() })
    }

    /// Current lifecycle state.
    pub fn state(&self) -> (r: State)
        ensures
            r == self.state,
    {
        self.state
    }

    /// The stable identifier.
    pub fn uuid(&self) -> (r: &String)
        ensures
            r == &self.uuid,
    {
        &self.uuid
    }

    /// The human name.
    pub fn name(&self) -> (r: &String)
        ensures
            r == &self.config.name,
    {
        &self.config.name
    }

    /// The mutable description.
    pub fn description(&self) -> (r: &String)
        ensures
            r == &self.config.description,
    {
        &self.config.description
    }

    /// The configured network port.
    pub fn port(&self) -> (r: u32)
        ensures
            r == self.config.port,
    {
        self.config.port
    }

    /// When the instance was created.
    pub fn creation_time(&self) -> (r: i64)
        ensures
            r == self.creation_time,
    {
        self.creation_time
    }

    /// Whether the instance starts when the host starts.
    pub fn auto_start(&self) -> (r: bool)
        ensures
            r == self.config.auto_start,
    {
        self.config.auto_start
    }

    /// Whether the instance restarts after a crash.
    pub fn restart_on_crash(&self) -> (r: bool)
        ensures
            r == self.config.restart_on_crash,
    {
        self.config.restart_on_crash
    }

    /// Rename the instance. The name must be non-empty and at most 100
    /// characters; a bad name is refused and nothing changes. Uniqueness
    /// among instances is the registry's check.
    pub fn set_name(&mut self, name: String) -> (r: Result<(), Error>)
        requires
            old(self).wf(),
        ensures
            final(self).wf(),
            final(self).same_identity(old(self)),
            match r {
                Ok(_) => {
                    &&& 0 < name@.len() <= 100
                    &&& *final(self) == (Instance {
                        config: RestoreConfig { name: name, ..old(self).config },
                        ..*old(self)
                    })
                },
                Err(e) => {
                    &&& !(0 < name@.len() <= 100)
                    &&& e.kind == ErrorKind::Conflict
                    &&& *final(self) == *old(self)
                },
            },
    {
        let len = name.as_str().unicode_len();
        if len == 0 {
            return Err(Error::new(ErrorKind::Conflict, "Name cannot be empty".to_owned()));
        }
        if len > 100 {
            return Err(
                Error::new(
                    ErrorKind::Conflict,
                    "Name cannot be longer than 100 characters".to_owned(),
                ),
            );
        }
        self.config.name = name;
        Ok(())
    }

    /// Replace the description.
    pub fn set_description(&mut self, description: String)
        requires
            old(self).wf(),
        ensures
            final(self).wf(),
            final(self).same_identity(old(self)),
            *final(self) == (Instance {
                config: RestoreConfig { description: description, ..old(self).config },
                ..*old(self)
            }),
    {
        self.config.description = description;
    }
}

} // verus!
