//! The instance registry: the orchestration facade that owns every
//! instance, the port allocator and the event bus.
//!
//! Creation is two-phase, mirroring the external installer: a creation
//! request validates the name, claims the port and records a pending
//! entry; the runtime provisions the on-disk material and reports back
//! through [`Registry::complete_create`], which either registers the
//! instance or rolls the reservation back — no partially-created instance
//! is ever visible in the instance list. Removal requires a stopped
//! instance and releases its port. Start, stop, kill, command sending and
//! the reader-task callbacks all funnel through here to the one owned
//! instance, so concurrent requests on the same instance serialize on the
//! registry and its per-instance operations.

use vstd::prelude::*;
use vstd::string::StrSliceExecFns;

use crate::config::{MinecraftSetupConfigPrimitive, RestoreConfig, SetupConfig};
use crate::errors::{Error, ErrorKind};
use crate::events::{CausedBy, Event, EventBus, Subscriber};
use crate::instance::{Instance, SupervisorAction};
use crate::players::MinecraftJavaPlayer;
use crate::ports::PortAllocator;
use crate::state::State;
use crate::text::str_eq;
use crate::trusted::{new_uuid_string, sanitize_name};

verus! {

/// A valid instance name: non-empty and at most 100 characters.
pub open spec fn valid_name(n: Seq<char>) -> bool {
    0 < n.len() <= 100
}

/// A creation that was admitted but whose on-disk provisioning is still
/// running: its port is already claimed, its name already taken.
pub struct PendingInstance {
    pub uuid: String,
    pub config: RestoreConfig,
    pub creation_time: i64,
    pub reserved_port: u32,
}

/// The snapshot row `list_instance` returns.
#[derive(Clone, Debug)]
pub struct InstanceInfo {
    pub uuid: String,
    pub name: String,
    pub description: String,
    pub port: u32,
    pub creation_time: i64,
    pub state: State,
    pub player_count: usize,
}

/// The first instance with this identifier.
pub open spec fn find_inst(s: Seq<Instance>, u: Seq<char>) -> Option<int>
    decreases s.len(),
{
    if s.len() == 0 {
        None
    } else if s[0].uuid@ == u {
        Some(0)
    } else {
        match find_inst(s.drop_first(), u) {
            Some(i) => Some(i + 1),
            None => None,
        }
    }
}

/// The first pending creation with this identifier.
pub open spec fn find_pend(s: Seq<PendingInstance>, u: Seq<char>) -> Option<int>
    decreases s.len(),
{
    if s.len() == 0 {
        None
    } else if s[0].uuid@ == u {
        Some(0)
    } else {
        match find_pend(s.drop_first(), u) {
            Some(i) => Some(i + 1),
            None => None,
        }
    }
}

/// Some instance reserved this port.
pub open spec fn inst_port_present(s: Seq<Instance>, p: u32) -> bool {
    exists|k: int| 0 <= k < s.len() && s[k].reserved_port == p
}

/// Some pending creation reserved this port.
pub open spec fn pend_port_present(s: Seq<PendingInstance>, p: u32) -> bool {
    exists|k: int| 0 <= k < s.len() && s[k].reserved_port == p
}

/// Some instance carries this name.
pub open spec fn inst_name_present(s: Seq<Instance>, n: Seq<char>) -> bool {
    exists|k: int| 0 <= k < s.len() && s[k].config.name@ == n
}

/// Some pending creation carries this name.
pub open spec fn pend_name_present(s: Seq<PendingInstance>, n: Seq<char>) -> bool {
    exists|k: int| 0 <= k < s.len() && s[k].config.name@ == n
}

/// Some instance carries this identifier.
pub open spec fn inst_uuid_present(s: Seq<Instance>, u: Seq<char>) -> bool {
    exists|k: int| 0 <= k < s.len() && s[k].uuid@ == u
}

/// Some pending creation carries this identifier.
pub open spec fn pend_uuid_present(s: Seq<PendingInstance>, u: Seq<char>) -> bool {
    exists|k: int| 0 <= k < s.len() && s[k].uuid@ == u
}

/// The registered instances are internally coherent: each well-formed
/// with a valid name; identifiers, names and reserved ports pairwise
/// distinct; and the list ordered by creation time.
pub open spec fn instances_ok(s: Seq<Instance>) -> bool {
    &&& forall|k: int| 0 <= k < s.len() ==> (#[trigger] s[k]).wf()
    &&& forall|k: int| 0 <= k < s.len() ==> valid_name((#[trigger] s[k]).config.name@)
    &&& forall|k: int, l: int|
        #![trigger s[k], s[l]]
        0 <= k < l < s.len() ==> s[k].uuid@ != s[l].uuid@ && s[k].config.name@ != s[l].config.name@
            && s[k].reserved_port != s[l].reserved_port
    &&& forall|k: int, l: int|
        #![trigger s[k].creation_time, s[l].creation_time]
        0 <= k < l < s.len() ==> s[k].creation_time <= s[l].creation_time
}

/// The pending creations are internally coherent.
pub open spec fn pending_ok(s: Seq<PendingInstance>) -> bool {
    &&& forall|k: int| 0 <= k < s.len() ==> valid_name((#[trigger] s[k]).config.name@)
    &&& forall|k: int, l: int|
        #![trigger s[k], s[l]]
        0 <= k < l < s.len() ==> s[k].uuid@ != s[l].uuid@ && s[k].config.name@ != s[l].config.name@
            && s[k].reserved_port != s[l].reserved_port
}

/// No identifier, name or port is shared between an instance and a
/// pending creation.
pub open spec fn cross_ok(inst: Seq<Instance>, pend: Seq<PendingInstance>) -> bool {
    forall|k: int, l: int|
        #![trigger inst[k], pend[l]]
        0 <= k < inst.len() && 0 <= l < pend.len() ==> inst[k].uuid@ != pend[l].uuid@
            && inst[k].config.name@ != pend[l].config.name@ && inst[k].reserved_port
            != pend[l].reserved_port
}

/// The allocator holds exactly the ports the instances and pending
/// creations reserved.
pub open spec fn ports_ok(
    ports: &PortAllocator,
    inst: Seq<Instance>,
    pend: Seq<PendingInstance>,
) -> bool {
    &&& ports.wf()
    &&& forall|p: u32|
        #[trigger] ports.spec_in_use(p) <==> (inst_port_present(inst, p) || pend_port_present(
            pend,
            p,
        ))
}

impl Subscriber {
    /// The subscriber belongs to this registry's bus.
    pub closed spec fn bus_wf(&self, reg: &Registry) -> bool {
        self.wf(&reg.bus)
    }
}

/// The orchestration facade: the owned instances, the pending creations,
/// the port allocator, and the event bus everything announces itself on.
pub struct Registry {
    bus: EventBus,
    ports: PortAllocator,
    instances: Vec<Instance>,
    pending: Vec<PendingInstance>,
}

impl Registry {
    /// The registered instances, in creation order.
    pub closed spec fn instances(&self) -> Seq<Instance> {
        self.instances@
    }

    /// Everything published on this registry's bus so far.
    pub closed spec fn events(&self) -> Seq<Event> {
        self.bus.events()
    }

    /// A new subscription to this registry's event bus: it yields only
    /// events published from this moment on, in publish order.
    pub fn subscribe(&self) -> (s: Subscriber)
        ensures
            s.start_index() == self.events().len(),
            s.cursor_index() == self.events().len(),
            s.received() == Seq::<Event>::empty(),
            s.bus_wf(self),
    {
        self.bus.subscribe()
    }

    /// The subscriber's next event on this registry's bus, if any.
    pub fn poll<'a>(&'a self, sub: &mut Subscriber) -> (r: Option<&'a Event>)
        requires
            old(sub).bus_wf(self),
        ensures
            final(sub).bus_wf(self),
            final(sub).start_index() == old(sub).start_index(),
            old(sub).cursor_index() < self.events().len() ==> {
                &&& r matches Some(e) && *e == self.events()[old(sub).cursor_index()]
                    && final(sub).received() == old(sub).received().push(*e)
                &&& final(sub).cursor_index() == old(sub).cursor_index() + 1
            },
            old(sub).cursor_index() >= self.events().len() ==> {
                &&& r is None
                &&& final(sub).cursor_index() == old(sub).cursor_index()
                &&& final(sub).received() == old(sub).received()
            },
    {
        self.bus.poll(sub)
    }

    /// The creations whose provisioning is still running.
    pub closed spec fn pending_list(&self) -> Seq<PendingInstance> {
        self.pending@
    }

    /// Whether the allocator holds this port.
    pub closed spec fn port_in_use(&self, p: u32) -> bool {
        self.ports.spec_in_use(p)
    }

    /// Whether an instance or pending creation carries this name.
    pub open spec fn name_taken(&self, n: Seq<char>) -> bool {
        inst_name_present(self.instances(), n) || pend_name_present(self.pending_list(), n)
    }

    /// Whether an instance or pending creation carries this identifier.
    pub open spec fn uuid_taken(&self, u: Seq<char>) -> bool {
        inst_uuid_present(self.instances(), u) || pend_uuid_present(self.pending_list(), u)
    }

    /// The registry invariant.
    pub closed spec fn wf(&self) -> bool {
        &&& instances_ok(self.instances@)
        &&& pending_ok(self.pending@)
        &&& cross_ok(self.instances@, self.pending@)
        &&& ports_ok(&self.ports, self.instances@, self.pending@)
    }

    /// A fresh registry: nothing registered, nothing pending, no port
    /// reserved, an empty event log.
    pub fn new() -> (r: Registry)
        ensures
            r.wf(),
            r.instances() == Seq::<Instance>::empty(),
            r.pending_list() == Seq::<PendingInstance>::empty(),
            forall|p: u32| !r.port_in_use(p),
            r.events() == Seq::<Event>::empty(),
    {
        Registry {
            bus: EventBus::new(),
            ports: PortAllocator::new(),
            instances: Vec::new(),
            pending: Vec::new(),
        }
    }

    /// Whether a port is reserved by any instance or pending creation.
    pub fn is_port_in_use(&self, port: u32) -> (r: bool)
        ensures
            r == self.port_in_use(port),
    {
        self.ports.is_in_use(port)
    }

    /// Whether a name is taken by any instance or pending creation.
    pub fn is_name_in_use(&self, name: &str) -> (r: bool)
        ensures
            r == self.name_taken(name@),
    {
        let mut k: usize = 0;
        while k < self.instances.len()
            invariant
                k <= self.instances@.len(),
                forall|j: int| 0 <= j < k ==> (#[trigger] self.instances@[j]).config.name@ != name@,
            decreases self.instances@.len() - k,
        {
            if str_eq(self.instances[k].name().as_str(), name) {
                return true;
            }
            k = k + 1;
        }
        let mut k2: usize = 0;
        while k2 < self.pending.len()
            invariant
                k2 <= self.pending@.len(),
                forall|j: int| 0 <= j < self.instances@.len() ==> (#[trigger] self.instances@[j]).config.name@ != name@,
                forall|j: int| 0 <= j < k2 ==> (#[trigger] self.pending@[j]).config.name@ != name@,
            decreases self.pending@.len() - k2,
        {
            if str_eq(self.pending[k2].config.name.as_str(), name) {
                return true;
            }
            k2 = k2 + 1;
        }
        false
    }

    /// Whether an identifier is taken by any instance or pending creation.
    fn is_uuid_in_use(&self, uuid: &str) -> (r: bool)
        ensures
            r == self.uuid_taken(uuid@),
    {
        let mut k: usize = 0;
        while k < self.instances.len()
            invariant
                k <= self.instances@.len(),
                forall|j: int| 0 <= j < k ==> (#[trigger] self.instances@[j]).uuid@ != uuid@,
            decreases self.instances@.len() - k,
        {
            if str_eq(self.instances[k].uuid().as_str(), uuid) {
                return true;
            }
            k = k + 1;
        }
        let mut k2: usize = 0;
        while k2 < self.pending.len()
            invariant
                k2 <= self.pending@.len(),
                forall|j: int| 0 <= j < self.instances@.len() ==> (#[trigger] self.instances@[j]).uuid@ != uuid@,
                forall|j: int| 0 <= j < k2 ==> (#[trigger] self.pending@[j]).uuid@ != uuid@,
            decreases self.pending@.len() - k2,
        {
            if str_eq(self.pending[k2].uuid.as_str(), uuid) {
                return true;
            }
            k2 = k2 + 1;
        }
        false
    }

    /// Admit a creation request under a caller-chosen identifier: the name
    /// must be valid and free, the identifier free, and the port free. On
    /// success the port is claimed and a pending entry with the request's
    /// configuration is recorded, to be settled by `complete_create`; on
    /// any failure nothing changes. Fails with `Conflict` on a bad or
    /// taken name or identifier, and with `ResourceUnavailable` on a
    /// taken port.
    pub fn create_named(&mut self, uuid: String, setup: SetupConfig, now: i64) -> (r: Result<
        (),
        Error,
    >)
        requires
            old(self).wf(),
        ensures
            final(self).wf(),
            match r {
                Ok(_) => {
                    &&& valid_name(setup.name@)
                    &&& !old(self).name_taken(setup.name@)
                    &&& !old(self).uuid_taken(uuid@)
                    &&& !old(self).port_in_use(setup.port)
                    &&& final(self).instances() == old(self).instances()
                    &&& final(self).events() == old(self).events()
                    &&& final(self).pending_list().len() == old(self).pending_list().len() + 1
                    &&& final(self).pending_list().subrange(
                        0,
                        old(self).pending_list().len() as int,
                    ) == old(self).pending_list()
                    &&& ({
                        let e = final(self).pending_list().last();
                        &&& e.uuid == uuid
                        &&& e.config.name == setup.name
                        &&& e.config.port == setup.port
                        &&& e.config.version == setup.version
                        &&& (setup.description matches Some(d) ==> e.config.description == d)
                        &&& (setup.description is None ==> e.config.description@ == Seq::<
                            char,
                        >::empty())
                        &&& e.config.auto_start == (setup.auto_start matches Some(true))
                        &&& e.config.restart_on_crash == (setup.restart_on_crash matches Some(
                            true,
                        ))
                        &&& e.config.backup_period == setup.backup_period
                        &&& e.config.has_started == false
                        &&& e.creation_time == now
                        &&& e.reserved_port == setup.port
                    })
                    &&& forall|q: u32|
                        final(self).port_in_use(q) == (old(self).port_in_use(q) || q == setup.port)
                },
                Err(e) => {
                    &&& *final(self) == *old(self)
                    &&& (!valid_name(setup.name@) ==> e.kind == ErrorKind::Conflict)
                    &&& (valid_name(setup.name@) && old(self).name_taken(setup.name@) ==> e.kind
                        == ErrorKind::Conflict)
                    &&& (valid_name(setup.name@) && !old(self).name_taken(setup.name@) && old(
                        self,
                    ).uuid_taken(uuid@) ==> e.kind == ErrorKind::Conflict)
                    &&& (valid_name(setup.name@) && !old(self).name_taken(setup.name@) && !old(
                        self,
                    ).uuid_taken(uuid@) ==> old(self).port_in_use(setup.port) && e.kind
                        == ErrorKind::ResourceUnavailable)
                },
            },
    {
        let name_len = setup.name.as_str().unicode_len();
        if name_len == 0 {
            return Err(Error::new(ErrorKind::Conflict, "Name must not be empty".to_owned()));
        }
        if name_len > 100 {
            return Err(
                Error::new(
                    ErrorKind::Conflict,
                    "Name must not be longer than 100 characters".to_owned(),
                ),
            );
        }
        if self.is_name_in_use(setup.name.as_str()) {
            return Err(
                Error::new(ErrorKind::Conflict, "Instance with name already exists".to_owned()),
            );
        }
        if self.is_uuid_in_use(uuid.as_str()) {
            return Err(
                Error::new(ErrorKind::Conflict, "Instance with id already exists".to_owned()),
            );
        }
        let port = setup.port;
        if !self.ports.reserve(port) {
            return Err(
                Error::new(ErrorKind::ResourceUnavailable, "Port is already in use".to_owned()),
            );
        }
        let entry = PendingInstance {
            uuid,
            config: setup.to_restore_config(),
            creation_time: now,
            reserved_port: port,
        };
        let ghost pre_pend = self.pending@;
        self.pending.push(entry);
        proof {
            let post = self.pending@;
            assert(post.subrange(0, pre_pend.len() as int) =~= pre_pend);
            let e = post.last();
            assert forall|k: int, l: int|
                #![trigger post[k], post[l]]
                0 <= k < l < post.len() implies post[k].uuid@ != post[l].uuid@ && post[k].config.name@
                != post[l].config.name@ && post[k].reserved_port != post[l].reserved_port by {
                if l < pre_pend.len() {
                    assert(post[k] == pre_pend[k] && post[l] == pre_pend[l]);
                } else {
                    assert(post[k] == pre_pend[k]);
                    assert(post[l] == e);
                    if pre_pend[k].uuid@ == e.uuid@ {
                        assert(pend_uuid_present(pre_pend, e.uuid@));
                    }
                    if pre_pend[k].config.name@ == e.config.name@ {
                        assert(pend_name_present(pre_pend, e.config.name@));
                    }
                    if pre_pend[k].reserved_port == e.reserved_port {
                        assert(pend_port_present(pre_pend, e.reserved_port));
                        assert(old(self).port_in_use(e.reserved_port));
                    }
                }
            }
            assert forall|k: int| 0 <= k < post.len() implies valid_name(
                (#[trigger] post[k]).config.name@,
            ) by {
                if k < pre_pend.len() {
                    assert(post[k] == pre_pend[k]);
                }
            }
            assert forall|k: int, l: int|
                #![trigger self.instances@[k], post[l]]
                0 <= k < self.instances@.len() && 0 <= l < post.len() implies self.instances@[k].uuid@
                != post[l].uuid@ && self.instances@[k].config.name@ != post[l].config.name@
                && self.instances@[k].reserved_port != post[l].reserved_port by {
                if l < pre_pend.len() {
                    assert(post[l] == pre_pend[l]);
                } else {
                    assert(post[l] == e);
                    if self.instances@[k].uuid@ == e.uuid@ {
                        assert(inst_uuid_present(self.instances@, e.uuid@));
                    }
                    if self.instances@[k].config.name@ == e.config.name@ {
                        assert(inst_name_present(self.instances@, e.config.name@));
                    }
                    if self.instances@[k].reserved_port == e.reserved_port {
                        assert(inst_port_present(self.instances@, e.reserved_port));
                        assert(old(self).port_in_use(e.reserved_port));
                    }
                }
            }
            assert forall|p: u32| #[trigger]
                self.ports.spec_in_use(p) <==> (inst_port_present(self.instances@, p)
                || pend_port_present(post, p)) by {
                if self.ports.spec_in_use(p) {
                    if p == port {
                        assert(post[post.len() - 1].reserved_port == p);
                        assert(pend_port_present(post, p));
                    } else {
                        assert(old(self).port_in_use(p) == self.ports.spec_in_use(p));
                        if pend_port_present(pre_pend, p) {
                            let w = choose|w: int|
                                0 <= w < pre_pend.len() && pre_pend[w].reserved_port == p;
                            assert(post[w].reserved_port == p);
                        }
                    }
                }
                if pend_port_present(post, p) {
                    let w = choose|w: int| 0 <= w < post.len() && post[w].reserved_port == p;
                    if w < pre_pend.len() {
                        assert(pre_pend[w].reserved_port == p);
                        assert(pend_port_present(pre_pend, p));
                    }
                }
            }
        }
        Ok(())
    }

    /// Admit a creation request as the API layer hands it over: the name
    /// is sanitized for filesystem safety, a fresh identifier is drawn,
    /// and the result is admitted exactly as `create_named` decides; the
    /// new identifier is returned. On failure nothing changes.
    pub fn create_minecraft_instance(
        &mut self,
        params: MinecraftSetupConfigPrimitive,
        now: i64,
    ) -> (r: Result<String, Error>)
        requires
            old(self).wf(),
        ensures
            final(self).wf(),
            match r {
                Ok(u) => {
                    &&& final(self).instances() == old(self).instances()
                    &&& final(self).events() == old(self).events()
                    &&& final(self).pending_list().len() == old(self).pending_list().len() + 1
                    &&& final(self).pending_list().subrange(
                        0,
                        old(self).pending_list().len() as int,
                    ) == old(self).pending_list()
                    &&& ({
                        let e = final(self).pending_list().last();
                        &&& e.uuid@ == u@
                        &&& valid_name(e.config.name@)
                        &&& !old(self).name_taken(e.config.name@)
                        &&& !old(self).uuid_taken(e.uuid@)
                        &&& !old(self).port_in_use(params.port)
                        &&& e.config.port == params.port
                        &&& e.reserved_port == params.port
                        &&& e.creation_time == now
                        &&& e.config.has_started == false
                    })
                    &&& forall|q: u32|
                        final(self).port_in_use(q) == (old(self).port_in_use(q) || q
                            == params.port)
                },
                Err(_) => *final(self) == *old(self),
            },
    {
        let sanitized = sanitize_name(params.name.as_str());
        let mut setup = params.to_setup_config();
        setup.name = sanitized;
        let uuid = new_uuid_string();
        let uuid_out = uuid.clone();
        match self.create_named(uuid, setup, now) {
            Ok(_) => Ok(uuid_out),
            Err(e) => Err(e),
        }
    }
}


proof fn lemma_find_inst_props(s: Seq<Instance>, u: Seq<char>)
    ensures
        match find_inst(s, u) {
            Some(i) => 0 <= i < s.len() && s[i].uuid@ == u,
            None => true,
        },
    decreases s.len(),
{
    if s.len() > 0 {
        lemma_find_inst_props(s.drop_first(), u);
    }
}

/// A port reserved by any other instance blocks a start: it is in the
/// in-use set and differs from the starting instance's own reservation,
/// which is exactly the refusal condition of `start_instance`'s contract —
/// so the start fails with the resource error and the reservation set,
/// the instance and the event log stay unchanged.
pub proof fn lemma_foreign_reservation_blocks(reg: &Registry, i: int, k: int)
    requires
        reg.wf(),
        0 <= i < reg.instances().len(),
        0 <= k < reg.instances().len(),
        k != i,
        reg.instances()[k].reserved_port == reg.instances()[i].config.port,
    ensures
        reg.port_in_use(reg.instances()[i].config.port),
        reg.instances()[i].config.port != reg.instances()[i].reserved_port,
{
    let p = reg.instances()[i].config.port;
    assert(inst_port_present(reg.instances(), p));
    if k < i {
        assert(reg.instances()[k].reserved_port != reg.instances()[i].reserved_port);
    } else {
        assert(reg.instances()[i].reserved_port != reg.instances()[k].reserved_port);
    }
}

proof fn lemma_find_inst_at(s: Seq<Instance>, u: Seq<char>, i: int)
    requires
        0 <= i < s.len(),
        s[i].uuid@ == u,
        forall|j: int| 0 <= j < i ==> s[j].uuid@ != u,
    ensures
        find_inst(s, u) == Some(i),
    decreases i,
{
    if i > 0 {
        lemma_find_inst_at(s.drop_first(), u, i - 1);
    }
}

proof fn lemma_find_inst_none(s: Seq<Instance>, u: Seq<char>)
    requires
        forall|j: int| 0 <= j < s.len() ==> s[j].uuid@ != u,
    ensures
        find_inst(s, u) is None,
    decreases s.len(),
{
    if s.len() > 0 {
        lemma_find_inst_none(s.drop_first(), u);
    }
}

proof fn lemma_find_pend_at(s: Seq<PendingInstance>, u: Seq<char>, i: int)
    requires
        0 <= i < s.len(),
        s[i].uuid@ == u,
        forall|j: int| 0 <= j < i ==> s[j].uuid@ != u,
    ensures
        find_pend(s, u) == Some(i),
    decreases i,
{
    if i > 0 {
        lemma_find_pend_at(s.drop_first(), u, i - 1);
    }
}

proof fn lemma_find_pend_none(s: Seq<PendingInstance>, u: Seq<char>)
    requires
        forall|j: int| 0 <= j < s.len() ==> s[j].uuid@ != u,
    ensures
        find_pend(s, u) is None,
    decreases s.len(),
{
    if s.len() > 0 {
        lemma_find_pend_none(s.drop_first(), u);
    }
}

/// Where a new instance with this creation time goes: before the first
/// later-created instance.
pub open spec fn insert_pos(s: Seq<Instance>, t: i64) -> int
    decreases s.len(),
{
    if s.len() == 0 {
        0
    } else if s[0].creation_time > t {
        0
    } else {
        1 + insert_pos(s.drop_first(), t)
    }
}

proof fn lemma_insert_pos_at(s: Seq<Instance>, t: i64, i: int)
    requires
        0 <= i <= s.len(),
        forall|j: int| 0 <= j < i ==> s[j].creation_time <= t,
        i < s.len() ==> s[i].creation_time > t,
    ensures
        insert_pos(s, t) == i,
    decreases i,
{
    if i == 0 {
        if s.len() > 0 {
        }
    } else {
        lemma_insert_pos_at(s.drop_first(), t, i - 1);
    }
}

impl Registry {
    /// The registry's index of the instance with this identifier.
    fn find_instance_index(&self, uuid: &str) -> (r: Option<usize>)
        ensures
            match r {
                Some(i) => find_inst(self.instances(), uuid@) == Some(i as int) && i
                    < self.instances().len(),
                None => find_inst(self.instances(), uuid@) is None,
            },
    {
        let mut k: usize = 0;
        while k < self.instances.len()
            invariant
                k <= self.instances@.len(),
                forall|j: int| 0 <= j < k ==> (#[trigger] self.instances@[j]).uuid@ != uuid@,
            decreases self.instances@.len() - k,
        {
            if str_eq(self.instances[k].uuid().as_str(), uuid) {
                proof {
                    lemma_find_inst_at(self.instances@, uuid@, k as int);
                }
                return Some(k);
            }
            k = k + 1;
        }
        proof {
            lemma_find_inst_none(self.instances@, uuid@);
        }
        None
    }

    /// The registry's index of the pending creation with this identifier.
    fn find_pending_index(&self, uuid: &str) -> (r: Option<usize>)
        ensures
            match r {
                Some(i) => find_pend(self.pending_list(), uuid@) == Some(i as int) && i
                    < self.pending_list().len(),
                None => find_pend(self.pending_list(), uuid@) is None,
            },
    {
        let mut k: usize = 0;
        while k < self.pending.len()
            invariant
                k <= self.pending@.len(),
                forall|j: int| 0 <= j < k ==> (#[trigger] self.pending@[j]).uuid@ != uuid@,
            decreases self.pending@.len() - k,
        {
            if str_eq(self.pending[k].uuid.as_str(), uuid) {
                proof {
                    lemma_find_pend_at(self.pending@, uuid@, k as int);
                }
                return Some(k);
            }
            k = k + 1;
        }
        proof {
            lemma_find_pend_none(self.pending@, uuid@);
        }
        None
    }

    /// Settle a pending creation once provisioning finished. On success
    /// the instance joins the registry, stopped, at its creation-time
    /// position; on failure the claimed port is released and nothing of
    /// the creation remains. An unknown identifier is `NotFound`.
    pub fn complete_create(&mut self, uuid: &str, success: bool) -> (r: Result<(), Error>)
        requires
            old(self).wf(),
        ensures
            final(self).wf(),
            final(self).events() == old(self).events(),
            match r {
                Ok(_) => ({
                    let j = find_pend(old(self).pending_list(), uuid@).unwrap();
                    let entry = old(self).pending_list()[j];
                    &&& find_pend(old(self).pending_list(), uuid@) is Some
                    &&& final(self).pending_list() == old(self).pending_list().remove(j)
                    &&& (success ==> {
                        let pos = insert_pos(old(self).instances(), entry.creation_time);
                        &&& final(self).instances().len() == old(self).instances().len() + 1
                        &&& final(self).instances() == old(self).instances().insert(
                            pos,
                            final(self).instances()[pos],
                        )
                        &&& ({
                            let inst = final(self).instances()[pos];
                            &&& inst.uuid == entry.uuid
                            &&& inst.config == entry.config
                            &&& inst.creation_time == entry.creation_time
                            &&& inst.reserved_port == entry.reserved_port
                            &&& inst.state == State::Stopped
                            &&& !inst.process_alive
                            &&& !inst.stdin_open
                            &&& inst.players@.len() == 0
                        })
                        &&& forall|q: u32| final(self).port_in_use(q) == old(self).port_in_use(q)
                    })
                    &&& (!success ==> {
                        &&& final(self).instances() == old(self).instances()
                        &&& forall|q: u32|
                            final(self).port_in_use(q) == (old(self).port_in_use(q) && q
                                != entry.reserved_port)
                    })
                }),
                Err(e) => {
                    &&& e.kind == ErrorKind::NotFound
                    &&& find_pend(old(self).pending_list(), uuid@) is None
                    &&& *final(self) == *old(self)
                },
            },
    {
        let j = match self.find_pending_index(uuid) {
            None => {
                return Err(
                    Error::new(ErrorKind::NotFound, "No pending creation with this id".to_owned()),
                );
            },
            Some(j) => j,
        };
        let ghost pre_pend = self.pending@;
        let ghost pre_inst = self.instances@;
        let entry = self.pending.remove(j);
        proof {
            pre_pend.remove_ensures(j as int);
            let post = self.pending@;
            assert forall|k: int, l: int|
                #![trigger post[k], post[l]]
                0 <= k < l < post.len() implies post[k].uuid@ != post[l].uuid@ && post[k].config.name@
                != post[l].config.name@ && post[k].reserved_port != post[l].reserved_port by {
                let pk: int = if k < j { k } else { k + 1 };
                let pl: int = if l < j { l } else { l + 1 };
                assert(post[k] == pre_pend[pk]);
                assert(post[l] == pre_pend[pl]);
                assert(pre_pend[pk].uuid@ != pre_pend[pl].uuid@ && pre_pend[pk].config.name@
                    != pre_pend[pl].config.name@ && pre_pend[pk].reserved_port
                    != pre_pend[pl].reserved_port);
            }
            assert forall|k: int| 0 <= k < post.len() implies valid_name(
                (#[trigger] post[k]).config.name@,
            ) by {
                let pk: int = if k < j { k } else { k + 1 };
                assert(post[k] == pre_pend[pk]);
            }
            assert forall|k: int, l: int|
                #![trigger pre_inst[k], post[l]]
                0 <= k < pre_inst.len() && 0 <= l < post.len() implies pre_inst[k].uuid@
                != post[l].uuid@ && pre_inst[k].config.name@ != post[l].config.name@
                && pre_inst[k].reserved_port != post[l].reserved_port by {
                let pl: int = if l < j { l } else { l + 1 };
                assert(post[l] == pre_pend[pl]);
            }
        }
        if success {
            // find the creation-time position
            let mut pos: usize = 0;
            while pos < self.instances.len() && self.instances[pos].creation_time()
                <= entry.creation_time
                invariant
                    pos <= self.instances@.len(),
                    self.instances@ == pre_inst,
                    forall|j2: int|
                        0 <= j2 < pos ==> (#[trigger] self.instances@[j2]).creation_time
                            <= entry.creation_time,
                decreases self.instances@.len() - pos,
            {
                pos = pos + 1;
            }
            proof {
                lemma_insert_pos_at(pre_inst, entry.creation_time, pos as int);
            }
            let ghost entry_g = entry;
            let inst = Instance::restore(
                entry.config,
                entry.uuid,
                entry.creation_time,
                entry.reserved_port,
            );
            self.instances.insert(pos, inst);
            proof {
                let post = self.instances@;
                let pend_now = self.pending@;
                let p: int = pos as int;
                assert(post == pre_inst.insert(p, inst));
                assert(post.len() == pre_inst.len() + 1);
                assert forall|k: int|
                    0 <= k < post.len() implies #[trigger] post[k] == (if k < p {
                    pre_inst[k]
                } else if k == p {
                    inst
                } else {
                    pre_inst[k - 1]
                }) by {}
                // the moved entry still satisfies what pending_ok and
                // cross_ok said of it against everything that remains
                assert(inst.uuid@ == entry_g.uuid@);
                assert(inst.config.name@ == entry_g.config.name@);
                assert(inst.reserved_port == entry_g.reserved_port);
                assert(valid_name(inst.config.name@)) by {
                    assert(pre_pend[j as int] == entry_g);
                }
                assert forall|k: int| 0 <= k < post.len() implies (#[trigger] post[k]).wf()
                    && valid_name(post[k].config.name@) by {
                    if k < p {
                    } else if k == p {
                        assert(pre_pend[j as int] == entry_g);
                    } else {
                        assert(post[k] == pre_inst[k - 1]);
                    }
                }
                assert forall|k: int, l: int|
                    #![trigger post[k], post[l]]
                    0 <= k < l < post.len() implies post[k].uuid@ != post[l].uuid@
                    && post[k].config.name@ != post[l].config.name@ && post[k].reserved_port
                    != post[l].reserved_port by {
                    let pk: int = if k < p { k } else { k - 1 };
                    let pl: int = if l < p { l } else { l - 1 };
                    if k == p {
                        assert(post[l] == pre_inst[pl]);
                        assert(pre_pend[j as int] == entry_g);
                        assert(cross_ok(pre_inst, pre_pend));
                        assert(pre_inst[pl].uuid@ != pre_pend[j as int].uuid@);
                    } else if l == p {
                        assert(post[k] == pre_inst[pk]);
                        assert(pre_pend[j as int] == entry_g);
                        assert(pre_inst[pk].uuid@ != pre_pend[j as int].uuid@);
                    } else {
                        assert(post[k] == pre_inst[pk]);
                        assert(post[l] == pre_inst[pl]);
                        assert(pk < pl);
                        assert(pre_inst[pk].uuid@ != pre_inst[pl].uuid@);
                    }
                }
                assert forall|k: int, l: int|
                    #![trigger post[k].creation_time, post[l].creation_time]
                    0 <= k < l < post.len() implies post[k].creation_time
                    <= post[l].creation_time by {
                    let pk: int = if k < p { k } else { k - 1 };
                    let pl: int = if l < p { l } else { l - 1 };
                    if k == p {
                        assert(post[l] == pre_inst[pl]);
                        assert(pl >= p);
                        assert(pre_inst[pl].creation_time > entry_g.creation_time);
                    } else if l == p {
                        assert(post[k] == pre_inst[pk]);
                        assert(pk < p);
                        assert(pre_inst[pk].creation_time <= entry_g.creation_time);
                    } else {
                        assert(post[k] == pre_inst[pk]);
                        assert(post[l] == pre_inst[pl]);
                        if pk < pl {
                            assert(pre_inst[pk].creation_time <= pre_inst[pl].creation_time);
                        } else {
                            assert(pk == pl);
                        }
                    }
                }
                assert forall|k: int, l: int|
                    #![trigger post[k], pend_now[l]]
                    0 <= k < post.len() && 0 <= l < pend_now.len() implies post[k].uuid@
                    != pend_now[l].uuid@ && post[k].config.name@ != pend_now[l].config.name@
                    && post[k].reserved_port != pend_now[l].reserved_port by {
                    let pl: int = if l < j { l } else { l + 1 };
                    assert(pend_now[l] == pre_pend[pl]);
                    if k == p {
                        assert(pl != j);
                        assert(pre_pend[j as int] == entry_g);
                        if pl < j {
                            assert(pre_pend[pl].uuid@ != pre_pend[j as int].uuid@
                                && pre_pend[pl].config.name@ != pre_pend[j as int].config.name@
                                && pre_pend[pl].reserved_port != pre_pend[j as int].reserved_port);
                        } else {
                            assert(pre_pend[j as int].uuid@ != pre_pend[pl].uuid@
                                && pre_pend[j as int].config.name@ != pre_pend[pl].config.name@
                                && pre_pend[j as int].reserved_port != pre_pend[pl].reserved_port);
                        }
                    } else {
                        let pk: int = if k < p { k } else { k - 1 };
                        assert(post[k] == pre_inst[pk]);
                    }
                }
                assert forall|q: u32| #[trigger]
                    self.ports.spec_in_use(q) <==> (inst_port_present(post, q)
                    || pend_port_present(pend_now, q)) by {
                    if self.ports.spec_in_use(q) {
                        if inst_port_present(pre_inst, q) {
                            let w = choose|w: int|
                                0 <= w < pre_inst.len() && pre_inst[w].reserved_port == q;
                            let nw: int = if w < p { w } else { w + 1 };
                            assert(post[nw] == pre_inst[w]);
                            assert(inst_port_present(post, q));
                        } else {
                            assert(pend_port_present(pre_pend, q));
                            let w = choose|w: int|
                                0 <= w < pre_pend.len() && pre_pend[w].reserved_port == q;
                            if w == j {
                                assert(post[p].reserved_port == q);
                                assert(inst_port_present(post, q));
                            } else {
                                let nw: int = if w < j { w } else { w - 1 };
                                assert(pend_now[nw] == pre_pend[w]);
                                assert(pend_port_present(pend_now, q));
                            }
                        }
                    }
                    if inst_port_present(post, q) {
                        let w = choose|w: int| 0 <= w < post.len() && post[w].reserved_port == q;
                        if w == p {
                            assert(pre_pend[j as int].reserved_port == q);
                            assert(pend_port_present(pre_pend, q));
                        } else {
                            let pw: int = if w < p { w } else { w - 1 };
                            assert(pre_inst[pw].reserved_port == q);
                            assert(inst_port_present(pre_inst, q));
                        }
                    }
                    if pend_port_present(pend_now, q) {
                        let w = choose|w: int|
                            0 <= w < pend_now.len() && pend_now[w].reserved_port == q;
                        let pw: int = if w < j { w } else { w + 1 };
                        assert(pre_pend[pw].reserved_port == q);
                        assert(pend_port_present(pre_pend, q));
                    }
                }
            }
            Ok(())
        } else {
            self.ports.release(entry.reserved_port);
            proof {
                let pend_now = self.pending@;
                assert forall|q: u32| #[trigger]
                    self.ports.spec_in_use(q) <==> (inst_port_present(pre_inst, q)
                    || pend_port_present(pend_now, q)) by {
                    if self.ports.spec_in_use(q) {
                        assert(q != entry.reserved_port);
                        if pend_port_present(pre_pend, q) {
                            let w = choose|w: int|
                                0 <= w < pre_pend.len() && pre_pend[w].reserved_port == q;
                            assert(w != j);
                            let nw: int = if w < j { w } else { w - 1 };
                            assert(pend_now[nw] == pre_pend[w]);
                            assert(pend_port_present(pend_now, q));
                        }
                    }
                    if inst_port_present(pre_inst, q) {
                        assert(pre_pend[j as int] == entry);
                        let w = choose|w: int|
                            0 <= w < pre_inst.len() && pre_inst[w].reserved_port == q;
                        assert(pre_inst[w].reserved_port != pre_pend[j as int].reserved_port);
                        assert(q != entry.reserved_port);
                    }
                    if pend_port_present(pend_now, q) {
                        let w = choose|w: int|
                            0 <= w < pend_now.len() && pend_now[w].reserved_port == q;
                        let pw: int = if w < j { w } else { w + 1 };
                        assert(pend_now[w] == pre_pend[pw]);
                        assert(pw != j);
                        if pw < j {
                            assert(pre_pend[pw].reserved_port != pre_pend[j as int].reserved_port);
                        } else {
                            assert(pre_pend[j as int].reserved_port != pre_pend[pw].reserved_port);
                        }
                        assert(q != entry.reserved_port);
                        assert(pend_port_present(pre_pend, q));
                    }
                }
            }
            Ok(())
        }
    }

    /// Remove a stopped instance: its port is released and it leaves the
    /// registry. A running (or otherwise non-stopped) instance is refused
    /// with `Conflict` and everything — instance, port reservation, event
    /// log — stays exactly as it was. An unknown identifier is `NotFound`.
    pub fn remove_instance(&mut self, uuid: &str) -> (r: Result<(), Error>)
        requires
            old(self).wf(),
        ensures
            final(self).wf(),
            final(self).events() == old(self).events(),
            match r {
                Ok(_) => ({
                    let i = find_inst(old(self).instances(), uuid@).unwrap();
                    let inst = old(self).instances()[i];
                    &&& find_inst(old(self).instances(), uuid@) is Some
                    &&& find_inst(final(self).instances(), uuid@) is None
                    &&& inst.state == State::Stopped
                    &&& final(self).instances() == old(self).instances().remove(i)
                    &&& final(self).pending_list() == old(self).pending_list()
                    &&& forall|q: u32|
                        final(self).port_in_use(q) == (old(self).port_in_use(q) && q
                            != inst.reserved_port)
                }),
                Err(e) => {
                    &&& *final(self) == *old(self)
                    &&& (find_inst(old(self).instances(), uuid@) is None ==> e.kind
                        == ErrorKind::NotFound)
                    &&& (find_inst(old(self).instances(), uuid@) matches Some(i) ==> old(
                        self,
                    ).instances()[i].state != State::Stopped && e.kind == ErrorKind::Conflict)
                },
            },
    {
        let i = match self.find_instance_index(uuid) {
            None => {
                return Err(
                    Error::new(ErrorKind::NotFound, "Instance with id does not exist".to_owned()),
                );
            },
            Some(i) => i,
        };
        if !matches!(self.instances[i].state(), State::Stopped) {
            return Err(
                Error::new(ErrorKind::Conflict, "Instance is running, cannot remove".to_owned()),
            );
        }
        let ghost pre_inst = self.instances@;
        let inst = self.instances.remove(i);
        self.ports.release(inst.reserved_port);
        proof {
            pre_inst.remove_ensures(i as int);
            let post = self.instances@;
            let pend = self.pending@;
            assert forall|k: int|
                0 <= k < post.len() implies (#[trigger] post[k]).wf() && valid_name(
                post[k].config.name@,
            ) by {
                let pk: int = if k < i { k } else { k + 1 };
                assert(post[k] == pre_inst[pk]);
            }
            assert forall|k: int, l: int|
                #![trigger post[k], post[l]]
                0 <= k < l < post.len() implies post[k].uuid@ != post[l].uuid@ && post[k].config.name@
                != post[l].config.name@ && post[k].reserved_port != post[l].reserved_port by {
                let pk: int = if k < i { k } else { k + 1 };
                let pl: int = if l < i { l } else { l + 1 };
                assert(post[k] == pre_inst[pk]);
                assert(post[l] == pre_inst[pl]);
                assert(pre_inst[pk].uuid@ != pre_inst[pl].uuid@ && pre_inst[pk].config.name@
                    != pre_inst[pl].config.name@ && pre_inst[pk].reserved_port
                    != pre_inst[pl].reserved_port);
            }
            assert forall|k: int, l: int|
                #![trigger post[k].creation_time, post[l].creation_time]
                0 <= k < l < post.len() implies post[k].creation_time <= post[l].creation_time by {
                let pk: int = if k < i { k } else { k + 1 };
                let pl: int = if l < i { l } else { l + 1 };
                assert(post[k] == pre_inst[pk]);
                assert(post[l] == pre_inst[pl]);
                assert(pre_inst[pk].creation_time <= pre_inst[pl].creation_time);
            }
            assert forall|k: int, l: int|
                #![trigger post[k], pend[l]]
                0 <= k < post.len() && 0 <= l < pend.len() implies post[k].uuid@ != pend[l].uuid@
                && post[k].config.name@ != pend[l].config.name@ && post[k].reserved_port
                != pend[l].reserved_port by {
                let pk: int = if k < i { k } else { k + 1 };
                assert(post[k] == pre_inst[pk]);
            }
            lemma_find_inst_props(pre_inst, uuid@);
            assert(pre_inst[i as int].uuid@ == uuid@);
            assert forall|k: int| 0 <= k < post.len() implies (#[trigger] post[k]).uuid@
                != uuid@ by {
                let pk: int = if k < i { k } else { k + 1 };
                assert(post[k] == pre_inst[pk]);
                if pk < i {
                    assert(pre_inst[pk].uuid@ != pre_inst[i as int].uuid@);
                } else {
                    assert(pre_inst[i as int].uuid@ != pre_inst[pk].uuid@);
                }
            }
            lemma_find_inst_none(post, uuid@);
            assert forall|q: u32| #[trigger]
                self.ports.spec_in_use(q) <==> (inst_port_present(post, q) || pend_port_present(
                pend,
                q,
            )) by {
                if self.ports.spec_in_use(q) {
                    assert(q != inst.reserved_port);
                    if inst_port_present(pre_inst, q) {
                        let w = choose|w: int|
                            0 <= w < pre_inst.len() && pre_inst[w].reserved_port == q;
                        assert(w != i);
                        let nw: int = if w < i { w } else { w - 1 };
                        assert(post[nw] == pre_inst[w]);
                        assert(inst_port_present(post, q));
                    }
                }
                if inst_port_present(post, q) {
                    let w = choose|w: int| 0 <= w < post.len() && post[w].reserved_port == q;
                    let pw: int = if w < i { w } else { w + 1 };
                    assert(post[w] == pre_inst[pw]);
                    assert(pw != i);
                    if pw < i {
                        assert(pre_inst[pw].reserved_port != pre_inst[i as int].reserved_port);
                    } else {
                        assert(pre_inst[i as int].reserved_port != pre_inst[pw].reserved_port);
                    }
                    assert(q != inst.reserved_port);
                    assert(inst_port_present(pre_inst, q));
                }
                if pend_port_present(pend, q) {
                    let w = choose|w: int| 0 <= w < pend.len() && pend[w].reserved_port == q;
                    assert(pre_inst[i as int].reserved_port != pend[w].reserved_port);
                    assert(q != inst.reserved_port);
                }
            }
        }
        Ok(())
    }
}


/// Everything of the registry that one instance operation may not touch:
/// the pending creations, and the set of reserved ports.
pub open spec fn same_surroundings(pre: &Registry, post: &Registry) -> bool {
    &&& post.pending_list() == pre.pending_list()
    &&& forall|q: u32| post.port_in_use(q) == pre.port_in_use(q)
}

proof fn lemma_remove_insert(s: Seq<Instance>, i: int, x: Instance)
    requires
        0 <= i < s.len(),
    ensures
        s.remove(i).insert(i, x) =~= s.update(i, x),
{
    s.remove_ensures(i);
    let t = s.remove(i);
    assert forall|j: int|
        0 <= j < s.len() implies #[trigger] t.insert(i, x)[j] == s.update(i, x)[j] by {
        if j < i {
            assert(t.insert(i, x)[j] == t[j]);
        } else if j == i {
            assert(t.insert(i, x)[j] == x);
        } else {
            assert(t.insert(i, x)[j] == t[j - 1]);
        }
    }
}

/// Replacing one instance by another with the same identifier, name,
/// reserved port and creation time keeps the registry families intact.
proof fn lemma_replace_instance(
    pre_inst: Seq<Instance>,
    post_inst: Seq<Instance>,
    i: int,
    pend: Seq<PendingInstance>,
    ports: &PortAllocator,
)
    requires
        0 <= i < pre_inst.len(),
        post_inst.len() == pre_inst.len(),
        forall|k: int| 0 <= k < pre_inst.len() && k != i ==> post_inst[k] == pre_inst[k],
        post_inst[i].wf(),
        post_inst[i].uuid@ == pre_inst[i].uuid@,
        post_inst[i].config.name@ == pre_inst[i].config.name@,
        post_inst[i].reserved_port == pre_inst[i].reserved_port,
        post_inst[i].creation_time == pre_inst[i].creation_time,
        instances_ok(pre_inst),
        cross_ok(pre_inst, pend),
        ports_ok(ports, pre_inst, pend),
    ensures
        instances_ok(post_inst),
        cross_ok(post_inst, pend),
        ports_ok(ports, post_inst, pend),
{
    assert forall|k: int|
        0 <= k < post_inst.len() implies (#[trigger] post_inst[k]).wf() && valid_name(
        post_inst[k].config.name@,
    ) by {
        assert(pre_inst[k].wf() && valid_name(pre_inst[k].config.name@));
    }
    assert forall|k: int, l: int|
        #![trigger post_inst[k], post_inst[l]]
        0 <= k < l < post_inst.len() implies post_inst[k].uuid@ != post_inst[l].uuid@
        && post_inst[k].config.name@ != post_inst[l].config.name@ && post_inst[k].reserved_port
        != post_inst[l].reserved_port by {
        assert(pre_inst[k].uuid@ != pre_inst[l].uuid@ && pre_inst[k].config.name@
            != pre_inst[l].config.name@ && pre_inst[k].reserved_port != pre_inst[l].reserved_port);
    }
    assert forall|k: int, l: int|
        #![trigger post_inst[k].creation_time, post_inst[l].creation_time]
        0 <= k < l < post_inst.len() implies post_inst[k].creation_time
        <= post_inst[l].creation_time by {
        assert(pre_inst[k].creation_time <= pre_inst[l].creation_time);
    }
    assert forall|k: int, l: int|
        #![trigger post_inst[k], pend[l]]
        0 <= k < post_inst.len() && 0 <= l < pend.len() implies post_inst[k].uuid@ != pend[l].uuid@
        && post_inst[k].config.name@ != pend[l].config.name@ && post_inst[k].reserved_port
        != pend[l].reserved_port by {
        assert(pre_inst[k].uuid@ != pend[l].uuid@ && pre_inst[k].config.name@
            != pend[l].config.name@ && pre_inst[k].reserved_port != pend[l].reserved_port);
    }
    assert forall|p: u32| #[trigger]
        ports.spec_in_use(p) <==> (inst_port_present(post_inst, p) || pend_port_present(
        pend,
        p,
    )) by {
        if inst_port_present(pre_inst, p) {
            let w = choose|w: int| 0 <= w < pre_inst.len() && pre_inst[w].reserved_port == p;
            assert(post_inst[w].reserved_port == p);
        }
        if inst_port_present(post_inst, p) {
            let w = choose|w: int| 0 <= w < post_inst.len() && post_inst[w].reserved_port == p;
            assert(pre_inst[w].reserved_port == p);
        }
    }
}

impl Registry {
    /// Start an instance: the configured port must not be reserved by
    /// another holder, the live host probe (performed by the runtime and
    /// handed in as `port_free`) must have found it free, and the instance
    /// must rest in `Stopped`. On success the instance moves to
    /// `Starting`, the transition is announced, and the returned action
    /// tells the runtime to spawn the process. The reservation set never
    /// changes here.
    pub fn start_instance(
        &mut self,
        uuid: &str,
        port_free: bool,
        caused_by: CausedBy,
        now: i64,
    ) -> (r: Result<SupervisorAction, Error>)
        requires
            old(self).wf(),
        ensures
            final(self).wf(),
            same_surroundings(old(self), final(self)),
            match find_inst(old(self).instances(), uuid@) {
                None => {
                    &&& r matches Err(e) && e.kind == ErrorKind::NotFound
                    &&& *final(self) == *old(self)
                },
                Some(i) => ({
                    let pre = old(self).instances()[i];
                    let blocked = old(self).port_in_use(pre.config.port) && pre.config.port
                        != pre.reserved_port;
                    match r {
                        Ok(a) => {
                            &&& !blocked
                            &&& port_free
                            &&& pre.state == State::Stopped
                            &&& a is SpawnProcess
                            &&& final(self).instances() == old(self).instances().update(
                                i,
                                final(self).instances()[i],
                            )
                            &&& ({
                                let post = final(self).instances()[i];
                                &&& post.state == State::Starting
                                &&& !post.process_alive
                                &&& !post.stdin_open
                                &&& !post.did_start
                                &&& post.config == pre.config
                                &&& post.players == pre.players
                                &&& post.uuid == pre.uuid
                                &&& post.creation_time == pre.creation_time
                                &&& post.reserved_port == pre.reserved_port
                            })
                            &&& final(self).events().len() == old(self).events().len() + 1
                            &&& final(self).events().subrange(0, old(self).events().len() as int)
                                == old(self).events()
                            &&& crate::events::is_transition_event(
                                final(self).events().last(),
                                pre.uuid@,
                                pre.config.name@,
                                State::Starting,
                            )
                        },
                        Err(e) => {
                            &&& final(self).instances() == old(self).instances()
                            &&& final(self).events() == old(self).events()
                            &&& (blocked ==> e.kind == ErrorKind::ResourceUnavailable)
                            &&& (!blocked && !port_free ==> e.kind
                                == ErrorKind::ResourceUnavailable)
                            &&& (!blocked && port_free ==> pre.state != State::Stopped && e.kind
                                == ErrorKind::Conflict && e.detail@ == crate::state::conflict_detail(
                                pre.state,
                            ))
                        },
                    }
                }),
            },
    {
        let i = match self.find_instance_index(uuid) {
            None => {
                return Err(
                    Error::new(ErrorKind::NotFound, "Instance with id does not exist".to_owned()),
                );
            },
            Some(i) => i,
        };
        let p = self.instances[i].port();
        if self.ports.is_in_use(p) && p != self.instances[i].reserved_port {
            return Err(
                Error::new(ErrorKind::ResourceUnavailable, "Port is already in use".to_owned()),
            );
        }
        if !port_free {
            return Err(
                Error::new(ErrorKind::ResourceUnavailable, "Port is already in use".to_owned()),
            );
        }
        let ghost pre_inst = self.instances@;
        let mut inst = self.instances.remove(i);
        let res = inst.start(&mut self.bus, caused_by, now);
        let ghost inst_g = inst;
        self.instances.insert(i, inst);
        proof {
            lemma_remove_insert(pre_inst, i as int, inst_g);
            assert(self.instances@ =~= pre_inst.update(i as int, inst_g));
            lemma_replace_instance(
                pre_inst,
                self.instances@,
                i as int,
                self.pending@,
                &self.ports,
            );
            if res is Err {
                assert(self.instances@ =~= pre_inst);
            }
        }
        res
    }

    /// Stop an instance: allowed only while `Running` with stdin open; the
    /// state moves to `Stopping`, the transition is announced, and the
    /// returned action tells the runtime to write the shutdown command.
    pub fn stop_instance(&mut self, uuid: &str, caused_by: CausedBy, now: i64) -> (r: Result<
        SupervisorAction,
        Error,
    >)
        requires
            old(self).wf(),
        ensures
            final(self).wf(),
            same_surroundings(old(self), final(self)),
            match find_inst(old(self).instances(), uuid@) {
                None => {
                    &&& r matches Err(e) && e.kind == ErrorKind::NotFound
                    &&& *final(self) == *old(self)
                },
                Some(i) => ({
                    let pre = old(self).instances()[i];
                    match r {
                        Ok(a) => {
                            &&& pre.state == State::Running
                            &&& pre.stdin_open
                            &&& a matches SupervisorAction::WriteStdin { line } && line@ == "stop"@
                            &&& final(self).instances() == old(self).instances().update(
                                i,
                                final(self).instances()[i],
                            )
                            &&& ({
                                let post = final(self).instances()[i];
                                &&& post.state == State::Stopping
                                &&& post.config == pre.config
                                &&& post.players == pre.players
                                &&& post.process_alive == pre.process_alive
                                &&& post.stdin_open == pre.stdin_open
                                &&& post.uuid == pre.uuid
                            })
                            &&& final(self).events().len() == old(self).events().len() + 1
                            &&& final(self).events().subrange(0, old(self).events().len() as int)
                                == old(self).events()
                            &&& crate::events::is_transition_event(
                                final(self).events().last(),
                                pre.uuid@,
                                pre.config.name@,
                                State::Stopping,
                            )
                        },
                        Err(e) => {
                            &&& final(self).instances() == old(self).instances()
                            &&& final(self).events() == old(self).events()
                            &&& (pre.state != State::Running ==> e.kind == ErrorKind::Conflict
                                && e.detail@ == crate::state::conflict_detail(pre.state))
                            &&& (pre.state == State::Running ==> !pre.stdin_open && e.kind
                                == ErrorKind::ProcessCommunication)
                        },
                    }
                }),
            },
    {
        let i = match self.find_instance_index(uuid) {
            None => {
                return Err(
                    Error::new(ErrorKind::NotFound, "Instance with id does not exist".to_owned()),
                );
            },
            Some(i) => i,
        };
        let ghost pre_inst = self.instances@;
        let mut inst = self.instances.remove(i);
        let res = inst.stop(&mut self.bus, caused_by, now);
        let ghost inst_g = inst;
        self.instances.insert(i, inst);
        proof {
            lemma_remove_insert(pre_inst, i as int, inst_g);
            assert(self.instances@ =~= pre_inst.update(i as int, inst_g));
            lemma_replace_instance(
                pre_inst,
                self.instances@,
                i as int,
                self.pending@,
                &self.ports,
            );
            if res is Err {
                assert(self.instances@ =~= pre_inst);
            }
        }
        res
    }

    /// Forcefully terminate an instance's process. Valid from any
    /// non-stopped state; a no-op when the process already exited. The
    /// state is not changed here: the reader's end-of-stream handling
    /// settles it.
    pub fn kill_instance(&self, uuid: &str) -> (r: Result<Option<SupervisorAction>, Error>)
        ensures
            match find_inst(self.instances(), uuid@) {
                None => r matches Err(e) && e.kind == ErrorKind::NotFound,
                Some(i) => ({
                    let inst = self.instances()[i];
                    match r {
                        Ok(a) => {
                            &&& inst.state != State::Stopped
                            &&& (inst.process_alive ==> (a matches Some(k) && k is KillProcess))
                            &&& (!inst.process_alive ==> a is None)
                        },
                        Err(e) => inst.state == State::Stopped && e.kind == ErrorKind::Conflict,
                    }
                }),
            },
    {
        let i = match self.find_instance_index(uuid) {
            None => {
                return Err(
                    Error::new(ErrorKind::NotFound, "Instance with id does not exist".to_owned()),
                );
            },
            Some(i) => i,
        };
        self.instances[i].kill()
    }

    /// Send a console command to an instance: the runtime is told to
    /// write the line to the child's standard input, unchanged. No state
    /// moves and no event is published; a graceful stop goes through
    /// `stop_instance`.
    pub fn send_command(&self, uuid: &str, command: &str) -> (r: Result<SupervisorAction, Error>)
        ensures
            match find_inst(self.instances(), uuid@) {
                None => r matches Err(e) && e.kind == ErrorKind::NotFound,
                Some(i) => ({
                    let inst = self.instances()[i];
                    match r {
                        Ok(a) => {
                            &&& inst.state != State::Stopped
                            &&& inst.stdin_open
                            &&& a matches SupervisorAction::WriteStdin { line } && line@
                                == command@
                        },
                        Err(e) => {
                            &&& (inst.state == State::Stopped ==> e.kind == ErrorKind::Conflict
                                && e.detail@ == crate::state::conflict_detail(State::Stopped))
                            &&& (inst.state != State::Stopped ==> !inst.stdin_open && e.kind
                                == ErrorKind::ProcessCommunication)
                        },
                    }
                }),
            },
    {
        let i = match self.find_instance_index(uuid) {
            None => {
                return Err(
                    Error::new(ErrorKind::NotFound, "Instance with id does not exist".to_owned()),
                );
            },
            Some(i) => i,
        };
        self.instances[i].send_command(command)
    }

    /// The runtime reports how a spawn went; refused unless the instance
    /// is `Starting` without a live process.
    pub fn process_spawned(&mut self, uuid: &str, ok: bool, caused_by: CausedBy, now: i64) -> (r:
        Result<(), Error>)
        requires
            old(self).wf(),
        ensures
            final(self).wf(),
            same_surroundings(old(self), final(self)),
            match find_inst(old(self).instances(), uuid@) {
                None => {
                    &&& r matches Err(e) && e.kind == ErrorKind::NotFound
                    &&& *final(self) == *old(self)
                },
                Some(i) => ({
                    let pre = old(self).instances()[i];
                    match r {
                        Ok(_) => {
                            &&& pre.state == State::Starting
                            &&& !pre.process_alive
                            &&& final(self).instances() == old(self).instances().update(
                                i,
                                final(self).instances()[i],
                            )
                            &&& ({
                                let post = final(self).instances()[i];
                                &&& post.uuid == pre.uuid
                                &&& post.players == pre.players
                                &&& (ok ==> post.state == State::Starting && post.process_alive
                                    && post.stdin_open && post.config == (RestoreConfig {
                                    has_started: true,
                                    ..pre.config
                                }))
                                &&& (!ok ==> post.state == State::Stopped && !post.process_alive
                                    && !post.stdin_open && post.config == pre.config)
                            })
                            &&& (ok ==> final(self).events() == old(self).events())
                            &&& (!ok ==> final(self).events().len() == old(self).events().len() + 1
                                && final(self).events().subrange(
                                0,
                                old(self).events().len() as int,
                            ) == old(self).events() && crate::events::is_transition_event(
                                final(self).events().last(),
                                pre.uuid@,
                                pre.config.name@,
                                State::Stopped,
                            ))
                        },
                        Err(e) => {
                            &&& final(self).instances() == old(self).instances()
                            &&& final(self).events() == old(self).events()
                            &&& e.kind == ErrorKind::Conflict
                            &&& !(pre.state == State::Starting && !pre.process_alive)
                        },
                    }
                }),
            },
    {
        let i = match self.find_instance_index(uuid) {
            None => {
                return Err(
                    Error::new(ErrorKind::NotFound, "Instance with id does not exist".to_owned()),
                );
            },
            Some(i) => i,
        };
        if !matches!(self.instances[i].state(), State::Starting) || self.instances[i].process_alive
         {
            return Err(
                Error::new(ErrorKind::Conflict, "Instance is not waiting for a spawn".to_owned()),
            );
        }
        let ghost pre_inst = self.instances@;
        let mut inst = self.instances.remove(i);
        inst.process_spawned(ok, &mut self.bus, caused_by, now);
        let ghost inst_g = inst;
        self.instances.insert(i, inst);
        proof {
            lemma_remove_insert(pre_inst, i as int, inst_g);
            assert(self.instances@ =~= pre_inst.update(i as int, inst_g));
            lemma_replace_instance(
                pre_inst,
                self.instances@,
                i as int,
                self.pending@,
                &self.ports,
            );
        }
        Ok(())
    }

    /// The reader task hands over one line of process output; refused when
    /// no process is live.
    pub fn handle_line(&mut self, uuid: &str, line: &str, caused_by: CausedBy, now: i64) -> (r:
        Result<(), Error>)
        requires
            old(self).wf(),
        ensures
            final(self).wf(),
            same_surroundings(old(self), final(self)),
            match find_inst(old(self).instances(), uuid@) {
                None => {
                    &&& r matches Err(e) && e.kind == ErrorKind::NotFound
                    &&& *final(self) == *old(self)
                },
                Some(i) => ({
                    let pre = old(self).instances()[i];
                    match r {
                        Ok(_) => {
                            &&& pre.process_alive
                            &&& final(self).instances() == old(self).instances().update(
                                i,
                                final(self).instances()[i],
                            )
                            &&& ({
                                let post = final(self).instances()[i];
                                &&& post.uuid == pre.uuid
                                &&& post.config == pre.config
                                &&& post.process_alive == pre.process_alive
                                &&& post.stdin_open == pre.stdin_open
                                &&& post.did_start == (pre.did_start || crate::classifier::server_started_spec(line@))
                                &&& post.state == (if crate::classifier::server_started_spec(line@)
                                    && !pre.did_start && pre.state == State::Starting {
                                    State::Running
                                } else {
                                    pre.state
                                })
                            })
                            &&& final(self).events().len() >= old(self).events().len() + 1
                            &&& final(self).events().subrange(0, old(self).events().len() as int)
                                == old(self).events()
                            &&& crate::events::is_output_event(
                                final(self).events()[old(self).events().len() as int],
                                pre.uuid@,
                                pre.config.name@,
                                line@,
                            )
                        },
                        Err(e) => {
                            &&& final(self).instances() == old(self).instances()
                            &&& final(self).events() == old(self).events()
                            &&& e.kind == ErrorKind::Conflict
                            &&& !pre.process_alive
                        },
                    }
                }),
            },
    {
        let i = match self.find_instance_index(uuid) {
            None => {
                return Err(
                    Error::new(ErrorKind::NotFound, "Instance with id does not exist".to_owned()),
                );
            },
            Some(i) => i,
        };
        if !self.instances[i].process_alive {
            return Err(Error::new(ErrorKind::Conflict, "No process is running".to_owned()));
        }
        let ghost pre_inst = self.instances@;
        let mut inst = self.instances.remove(i);
        inst.handle_line(line, &mut self.bus, caused_by, now);
        let ghost inst_g = inst;
        self.instances.insert(i, inst);
        proof {
            lemma_remove_insert(pre_inst, i as int, inst_g);
            assert(self.instances@ =~= pre_inst.update(i as int, inst_g));
            lemma_replace_instance(
                pre_inst,
                self.instances@,
                i as int,
                self.pending@,
                &self.ports,
            );
        }
        Ok(())
    }

    /// The reader task reports end of stream: the roster is cleared and
    /// the instance settles to `Stopped`, announced on the bus; refused
    /// when no process is live.
    pub fn handle_eof(&mut self, uuid: &str, caused_by: CausedBy, now: i64) -> (r: Result<
        (),
        Error,
    >)
        requires
            old(self).wf(),
        ensures
            final(self).wf(),
            same_surroundings(old(self), final(self)),
            match find_inst(old(self).instances(), uuid@) {
                None => {
                    &&& r matches Err(e) && e.kind == ErrorKind::NotFound
                    &&& *final(self) == *old(self)
                },
                Some(i) => ({
                    let pre = old(self).instances()[i];
                    match r {
                        Ok(_) => {
                            &&& pre.process_alive
                            &&& final(self).instances() == old(self).instances().update(
                                i,
                                final(self).instances()[i],
                            )
                            &&& ({
                                let post = final(self).instances()[i];
                                &&& post.uuid == pre.uuid
                                &&& post.config == pre.config
                                &&& post.state == State::Stopped
                                &&& !post.process_alive
                                &&& !post.stdin_open
                                &&& post.players@.len() == 0
                            })
                            &&& final(self).events().len() == old(self).events().len() + 1
                            &&& final(self).events().subrange(0, old(self).events().len() as int)
                                == old(self).events()
                            &&& crate::events::is_transition_event(
                                final(self).events().last(),
                                pre.uuid@,
                                pre.config.name@,
                                State::Stopped,
                            )
                        },
                        Err(e) => {
                            &&& final(self).instances() == old(self).instances()
                            &&& final(self).events() == old(self).events()
                            &&& e.kind == ErrorKind::Conflict
                            &&& !pre.process_alive
                        },
                    }
                }),
            },
    {
        let i = match self.find_instance_index(uuid) {
            None => {
                return Err(
                    Error::new(ErrorKind::NotFound, "Instance with id does not exist".to_owned()),
                );
            },
            Some(i) => i,
        };
        if !self.instances[i].process_alive {
            return Err(Error::new(ErrorKind::Conflict, "No process is running".to_owned()));
        }
        let ghost pre_inst = self.instances@;
        let mut inst = self.instances.remove(i);
        inst.handle_eof(&mut self.bus, caused_by, now);
        let ghost inst_g = inst;
        self.instances.insert(i, inst);
        proof {
            lemma_remove_insert(pre_inst, i as int, inst_g);
            assert(self.instances@ =~= pre_inst.update(i as int, inst_g));
            lemma_replace_instance(
                pre_inst,
                self.instances@,
                i as int,
                self.pending@,
                &self.ports,
            );
        }
        Ok(())
    }
}


/// After an admitted creation the new instance's port is in the in-use
/// set: the premise is exactly what `create_named` ensures of the
/// reservation set on success.
pub proof fn lemma_create_reserves_port(pre: &Registry, post: &Registry, port: u32)
    requires
        forall|q: u32| post.port_in_use(q) == (pre.port_in_use(q) || q == port),
    ensures
        post.port_in_use(port),
{
}

/// After a successful removal the removed instance's port is absent from
/// the in-use set: the premise is exactly what `remove_instance` ensures
/// of the reservation set on success.
pub proof fn lemma_remove_frees_port(pre: &Registry, post: &Registry, port: u32)
    requires
        forall|q: u32| post.port_in_use(q) == (pre.port_in_use(q) && q != port),
    ensures
        !post.port_in_use(port),
{
}

/// Once a creation was admitted its name is taken, so a second creation
/// request with the same sanitized name is refused with a conflict and
/// changes nothing — that refusal is `create_named`'s contract; this
/// lemma supplies its premise from the first creation's outcome.
pub proof fn lemma_create_makes_name_taken(pre: &Registry, post: &Registry)
    requires
        post.pending_list().len() == pre.pending_list().len() + 1,
        post.pending_list().subrange(0, pre.pending_list().len() as int) == pre.pending_list(),
    ensures
        post.name_taken(post.pending_list().last().config.name@),
{
    let n = post.pending_list().last().config.name@;
    assert(post.pending_list()[post.pending_list().len() - 1].config.name@ == n);
    assert(pend_name_present(post.pending_list(), n));
}

/// A registered instance's name is taken; together with
/// `complete_create`'s contract this carries the name conflict across the
/// move from pending to registered.
pub proof fn lemma_registered_name_is_taken(reg: &Registry, i: int)
    requires
        0 <= i < reg.instances().len(),
    ensures
        reg.name_taken(reg.instances()[i].config.name@),
{
    assert(inst_name_present(reg.instances(), reg.instances()[i].config.name@));
}

impl Registry {
    /// The lifecycle state of an instance.
    pub fn get_instance_state(&self, uuid: &str) -> (r: Result<State, Error>)
        ensures
            match find_inst(self.instances(), uuid@) {
                None => r matches Err(e) && e.kind == ErrorKind::NotFound,
                Some(i) => r matches Ok(s) && s == self.instances()[i].state,
            },
    {
        match self.find_instance_index(uuid) {
            None => Err(
                Error::new(ErrorKind::NotFound, "Instance with id does not exist".to_owned()),
            ),
            Some(i) => Ok(self.instances[i].state()),
        }
    }

    /// The name of an instance.
    pub fn get_instance_name(&self, uuid: &str) -> (r: Result<String, Error>)
        ensures
            match find_inst(self.instances(), uuid@) {
                None => r matches Err(e) && e.kind == ErrorKind::NotFound,
                Some(i) => r matches Ok(n) && n == self.instances()[i].config.name,
            },
    {
        match self.find_instance_index(uuid) {
            None => Err(
                Error::new(ErrorKind::NotFound, "Instance with id does not exist".to_owned()),
            ),
            Some(i) => Ok(self.instances[i].name().clone()),
        }
    }

    /// The description of an instance.
    pub fn get_instance_description(&self, uuid: &str) -> (r: Result<String, Error>)
        ensures
            match find_inst(self.instances(), uuid@) {
                None => r matches Err(e) && e.kind == ErrorKind::NotFound,
                Some(i) => r matches Ok(d) && d == self.instances()[i].config.description,
            },
    {
        match self.find_instance_index(uuid) {
            None => Err(
                Error::new(ErrorKind::NotFound, "Instance with id does not exist".to_owned()),
            ),
            Some(i) => Ok(self.instances[i].description().clone()),
        }
    }

    /// The configured port of an instance.
    pub fn get_instance_port(&self, uuid: &str) -> (r: Result<u32, Error>)
        ensures
            match find_inst(self.instances(), uuid@) {
                None => r matches Err(e) && e.kind == ErrorKind::NotFound,
                Some(i) => r matches Ok(p) && p == self.instances()[i].config.port,
            },
    {
        match self.find_instance_index(uuid) {
            None => Err(
                Error::new(ErrorKind::NotFound, "Instance with id does not exist".to_owned()),
            ),
            Some(i) => Ok(self.instances[i].port()),
        }
    }

    /// How many players are on an instance.
    pub fn get_player_count(&self, uuid: &str) -> (r: Result<usize, Error>)
        ensures
            match find_inst(self.instances(), uuid@) {
                None => r matches Err(e) && e.kind == ErrorKind::NotFound,
                Some(i) => r matches Ok(c) && c == self.instances()[i].players@.len(),
            },
    {
        match self.find_instance_index(uuid) {
            None => Err(
                Error::new(ErrorKind::NotFound, "Instance with id does not exist".to_owned()),
            ),
            Some(i) => Ok(self.instances[i].get_player_count()),
        }
    }

    /// A copy of an instance's player roster.
    pub fn get_player_list(&self, uuid: &str) -> (r: Result<Vec<MinecraftJavaPlayer>, Error>)
        ensures
            match find_inst(self.instances(), uuid@) {
                None => r matches Err(e) && e.kind == ErrorKind::NotFound,
                Some(i) => r matches Ok(ps) && ps@ == self.instances()[i].players@,
            },
    {
        match self.find_instance_index(uuid) {
            None => Err(
                Error::new(ErrorKind::NotFound, "Instance with id does not exist".to_owned()),
            ),
            Some(i) => Ok(self.instances[i].get_player_list()),
        }
    }

    /// The snapshot row for one instance.
    pub fn instance_info(&self, uuid: &str) -> (r: Result<InstanceInfo, Error>)
        ensures
            match find_inst(self.instances(), uuid@) {
                None => r matches Err(e) && e.kind == ErrorKind::NotFound,
                Some(i) => ({
                    let inst = self.instances()[i];
                    r matches Ok(info) && info.uuid == inst.uuid && info.name == inst.config.name
                        && info.description == inst.config.description && info.port
                        == inst.config.port && info.creation_time == inst.creation_time
                        && info.state == inst.state && info.player_count == inst.players@.len()
                }),
            },
    {
        match self.find_instance_index(uuid) {
            None => Err(
                Error::new(ErrorKind::NotFound, "Instance with id does not exist".to_owned()),
            ),
            Some(i) => {
                let inst = &self.instances[i];
                Ok(
                    InstanceInfo {
                        uuid: inst.uuid().clone(),
                        name: inst.name().clone(),
                        description: inst.description().clone(),
                        port: inst.port(),
                        creation_time: inst.creation_time(),
                        state: inst.state(),
                        player_count: inst.get_player_count(),
                    },
                )
            },
        }
    }

    /// A stable snapshot of every registered instance, in creation-time
    /// order.
    pub fn list_instance(&self) -> (r: Vec<InstanceInfo>)
        requires
            self.wf(),
        ensures
            r@.len() == self.instances().len(),
            forall|i: int|
                0 <= i < r@.len() ==> {
                    let inst = self.instances()[i];
                    (#[trigger] r@[i]).uuid == inst.uuid && r@[i].name == inst.config.name
                        && r@[i].description == inst.config.description && r@[i].port
                        == inst.config.port && r@[i].creation_time == inst.creation_time
                        && r@[i].state == inst.state && r@[i].player_count == inst.players@.len()
                },
            forall|i: int, j: int|
                #![trigger r@[i].creation_time, r@[j].creation_time]
                0 <= i < j < r@.len() ==> r@[i].creation_time <= r@[j].creation_time,
    {
        let mut out: Vec<InstanceInfo> = Vec::new();
        let mut k: usize = 0;
        while k < self.instances.len()
            invariant
                self.wf(),
                k <= self.instances@.len(),
                out@.len() == k,
                forall|i: int|
                    0 <= i < k ==> {
                        let inst = self.instances@[i];
                        (#[trigger] out@[i]).uuid == inst.uuid && out@[i].name == inst.config.name
                            && out@[i].description == inst.config.description && out@[i].port
                            == inst.config.port && out@[i].creation_time == inst.creation_time
                            && out@[i].state == inst.state && out@[i].player_count
                            == inst.players@.len()
                    },
            decreases self.instances@.len() - k,
        {
            let inst = &self.instances[k];
            out.push(
                InstanceInfo {
                    uuid: inst.uuid().clone(),
                    name: inst.name().clone(),
                    description: inst.description().clone(),
                    port: inst.port(),
                    creation_time: inst.creation_time(),
                    state: inst.state(),
                    player_count: inst.get_player_count(),
                },
            );
            k = k + 1;
        }
        out
    }

    /// Whether another instance or a pending creation holds this name.
    fn name_taken_by_other(&self, name: &str, me: usize) -> (r: bool)
        requires
            me < self.instances().len(),
        ensures
            r == (pend_name_present(self.pending_list(), name@) || exists|k: int|
                0 <= k < self.instances().len() && k != me && (#[trigger] self.instances()[k]).config.name@
                    == name@),
    {
        let mut k: usize = 0;
        while k < self.instances.len()
            invariant
                me < self.instances@.len(),
                k <= self.instances@.len(),
                forall|j: int|
                    0 <= j < k && j != me ==> (#[trigger] self.instances@[j]).config.name@ != name@,
            decreases self.instances@.len() - k,
        {
            if k != me && str_eq(self.instances[k].name().as_str(), name) {
                return true;
            }
            k = k + 1;
        }
        let mut k2: usize = 0;
        while k2 < self.pending.len()
            invariant
                k2 <= self.pending@.len(),
                forall|j: int|
                    0 <= j < self.instances@.len() && j != me ==> (#[trigger] self.instances@[j]).config.name@
                        != name@,
                forall|j: int| 0 <= j < k2 ==> (#[trigger] self.pending@[j]).config.name@ != name@,
            decreases self.pending@.len() - k2,
        {
            if str_eq(self.pending[k2].config.name.as_str(), name) {
                return true;
            }
            k2 = k2 + 1;
        }
        false
    }

    /// Rename an instance. The new name must be valid and not carried by
    /// any other instance or pending creation; otherwise `Conflict` and
    /// nothing changes.
    pub fn set_instance_name(&mut self, uuid: &str, name: String) -> (r: Result<(), Error>)
        requires
            old(self).wf(),
        ensures
            final(self).wf(),
            same_surroundings(old(self), final(self)),
            final(self).events() == old(self).events(),
            match find_inst(old(self).instances(), uuid@) {
                None => {
                    &&& r matches Err(e) && e.kind == ErrorKind::NotFound
                    &&& *final(self) == *old(self)
                },
                Some(i) => ({
                    let pre = old(self).instances()[i];
                    match r {
                        Ok(_) => {
                            &&& valid_name(name@)
                            &&& final(self).instances() == old(self).instances().update(
                                i,
                                final(self).instances()[i],
                            )
                            &&& final(self).instances()[i] == (Instance {
                                config: RestoreConfig { name: name, ..pre.config },
                                ..pre
                            })
                        },
                        Err(e) => {
                            &&& final(self).instances() == old(self).instances()
                            &&& e.kind == ErrorKind::Conflict
                            &&& (!valid_name(name@) || pend_name_present(
                                old(self).pending_list(),
                                name@,
                            ) || exists|k: int|
                                0 <= k < old(self).instances().len() && k != i && (
                                #[trigger] old(self).instances()[k]).config.name@ == name@)
                        },
                    }
                }),
            },
    {
        let i = match self.find_instance_index(uuid) {
            None => {
                return Err(
                    Error::new(ErrorKind::NotFound, "Instance with id does not exist".to_owned()),
                );
            },
            Some(i) => i,
        };
        let len = name.as_str().unicode_len();
        if len == 0 || len > 100 {
            return Err(Error::new(ErrorKind::Conflict, "Name is not valid".to_owned()));
        }
        if self.name_taken_by_other(name.as_str(), i) {
            return Err(
                Error::new(ErrorKind::Conflict, "Instance with name already exists".to_owned()),
            );
        }
        let ghost pre_inst = self.instances@;
        let mut inst = self.instances.remove(i);
        let rename = inst.set_name(name);
        proof {
            assert(rename is Ok);
        }
        let ghost inst_g = inst;
        self.instances.insert(i, inst);
        proof {
            lemma_remove_insert(pre_inst, i as int, inst_g);
            let post = self.instances@;
            assert(post =~= pre_inst.update(i as int, inst_g));
            assert forall|k: int|
                0 <= k < post.len() implies (#[trigger] post[k]).wf() && valid_name(
                post[k].config.name@,
            ) by {
                assert(pre_inst[k].wf() && valid_name(pre_inst[k].config.name@));
            }
            assert forall|k: int, l: int|
                #![trigger post[k], post[l]]
                0 <= k < l < post.len() implies post[k].uuid@ != post[l].uuid@ && post[k].config.name@
                != post[l].config.name@ && post[k].reserved_port != post[l].reserved_port by {
                assert(pre_inst[k].uuid@ != pre_inst[l].uuid@ && pre_inst[k].config.name@
                    != pre_inst[l].config.name@ && pre_inst[k].reserved_port
                    != pre_inst[l].reserved_port);
                if k == i {
                    assert(pre_inst[l].config.name@ != inst_g.config.name@);
                } else if l == i {
                    assert(pre_inst[k].config.name@ != inst_g.config.name@);
                }
            }
            assert forall|k: int, l: int|
                #![trigger post[k].creation_time, post[l].creation_time]
                0 <= k < l < post.len() implies post[k].creation_time
                <= post[l].creation_time by {
                assert(pre_inst[k].creation_time <= pre_inst[l].creation_time);
            }
            assert forall|k: int, l: int|
                #![trigger post[k], self.pending@[l]]
                0 <= k < post.len() && 0 <= l < self.pending@.len() implies post[k].uuid@
                != self.pending@[l].uuid@ && post[k].config.name@ != self.pending@[l].config.name@
                && post[k].reserved_port != self.pending@[l].reserved_port by {
                assert(pre_inst[k].uuid@ != self.pending@[l].uuid@ && pre_inst[k].config.name@
                    != self.pending@[l].config.name@ && pre_inst[k].reserved_port
                    != self.pending@[l].reserved_port);
                if k == i {
                    assert(!pend_name_present(self.pending@, inst_g.config.name@));
                    if self.pending@[l].config.name@ == inst_g.config.name@ {
                        assert(pend_name_present(self.pending@, inst_g.config.name@));
                    }
                }
            }
            assert forall|p: u32| #[trigger]
                self.ports.spec_in_use(p) <==> (inst_port_present(post, p) || pend_port_present(
                self.pending@,
                p,
            )) by {
                if inst_port_present(pre_inst, p) {
                    let w = choose|w: int|
                        0 <= w < pre_inst.len() && pre_inst[w].reserved_port == p;
                    assert(post[w].reserved_port == p);
                }
                if inst_port_present(post, p) {
                    let w = choose|w: int| 0 <= w < post.len() && post[w].reserved_port == p;
                    assert(pre_inst[w].reserved_port == p);
                }
            }
        }
        Ok(())
    }

    /// Replace an instance's description.
    pub fn set_instance_description(&mut self, uuid: &str, description: String) -> (r: Result<
        (),
        Error,
    >)
        requires
            old(self).wf(),
        ensures
            final(self).wf(),
            same_surroundings(old(self), final(self)),
            final(self).events() == old(self).events(),
            match find_inst(old(self).instances(), uuid@) {
                None => {
                    &&& r matches Err(e) && e.kind == ErrorKind::NotFound
                    &&& *final(self) == *old(self)
                },
                Some(i) => ({
                    let pre = old(self).instances()[i];
                    &&& r is Ok
                    &&& final(self).instances() == old(self).instances().update(
                        i,
                        final(self).instances()[i],
                    )
                    &&& final(self).instances()[i] == (Instance {
                        config: RestoreConfig { description: description, ..pre.config },
                        ..pre
                    })
                }),
            },
    {
        let i = match self.find_instance_index(uuid) {
            None => {
                return Err(
                    Error::new(ErrorKind::NotFound, "Instance with id does not exist".to_owned()),
                );
            },
            Some(i) => i,
        };
        let ghost pre_inst = self.instances@;
        let mut inst = self.instances.remove(i);
        inst.set_description(description);
        let ghost inst_g = inst;
        self.instances.insert(i, inst);
        proof {
            lemma_remove_insert(pre_inst, i as int, inst_g);
            assert(self.instances@ =~= pre_inst.update(i as int, inst_g));
            lemma_replace_instance(
                pre_inst,
                self.instances@,
                i as int,
                self.pending@,
                &self.ports,
            );
        }
        Ok(())
    }

    /// Change an instance's configured port. Only the configuration moves:
    /// the reservation made at creation stays as it is, and the start
    /// admission check compares the two.
    pub fn set_instance_port(&mut self, uuid: &str, port: u32) -> (r: Result<(), Error>)
        requires
            old(self).wf(),
        ensures
            final(self).wf(),
            same_surroundings(old(self), final(self)),
            final(self).events() == old(self).events(),
            match find_inst(old(self).instances(), uuid@) {
                None => {
                    &&& r matches Err(e) && e.kind == ErrorKind::NotFound
                    &&& *final(self) == *old(self)
                },
                Some(i) => ({
                    let pre = old(self).instances()[i];
                    &&& r is Ok
                    &&& final(self).instances() == old(self).instances().update(
                        i,
                        final(self).instances()[i],
                    )
                    &&& final(self).instances()[i] == (Instance {
                        config: RestoreConfig { port: port, ..pre.config },
                        ..pre
                    })
                }),
            },
    {
        let i = match self.find_instance_index(uuid) {
            None => {
                return Err(
                    Error::new(ErrorKind::NotFound, "Instance with id does not exist".to_owned()),
                );
            },
            Some(i) => i,
        };
        let ghost pre_inst = self.instances@;
        let mut inst = self.instances.remove(i);
        inst.config.port = port;
        let ghost inst_g = inst;
        self.instances.insert(i, inst);
        proof {
            lemma_remove_insert(pre_inst, i as int, inst_g);
            assert(self.instances@ =~= pre_inst.update(i as int, inst_g));
            lemma_replace_instance(
                pre_inst,
                self.instances@,
                i as int,
                self.pending@,
                &self.ports,
            );
        }
        Ok(())
    }
}

} // verus!
