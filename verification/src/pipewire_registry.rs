//! The registry state manager: the authoritative in-memory mirror of the
//! session graph.
//!
//! One owner mutates these collections, one domain event at a time; queries
//! read full snapshot copies.  Nodes, devices, applications and links are
//! append-only in arrival order.  Ports are keyed by the composite identity
//! (direction, node id, port id): the collection is kept strictly sorted by
//! that identity, and a later event with an identity already present
//! replaces the earlier entry (last write wins).

pub mod entities;

use vstd::prelude::*;
use vstd::pervasive::VecAdditionalExecFns;
use crate::pipewire_event_consumer::{
    PipewireApplicationUpdate, PipewireDeviceUpdate, PipewireLinkUpdate, PipewireNodeUpdate,
    PipewirePortUpdate, PipewireUpdateEvent,
};
use crate::pipewire_registry::entities::{
    dir_rank, spec_application_from_update, spec_device_from_update, spec_link_from_update,
    spec_node_from_update, spec_port_from_update,
};

pub use crate::pipewire_registry::entities::{
    Application, Device, Link, Node, Port, PortDirection,
};

verus! {

/// Strict order on port identities: direction-major, then node id, then
/// port id, all ascending.
pub open spec fn key_lt(a: Port, b: Port) -> bool {
    ||| dir_rank(a.direction) < dir_rank(b.direction)
    ||| (dir_rank(a.direction) == dir_rank(b.direction) && a.node_id < b.node_id)
    ||| (dir_rank(a.direction) == dir_rank(b.direction) && a.node_id == b.node_id && a.id < b.id)
}

/// Whether two ports share the composite identity (direction, node id,
/// port id).
pub open spec fn key_eq(a: Port, b: Port) -> bool {
    a.direction == b.direction && a.node_id == b.node_id && a.id == b.id
}

/// The port collection is strictly ascending by identity; in particular no
/// two entries share an identity.
pub open spec fn ports_sorted(s: Seq<Port>) -> bool {
    forall|i: int, j: int| 0 <= i < j < s.len() ==> key_lt(#[trigger] s[i], #[trigger] s[j])
}

/// Upsert of `p` into the identity-sorted port sequence `s`: the entry
/// sharing `p`'s identity is replaced by `p`, or `p` is inserted at its
/// ordered position.
pub open spec fn upsert_spec(s: Seq<Port>, p: Port) -> Seq<Port>
    decreases s.len(),
{
    if s.len() == 0 {
        seq![p]
    } else if key_lt(p, s[0]) {
        seq![p] + s
    } else if key_eq(p, s[0]) {
        seq![p] + s.drop_first()
    } else {
        seq![s[0]] + upsert_spec(s.drop_first(), p)
    }
}

/// Identities are totally ordered: ports that are unordered by `key_lt`
/// share their identity.
pub proof fn lemma_key_trichotomy(a: Port, b: Port)
    ensures
        key_lt(a, b) || key_lt(b, a) || key_eq(a, b),
{
    if dir_rank(a.direction) == dir_rank(b.direction) {
        match a.direction {
            PortDirection::In => {
                assert(b.direction == PortDirection::In);
            },
            PortDirection::Out => {
                assert(b.direction == PortDirection::Out);
            },
            PortDirection::Unknown => {
                assert(b.direction == PortDirection::Unknown);
            },
        }
    }
}

/// Where the first `i` entries of `s` order strictly below `p` and entry
/// `i`, if any, does not, the upsert is an update in place at `i` when the
/// identities meet there and an insertion at `i` otherwise.
proof fn lemma_upsert_at(s: Seq<Port>, p: Port, i: int)
    requires
        0 <= i <= s.len(),
        forall|j: int| 0 <= j < i ==> key_lt(#[trigger] s[j], p),
        i < s.len() ==> !key_lt(s[i], p),
    ensures
        i < s.len() && key_eq(s[i], p) ==> upsert_spec(s, p) == s.update(i, p),
        !(i < s.len() && key_eq(s[i], p)) ==> upsert_spec(s, p) == s.insert(i, p),
    decreases s.len(),
{
    if i == 0 {
        if s.len() == 0 {
            assert(upsert_spec(s, p) =~= s.insert(0, p));
        } else if key_lt(p, s[0]) {
            assert(upsert_spec(s, p) =~= s.insert(0, p));
        } else {
            lemma_key_trichotomy(s[0], p);
            assert(key_eq(s[0], p));
            assert(upsert_spec(s, p) =~= s.update(0, p));
        }
    } else {
        let t = s.drop_first();
        assert(forall|j: int| 0 <= j < i - 1 ==> key_lt(#[trigger] t[j], p));
        lemma_upsert_at(t, p, i - 1);
        assert(key_lt(s[0], p));
        if i < s.len() && key_eq(s[i], p) {
            assert(upsert_spec(s, p) == seq![s[0]] + upsert_spec(t, p));
            assert(upsert_spec(s, p) =~= s.update(i, p));
        } else {
            assert(upsert_spec(s, p) == seq![s[0]] + upsert_spec(t, p));
            assert(upsert_spec(s, p) =~= s.insert(i, p));
        }
    }
}

/// Upsert keeps the port collection strictly sorted by identity.
proof fn lemma_upsert_sorted_at(s: Seq<Port>, p: Port, i: int)
    requires
        ports_sorted(s),
        0 <= i <= s.len(),
        forall|j: int| 0 <= j < i ==> key_lt(#[trigger] s[j], p),
        i < s.len() ==> !key_lt(s[i], p),
    ensures
        ports_sorted(upsert_spec(s, p)),
{
    lemma_upsert_at(s, p, i);
    if i < s.len() && key_eq(s[i], p) {
        let r = s.update(i, p);
        assert forall|x: int, y: int| 0 <= x < y < r.len() implies key_lt(r[x], r[y]) by {
            if y == i {
                assert(key_lt(s[x], p));
            } else if x == i {
                assert(key_lt(s[i], s[y]));
            }
        }
    } else {
        if i < s.len() {
            lemma_key_trichotomy(s[i], p);
            assert(key_lt(p, s[i]));
        }
        let r = s.insert(i, p);
        s.insert_ensures(i, p);
        assert forall|x: int, y: int| 0 <= x < y < r.len() implies key_lt(r[x], r[y]) by {
            if x < i && y == i {
                assert(r[x] == s[x]);
            } else if x == i && y > i {
                assert(r[y] == s[y - 1]);
                if i < s.len() && y - 1 > i {
                    assert(key_lt(s[i], s[y - 1]));
                }
            } else if x < i && y > i {
                assert(r[x] == s[x] && r[y] == s[y - 1]);
            } else if x > i && y > i {
                assert(r[x] == s[x - 1] && r[y] == s[y - 1]);
            }
        }
    }
}

/// The position of `p`'s identity in the sorted sequence `s`: the index of
/// the first entry that does not order strictly below `p`.
pub open spec fn upsert_pos(s: Seq<Port>, p: Port) -> int
    decreases s.len(),
{
    if s.len() == 0 {
        0
    } else if key_lt(s[0], p) {
        1 + upsert_pos(s.drop_first(), p)
    } else {
        0
    }
}

/// Bounds and meaning of `upsert_pos`.
pub proof fn lemma_upsert_pos(s: Seq<Port>, p: Port)
    ensures
        0 <= upsert_pos(s, p) <= s.len(),
        forall|j: int| 0 <= j < upsert_pos(s, p) ==> key_lt(#[trigger] s[j], p),
        upsert_pos(s, p) < s.len() ==> !key_lt(s[upsert_pos(s, p)], p),
    decreases s.len(),
{
    if s.len() > 0 && key_lt(s[0], p) {
        let t = s.drop_first();
        lemma_upsert_pos(t, p);
        assert(forall|j: int| 1 <= j < upsert_pos(s, p) ==> s[j] == t[j - 1]);
    }
}

/// Upsert semantics, last write wins: upserting two ports that share one
/// identity leaves the state that upserting only the second would have
/// left; the first write is overwritten entirely.
pub proof fn lemma_upsert_last_write_wins(s: Seq<Port>, p1: Port, p2: Port)
    requires
        ports_sorted(s),
        key_eq(p1, p2),
    ensures
        upsert_spec(upsert_spec(s, p1), p2) == upsert_spec(s, p2),
{
    let i = upsert_pos(s, p1);
    lemma_upsert_pos(s, p1);
    lemma_upsert_at(s, p1, i);
    lemma_upsert_at(s, p2, i);
    let r1 = upsert_spec(s, p1);
    if i < s.len() && key_eq(s[i], p1) {
        assert(r1 == s.update(i, p1));
        assert(forall|j: int| 0 <= j < i ==> key_lt(#[trigger] r1[j], p2));
        assert(key_eq(r1[i], p2));
        lemma_upsert_at(r1, p2, i);
        assert(upsert_spec(r1, p2) == r1.update(i, p2));
        assert(r1.update(i, p2) =~= s.update(i, p2));
    } else {
        assert(r1 == s.insert(i, p1));
        s.insert_ensures(i, p1);
        assert(forall|j: int| 0 <= j < i ==> key_lt(#[trigger] r1[j], p2));
        assert(key_eq(r1[i], p2));
        lemma_upsert_at(r1, p2, i);
        assert(upsert_spec(r1, p2) == r1.update(i, p2));
        assert(r1.update(i, p2) =~= s.insert(i, p2));
    }
}

/// After an upsert, `p` itself is present, exactly the entries of `s` whose
/// identity differs from `p`'s are kept unchanged, and every entry sharing
/// `p`'s identity is `p`: the collection holds exactly one entry per
/// identity ever upserted.
pub proof fn lemma_upsert_membership(s: Seq<Port>, p: Port)
    requires
        ports_sorted(s),
    ensures
        upsert_spec(s, p).contains(p),
        forall|j: int|
            0 <= j < upsert_spec(s, p).len() && key_eq(#[trigger] upsert_spec(s, p)[j], p)
                ==> upsert_spec(s, p)[j] == p,
        forall|j: int|
            0 <= j < upsert_spec(s, p).len() && !key_eq(#[trigger] upsert_spec(s, p)[j], p)
                ==> s.contains(upsert_spec(s, p)[j]),
{
    let i = upsert_pos(s, p);
    lemma_upsert_pos(s, p);
    lemma_upsert_at(s, p, i);
    let r = upsert_spec(s, p);
    if i < s.len() && key_eq(s[i], p) {
        assert(r == s.update(i, p));
        assert(r[i] == p);
        assert(r.contains(p));
        assert forall|j: int| 0 <= j < r.len() && key_eq(r[j], p) implies r[j] == p by {
            if j != i {
                assert(r[j] == s[j]);
                if j < i {
                    assert(key_lt(s[j], s[i]));
                } else {
                    assert(key_lt(s[i], s[j]));
                }
            }
        }
        assert forall|j: int| 0 <= j < r.len() && !key_eq(r[j], p) implies s.contains(r[j]) by {
            assert(r[j] == s[j]);
        }
    } else {
        assert(r == s.insert(i, p));
        s.insert_ensures(i, p);
        assert(r[i] == p);
        assert(r.contains(p));
        if i < s.len() {
            lemma_key_trichotomy(s[i], p);
        }
        assert forall|j: int| 0 <= j < r.len() && key_eq(r[j], p) implies r[j] == p by {
            if j < i {
                assert(r[j] == s[j]);
            } else if j > i {
                assert(r[j] == s[j - 1]);
                if j - 1 > i - 1 && i < s.len() {
                    assert(key_lt(p, s[i]));
                    if j - 1 > i {
                        assert(key_lt(s[i], s[j - 1]));
                    }
                }
            }
        }
        assert forall|j: int| 0 <= j < r.len() && !key_eq(r[j], p) implies s.contains(r[j]) by {
            if j < i {
                assert(r[j] == s[j]);
            } else if j > i {
                assert(r[j] == s[j - 1]);
            }
        }
    }
}

/// The first port of `s` carrying `serial` as its object serial, in the
/// collection's (identity) order.
pub open spec fn find_port_by_serial(s: Seq<Port>, serial: u16) -> Option<Port>
    decreases s.len(),
{
    if s.len() == 0 {
        None
    } else if s[0].object_serial == serial {
        Some(s[0])
    } else {
        find_port_by_serial(s.drop_first(), serial)
    }
}

/// A port is found if and only if some entry carries the serial, and what
/// is found is such an entry.
pub proof fn lemma_find_port_characterization(s: Seq<Port>, serial: u16)
    ensures
        find_port_by_serial(s, serial) is Some <==> exists|i: int|
            0 <= i < s.len() && #[trigger] s[i].object_serial == serial,
        find_port_by_serial(s, serial) matches Some(p) ==> p.object_serial == serial
            && s.contains(p),
    decreases s.len(),
{
    if s.len() > 0 {
        if s[0].object_serial == serial {
        } else {
            let t = s.drop_first();
            lemma_find_port_characterization(t, serial);
            assert(forall|i: int| 0 <= i < t.len() ==> t[i] == s[i + 1]);
            if exists|i: int| 0 <= i < s.len() && #[trigger] s[i].object_serial == serial {
                let i = choose|i: int| 0 <= i < s.len() && #[trigger] s[i].object_serial == serial;
                assert(i > 0);
                assert(t[i - 1].object_serial == serial);
            }
            match find_port_by_serial(t, serial) {
                Some(p) => {
                    assert(t.contains(p));
                    let i = choose|i: int| 0 <= i < t.len() && t[i] == p;
                    assert(s[i + 1] == p);
                    assert(s.contains(p));
                },
                None => {},
            }
        }
    }
}

/// The authoritative store: one sequential owner folds domain events into
/// these collections and answers queries over them.
pub struct PipewireRegistry {
    pub ports: Vec<Port>,
    pub nodes: Vec<Node>,
    pub applications: Vec<Application>,
    pub devices: Vec<Device>,
    pub links: Vec<Link>,
}

impl PipewireRegistry {
    /// The registry's invariant: the port collection is strictly sorted by
    /// the composite identity.
    pub open spec fn well_formed(&self) -> bool {
        ports_sorted(self.ports@)
    }

    /// An empty registry.
    pub fn new() -> (r: PipewireRegistry)
        ensures
            r.well_formed(),
            r.ports@ == Seq::<Port>::empty(),
            r.nodes@ == Seq::<Node>::empty(),
            r.applications@ == Seq::<Application>::empty(),
            r.devices@ == Seq::<Device>::empty(),
            r.links@ == Seq::<Link>::empty(),
    {
        PipewireRegistry {
            ports: Vec::new(),
            nodes: Vec::new(),
            applications: Vec::new(),
            devices: Vec::new(),
            links: Vec::new(),
        }
    }

    /// Decides the registry's invariant at run time: whether the port
    /// collection is strictly sorted by identity.  Construction and event
    /// processing keep the invariant, so this is a guard for callers
    /// outside the verified library.
    pub fn is_well_formed(&self) -> (r: bool)
        ensures
            r == self.well_formed(),
    {
        let n = self.ports.len();
        if n == 0 {
            return true;
        }
        let mut i: usize = 0;
        while i + 1 < n
            invariant
                n == self.ports@.len(),
                0 < n,
                0 <= i < n,
                forall|a: int, b: int|
                    0 <= a < b <= i ==> key_lt(#[trigger] self.ports@[a], #[trigger] self.ports@[b]),
            decreases n - i,
        {
            if !port_key_lt_exec(&self.ports[i], &self.ports[i + 1]) {
                assert(!key_lt(self.ports@[i as int], self.ports@[i + 1 as int]));
                return false;
            }
            proof {
                assert forall|a: int| 0 <= a < i + 1 implies key_lt(
                    #[trigger] self.ports@[a],
                    self.ports@[i + 1 as int],
                ) by {
                    if a < i {
                        assert(key_lt(self.ports@[a], self.ports@[i as int]));
                    }
                }
            }
            i = i + 1;
        }
        true
    }

    /// Replaces the entry sharing `port`'s identity, or inserts `port` at
    /// its ordered position.
    fn upsert_port(&mut self, port: Port)
        requires
            old(self).well_formed(),
        ensures
            final(self).well_formed(),
            final(self).ports@ == upsert_spec(old(self).ports@, port),
            final(self).nodes@ == old(self).nodes@,
            final(self).applications@ == old(self).applications@,
            final(self).devices@ == old(self).devices@,
            final(self).links@ == old(self).links@,
    {
        let ghost s = self.ports@;
        let n = self.ports.len();
        let mut i: usize = 0;
        while i < n && port_key_lt_exec(&self.ports[i], &port)
            invariant
                n == self.ports@.len(),
                0 <= i <= n,
                self.ports@ == s,
                forall|j: int| 0 <= j < i ==> key_lt(#[trigger] s[j], port),
            decreases n - i,
        {
            i = i + 1;
        }
        proof {
            lemma_upsert_at(s, port, i as int);
            lemma_upsert_sorted_at(s, port, i as int);
        }
        if i < n && port_key_eq_exec(&self.ports[i], &port) {
            self.ports.set(i, port);
        } else {
            self.ports.insert(i, port);
        }
    }

    /// Folds one domain event into the registry: Port events upsert by
    /// identity, every other event appends its record in arrival order.
    pub fn process_pipewire_event(&mut self, event: PipewireUpdateEvent)
        requires
            old(self).well_formed(),
        ensures
            final(self).well_formed(),
            (match event {
                PipewireUpdateEvent::Link {
                    object_serial,
                    factory_id,
                    client_id,
                    output_port_id,
                    input_port_id,
                    output_node_id,
                    input_node_id,
                } => {
                    &&& final(self).links@ == old(self).links@.push(
                        spec_link_from_update(
                            (PipewireLinkUpdate {
                                object_serial,
                                factory_id,
                                client_id,
                                output_port_id,
                                input_port_id,
                                output_node_id,
                                input_node_id,
                            }),
                        ),
                    )
                    &&& final(self).nodes@ == old(self).nodes@
                    &&& final(self).applications@ == old(self).applications@
                    &&& final(self).devices@ == old(self).devices@
                    &&& final(self).ports@ == old(self).ports@
                },
                PipewireUpdateEvent::Node {
                    object_serial,
                    factory_id,
                    client_id,
                    client_api,
                    application_name,
                    node_name,
                    media_class,
                } => {
                    &&& final(self).nodes@ == old(self).nodes@.push(
                        spec_node_from_update(
                            (PipewireNodeUpdate {
                                object_serial,
                                factory_id,
                                client_id,
                                client_api,
                                application_name,
                                node_name,
                                media_class,
                            }),
                        ),
                    )
                    &&& final(self).links@ == old(self).links@
                    &&& final(self).applications@ == old(self).applications@
                    &&& final(self).devices@ == old(self).devices@
                    &&& final(self).ports@ == old(self).ports@
                },
                PipewireUpdateEvent::Device {
                    name,
                    factory_id,
                    client_id,
                    description,
                    nick,
                    media_class,
                    object_serial,
                } => {
                    &&& final(self).devices@ == old(self).devices@.push(
                        spec_device_from_update(
                            (PipewireDeviceUpdate {
                                name,
                                factory_id,
                                client_id,
                                description,
                                nick,
                                media_class,
                                object_serial,
                            }),
                        ),
                    )
                    &&& final(self).links@ == old(self).links@
                    &&& final(self).nodes@ == old(self).nodes@
                    &&& final(self).applications@ == old(self).applications@
                    &&& final(self).ports@ == old(self).ports@
                },
                PipewireUpdateEvent::Port {
                    id,
                    name,
                    direction,
                    physical,
                    alias,
                    group,
                    path,
                    dsp_format,
                    node_id,
                    audio_channel,
                    object_serial,
                } => {
                    &&& final(self).ports@ == upsert_spec(
                        old(self).ports@,
                        spec_port_from_update(
                            (PipewirePortUpdate {
                                id,
                                name,
                                direction,
                                physical,
                                alias,
                                group,
                                path,
                                dsp_format,
                                node_id,
                                audio_channel,
                                object_serial,
                            }),
                        ),
                    )
                    &&& final(self).links@ == old(self).links@
                    &&& final(self).nodes@ == old(self).nodes@
                    &&& final(self).applications@ == old(self).applications@
                    &&& final(self).devices@ == old(self).devices@
                },
                PipewireUpdateEvent::Application {
                    object_serial,
                    module_id,
                    pipewire_protocol,
                    pipewire_sec_pid,
                    pipewire_sec_uid,
                    pipewire_sec_gid,
                    pipewire_sec_socket,
                    pipewire_access,
                    name,
                } => {
                    &&& final(self).applications@ == old(self).applications@.push(
                        spec_application_from_update(
                            (PipewireApplicationUpdate {
                                object_serial,
                                module_id,
                                pipewire_protocol,
                                pipewire_sec_pid,
                                pipewire_sec_uid,
                                pipewire_sec_gid,
                                pipewire_sec_socket,
                                pipewire_access,
                                name,
                            }),
                        ),
                    )
                    &&& final(self).links@ == old(self).links@
                    &&& final(self).nodes@ == old(self).nodes@
                    &&& final(self).devices@ == old(self).devices@
                    &&& final(self).ports@ == old(self).ports@
                },
            }),
    {
        match event {
            PipewireUpdateEvent::Link {
                object_serial,
                factory_id,
                client_id,
                output_port_id,
                input_port_id,
                output_node_id,
                input_node_id,
            } => {
                let link = Link::from_pipewire_link_update(PipewireLinkUpdate {
                    object_serial,
                    factory_id,
                    client_id,
                    output_port_id,
                    input_port_id,
                    output_node_id,
                    input_node_id,
                });
                self.links.push(link);
            },
            PipewireUpdateEvent::Node {
                object_serial,
                factory_id,
                client_id,
                client_api,
                application_name,
                node_name,
                media_class,
            } => {
                let node = Node::from_pipewire_node_update(PipewireNodeUpdate {
                    object_serial,
                    factory_id,
                    client_id,
                    client_api,
                    application_name,
                    node_name,
                    media_class,
                });
                self.nodes.push(node);
            },
            PipewireUpdateEvent::Device {
                name,
                factory_id,
                client_id,
                description,
                nick,
                media_class,
                object_serial,
            } => {
                let device = Device::from_pipewire_device_update(PipewireDeviceUpdate {
                    name,
                    factory_id,
                    client_id,
                    description,
                    nick,
                    media_class,
                    object_serial,
                });
                self.devices.push(device);
            },
            PipewireUpdateEvent::Port {
                id,
                name,
                direction,
                physical,
                alias,
                group,
                path,
                dsp_format,
                node_id,
                audio_channel,
                object_serial,
            } => {
                let port = Port::from_pipewire_port_update(PipewirePortUpdate {
                    id,
                    name,
                    direction,
                    physical,
                    alias,
                    group,
                    path,
                    dsp_format,
                    node_id,
                    audio_channel,
                    object_serial,
                });
                self.upsert_port(port);
            },
            PipewireUpdateEvent::Application {
                object_serial,
                module_id,
                pipewire_protocol,
                pipewire_sec_pid,
                pipewire_sec_uid,
                pipewire_sec_gid,
                pipewire_sec_socket,
                pipewire_access,
                name,
            } => {
                let application = Application::from_pipewire_application_update(
                    PipewireApplicationUpdate {
                        object_serial,
                        module_id,
                        pipewire_protocol,
                        pipewire_sec_pid,
                        pipewire_sec_uid,
                        pipewire_sec_gid,
                        pipewire_sec_socket,
                        pipewire_access,
                        name,
                    },
                );
                self.applications.push(application);
            },
        }
    }
}

/// A query against the registry.  Each variant answers with the matching
/// `RegistryReply` variant.
pub enum PipewireRegistryRequests {
    GetDevicesList,
    GetNodesList,
    ListPorts,
    GetApplicationsList,
    GetPortByObjectSerial { object_serial: u16 },
    ListLinks,
}

/// The answer to a registry query: a full snapshot copy of the collection
/// asked for, or the port found by serial.
pub enum RegistryReply {
    Devices(Vec<Device>),
    Nodes(Vec<Node>),
    Ports(Vec<Port>),
    Applications(Vec<Application>),
    Port(Option<Port>),
    Links(Vec<Link>),
}

impl PipewireRegistry {
    /// A snapshot of the nodes, in arrival order.
    pub fn list_nodes(&self) -> (r: Vec<Node>)
        ensures
            r@ == self.nodes@,
    {
        let n = self.nodes.len();
        let mut r: Vec<Node> = Vec::new();
        let mut i: usize = 0;
        while i < n
            invariant
                n == self.nodes@.len(),
                0 <= i <= n,
                r@ == self.nodes@.take(i as int),
            decreases n - i,
        {
            r.push(self.nodes[i].duplicate());
            proof {
                assert(self.nodes@.take(i + 1 as int) =~= self.nodes@.take(i as int).push(
                    self.nodes@[i as int],
                ));
            }
            i = i + 1;
        }
        proof {
            assert(self.nodes@.take(n as int) =~= self.nodes@);
        }
        r
    }

    /// A snapshot of the devices, in arrival order.
    pub fn list_devices(&self) -> (r: Vec<Device>)
        ensures
            r@ == self.devices@,
    {
        let n = self.devices.len();
        let mut r: Vec<Device> = Vec::new();
        let mut i: usize = 0;
        while i < n
            invariant
                n == self.devices@.len(),
                0 <= i <= n,
                r@ == self.devices@.take(i as int),
            decreases n - i,
        {
            r.push(self.devices[i].duplicate());
            proof {
                assert(self.devices@.take(i + 1 as int) =~= self.devices@.take(i as int).push(
                    self.devices@[i as int],
                ));
            }
            i = i + 1;
        }
        proof {
            assert(self.devices@.take(n as int) =~= self.devices@);
        }
        r
    }

    /// A snapshot of the applications, in arrival order.
    pub fn list_applications(&self) -> (r: Vec<Application>)
        ensures
            r@ == self.applications@,
    {
        let n = self.applications.len();
        let mut r: Vec<Application> = Vec::new();
        let mut i: usize = 0;
        while i < n
            invariant
                n == self.applications@.len(),
                0 <= i <= n,
                r@ == self.applications@.take(i as int),
            decreases n - i,
        {
            r.push(self.applications[i].duplicate());
            proof {
                assert(self.applications@.take(i + 1 as int) =~= self.applications@.take(
                    i as int,
                ).push(self.applications@[i as int]));
            }
            i = i + 1;
        }
        proof {
            assert(self.applications@.take(n as int) =~= self.applications@);
        }
        r
    }

    /// A snapshot of the links, in arrival order.
    pub fn list_links(&self) -> (r: Vec<Link>)
        ensures
            r@ == self.links@,
    {
        let n = self.links.len();
        let mut r: Vec<Link> = Vec::new();
        let mut i: usize = 0;
        while i < n
            invariant
                n == self.links@.len(),
                0 <= i <= n,
                r@ == self.links@.take(i as int),
            decreases n - i,
        {
            r.push(self.links[i].duplicate());
            proof {
                assert(self.links@.take(i + 1 as int) =~= self.links@.take(i as int).push(
                    self.links@[i as int],
                ));
            }
            i = i + 1;
        }
        proof {
            assert(self.links@.take(n as int) =~= self.links@);
        }
        r
    }

    /// A snapshot of the ports, ascending by the composite identity
    /// (direction, node id, port id) whatever order their events arrived
    /// in.
    pub fn list_ports(&self) -> (r: Vec<Port>)
        requires
            self.well_formed(),
        ensures
            r@ == self.ports@,
            ports_sorted(r@),
    {
        let n = self.ports.len();
        let mut r: Vec<Port> = Vec::new();
        let mut i: usize = 0;
        while i < n
            invariant
                n == self.ports@.len(),
                0 <= i <= n,
                r@ == self.ports@.take(i as int),
            decreases n - i,
        {
            r.push(self.ports[i].duplicate());
            proof {
                assert(self.ports@.take(i + 1 as int) =~= self.ports@.take(i as int).push(
                    self.ports@[i as int],
                ));
            }
            i = i + 1;
        }
        proof {
            assert(self.ports@.take(n as int) =~= self.ports@);
        }
        r
    }

    /// The first port carrying `object_serial`, in identity order; `None`
    /// exactly when no stored port carries that serial.
    pub fn get_port_by_object_serial(&self, object_serial: u16) -> (r: Option<Port>)
        ensures
            r == find_port_by_serial(self.ports@, object_serial),
            r is Some <==> exists|i: int|
                0 <= i < self.ports@.len() && #[trigger] self.ports@[i].object_serial
                    == object_serial,
    {
        proof {
            lemma_find_port_characterization(self.ports@, object_serial);
            assert(self.ports@.skip(0) =~= self.ports@);
        }
        let n = self.ports.len();
        let mut i: usize = 0;
        while i < n
            invariant
                n == self.ports@.len(),
                0 <= i <= n,
                find_port_by_serial(self.ports@, object_serial) == find_port_by_serial(
                    self.ports@.skip(i as int),
                    object_serial,
                ),
            decreases n - i,
        {
            proof {
                assert(self.ports@.skip(i as int)[0] == self.ports@[i as int]);
            }
            if self.ports[i].object_serial == object_serial {
                return Some(self.ports[i].duplicate());
            }
            proof {
                assert(self.ports@.skip(i as int).drop_first() =~= self.ports@.skip(i as int + 1));
            }
            i = i + 1;
        }
        proof {
            assert(self.ports@.skip(n as int) =~= Seq::<Port>::empty());
        }
        None
    }

    /// Answers one query with a snapshot of the state at this moment; the
    /// state itself is not changed by any query.
    pub fn process_registry_request(&self, request: PipewireRegistryRequests) -> (r: RegistryReply)
        requires
            self.well_formed(),
        ensures
            (match request {
                PipewireRegistryRequests::GetDevicesList => r matches RegistryReply::Devices(d)
                    && d@ == self.devices@,
                PipewireRegistryRequests::GetNodesList => r matches RegistryReply::Nodes(ns)
                    && ns@ == self.nodes@,
                PipewireRegistryRequests::ListPorts => r matches RegistryReply::Ports(p) && p@
                    == self.ports@ && ports_sorted(p@),
                PipewireRegistryRequests::GetApplicationsList => r matches
                    RegistryReply::Applications(a) && a@ == self.applications@,
                PipewireRegistryRequests::GetPortByObjectSerial { object_serial } => r matches
                    RegistryReply::Port(p) && p == find_port_by_serial(
                    self.ports@,
                    object_serial,
                ),
                PipewireRegistryRequests::ListLinks => r matches RegistryReply::Links(l) && l@
                    == self.links@,
            }),
    {
        match request {
            PipewireRegistryRequests::GetDevicesList => RegistryReply::Devices(self.list_devices()),
            PipewireRegistryRequests::GetNodesList => RegistryReply::Nodes(self.list_nodes()),
            PipewireRegistryRequests::ListPorts => RegistryReply::Ports(self.list_ports()),
            PipewireRegistryRequests::GetApplicationsList => RegistryReply::Applications(
                self.list_applications(),
            ),
            PipewireRegistryRequests::GetPortByObjectSerial { object_serial } => RegistryReply::Port(
                self.get_port_by_object_serial(object_serial),
            ),
            PipewireRegistryRequests::ListLinks => RegistryReply::Links(self.list_links()),
        }
    }
}

/// Idempotent query: a query does not change the registry (it takes the
/// state by shared reference), so any two node listings taken from the same
/// state — in particular, repeated listings between events — are identical.
pub proof fn lemma_list_nodes_idempotent(reg: PipewireRegistry, r1: Seq<Node>, r2: Seq<Node>)
    requires
        r1 == reg.nodes@,
        r2 == reg.nodes@,
    ensures
        r1 == r2,
{
}

/// Rank of a direction as an executable value; agrees with `dir_rank`.
fn direction_rank(d: PortDirection) -> (r: u8)
    ensures
        r as int == dir_rank(d),
{
    match d {
        PortDirection::In => 0,
        PortDirection::Out => 1,
        PortDirection::Unknown => 2,
    }
}

/// Whether `a`'s identity orders strictly below `b`'s.
fn port_key_lt_exec(a: &Port, b: &Port) -> (r: bool)
    ensures
        r == key_lt(*a, *b),
{
    let ra = direction_rank(a.direction);
    let rb = direction_rank(b.direction);
    if ra < rb {
        true
    } else if ra > rb {
        false
    } else if a.node_id < b.node_id {
        true
    } else if a.node_id > b.node_id {
        false
    } else {
        a.id < b.id
    }
}

/// Whether `a` and `b` share their composite identity.
fn port_key_eq_exec(a: &Port, b: &Port) -> (r: bool)
    ensures
        r == key_eq(*a, *b),
{
    a.direction == b.direction && a.node_id == b.node_id && a.id == b.id
}

} // verus!
