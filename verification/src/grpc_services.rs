//! The service layer: builds the wire records the RPC surface exposes from
//! the registry's domain records.
//!
//! Marshalling performs only type narrowing — 16-bit identifiers widened to
//! 32-bit wire fields — and remaps the direction enum to its wire code.
//! The optional node-id filter of the port listing is applied at this
//! layer, after the registry's full snapshot, and the link-creation request
//! is built here as the fire-and-forget command the session loop executes.
//! The RPC transport itself, and the channels that carry these values,
//! live outside the library.

use vstd::prelude::*;
use crate::decimal::{dec_seq, u32_to_decimal};
use crate::pipewire_factory::PipewireFactoryRequest;
use crate::pipewire_registry::entities::{
    dir_rank, Application, Device, Link, Node, Port, PortDirection,
};

verus! {

/// The wire shape of a node.
#[derive(Debug, Clone, PartialEq, Eq)]
pub struct ListNode {
    pub object_serial: u32,
    pub factory_id: u32,
    pub client_id: u32,
    pub client_api: String,
    pub application_name: String,
    pub name: String,
    pub media_class: String,
}

/// The wire shape of a port; `direction` carries the wire code of the
/// direction enum.
#[derive(Debug, Clone, PartialEq, Eq)]
pub struct ListPort {
    pub id: u32,
    pub node_id: u32,
    pub name: String,
    pub direction: i32,
    pub physical: bool,
    pub alias: String,
    pub group: String,
    pub path: String,
    pub dsp_format: String,
    pub audio_channel: String,
    pub object_serial: u32,
}

/// The wire shape of an application.
#[derive(Debug, Clone, PartialEq, Eq)]
pub struct ListApplication {
    pub object_serial: u32,
    pub module_id: u32,
    pub pipewire_protocol: String,
    pub pipewire_sec_pid: String,
    pub pipewire_sec_uid: String,
    pub pipewire_sec_gid: String,
    pub pipewire_sec_socket: String,
    pub pipewire_access: String,
    pub name: String,
}

/// The wire shape of a device.
#[derive(Debug, Clone, PartialEq, Eq)]
pub struct ListDevice {
    pub factory_id: u32,
    pub object_serial: u32,
    pub client_id: u32,
    pub name: String,
    pub description: String,
    pub nick: String,
    pub media_class: String,
}

/// The wire shape of a link.
#[derive(Debug, Clone, PartialEq, Eq)]
pub struct ListLink {
    pub object_serial: u32,
    pub factory_id: u32,
    pub client_id: u32,
    pub output_port_id: u32,
    pub input_port_id: u32,
    pub output_node_id: u32,
    pub input_node_id: u32,
}

/// The wire code of a port direction: IN, OUT, UNKNOWN in that order.
pub open spec fn wire_direction(d: PortDirection) -> int {
    dir_rank(d)
}

/// The wire record of a node.
pub open spec fn wire_node(n: Node) -> ListNode {
    (ListNode {
        object_serial: n.object_serial as u32,
        factory_id: n.factory_id as u32,
        client_id: n.client_id as u32,
        client_api: n.client_api,
        application_name: n.application_name,
        name: n.node_name,
        media_class: n.media_class,
    })
}

/// The wire record of a port.
pub open spec fn wire_port(p: Port) -> ListPort {
    (ListPort {
        id: p.id as u32,
        node_id: p.node_id as u32,
        name: p.name,
        direction: wire_direction(p.direction) as i32,
        physical: p.physical,
        alias: p.alias,
        group: p.group,
        path: p.path,
        dsp_format: p.dsp_format,
        audio_channel: p.audio_channel,
        object_serial: p.object_serial as u32,
    })
}

/// The wire record of an application.
pub open spec fn wire_application(a: Application) -> ListApplication {
    (ListApplication {
        object_serial: a.object_serial as u32,
        module_id: a.module_id as u32,
        pipewire_protocol: a.pipewire_protocol,
        pipewire_sec_pid: a.pipewire_sec_pid,
        pipewire_sec_uid: a.pipewire_sec_uid,
        pipewire_sec_gid: a.pipewire_sec_gid,
        pipewire_sec_socket: a.pipewire_sec_socket,
        pipewire_access: a.pipewire_access,
        name: a.name,
    })
}

/// The wire record of a device.
pub open spec fn wire_device(d: Device) -> ListDevice {
    (ListDevice {
        factory_id: d.factory_id as u32,
        object_serial: d.object_serial as u32,
        client_id: d.client_id as u32,
        name: d.name,
        description: d.description,
        nick: d.nick,
        media_class: d.media_class,
    })
}

/// The wire record of a link.
pub open spec fn wire_link(l: Link) -> ListLink {
    (ListLink {
        object_serial: l.object_serial as u32,
        factory_id: l.factory_id as u32,
        client_id: l.client_id as u32,
        output_port_id: l.output_port_id as u32,
        input_port_id: l.input_port_id as u32,
        output_node_id: l.output_node_id as u32,
        input_node_id: l.input_node_id as u32,
    })
}

/// Whether a port passes the node-id filter `f`: its node id equals `f`
/// reduced to 16 bits, as the wire filter is narrowed to the stored width.
pub open spec fn node_id_pred(f: u32) -> spec_fn(Port) -> bool {
    |p: Port| p.node_id as int == f as int % 0x10000
}

/// The port listing the wire reply carries: every port of the snapshot, or
/// — under a node-id filter — exactly the ports whose node id equals the
/// filter reduced to 16 bits, kept in snapshot order.
pub open spec fn wire_ports(s: Seq<Port>, node_id_filter: Option<u32>) -> Seq<ListPort> {
    match node_id_filter {
        Some(f) => s.filter(node_id_pred(f)).map_values(|p: Port| wire_port(p)),
        None => s.map_values(|p: Port| wire_port(p)),
    }
}

/// The wire code of a direction, as an executable value.
fn direction_code(d: PortDirection) -> (r: i32)
    ensures
        r as int == wire_direction(d),
{
    match d {
        PortDirection::In => 0,
        PortDirection::Out => 1,
        PortDirection::Unknown => 2,
    }
}

/// Marshals one node.
pub fn node_to_wire(n: &Node) -> (r: ListNode)
    ensures
        r == wire_node(*n),
{
    ListNode {
        object_serial: n.object_serial as u32,
        factory_id: n.factory_id as u32,
        client_id: n.client_id as u32,
        client_api: n.client_api.clone(),
        application_name: n.application_name.clone(),
        name: n.node_name.clone(),
        media_class: n.media_class.clone(),
    }
}

/// Marshals one port.
pub fn port_to_wire(p: &Port) -> (r: ListPort)
    ensures
        r == wire_port(*p),
{
    ListPort {
        id: p.id as u32,
        node_id: p.node_id as u32,
        name: p.name.clone(),
        direction: direction_code(p.direction),
        physical: p.physical,
        alias: p.alias.clone(),
        group: p.group.clone(),
        path: p.path.clone(),
        dsp_format: p.dsp_format.clone(),
        audio_channel: p.audio_channel.clone(),
        object_serial: p.object_serial as u32,
    }
}

/// Marshals one application.
pub fn application_to_wire(a: &Application) -> (r: ListApplication)
    ensures
        r == wire_application(*a),
{
    ListApplication {
        object_serial: a.object_serial as u32,
        module_id: a.module_id as u32,
        pipewire_protocol: a.pipewire_protocol.clone(),
        pipewire_sec_pid: a.pipewire_sec_pid.clone(),
        pipewire_sec_uid: a.pipewire_sec_uid.clone(),
        pipewire_sec_gid: a.pipewire_sec_gid.clone(),
        pipewire_sec_socket: a.pipewire_sec_socket.clone(),
        pipewire_access: a.pipewire_access.clone(),
        name: a.name.clone(),
    }
}

/// Marshals one device.
pub fn device_to_wire(d: &Device) -> (r: ListDevice)
    ensures
        r == wire_device(*d),
{
    ListDevice {
        factory_id: d.factory_id as u32,
        object_serial: d.object_serial as u32,
        client_id: d.client_id as u32,
        name: d.name.clone(),
        description: d.description.clone(),
        nick: d.nick.clone(),
        media_class: d.media_class.clone(),
    }
}

/// Marshals one link.
pub fn link_to_wire(l: &Link) -> (r: ListLink)
    ensures
        r == wire_link(*l),
{
    ListLink {
        object_serial: l.object_serial as u32,
        factory_id: l.factory_id as u32,
        client_id: l.client_id as u32,
        output_port_id: l.output_port_id as u32,
        input_port_id: l.input_port_id as u32,
        output_node_id: l.output_node_id as u32,
        input_node_id: l.input_node_id as u32,
    }
}

/// Marshals a node snapshot into the wire reply, in order.
pub fn list_nodes_reply(nodes: &Vec<Node>) -> (r: Vec<ListNode>)
    ensures
        r@ == nodes@.map_values(|n: Node| wire_node(n)),
{
    let n = nodes.len();
    let mut r: Vec<ListNode> = Vec::new();
    let mut i: usize = 0;
    while i < n
        invariant
            n == nodes@.len(),
            0 <= i <= n,
            r@ == nodes@.take(i as int).map_values(|x: Node| wire_node(x)),
        decreases n - i,
    {
        r.push(node_to_wire(&nodes[i]));
        proof {
            assert(nodes@.take(i + 1 as int).map_values(|x: Node| wire_node(x)) =~= nodes@.take(
                i as int,
            ).map_values(|x: Node| wire_node(x)).push(wire_node(nodes@[i as int])));
        }
        i = i + 1;
    }
    proof {
        assert(nodes@.take(n as int) =~= nodes@);
    }
    r
}

/// Marshals a device snapshot into the wire reply, in order.
pub fn list_devices_reply(devices: &Vec<Device>) -> (r: Vec<ListDevice>)
    ensures
        r@ == devices@.map_values(|d: Device| wire_device(d)),
{
    let n = devices.len();
    let mut r: Vec<ListDevice> = Vec::new();
    let mut i: usize = 0;
    while i < n
        invariant
            n == devices@.len(),
            0 <= i <= n,
            r@ == devices@.take(i as int).map_values(|x: Device| wire_device(x)),
        decreases n - i,
    {
        r.push(device_to_wire(&devices[i]));
        proof {
            assert(devices@.take(i + 1 as int).map_values(|x: Device| wire_device(x))
                =~= devices@.take(i as int).map_values(|x: Device| wire_device(x)).push(
                wire_device(devices@[i as int]),
            ));
        }
        i = i + 1;
    }
    proof {
        assert(devices@.take(n as int) =~= devices@);
    }
    r
}

/// Marshals an application snapshot into the wire reply, in order.
pub fn list_applications_reply(applications: &Vec<Application>) -> (r: Vec<ListApplication>)
    ensures
        r@ == applications@.map_values(|a: Application| wire_application(a)),
{
    let n = applications.len();
    let mut r: Vec<ListApplication> = Vec::new();
    let mut i: usize = 0;
    while i < n
        invariant
            n == applications@.len(),
            0 <= i <= n,
            r@ == applications@.take(i as int).map_values(|x: Application| wire_application(x)),
        decreases n - i,
    {
        r.push(application_to_wire(&applications[i]));
        proof {
            assert(applications@.take(i + 1 as int).map_values(
                |x: Application| wire_application(x),
            ) =~= applications@.take(i as int).map_values(|x: Application| wire_application(x)).push(
                wire_application(applications@[i as int]),
            ));
        }
        i = i + 1;
    }
    proof {
        assert(applications@.take(n as int) =~= applications@);
    }
    r
}

/// Marshals a link snapshot into the wire reply, in order.
pub fn list_links_reply(links: &Vec<Link>) -> (r: Vec<ListLink>)
    ensures
        r@ == links@.map_values(|l: Link| wire_link(l)),
{
    let n = links.len();
    let mut r: Vec<ListLink> = Vec::new();
    let mut i: usize = 0;
    while i < n
        invariant
            n == links@.len(),
            0 <= i <= n,
            r@ == links@.take(i as int).map_values(|x: Link| wire_link(x)),
        decreases n - i,
    {
        r.push(link_to_wire(&links[i]));
        proof {
            assert(links@.take(i + 1 as int).map_values(|x: Link| wire_link(x)) =~= links@.take(
                i as int,
            ).map_values(|x: Link| wire_link(x)).push(wire_link(links@[i as int])));
        }
        i = i + 1;
    }
    proof {
        assert(links@.take(n as int) =~= links@);
    }
    r
}

/// Marshals a port snapshot into the wire reply, applying the optional
/// node-id filter at this layer; snapshot order — ascending by identity —
/// is kept.
pub fn list_ports_reply(ports: &Vec<Port>, node_id_filter: Option<u32>) -> (r: Vec<ListPort>)
    ensures
        r@ == wire_ports(ports@, node_id_filter),
{
    let n = ports.len();
    let mut r: Vec<ListPort> = Vec::new();
    let mut i: usize = 0;
    match node_id_filter {
        None => {
            while i < n
                invariant
                    n == ports@.len(),
                    0 <= i <= n,
                    r@ == ports@.take(i as int).map_values(|x: Port| wire_port(x)),
                decreases n - i,
            {
                r.push(port_to_wire(&ports[i]));
                proof {
                    assert(ports@.take(i + 1 as int).map_values(|x: Port| wire_port(x))
                        =~= ports@.take(i as int).map_values(|x: Port| wire_port(x)).push(
                        wire_port(ports@[i as int]),
                    ));
                }
                i = i + 1;
            }
            proof {
                assert(ports@.take(n as int) =~= ports@);
            }
            r
        },
        Some(f) => {
            let fm: u32 = f % 0x10000;
            while i < n
                invariant
                    n == ports@.len(),
                    fm == f % 0x10000,
                    0 <= i <= n,
                    r@ == ports@.take(i as int).filter(node_id_pred(f)).map_values(
                        |x: Port| wire_port(x),
                    ),
                decreases n - i,
            {
                proof {
                    reveal(Seq::filter);
                    assert(ports@.take(i + 1 as int).drop_last() =~= ports@.take(i as int));
                    assert(ports@.take(i + 1 as int).last() == ports@[i as int]);
                }
                if ports[i].node_id as u32 == fm {
                    r.push(port_to_wire(&ports[i]));
                    proof {
                        reveal(Seq::filter);
                        let pred = node_id_pred(f);
                        assert(pred(ports@[i as int]));
                        assert(ports@.take(i + 1 as int).filter(pred) == ports@.take(
                            i as int,
                        ).filter(pred).push(ports@[i as int]));
                        assert(ports@.take(i + 1 as int).filter(pred).map_values(
                            |x: Port| wire_port(x),
                        ) =~= ports@.take(i as int).filter(pred).map_values(
                            |x: Port| wire_port(x),
                        ).push(wire_port(ports@[i as int])));
                    }
                } else {
                    proof {
                        reveal(Seq::filter);
                        let pred = node_id_pred(f);
                        assert(!pred(ports@[i as int]));
                        assert(ports@.take(i + 1 as int).filter(pred) == ports@.take(
                            i as int,
                        ).filter(pred));
                    }
                }
                i = i + 1;
            }
            proof {
                assert(ports@.take(n as int) =~= ports@);
            }
            r
        },
    }
}

/// How a port lookup can fail on the wire: the serial matched no stored
/// port.
#[derive(Debug, Clone, PartialEq, Eq)]
pub enum PortLookupError {
    NotFound,
}

impl PortLookupError {
    /// The status message the RPC layer reports for this error.
    pub fn message(&self) -> (r: String)
        ensures
            r@ == "Port not found"@,
    {
        "Port not found".to_owned()
    }
}

/// Marshals the registry's answer to a lookup by object serial: the found
/// port as a wire record, or the not-found error exactly when the registry
/// found none.
pub fn port_by_serial_reply(found: Option<Port>) -> (r: Result<ListPort, PortLookupError>)
    ensures
        (match found {
            Some(p) => r matches Ok(w) && w == wire_port(p),
            None => r == Err::<ListPort, PortLookupError>(PortLookupError::NotFound),
        }),
{
    match found {
        Some(p) => Ok(port_to_wire(&p)),
        None => Err(PortLookupError::NotFound),
    }
}

/// Builds the fire-and-forget link-creation command for the session loop
/// from the four wire identifiers; each is carried as its decimal numeral.
/// The caller is acknowledged as soon as this request is handed over,
/// whatever the native call later does.
pub fn create_link_request(
    output_port_id: u32,
    input_port_id: u32,
    output_node_id: u32,
    input_node_id: u32,
) -> (r: PipewireFactoryRequest)
    ensures
        r matches PipewireFactoryRequest::CreateLink {
            output_port_id: ops,
            input_port_id: ips,
            output_node_id: ons,
            input_node_id: ins,
        } && ops@ == dec_seq(output_port_id as nat) && ips@ == dec_seq(input_port_id as nat)
            && ons@ == dec_seq(output_node_id as nat) && ins@ == dec_seq(input_node_id as nat),
{
    PipewireFactoryRequest::CreateLink {
        output_port_id: u32_to_decimal(output_port_id),
        input_port_id: u32_to_decimal(input_port_id),
        output_node_id: u32_to_decimal(output_node_id),
        input_node_id: u32_to_decimal(input_node_id),
    }
}

} // verus!
