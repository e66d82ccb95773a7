//! The registry's entities: the typed records the registry stores, and how
//! each is built from the raw string payload of a domain event.
//!
//! Numeric identifiers are 16-bit values parsed from decimal strings; a
//! field that is missing or does not parse is stored as the sentinel
//! `u16::MAX` rather than rejecting the whole event.

use vstd::prelude::*;
use crate::decimal::{is_digit, parse_u16_or_max, parse_u16_spec};
use crate::pipewire_event_consumer::{
    PipewireApplicationUpdate, PipewireDeviceUpdate, PipewireLinkUpdate, PipewireNodeUpdate,
    PipewirePortUpdate,
};
use crate::props::str_eq;

verus! {

/// Which way a port faces.
#[derive(Copy, Debug, Clone, PartialEq, Eq, Structural)]
pub enum PortDirection {
    In,
    Out,
    Unknown,
}

/// The rank of a direction in the port ordering: In before Out before
/// Unknown.
pub open spec fn dir_rank(d: PortDirection) -> int {
    match d {
        PortDirection::In => 0,
        PortDirection::Out => 1,
        PortDirection::Unknown => 2,
    }
}

/// The direction a session direction string stands for.
pub open spec fn spec_direction(s: Seq<char>) -> PortDirection {
    if s == "in"@ {
        PortDirection::In
    } else if s == "out"@ {
        PortDirection::Out
    } else {
        PortDirection::Unknown
    }
}

/// Parses a direction string: `"in"` and `"out"` are the two known
/// directions, anything else is Unknown.
pub fn parse_direction(s: &str) -> (r: PortDirection)
    ensures
        r == spec_direction(s@),
{
    if str_eq(s, "in") {
        PortDirection::In
    } else if str_eq(s, "out") {
        PortDirection::Out
    } else {
        PortDirection::Unknown
    }
}

/// An application observed in the session graph.
#[derive(Debug, Clone, PartialEq, Eq)]
pub struct Application {
    pub object_serial: u16,
    pub module_id: u16,
    pub pipewire_protocol: String,
    pub pipewire_sec_pid: String,
    pub pipewire_sec_uid: String,
    pub pipewire_sec_gid: String,
    pub pipewire_sec_socket: String,
    pub pipewire_access: String,
    pub name: String,
}

/// A device observed in the session graph.
#[derive(Debug, Clone, PartialEq, Eq)]
pub struct Device {
    pub name: String,
    pub factory_id: u16,
    pub client_id: u16,
    pub description: String,
    pub nick: String,
    pub media_class: String,
    pub object_serial: u16,
}

/// A port observed in the session graph.  Its identity is the composite
/// (direction, node id, port id).
#[derive(Debug, Clone, PartialEq, Eq)]
pub struct Port {
    pub id: u16,
    pub node_id: u16,
    pub object_serial: u16,
    pub name: String,
    pub direction: PortDirection,
    pub physical: bool,
    pub alias: String,
    pub group: String,
    pub path: String,
    pub dsp_format: String,
    pub audio_channel: String,
}

/// A node observed in the session graph.
#[derive(Debug, Clone, PartialEq, Eq)]
pub struct Node {
    pub object_serial: u16,
    pub factory_id: u16,
    pub client_id: u16,
    pub client_api: String,
    pub application_name: String,
    pub node_name: String,
    pub media_class: String,
}

/// A link between an output port and an input port.
#[derive(Debug, Clone, PartialEq, Eq)]
pub struct Link {
    pub object_serial: u16,
    pub factory_id: u16,
    pub client_id: u16,
    pub output_port_id: u16,
    pub input_port_id: u16,
    pub output_node_id: u16,
    pub input_node_id: u16,
}

/// The Application record an update message stands for.
pub open spec fn spec_application_from_update(m: PipewireApplicationUpdate) -> Application {
    (Application {
        object_serial: parse_u16_spec(m.object_serial@),
        module_id: parse_u16_spec(m.module_id@),
        pipewire_protocol: m.pipewire_protocol,
        pipewire_sec_pid: m.pipewire_sec_pid,
        pipewire_sec_uid: m.pipewire_sec_uid,
        pipewire_sec_gid: m.pipewire_sec_gid,
        pipewire_sec_socket: m.pipewire_sec_socket,
        pipewire_access: m.pipewire_access,
        name: m.name,
    })
}

/// The Device record an update message stands for.
pub open spec fn spec_device_from_update(m: PipewireDeviceUpdate) -> Device {
    (Device {
        name: m.name,
        factory_id: parse_u16_spec(m.factory_id@),
        client_id: parse_u16_spec(m.client_id@),
        description: m.description,
        nick: m.nick,
        media_class: m.media_class,
        object_serial: parse_u16_spec(m.object_serial@),
    })
}

/// The Port record an update message stands for.
pub open spec fn spec_port_from_update(m: PipewirePortUpdate) -> Port {
    (Port {
        id: parse_u16_spec(m.id@),
        node_id: parse_u16_spec(m.node_id@),
        object_serial: parse_u16_spec(m.object_serial@),
        name: m.name,
        direction: spec_direction(m.direction@),
        physical: m.physical@ == "true"@,
        alias: m.alias,
        group: m.group,
        path: m.path,
        dsp_format: m.dsp_format,
        audio_channel: m.audio_channel,
    })
}

/// The Node record an update message stands for.
pub open spec fn spec_node_from_update(m: PipewireNodeUpdate) -> Node {
    (Node {
        object_serial: parse_u16_spec(m.object_serial@),
        factory_id: parse_u16_spec(m.factory_id@),
        client_id: parse_u16_spec(m.client_id@),
        client_api: m.client_api,
        application_name: m.application_name,
        node_name: m.node_name,
        media_class: m.media_class,
    })
}

/// The Link record an update message stands for.
pub open spec fn spec_link_from_update(m: PipewireLinkUpdate) -> Link {
    (Link {
        object_serial: parse_u16_spec(m.object_serial@),
        factory_id: parse_u16_spec(m.factory_id@),
        client_id: parse_u16_spec(m.client_id@),
        output_port_id: parse_u16_spec(m.output_port_id@),
        input_port_id: parse_u16_spec(m.input_port_id@),
        output_node_id: parse_u16_spec(m.output_node_id@),
        input_node_id: parse_u16_spec(m.input_node_id@),
    })
}

impl Application {
    /// Builds the stored record from an Application update message.
    pub fn from_pipewire_application_update(application_message: PipewireApplicationUpdate) -> (r:
        Application)
        ensures
            r == spec_application_from_update(application_message),
    {
        Application {
            object_serial: parse_u16_or_max(application_message.object_serial.as_str()),
            module_id: parse_u16_or_max(application_message.module_id.as_str()),
            pipewire_protocol: application_message.pipewire_protocol,
            pipewire_sec_pid: application_message.pipewire_sec_pid,
            pipewire_sec_uid: application_message.pipewire_sec_uid,
            pipewire_sec_gid: application_message.pipewire_sec_gid,
            pipewire_sec_socket: application_message.pipewire_sec_socket,
            pipewire_access: application_message.pipewire_access,
            name: application_message.name,
        }
    }

    /// A copy of this record.
    pub fn duplicate(&self) -> (r: Application)
        ensures
            r == *self,
    {
        Application {
            object_serial: self.object_serial,
            module_id: self.module_id,
            pipewire_protocol: self.pipewire_protocol.clone(),
            pipewire_sec_pid: self.pipewire_sec_pid.clone(),
            pipewire_sec_uid: self.pipewire_sec_uid.clone(),
            pipewire_sec_gid: self.pipewire_sec_gid.clone(),
            pipewire_sec_socket: self.pipewire_sec_socket.clone(),
            pipewire_access: self.pipewire_access.clone(),
            name: self.name.clone(),
        }
    }
}

impl Device {
    /// Builds the stored record from a Device update message.
    pub fn from_pipewire_device_update(device_message: PipewireDeviceUpdate) -> (r: Device)
        ensures
            r == spec_device_from_update(device_message),
    {
        Device {
            name: device_message.name,
            factory_id: parse_u16_or_max(device_message.factory_id.as_str()),
            client_id: parse_u16_or_max(device_message.client_id.as_str()),
            description: device_message.description,
            nick: device_message.nick,
            media_class: device_message.media_class,
            object_serial: parse_u16_or_max(device_message.object_serial.as_str()),
        }
    }

    /// A copy of this record.
    pub fn duplicate(&self) -> (r: Device)
        ensures
            r == *self,
    {
        Device {
            name: self.name.clone(),
            factory_id: self.factory_id,
            client_id: self.client_id,
            description: self.description.clone(),
            nick: self.nick.clone(),
            media_class: self.media_class.clone(),
            object_serial: self.object_serial,
        }
    }
}

impl Port {
    /// Builds the stored record from a Port update message.
    pub fn from_pipewire_port_update(port_message: PipewirePortUpdate) -> (r: Port)
        ensures
            r == spec_port_from_update(port_message),
    {
        Port {
            id: parse_u16_or_max(port_message.id.as_str()),
            node_id: parse_u16_or_max(port_message.node_id.as_str()),
            object_serial: parse_u16_or_max(port_message.object_serial.as_str()),
            name: port_message.name,
            direction: parse_direction(port_message.direction.as_str()),
            physical: str_eq(port_message.physical.as_str(), "true"),
            alias: port_message.alias,
            group: port_message.group,
            path: port_message.path,
            dsp_format: port_message.dsp_format,
            audio_channel: port_message.audio_channel,
        }
    }

    /// A copy of this record.
    pub fn duplicate(&self) -> (r: Port)
        ensures
            r == *self,
    {
        Port {
            id: self.id,
            node_id: self.node_id,
            object_serial: self.object_serial,
            name: self.name.clone(),
            direction: self.direction,
            physical: self.physical,
            alias: self.alias.clone(),
            group: self.group.clone(),
            path: self.path.clone(),
            dsp_format: self.dsp_format.clone(),
            audio_channel: self.audio_channel.clone(),
        }
    }
}

impl Node {
    /// Builds the stored record from a Node update message.
    pub fn from_pipewire_node_update(node_message: PipewireNodeUpdate) -> (r: Node)
        ensures
            r == spec_node_from_update(node_message),
    {
        Node {
            object_serial: parse_u16_or_max(node_message.object_serial.as_str()),
            factory_id: parse_u16_or_max(node_message.factory_id.as_str()),
            client_id: parse_u16_or_max(node_message.client_id.as_str()),
            client_api: node_message.client_api,
            application_name: node_message.application_name,
            node_name: node_message.node_name,
            media_class: node_message.media_class,
        }
    }

    /// A copy of this record.
    pub fn duplicate(&self) -> (r: Node)
        ensures
            r == *self,
    {
        Node {
            object_serial: self.object_serial,
            factory_id: self.factory_id,
            client_id: self.client_id,
            client_api: self.client_api.clone(),
            application_name: self.application_name.clone(),
            node_name: self.node_name.clone(),
            media_class: self.media_class.clone(),
        }
    }
}

impl Link {
    /// Builds the stored record from a Link update message.
    pub fn from_pipewire_link_update(link_message: PipewireLinkUpdate) -> (r: Link)
        ensures
            r == spec_link_from_update(link_message),
    {
        Link {
            object_serial: parse_u16_or_max(link_message.object_serial.as_str()),
            factory_id: parse_u16_or_max(link_message.factory_id.as_str()),
            client_id: parse_u16_or_max(link_message.client_id.as_str()),
            output_port_id: parse_u16_or_max(link_message.output_port_id.as_str()),
            input_port_id: parse_u16_or_max(link_message.input_port_id.as_str()),
            output_node_id: parse_u16_or_max(link_message.output_node_id.as_str()),
            input_node_id: parse_u16_or_max(link_message.input_node_id.as_str()),
        }
    }

    /// A copy of this record.
    pub fn duplicate(&self) -> (r: Link)
        ensures
            r == *self,
    {
        Link {
            object_serial: self.object_serial,
            factory_id: self.factory_id,
            client_id: self.client_id,
            output_port_id: self.output_port_id,
            input_port_id: self.input_port_id,
            output_node_id: self.output_node_id,
            input_node_id: self.input_node_id,
        }
    }
}

/// Sentinel fallback: a Node update whose serial field holds any non-digit
/// character is stored with the sentinel serial `u16::MAX`, not rejected.
pub proof fn lemma_node_serial_sentinel(m: PipewireNodeUpdate)
    requires
        exists|i: int|
            0 <= i < m.object_serial@.len() && !is_digit(#[trigger] m.object_serial@[i]),
    ensures
        spec_node_from_update(m).object_serial == u16::MAX,
{
    let i = choose|i: int|
        0 <= i < m.object_serial@.len() && !is_digit(#[trigger] m.object_serial@[i]);
    assert(!crate::decimal::all_digits(m.object_serial@));
}

} // verus!
