//! The event translator: turns a raw property-bag notification from the
//! session service into one of a small set of typed domain events.
//!
//! Classification is ordered and mutually exclusive: a link-output-port key
//! wins over a device-name key, which wins over a port-name key, then a
//! node-name key, then an application-name key; a notification with none of
//! those keys is unclassified and dropped.  A notification that matches a
//! classification key but lacks a required field is a translation error
//! that drops this one event.

use vstd::prelude::*;
use crate::props::{has_key, lookup, Properties};

verus! {

/// A typed domain event, one per kind of session object the registry
/// mirrors.  All payloads are the raw strings of the notification; parsing
/// of numeric fields happens when the registry stores the event.
#[derive(Debug, Clone, PartialEq, Eq)]
pub enum PipewireUpdateEvent {
    Device {
        name: String,
        factory_id: String,
        client_id: String,
        description: String,
        nick: String,
        media_class: String,
        object_serial: String,
    },
    Port {
        id: String,
        name: String,
        direction: String,
        physical: String,
        alias: String,
        group: String,
        path: String,
        dsp_format: String,
        node_id: String,
        audio_channel: String,
        object_serial: String,
    },
    Node {
        object_serial: String,
        factory_id: String,
        client_id: String,
        client_api: String,
        application_name: String,
        node_name: String,
        media_class: String,
    },
    Application {
        object_serial: String,
        module_id: String,
        pipewire_protocol: String,
        pipewire_sec_pid: String,
        pipewire_sec_uid: String,
        pipewire_sec_gid: String,
        pipewire_sec_socket: String,
        pipewire_access: String,
        name: String,
    },
    Link {
        object_serial: String,
        factory_id: String,
        client_id: String,
        output_port_id: String,
        input_port_id: String,
        output_node_id: String,
        input_node_id: String,
    },
}

/// The payload of a Device event, as one message.
#[derive(Debug, Clone, PartialEq, Eq)]
pub struct PipewireDeviceUpdate {
    pub name: String,
    pub factory_id: String,
    pub client_id: String,
    pub description: String,
    pub nick: String,
    pub media_class: String,
    pub object_serial: String,
}

/// The payload of a Port event, as one message.
#[derive(Debug, Clone, PartialEq, Eq)]
pub struct PipewirePortUpdate {
    pub id: String,
    pub name: String,
    pub direction: String,
    pub physical: String,
    pub alias: String,
    pub group: String,
    pub path: String,
    pub dsp_format: String,
    pub node_id: String,
    pub audio_channel: String,
    pub object_serial: String,
}

/// The payload of a Node event, as one message.
#[derive(Debug, Clone, PartialEq, Eq)]
pub struct PipewireNodeUpdate {
    pub object_serial: String,
    pub factory_id: String,
    pub client_id: String,
    pub client_api: String,
    pub application_name: String,
    pub node_name: String,
    pub media_class: String,
}

/// The payload of an Application event, as one message.
#[derive(Debug, Clone, PartialEq, Eq)]
pub struct PipewireApplicationUpdate {
    pub object_serial: String,
    pub module_id: String,
    pub pipewire_protocol: String,
    pub pipewire_sec_pid: String,
    pub pipewire_sec_uid: String,
    pub pipewire_sec_gid: String,
    pub pipewire_sec_socket: String,
    pub pipewire_access: String,
    pub name: String,
}

/// The payload of a Link event, as one message.
#[derive(Debug, Clone, PartialEq, Eq)]
pub struct PipewireLinkUpdate {
    pub object_serial: String,
    pub factory_id: String,
    pub client_id: String,
    pub output_port_id: String,
    pub input_port_id: String,
    pub output_node_id: String,
    pub input_node_id: String,
}

/// Why a notification produced no event.
#[derive(Debug, Clone, PartialEq, Eq)]
pub enum TranslationError {
    /// The notification matched a classification key but lacks a field the
    /// event requires; `key` names the missing field.
    MissingField { key: String },
    /// No classification key matched; the notification is dropped.
    Unclassified,
}

/// The entry of `m` under `key` holds exactly `f`.
pub open spec fn field_required(m: Seq<(String, String)>, key: Seq<char>, f: String) -> bool {
    lookup(m, key) == Some(f)
}

/// The entry of `m` under `key` holds exactly `f`, or there is no such
/// entry and `f` reads `default`.
pub open spec fn field_optional(
    m: Seq<(String, String)>,
    key: Seq<char>,
    f: String,
    default: Seq<char>,
) -> bool {
    match lookup(m, key) {
        Some(v) => f == v,
        None => f@ == default,
    }
}

/// All fields a Link event requires, besides the link-output-port key that
/// selected the branch.
pub open spec fn link_fields_present(m: Seq<(String, String)>) -> bool {
    &&& has_key(m, "object.serial"@)
    &&& has_key(m, "factory.id"@)
    &&& has_key(m, "link.input.port"@)
    &&& has_key(m, "link.output.node"@)
    &&& has_key(m, "link.input.node"@)
}

/// The first Link field missing from `m`, in the order the event reads them.
pub open spec fn link_missing_field(m: Seq<(String, String)>) -> Seq<char> {
    if !has_key(m, "object.serial"@) {
        "object.serial"@
    } else if !has_key(m, "factory.id"@) {
        "factory.id"@
    } else if !has_key(m, "link.input.port"@) {
        "link.input.port"@
    } else if !has_key(m, "link.output.node"@) {
        "link.output.node"@
    } else {
        "link.input.node"@
    }
}

/// `e` is the Link event that `m` describes.
pub open spec fn is_link_event(m: Seq<(String, String)>, e: PipewireUpdateEvent) -> bool {
    &&& e matches PipewireUpdateEvent::Link {
        object_serial,
        factory_id,
        client_id,
        output_port_id,
        input_port_id,
        output_node_id,
        input_node_id,
    }
    &&& field_required(m, "object.serial"@, object_serial)
    &&& field_required(m, "factory.id"@, factory_id)
    &&& field_optional(m, "client.id"@, client_id, ""@)
    &&& field_required(m, "link.output.port"@, output_port_id)
    &&& field_required(m, "link.input.port"@, input_port_id)
    &&& field_required(m, "link.output.node"@, output_node_id)
    &&& field_required(m, "link.input.node"@, input_node_id)
}

/// All fields a Device event requires, besides the device-name key that
/// selected the branch.
pub open spec fn device_fields_present(m: Seq<(String, String)>) -> bool {
    &&& has_key(m, "factory.id"@)
    &&& has_key(m, "client.id"@)
    &&& has_key(m, "device.description"@)
    &&& has_key(m, "media.class"@)
    &&& has_key(m, "object.serial"@)
}

/// The first Device field missing from `m`, in the order the event reads
/// them.
pub open spec fn device_missing_field(m: Seq<(String, String)>) -> Seq<char> {
    if !has_key(m, "factory.id"@) {
        "factory.id"@
    } else if !has_key(m, "client.id"@) {
        "client.id"@
    } else if !has_key(m, "device.description"@) {
        "device.description"@
    } else if !has_key(m, "media.class"@) {
        "media.class"@
    } else {
        "object.serial"@
    }
}

/// `e` is the Device event that `m` describes; a missing nick falls back to
/// the literal placeholder.
pub open spec fn is_device_event(m: Seq<(String, String)>, e: PipewireUpdateEvent) -> bool {
    &&& e matches PipewireUpdateEvent::Device {
        name,
        factory_id,
        client_id,
        description,
        nick,
        media_class,
        object_serial,
    }
    &&& field_required(m, "device.name"@, name)
    &&& field_required(m, "factory.id"@, factory_id)
    &&& field_required(m, "client.id"@, client_id)
    &&& field_required(m, "device.description"@, description)
    &&& field_optional(m, "device.nick"@, nick, "None"@)
    &&& field_required(m, "media.class"@, media_class)
    &&& field_required(m, "object.serial"@, object_serial)
}

/// All fields a Port event requires, besides the port-name key that
/// selected the branch.
pub open spec fn port_fields_present(m: Seq<(String, String)>) -> bool {
    &&& has_key(m, "object.serial"@)
    &&& has_key(m, "port.id"@)
    &&& has_key(m, "port.direction"@)
    &&& has_key(m, "object.path"@)
    &&& has_key(m, "node.id"@)
}

/// The first Port field missing from `m`, in the order the event reads them.
pub open spec fn port_missing_field(m: Seq<(String, String)>) -> Seq<char> {
    if !has_key(m, "object.serial"@) {
        "object.serial"@
    } else if !has_key(m, "port.id"@) {
        "port.id"@
    } else if !has_key(m, "port.direction"@) {
        "port.direction"@
    } else if !has_key(m, "object.path"@) {
        "object.path"@
    } else {
        "node.id"@
    }
}

/// `e` is the Port event that `m` describes; optional fields default to the
/// empty string.
pub open spec fn is_port_event(m: Seq<(String, String)>, e: PipewireUpdateEvent) -> bool {
    &&& e matches PipewireUpdateEvent::Port {
        id,
        name,
        direction,
        physical,
        alias,
        group,
        path,
        dsp_format,
        node_id,
        audio_channel,
        object_serial,
    }
    &&& field_required(m, "object.serial"@, object_serial)
    &&& field_required(m, "port.id"@, id)
    &&& field_required(m, "port.name"@, name)
    &&& field_required(m, "port.direction"@, direction)
    &&& field_optional(m, "port.physical"@, physical, ""@)
    &&& field_optional(m, "port.alias"@, alias, ""@)
    &&& field_optional(m, "port.group"@, group, ""@)
    &&& field_required(m, "object.path"@, path)
    &&& field_optional(m, "format.dsp"@, dsp_format, ""@)
    &&& field_required(m, "node.id"@, node_id)
    &&& field_optional(m, "audio.channel"@, audio_channel, ""@)
}

/// `e` is the Node event that `m` describes; all fields but the serial
/// default to the empty string.
pub open spec fn is_node_event(m: Seq<(String, String)>, e: PipewireUpdateEvent) -> bool {
    &&& e matches PipewireUpdateEvent::Node {
        object_serial,
        factory_id,
        client_id,
        client_api,
        application_name,
        node_name,
        media_class,
    }
    &&& field_required(m, "object.serial"@, object_serial)
    &&& field_optional(m, "factory.id"@, factory_id, ""@)
    &&& field_optional(m, "client.id"@, client_id, ""@)
    &&& field_optional(m, "client.api"@, client_api, ""@)
    &&& field_optional(m, "application.name"@, application_name, ""@)
    &&& field_optional(m, "node.name"@, node_name, ""@)
    &&& field_optional(m, "media.class"@, media_class, ""@)
}

/// `e` is the Application event that `m` describes; all fields but the
/// serial default to the empty string.
pub open spec fn is_application_event(m: Seq<(String, String)>, e: PipewireUpdateEvent) -> bool {
    &&& e matches PipewireUpdateEvent::Application {
        object_serial,
        module_id,
        pipewire_protocol,
        pipewire_sec_pid,
        pipewire_sec_uid,
        pipewire_sec_gid,
        pipewire_sec_socket,
        pipewire_access,
        name,
    }
    &&& field_required(m, "object.serial"@, object_serial)
    &&& field_optional(m, "module.id"@, module_id, ""@)
    &&& field_optional(m, "pipewire.protocol"@, pipewire_protocol, ""@)
    &&& field_optional(m, "pipewire.sec.pid"@, pipewire_sec_pid, ""@)
    &&& field_optional(m, "pipewire.sec.uid"@, pipewire_sec_uid, ""@)
    &&& field_optional(m, "pipewire.sec.gid"@, pipewire_sec_gid, ""@)
    &&& field_optional(m, "pipewire.sec.socket"@, pipewire_sec_socket, ""@)
    &&& field_optional(m, "pipewire.access"@, pipewire_access, ""@)
    &&& field_optional(m, "application.name"@, name, ""@)
}

/// The whole classification contract: `r` is what classifying the property
/// bag `m` must produce, following the priority order link, device, port,
/// node, application.
pub open spec fn classified(
    m: Seq<(String, String)>,
    r: Result<PipewireUpdateEvent, TranslationError>,
) -> bool {
    if has_key(m, "link.output.port"@) {
        if link_fields_present(m) {
            r matches Ok(e) && is_link_event(m, e)
        } else {
            r matches Err(TranslationError::MissingField { key }) && key@ == link_missing_field(m)
        }
    } else if has_key(m, "device.name"@) {
        if device_fields_present(m) {
            r matches Ok(e) && is_device_event(m, e)
        } else {
            r matches Err(TranslationError::MissingField { key }) && key@ == device_missing_field(m)
        }
    } else if has_key(m, "port.name"@) {
        if port_fields_present(m) {
            r matches Ok(e) && is_port_event(m, e)
        } else {
            r matches Err(TranslationError::MissingField { key }) && key@ == port_missing_field(m)
        }
    } else if has_key(m, "node.name"@) {
        if has_key(m, "object.serial"@) {
            r matches Ok(e) && is_node_event(m, e)
        } else {
            r matches Err(TranslationError::MissingField { key }) && key@ == "object.serial"@
        }
    } else if has_key(m, "application.name"@) {
        if has_key(m, "object.serial"@) {
            r matches Ok(e) && is_application_event(m, e)
        } else {
            r matches Err(TranslationError::MissingField { key }) && key@ == "object.serial"@
        }
    } else {
        r == Err::<PipewireUpdateEvent, TranslationError>(TranslationError::Unclassified)
    }
}

/// The stateless translator.  The surrounding process feeds it every
/// notification of the session's registry listener and forwards whatever
/// event it yields.
pub struct PipewireEventConsumer {}

impl PipewireEventConsumer {
    /// A new translator.
    pub fn new() -> PipewireEventConsumer {
        PipewireEventConsumer {  }
    }

    /// Classifies one global-object notification, in the priority order
    /// link, device, port, node, application.
    pub fn process_pipewire_update(&self, props: &Properties) -> (r: Result<
        PipewireUpdateEvent,
        TranslationError,
    >)
        ensures
            classified(props@, r),
    {
        if let Some(output_port_id) = props.get("link.output.port") {
            let object_serial = match props.get("object.serial") {
                Some(v) => v,
                None => {
                    return Err(TranslationError::MissingField { key: "object.serial".to_owned() });
                },
            };
            let factory_id = match props.get("factory.id") {
                Some(v) => v,
                None => {
                    return Err(TranslationError::MissingField { key: "factory.id".to_owned() });
                },
            };
            let input_port_id = match props.get("link.input.port") {
                Some(v) => v,
                None => {
                    return Err(
                        TranslationError::MissingField { key: "link.input.port".to_owned() },
                    );
                },
            };
            let output_node_id = match props.get("link.output.node") {
                Some(v) => v,
                None => {
                    return Err(
                        TranslationError::MissingField { key: "link.output.node".to_owned() },
                    );
                },
            };
            let input_node_id = match props.get("link.input.node") {
                Some(v) => v,
                None => {
                    return Err(
                        TranslationError::MissingField { key: "link.input.node".to_owned() },
                    );
                },
            };
            let client_id = props.get_or("client.id", "");
            return Ok(
                PipewireUpdateEvent::Link {
                    object_serial,
                    factory_id,
                    client_id,
                    output_port_id,
                    input_port_id,
                    output_node_id,
                    input_node_id,
                },
            );
        }
        if let Some(name) = props.get("device.name") {
            let factory_id = match props.get("factory.id") {
                Some(v) => v,
                None => {
                    return Err(TranslationError::MissingField { key: "factory.id".to_owned() });
                },
            };
            let client_id = match props.get("client.id") {
                Some(v) => v,
                None => {
                    return Err(TranslationError::MissingField { key: "client.id".to_owned() });
                },
            };
            let description = match props.get("device.description") {
                Some(v) => v,
                None => {
                    return Err(
                        TranslationError::MissingField { key: "device.description".to_owned() },
                    );
                },
            };
            let media_class = match props.get("media.class") {
                Some(v) => v,
                None => {
                    return Err(TranslationError::MissingField { key: "media.class".to_owned() });
                },
            };
            let object_serial = match props.get("object.serial") {
                Some(v) => v,
                None => {
                    return Err(TranslationError::MissingField { key: "object.serial".to_owned() });
                },
            };
            let nick = props.get_or("device.nick", "None");
            return Ok(
                PipewireUpdateEvent::Device {
                    name,
                    factory_id,
                    client_id,
                    description,
                    nick,
                    media_class,
                    object_serial,
                },
            );
        }
        if let Some(name) = props.get("port.name") {
            let object_serial = match props.get("object.serial") {
                Some(v) => v,
                None => {
                    return Err(TranslationError::MissingField { key: "object.serial".to_owned() });
                },
            };
            let id = match props.get("port.id") {
                Some(v) => v,
                None => {
                    return Err(TranslationError::MissingField { key: "port.id".to_owned() });
                },
            };
            let direction = match props.get("port.direction") {
                Some(v) => v,
                None => {
                    return Err(TranslationError::MissingField { key: "port.direction".to_owned() });
                },
            };
            let path = match props.get("object.path") {
                Some(v) => v,
                None => {
                    return Err(TranslationError::MissingField { key: "object.path".to_owned() });
                },
            };
            let node_id = match props.get("node.id") {
                Some(v) => v,
                None => {
                    return Err(TranslationError::MissingField { key: "node.id".to_owned() });
                },
            };
            let physical = props.get_or("port.physical", "");
            let alias = props.get_or("port.alias", "");
            let group = props.get_or("port.group", "");
            let dsp_format = props.get_or("format.dsp", "");
            let audio_channel = props.get_or("audio.channel", "");
            return Ok(
                PipewireUpdateEvent::Port {
                    id,
                    name,
                    direction,
                    physical,
                    alias,
                    group,
                    path,
                    dsp_format,
                    node_id,
                    audio_channel,
                    object_serial,
                },
            );
        }
        if props.get("node.name").is_some() {
            let object_serial = match props.get("object.serial") {
                Some(v) => v,
                None => {
                    return Err(TranslationError::MissingField { key: "object.serial".to_owned() });
                },
            };
            let factory_id = props.get_or("factory.id", "");
            let client_id = props.get_or("client.id", "");
            let client_api = props.get_or("client.api", "");
            let application_name = props.get_or("application.name", "");
            let node_name = props.get_or("node.name", "");
            let media_class = props.get_or("media.class", "");
            return Ok(
                PipewireUpdateEvent::Node {
                    object_serial,
                    factory_id,
                    client_id,
                    client_api,
                    application_name,
                    node_name,
                    media_class,
                },
            );
        }
        if props.get("application.name").is_some() {
            let object_serial = match props.get("object.serial") {
                Some(v) => v,
                None => {
                    return Err(TranslationError::MissingField { key: "object.serial".to_owned() });
                },
            };
            let module_id = props.get_or("module.id", "");
            let pipewire_protocol = props.get_or("pipewire.protocol", "");
            let pipewire_sec_pid = props.get_or("pipewire.sec.pid", "");
            let pipewire_sec_uid = props.get_or("pipewire.sec.uid", "");
            let pipewire_sec_gid = props.get_or("pipewire.sec.gid", "");
            let pipewire_sec_socket = props.get_or("pipewire.sec.socket", "");
            let pipewire_access = props.get_or("pipewire.access", "");
            let name = props.get_or("application.name", "");
            return Ok(
                PipewireUpdateEvent::Application {
                    object_serial,
                    module_id,
                    pipewire_protocol,
                    pipewire_sec_pid,
                    pipewire_sec_uid,
                    pipewire_sec_gid,
                    pipewire_sec_socket,
                    pipewire_access,
                    name,
                },
            );
        }
        Err(TranslationError::Unclassified)
    }
}

/// Classification priority: a notification that carries both the
/// link-output-port key and the device-name key is classified as a Link
/// notification, never as a Device one.
pub proof fn lemma_link_takes_priority_over_device(
    m: Seq<(String, String)>,
    r: Result<PipewireUpdateEvent, TranslationError>,
)
    requires
        classified(m, r),
        has_key(m, "link.output.port"@),
        has_key(m, "device.name"@),
    ensures
        r matches Ok(e) ==> e is Link,
        !(r matches Ok(e) && e is Device),
{
}

} // verus!
