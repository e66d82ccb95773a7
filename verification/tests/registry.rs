use pipewire_registry::pipewire_event_consumer::PipewireUpdateEvent;
use pipewire_registry::pipewire_registry::{
    PipewireRegistry, PipewireRegistryRequests, PortDirection, RegistryReply,
};

fn port_event(id: &str, node: &str, dir: &str, name: &str, serial: &str) -> PipewireUpdateEvent {
    PipewireUpdateEvent::Port {
        id: id.to_string(),
        name: name.to_string(),
        direction: dir.to_string(),
        physical: "true".to_string(),
        alias: "".to_string(),
        group: "".to_string(),
        path: "alsa:pcm".to_string(),
        dsp_format: "".to_string(),
        node_id: node.to_string(),
        audio_channel: "FL".to_string(),
        object_serial: serial.to_string(),
    }
}

fn node_event(serial: &str, name: &str) -> PipewireUpdateEvent {
    PipewireUpdateEvent::Node {
        object_serial: serial.to_string(),
        factory_id: "2".to_string(),
        client_id: "3".to_string(),
        client_api: "pipewire-pulse".to_string(),
        application_name: "app".to_string(),
        node_name: name.to_string(),
        media_class: "Audio/Sink".to_string(),
    }
}

#[test]
fn list_nodes_is_idempotent_between_events() {
    let mut registry = PipewireRegistry::new();
    registry.process_pipewire_event(node_event("1", "alpha"));
    registry.process_pipewire_event(node_event("2", "beta"));
    let first = registry.list_nodes();
    let second = registry.list_nodes();
    assert_eq!(first, second);
    assert_eq!(first.len(), 2);
    assert_eq!(first[0].node_name, "alpha");
    assert_eq!(first[1].node_name, "beta");
}

#[test]
fn nodes_append_in_arrival_order() {
    let mut registry = PipewireRegistry::new();
    registry.process_pipewire_event(node_event("9", "third"));
    registry.process_pipewire_event(node_event("4", "fourth"));
    let nodes = registry.list_nodes();
    assert_eq!(nodes[0].object_serial, 9);
    assert_eq!(nodes[1].object_serial, 4);
}

#[test]
fn port_upsert_keeps_one_entry_with_second_name() {
    let mut registry = PipewireRegistry::new();
    registry.process_pipewire_event(port_event("1", "10", "out", "mic", "70"));
    registry.process_pipewire_event(port_event("1", "10", "out", "mic-renamed", "70"));
    let ports = registry.list_ports();
    assert_eq!(ports.len(), 1);
    assert_eq!(ports[0].name, "mic-renamed");
    assert_eq!(ports[0].id, 1);
    assert_eq!(ports[0].node_id, 10);
    assert_eq!(ports[0].direction, PortDirection::Out);
}

#[test]
fn ports_with_different_directions_are_distinct() {
    let mut registry = PipewireRegistry::new();
    registry.process_pipewire_event(port_event("1", "10", "out", "mic", "70"));
    registry.process_pipewire_event(port_event("1", "10", "in", "mic-in", "71"));
    let ports = registry.list_ports();
    assert_eq!(ports.len(), 2);
    // In orders before Out.
    assert_eq!(ports[0].direction, PortDirection::In);
    assert_eq!(ports[1].direction, PortDirection::Out);
}

#[test]
fn list_ports_sorted_whatever_the_arrival_order() {
    let mut registry = PipewireRegistry::new();
    registry.process_pipewire_event(port_event("2", "11", "out", "d", "4"));
    registry.process_pipewire_event(port_event("1", "10", "unknown", "e", "5"));
    registry.process_pipewire_event(port_event("2", "10", "in", "b", "2"));
    registry.process_pipewire_event(port_event("1", "10", "in", "a", "1"));
    registry.process_pipewire_event(port_event("1", "11", "out", "c", "3"));
    let ports = registry.list_ports();
    let keys: Vec<(u8, u16, u16)> = ports
        .iter()
        .map(|p| {
            (
                match p.direction {
                    PortDirection::In => 0,
                    PortDirection::Out => 1,
                    PortDirection::Unknown => 2,
                },
                p.node_id,
                p.id,
            )
        })
        .collect();
    assert_eq!(
        keys,
        vec![(0, 10, 1), (0, 10, 2), (1, 11, 1), (1, 11, 2), (2, 10, 1)]
    );
    assert_eq!(ports[0].name, "a");
    assert_eq!(ports[1].name, "b");
}

#[test]
fn node_sentinel_serial_for_non_numeric_string() {
    let mut registry = PipewireRegistry::new();
    registry.process_pipewire_event(node_event("not-a-number", "weird"));
    let nodes = registry.list_nodes();
    assert_eq!(nodes.len(), 1);
    assert_eq!(nodes[0].object_serial, u16::MAX);
    assert_eq!(nodes[0].node_name, "weird");
}

#[test]
fn link_and_device_and_application_append() {
    let mut registry = PipewireRegistry::new();
    registry.process_pipewire_event(PipewireUpdateEvent::Link {
        object_serial: "5".to_string(),
        factory_id: "20".to_string(),
        client_id: "33".to_string(),
        output_port_id: "1".to_string(),
        input_port_id: "2".to_string(),
        output_node_id: "10".to_string(),
        input_node_id: "11".to_string(),
    });
    registry.process_pipewire_event(PipewireUpdateEvent::Device {
        name: "card0".to_string(),
        factory_id: "14".to_string(),
        client_id: "32".to_string(),
        description: "Built-in Audio".to_string(),
        nick: "None".to_string(),
        media_class: "Audio/Device".to_string(),
        object_serial: "44".to_string(),
    });
    registry.process_pipewire_event(PipewireUpdateEvent::Application {
        object_serial: "60".to_string(),
        module_id: "6".to_string(),
        pipewire_protocol: "protocol-native".to_string(),
        pipewire_sec_pid: "4242".to_string(),
        pipewire_sec_uid: "1000".to_string(),
        pipewire_sec_gid: "1000".to_string(),
        pipewire_sec_socket: "pipewire-0".to_string(),
        pipewire_access: "unrestricted".to_string(),
        name: "Firefox".to_string(),
    });
    let links = registry.list_links();
    assert_eq!(links.len(), 1);
    assert_eq!(links[0].object_serial, 5);
    assert_eq!(links[0].output_port_id, 1);
    assert_eq!(links[0].input_node_id, 11);
    let devices = registry.list_devices();
    assert_eq!(devices.len(), 1);
    assert_eq!(devices[0].name, "card0");
    assert_eq!(devices[0].factory_id, 14);
    let applications = registry.list_applications();
    assert_eq!(applications.len(), 1);
    assert_eq!(applications[0].name, "Firefox");
    assert_eq!(applications[0].module_id, 6);
}

#[test]
fn unparsable_numeric_fields_become_sentinels() {
    let mut registry = PipewireRegistry::new();
    registry.process_pipewire_event(PipewireUpdateEvent::Link {
        object_serial: "".to_string(),
        factory_id: "9999999999".to_string(),
        client_id: "12x".to_string(),
        output_port_id: "65535".to_string(),
        input_port_id: "65536".to_string(),
        output_node_id: "0".to_string(),
        input_node_id: "007".to_string(),
    });
    let links = registry.list_links();
    assert_eq!(links[0].object_serial, u16::MAX);
    assert_eq!(links[0].factory_id, u16::MAX);
    assert_eq!(links[0].client_id, u16::MAX);
    assert_eq!(links[0].output_port_id, 65535);
    assert_eq!(links[0].input_port_id, u16::MAX);
    assert_eq!(links[0].output_node_id, 0);
    assert_eq!(links[0].input_node_id, 7);
}

#[test]
fn get_port_by_object_serial_finds_the_port() {
    let mut registry = PipewireRegistry::new();
    registry.process_pipewire_event(port_event("1", "10", "out", "mic", "70"));
    registry.process_pipewire_event(port_event("2", "10", "out", "aux", "71"));
    let port = registry.get_port_by_object_serial(71).unwrap();
    assert_eq!(port.name, "aux");
    assert_eq!(port.object_serial, 71);
}

#[test]
fn get_port_by_unseen_serial_is_none() {
    let mut registry = PipewireRegistry::new();
    registry.process_pipewire_event(port_event("1", "10", "out", "mic", "70"));
    assert_eq!(registry.get_port_by_object_serial(999), None);
}

#[test]
fn registry_requests_answer_with_snapshots() {
    let mut registry = PipewireRegistry::new();
    registry.process_pipewire_event(node_event("1", "alpha"));
    registry.process_pipewire_event(port_event("1", "10", "in", "mic", "70"));
    match registry.process_registry_request(PipewireRegistryRequests::GetNodesList) {
        RegistryReply::Nodes(nodes) => assert_eq!(nodes, registry.list_nodes()),
        _ => panic!("wrong reply variant"),
    }
    match registry.process_registry_request(PipewireRegistryRequests::ListPorts) {
        RegistryReply::Ports(ports) => assert_eq!(ports, registry.list_ports()),
        _ => panic!("wrong reply variant"),
    }
    match registry.process_registry_request(PipewireRegistryRequests::GetDevicesList) {
        RegistryReply::Devices(devices) => assert_eq!(devices.len(), 0),
        _ => panic!("wrong reply variant"),
    }
    match registry.process_registry_request(PipewireRegistryRequests::GetApplicationsList) {
        RegistryReply::Applications(applications) => assert_eq!(applications.len(), 0),
        _ => panic!("wrong reply variant"),
    }
    match registry.process_registry_request(PipewireRegistryRequests::ListLinks) {
        RegistryReply::Links(links) => assert_eq!(links.len(), 0),
        _ => panic!("wrong reply variant"),
    }
    match registry.process_registry_request(PipewireRegistryRequests::GetPortByObjectSerial {
        object_serial: 70,
    }) {
        RegistryReply::Port(Some(port)) => assert_eq!(port.name, "mic"),
        _ => panic!("wrong reply variant"),
    }
}
