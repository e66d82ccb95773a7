use pipewire_registry::decimal::{parse_u16_or_max, u32_to_decimal};
use pipewire_registry::grpc_services::{
    create_link_request, list_nodes_reply, list_ports_reply, port_by_serial_reply, PortLookupError,
};
use pipewire_registry::pipewire_event_consumer::PipewireUpdateEvent;
use pipewire_registry::pipewire_factory::{
    CreateObjectCommand, PipewireFactory, PipewireFactoryRequest,
};
use pipewire_registry::pipewire_loop::{resolve_link_factory_step, Factories};
use pipewire_registry::pipewire_registry::PipewireRegistry;
use pipewire_registry::props::Properties;

fn sample_registry() -> PipewireRegistry {
    let mut registry = PipewireRegistry::new();
    registry.process_pipewire_event(PipewireUpdateEvent::Node {
        object_serial: "1".to_string(),
        factory_id: "2".to_string(),
        client_id: "3".to_string(),
        client_api: "pipewire-pulse".to_string(),
        application_name: "app".to_string(),
        node_name: "alpha".to_string(),
        media_class: "Audio/Sink".to_string(),
    });
    for (id, node, dir, name, serial) in [
        ("1", "10", "out", "mic", "70"),
        ("2", "10", "out", "aux", "71"),
        ("1", "11", "in", "spk", "72"),
    ] {
        registry.process_pipewire_event(PipewireUpdateEvent::Port {
            id: id.to_string(),
            name: name.to_string(),
            direction: dir.to_string(),
            physical: "true".to_string(),
            alias: "alias0".to_string(),
            group: "g".to_string(),
            path: "alsa:pcm".to_string(),
            dsp_format: "32 bit float mono audio".to_string(),
            node_id: node.to_string(),
            audio_channel: "FL".to_string(),
            object_serial: serial.to_string(),
        });
    }
    registry
}

#[test]
fn node_marshalling_widens_identifiers() {
    let registry = sample_registry();
    let nodes = registry.list_nodes();
    let wire = list_nodes_reply(&nodes);
    assert_eq!(wire.len(), 1);
    assert_eq!(wire[0].object_serial, 1u32);
    assert_eq!(wire[0].factory_id, 2u32);
    assert_eq!(wire[0].client_id, 3u32);
    assert_eq!(wire[0].name, "alpha");
    assert_eq!(wire[0].application_name, "app");
    assert_eq!(wire[0].media_class, "Audio/Sink");
}

#[test]
fn port_marshalling_keeps_order_and_codes_direction() {
    let registry = sample_registry();
    let ports = registry.list_ports();
    let wire = list_ports_reply(&ports, None);
    assert_eq!(wire.len(), 3);
    // In before Out: node 11 "spk" first, then the two Out ports of node 10.
    assert_eq!(wire[0].name, "spk");
    assert_eq!(wire[0].direction, 0);
    assert_eq!(wire[1].name, "mic");
    assert_eq!(wire[1].direction, 1);
    assert_eq!(wire[2].name, "aux");
    assert_eq!(wire[2].direction, 1);
    assert_eq!(wire[1].id, 1u32);
    assert_eq!(wire[1].node_id, 10u32);
    assert_eq!(wire[1].object_serial, 70u32);
    assert!(wire[1].physical);
}

#[test]
fn port_listing_filters_by_node_id() {
    let registry = sample_registry();
    let ports = registry.list_ports();
    let wire = list_ports_reply(&ports, Some(10));
    assert_eq!(wire.len(), 2);
    assert!(wire.iter().all(|p| p.node_id == 10));
    let empty = list_ports_reply(&ports, Some(12));
    assert_eq!(empty.len(), 0);
}

#[test]
fn port_lookup_reply_marshals_found_port() {
    let registry = sample_registry();
    let found = registry.get_port_by_object_serial(72);
    let reply = port_by_serial_reply(found).unwrap();
    assert_eq!(reply.name, "spk");
    assert_eq!(reply.object_serial, 72u32);
}

#[test]
fn port_lookup_reply_not_found() {
    let registry = sample_registry();
    let reply = port_by_serial_reply(registry.get_port_by_object_serial(999));
    assert_eq!(reply, Err(PortLookupError::NotFound));
    assert_eq!(PortLookupError::NotFound.message(), "Port not found");
}

#[test]
fn create_link_request_carries_decimal_ids() {
    let request = create_link_request(1, 2, 10, 11);
    assert_eq!(
        request,
        PipewireFactoryRequest::CreateLink {
            output_port_id: "1".to_string(),
            input_port_id: "2".to_string(),
            output_node_id: "10".to_string(),
            input_node_id: "11".to_string(),
        }
    );
}

#[test]
fn process_command_builds_lingering_link_creation() {
    let factory = PipewireFactory {
        factories: Factories {
            link: "link-factory".to_string(),
        },
    };
    let command = factory.process_command(create_link_request(1, 2, 10, 11));
    assert_eq!(
        command,
        CreateObjectCommand {
            factory_name: "link-factory".to_string(),
            properties: vec![
                ("link.output.port".to_string(), "1".to_string()),
                ("link.input.port".to_string(), "2".to_string()),
                ("link.output.node".to_string(), "10".to_string()),
                ("link.input.node".to_string(), "11".to_string()),
                ("object.linger".to_string(), "1".to_string()),
            ],
        }
    );
}

#[test]
fn resolver_recognises_the_link_factory() {
    let props = Properties {
        entries: vec![
            (
                "factory.type.name".to_string(),
                "PipeWire:Interface:Link".to_string(),
            ),
            ("factory.name".to_string(), "link-factory".to_string()),
        ],
    };
    assert_eq!(
        resolve_link_factory_step(&props),
        Some("link-factory".to_string())
    );
}

#[test]
fn resolver_ignores_other_factories() {
    let props = Properties {
        entries: vec![
            (
                "factory.type.name".to_string(),
                "PipeWire:Interface:Node".to_string(),
            ),
            ("factory.name".to_string(), "node-factory".to_string()),
        ],
    };
    assert_eq!(resolve_link_factory_step(&props), None);
    let unnamed = Properties {
        entries: vec![(
            "factory.type.name".to_string(),
            "PipeWire:Interface:Link".to_string(),
        )],
    };
    assert_eq!(resolve_link_factory_step(&unnamed), None);
}

#[test]
fn parse_u16_exact_values() {
    assert_eq!(parse_u16_or_max("0"), 0);
    assert_eq!(parse_u16_or_max("007"), 7);
    assert_eq!(parse_u16_or_max("65535"), 65535);
    assert_eq!(parse_u16_or_max("65536"), u16::MAX);
    assert_eq!(parse_u16_or_max(""), u16::MAX);
    assert_eq!(parse_u16_or_max("12x"), u16::MAX);
    assert_eq!(parse_u16_or_max("-3"), u16::MAX);
    assert_eq!(parse_u16_or_max("abc"), u16::MAX);
}

#[test]
fn u32_formatting_exact_values() {
    assert_eq!(u32_to_decimal(0), "0");
    assert_eq!(u32_to_decimal(7), "7");
    assert_eq!(u32_to_decimal(10), "10");
    assert_eq!(u32_to_decimal(65535), "65535");
    assert_eq!(u32_to_decimal(4294967295), "4294967295");
}

#[test]
fn decimal_round_trip_samples() {
    for n in [0u16, 1, 9, 10, 99, 4242, 65535] {
        assert_eq!(parse_u16_or_max(&u32_to_decimal(n as u32)), n);
    }
}

#[test]
fn scenario_rename_lookup_and_create_link() {
    // Emit two Port events sharing an identity, renaming the port; the
    // listing holds one entry with the second name.
    let mut registry = PipewireRegistry::new();
    for name in ["mic", "mic-renamed"] {
        registry.process_pipewire_event(PipewireUpdateEvent::Port {
            id: "1".to_string(),
            name: name.to_string(),
            direction: "out".to_string(),
            physical: "".to_string(),
            alias: "".to_string(),
            group: "".to_string(),
            path: "alsa:pcm".to_string(),
            dsp_format: "".to_string(),
            node_id: "10".to_string(),
            audio_channel: "".to_string(),
            object_serial: "70".to_string(),
        });
    }
    let ports = registry.list_ports();
    assert_eq!(ports.len(), 1);
    assert_eq!(ports[0].name, "mic-renamed");
    // A serial never seen yields NOT_FOUND.
    let lookup = port_by_serial_reply(registry.get_port_by_object_serial(12345));
    assert_eq!(lookup, Err(PortLookupError::NotFound));
    // Link creation acknowledges immediately: the request is built and
    // handed over without waiting for the native session.
    let request = create_link_request(1, 2, 10, 11);
    match request {
        PipewireFactoryRequest::CreateLink {
            output_port_id,
            input_port_id,
            output_node_id,
            input_node_id,
        } => {
            assert_eq!(output_port_id, "1");
            assert_eq!(input_port_id, "2");
            assert_eq!(output_node_id, "10");
            assert_eq!(input_node_id, "11");
        }
    }
}
