use pipewire_registry::pipewire_event_consumer::{
    PipewireEventConsumer, PipewireUpdateEvent, TranslationError,
};
use pipewire_registry::props::Properties;

fn bag(pairs: &[(&str, &str)]) -> Properties {
    Properties {
        entries: pairs
            .iter()
            .map(|(k, v)| (k.to_string(), v.to_string()))
            .collect(),
    }
}

#[test]
fn classifies_link_with_all_fields() {
    let consumer = PipewireEventConsumer::new();
    let props = bag(&[
        ("object.serial", "7"),
        ("factory.id", "20"),
        ("client.id", "33"),
        ("link.output.port", "1"),
        ("link.input.port", "2"),
        ("link.output.node", "10"),
        ("link.input.node", "11"),
    ]);
    let event = consumer.process_pipewire_update(&props).unwrap();
    assert_eq!(
        event,
        PipewireUpdateEvent::Link {
            object_serial: "7".to_string(),
            factory_id: "20".to_string(),
            client_id: "33".to_string(),
            output_port_id: "1".to_string(),
            input_port_id: "2".to_string(),
            output_node_id: "10".to_string(),
            input_node_id: "11".to_string(),
        }
    );
}

#[test]
fn link_client_id_defaults_to_empty() {
    let consumer = PipewireEventConsumer::new();
    let props = bag(&[
        ("object.serial", "7"),
        ("factory.id", "20"),
        ("link.output.port", "1"),
        ("link.input.port", "2"),
        ("link.output.node", "10"),
        ("link.input.node", "11"),
    ]);
    match consumer.process_pipewire_update(&props).unwrap() {
        PipewireUpdateEvent::Link { client_id, .. } => assert_eq!(client_id, ""),
        other => panic!("expected a Link event, got {other:?}"),
    }
}

#[test]
fn link_priority_beats_device() {
    // A notification holding both a link-output-port key and a device-name
    // key is classified as a Link event, never a Device one.
    let consumer = PipewireEventConsumer::new();
    let props = bag(&[
        ("device.name", "card0"),
        ("object.serial", "7"),
        ("factory.id", "20"),
        ("link.output.port", "1"),
        ("link.input.port", "2"),
        ("link.output.node", "10"),
        ("link.input.node", "11"),
    ]);
    match consumer.process_pipewire_update(&props).unwrap() {
        PipewireUpdateEvent::Link { .. } => {}
        other => panic!("expected a Link event, got {other:?}"),
    }
}

#[test]
fn link_missing_required_field_is_error() {
    let consumer = PipewireEventConsumer::new();
    let props = bag(&[
        ("object.serial", "7"),
        ("link.output.port", "1"),
        ("link.input.port", "2"),
        ("link.output.node", "10"),
        ("link.input.node", "11"),
    ]);
    assert_eq!(
        consumer.process_pipewire_update(&props),
        Err(TranslationError::MissingField {
            key: "factory.id".to_string()
        })
    );
}

#[test]
fn classifies_device_and_nick_placeholder() {
    let consumer = PipewireEventConsumer::new();
    let props = bag(&[
        ("device.name", "card0"),
        ("factory.id", "14"),
        ("client.id", "32"),
        ("device.description", "Built-in Audio"),
        ("media.class", "Audio/Device"),
        ("object.serial", "44"),
    ]);
    let event = consumer.process_pipewire_update(&props).unwrap();
    assert_eq!(
        event,
        PipewireUpdateEvent::Device {
            name: "card0".to_string(),
            factory_id: "14".to_string(),
            client_id: "32".to_string(),
            description: "Built-in Audio".to_string(),
            nick: "None".to_string(),
            media_class: "Audio/Device".to_string(),
            object_serial: "44".to_string(),
        }
    );
}

#[test]
fn device_missing_description_is_error() {
    let consumer = PipewireEventConsumer::new();
    let props = bag(&[
        ("device.name", "card0"),
        ("factory.id", "14"),
        ("client.id", "32"),
        ("media.class", "Audio/Device"),
        ("object.serial", "44"),
    ]);
    assert_eq!(
        consumer.process_pipewire_update(&props),
        Err(TranslationError::MissingField {
            key: "device.description".to_string()
        })
    );
}

#[test]
fn classifies_port_with_defaults() {
    let consumer = PipewireEventConsumer::new();
    let props = bag(&[
        ("port.name", "capture_FL"),
        ("object.serial", "91"),
        ("port.id", "1"),
        ("port.direction", "out"),
        ("object.path", "alsa:pcm:0:hw:0:capture"),
        ("node.id", "10"),
    ]);
    let event = consumer.process_pipewire_update(&props).unwrap();
    assert_eq!(
        event,
        PipewireUpdateEvent::Port {
            id: "1".to_string(),
            name: "capture_FL".to_string(),
            direction: "out".to_string(),
            physical: "".to_string(),
            alias: "".to_string(),
            group: "".to_string(),
            path: "alsa:pcm:0:hw:0:capture".to_string(),
            dsp_format: "".to_string(),
            node_id: "10".to_string(),
            audio_channel: "".to_string(),
            object_serial: "91".to_string(),
        }
    );
}

#[test]
fn port_missing_direction_is_error() {
    let consumer = PipewireEventConsumer::new();
    let props = bag(&[
        ("port.name", "capture_FL"),
        ("object.serial", "91"),
        ("port.id", "1"),
        ("object.path", "alsa:pcm"),
        ("node.id", "10"),
    ]);
    assert_eq!(
        consumer.process_pipewire_update(&props),
        Err(TranslationError::MissingField {
            key: "port.direction".to_string()
        })
    );
}

#[test]
fn classifies_node_with_defaults() {
    let consumer = PipewireEventConsumer::new();
    let props = bag(&[("node.name", "spotify"), ("object.serial", "55")]);
    let event = consumer.process_pipewire_update(&props).unwrap();
    assert_eq!(
        event,
        PipewireUpdateEvent::Node {
            object_serial: "55".to_string(),
            factory_id: "".to_string(),
            client_id: "".to_string(),
            client_api: "".to_string(),
            application_name: "".to_string(),
            node_name: "spotify".to_string(),
            media_class: "".to_string(),
        }
    );
}

#[test]
fn node_missing_serial_is_error() {
    let consumer = PipewireEventConsumer::new();
    let props = bag(&[("node.name", "spotify")]);
    assert_eq!(
        consumer.process_pipewire_update(&props),
        Err(TranslationError::MissingField {
            key: "object.serial".to_string()
        })
    );
}

#[test]
fn classifies_application() {
    let consumer = PipewireEventConsumer::new();
    let props = bag(&[
        ("application.name", "Firefox"),
        ("object.serial", "60"),
        ("pipewire.access", "unrestricted"),
    ]);
    let event = consumer.process_pipewire_update(&props).unwrap();
    assert_eq!(
        event,
        PipewireUpdateEvent::Application {
            object_serial: "60".to_string(),
            module_id: "".to_string(),
            pipewire_protocol: "".to_string(),
            pipewire_sec_pid: "".to_string(),
            pipewire_sec_uid: "".to_string(),
            pipewire_sec_gid: "".to_string(),
            pipewire_sec_socket: "".to_string(),
            pipewire_access: "unrestricted".to_string(),
            name: "Firefox".to_string(),
        }
    );
}

#[test]
fn unmatched_notification_is_unclassified() {
    let consumer = PipewireEventConsumer::new();
    let props = bag(&[("metadata.name", "default"), ("object.serial", "3")]);
    assert_eq!(
        consumer.process_pipewire_update(&props),
        Err(TranslationError::Unclassified)
    );
}

#[test]
fn empty_bag_is_unclassified() {
    let consumer = PipewireEventConsumer::new();
    let props = bag(&[]);
    assert_eq!(
        consumer.process_pipewire_update(&props),
        Err(TranslationError::Unclassified)
    );
}

#[test]
fn device_priority_beats_port() {
    let consumer = PipewireEventConsumer::new();
    let props = bag(&[
        ("port.name", "playback_FL"),
        ("device.name", "card0"),
        ("factory.id", "14"),
        ("client.id", "32"),
        ("device.description", "Built-in Audio"),
        ("media.class", "Audio/Device"),
        ("object.serial", "44"),
    ]);
    match consumer.process_pipewire_update(&props).unwrap() {
        PipewireUpdateEvent::Device { .. } => {}
        other => panic!("expected a Device event, got {other:?}"),
    }
}
