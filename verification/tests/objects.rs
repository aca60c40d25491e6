use mic_bridge::error::Error;
use mic_bridge::graph::{Node, Port, PortDirection, PwGlobalObject, PwObjectType};
use mic_bridge::routing::{
    application_input_ports, find_self_node, find_self_output_port, node_ids, plan_links,
};
use mic_bridge::strutil::{parse_u32, str_contains, str_eq, str_starts_with};
use mic_bridge::LinkInfo;

fn object(id: u32, object_type: PwObjectType, props: Vec<(&str, &str)>) -> PwGlobalObject {
    PwGlobalObject {
        id,
        object_type,
        props: props.iter().map(|(k, v)| (k.to_string(), v.to_string())).collect(),
    }
}

fn port(id: u32, node_id: u32, port_id: u32, direction: PortDirection) -> Port {
    Port { id, node_id, port_id, direction }
}

fn node(id: u32, application_name: Option<&str>, node_name: &str) -> Node {
    Node {
        id,
        application_name: application_name.map(|s| s.to_string()),
        node_name: node_name.to_string(),
    }
}

#[test]
fn parse_u32_exact_values() {
    assert_eq!(parse_u32("0"), Some(0));
    assert_eq!(parse_u32("42"), Some(42));
    assert_eq!(parse_u32("007"), Some(7));
    assert_eq!(parse_u32("4294967295"), Some(u32::MAX));
}

#[test]
fn parse_u32_rejections() {
    assert_eq!(parse_u32(""), None);
    assert_eq!(parse_u32("12a"), None);
    assert_eq!(parse_u32("-3"), None);
    assert_eq!(parse_u32("4294967296"), None);
    assert_eq!(parse_u32("99999999999999999999"), None);
}

#[test]
fn string_helpers() {
    assert!(str_eq("media.type", "media.type"));
    assert!(!str_eq("media.type", "media.class"));
    assert!(str_starts_with("Stream/Output/Audio", "Stream/"));
    assert!(!str_starts_with("Audio/Device", "Stream/"));
    assert!(str_starts_with("anything", ""));
    assert!(str_contains("firefox-bin", "firefox"));
    assert!(str_contains("x", ""));
    assert!(!str_contains("pipe", "wire"));
}

#[test]
fn node_from_event() {
    let obj = object(
        5,
        PwObjectType::Node,
        vec![("node.name", "speaker-stream"), ("application.name", "player")],
    );
    let n = Node::from_global_obj(&obj).unwrap();
    assert_eq!(n.id(), 5);
    assert_eq!(n.node_name(), "speaker-stream");
    assert_eq!(n.application_name().map(|s| s.as_str()), Some("player"));
}

#[test]
fn node_from_event_requires_name() {
    let obj = object(5, PwObjectType::Node, vec![("application.name", "player")]);
    assert!(Node::from_global_obj(&obj).is_none());
}

#[test]
fn port_from_event() {
    let obj = object(
        9,
        PwObjectType::Port,
        vec![("node.id", "5"), ("port.id", "2"), ("port.direction", "in")],
    );
    let p = Port::from_global_obj(&obj).unwrap();
    assert_eq!(p.id(), 9);
    assert_eq!(p.node_id(), 5);
    assert_eq!(p.port_id(), 2);
    assert!(matches!(p.direction(), PortDirection::In));
}

#[test]
fn port_from_event_rejects_malformed() {
    let bad_direction = object(
        9,
        PwObjectType::Port,
        vec![("node.id", "5"), ("port.id", "2"), ("port.direction", "sideways")],
    );
    assert!(Port::from_global_obj(&bad_direction).is_none());
    let missing_node = object(9, PwObjectType::Port, vec![("port.id", "2"), ("port.direction", "out")]);
    assert!(Port::from_global_obj(&missing_node).is_none());
    let bad_number = object(
        9,
        PwObjectType::Port,
        vec![("node.id", "five"), ("port.id", "2"), ("port.direction", "out")],
    );
    assert!(Port::from_global_obj(&bad_number).is_none());
}

#[test]
fn self_node_by_substring() {
    let nodes = vec![
        node(1, Some("browser"), "tab-audio"),
        node(2, Some("mic-router-bin"), "playback"),
        node(3, Some("mic-router-bin"), "another"),
    ];
    let found = find_self_node(&nodes, "mic-router").unwrap();
    assert_eq!(found.id(), 2);
    assert_eq!(
        find_self_node(&nodes, "absent").unwrap_err(),
        Error::ApplicationNodeNotFound
    );
    let nameless = vec![node(1, None, "tab-audio")];
    assert_eq!(
        find_self_node(&nameless, "tab").unwrap_err(),
        Error::ApplicationNodeNotFound
    );
}

#[test]
fn input_port_selection() {
    let nodes = vec![node(1, Some("a"), "a"), node(2, Some("b"), "b")];
    let ids = node_ids(&nodes);
    assert_eq!(ids, vec![1, 2]);
    let ports = vec![
        port(10, 1, 0, PortDirection::In),
        port(11, 1, 1, PortDirection::Out),
        port(12, 3, 0, PortDirection::In),
        port(13, 2, 0, PortDirection::In),
    ];
    let inputs = application_input_ports(&ports, &ids);
    let picked: Vec<u32> = inputs.iter().map(|p| p.id).collect();
    assert_eq!(picked, vec![10, 13]);
}

#[test]
fn self_output_port_first_match() {
    let ports = vec![
        port(10, 1, 0, PortDirection::In),
        port(11, 2, 0, PortDirection::Out),
        port(12, 2, 1, PortDirection::Out),
    ];
    let found = find_self_output_port(&ports, 2).unwrap();
    assert_eq!(found.id, 11);
    assert_eq!(
        find_self_output_port(&ports, 9).unwrap_err(),
        Error::ApplicationOutputPortNotFound
    );
}

#[test]
fn planned_links_use_self_output() {
    let self_output = port(11, 2, 3, PortDirection::Out);
    let inputs = vec![port(10, 1, 0, PortDirection::In), port(13, 4, 5, PortDirection::In)];
    let links = plan_links(&self_output, &inputs);
    assert_eq!(links.len(), 2);
    assert_eq!(links[0], LinkInfo::new(2, 3, 1, 0));
    assert_eq!(links[1], LinkInfo::new(2, 3, 4, 5));
}
