use std::sync::mpsc;

use mic_bridge::error::Error;
use mic_bridge::graph::{Link, LinkInfo, PwEvent, PwGlobalObject, PwObjectType};
use mic_bridge::pipewire::{Client, PwInput, PwRequest, PwResponse, ThreadWorker};

fn node_object(id: u32, props: Vec<(&str, &str)>) -> PwGlobalObject {
    PwGlobalObject {
        id,
        object_type: PwObjectType::Node,
        props: props.iter().map(|(k, v)| (k.to_string(), v.to_string())).collect(),
    }
}

fn port_object(id: u32, node_id: &str, port_id: &str, direction: &str) -> PwGlobalObject {
    PwGlobalObject {
        id,
        object_type: PwObjectType::Port,
        props: vec![
            ("node.id".to_string(), node_id.to_string()),
            ("port.id".to_string(), port_id.to_string()),
            ("port.direction".to_string(), direction.to_string()),
        ],
    }
}

fn audio_stream_node(id: u32, class: &str, name: &str) -> PwGlobalObject {
    node_object(
        id,
        vec![
            ("media.type", "Audio"),
            ("media.class", class),
            ("node.name", name),
            ("application.name", name),
        ],
    )
}

/// Feeds the worker a fixed input sequence and collects every response.
fn run_session(inputs: Vec<PwInput>) -> Vec<PwResponse> {
    let (pw_sender, pw_receiver) = mpsc::channel();
    let (main_sender, main_receiver) = mpsc::channel();
    let worker = ThreadWorker::try_new(main_sender, pw_receiver).unwrap();
    for input in inputs {
        pw_sender.send(input).unwrap();
    }
    drop(pw_sender);
    worker.run(10_000);
    let mut responses = Vec::new();
    while let Ok(response) = main_receiver.recv() {
        responses.push(response);
    }
    responses
}

fn link_info(on: u32, op: u32, inn: u32, ip: u32) -> LinkInfo {
    LinkInfo::new(on, op, inn, ip)
}

#[test]
fn sequential_create_handles() {
    let mut inputs = Vec::new();
    for i in 0..5u32 {
        inputs.push(PwInput::Request(PwRequest::CreateLink(link_info(1, i, 2, i))));
    }
    inputs.push(PwInput::Request(PwRequest::Quit));
    let responses = run_session(inputs);
    assert_eq!(responses.len(), 6);
    for i in 0..5u32 {
        match &responses[i as usize] {
            PwResponse::CreateLink(link) => assert_eq!(*link, Link::new(i + 1)),
            other => panic!("expected CreateLink, got {:?}", other),
        }
    }
    assert!(matches!(responses[5], PwResponse::Quit));
}

#[test]
fn remove_link_succeeds_once() {
    let inputs = vec![
        PwInput::Request(PwRequest::CreateLink(link_info(1, 0, 2, 0))),
        PwInput::Request(PwRequest::RemoveLink(Link::new(1))),
        PwInput::Request(PwRequest::RemoveLink(Link::new(1))),
        PwInput::Request(PwRequest::Quit),
    ];
    let responses = run_session(inputs);
    assert_eq!(responses.len(), 4);
    match &responses[0] {
        PwResponse::CreateLink(link) => assert_eq!(*link, Link::new(1)),
        other => panic!("expected CreateLink, got {:?}", other),
    }
    assert!(matches!(responses[1], PwResponse::RemoveLink));
    assert!(matches!(responses[2], PwResponse::Error(Error::LinkNotFound)));
    assert!(matches!(responses[3], PwResponse::Quit));
}

#[test]
fn admission_filter_keeps_streams_only() {
    let inputs = vec![
        PwInput::Event(PwEvent::Global(audio_stream_node(1, "Stream/Output/Audio", "player"))),
        PwInput::Event(PwEvent::Global(audio_stream_node(2, "Stream/Input/Audio", "recorder"))),
        PwInput::Event(PwEvent::Global(node_object(
            3,
            vec![
                ("media.type", "Audio"),
                ("media.class", "Audio/Device"),
                ("node.name", "card"),
            ],
        ))),
        PwInput::Request(PwRequest::Nodes),
        PwInput::Request(PwRequest::Quit),
    ];
    let responses = run_session(inputs);
    assert_eq!(responses.len(), 2);
    match &responses[0] {
        PwResponse::Nodes(nodes) => {
            let mut ids: Vec<u32> = nodes.iter().map(|n| n.id()).collect();
            ids.sort();
            assert_eq!(ids, vec![1, 2]);
        },
        other => panic!("expected Nodes, got {:?}", other),
    }
}

#[test]
fn removed_node_absent_ports_remain() {
    let inputs = vec![
        PwInput::Event(PwEvent::Global(audio_stream_node(10, "Stream/Output/Audio", "player"))),
        PwInput::Event(PwEvent::Global(port_object(20, "10", "0", "out"))),
        PwInput::Event(PwEvent::Global(port_object(21, "10", "1", "in"))),
        PwInput::Event(PwEvent::GlobalRemove(10)),
        PwInput::Request(PwRequest::Nodes),
        PwInput::Request(PwRequest::Ports),
        PwInput::Request(PwRequest::Quit),
    ];
    let responses = run_session(inputs);
    assert_eq!(responses.len(), 3);
    match &responses[0] {
        PwResponse::Nodes(nodes) => assert!(nodes.iter().all(|n| n.id() != 10)),
        other => panic!("expected Nodes, got {:?}", other),
    }
    match &responses[1] {
        PwResponse::Ports(ports) => {
            let mut ids: Vec<u32> = ports.iter().map(|p| p.id()).collect();
            ids.sort();
            assert_eq!(ids, vec![20, 21]);
        },
        other => panic!("expected Ports, got {:?}", other),
    }
}

#[test]
fn readded_node_replaces_earlier_entry() {
    let inputs = vec![
        PwInput::Event(PwEvent::Global(audio_stream_node(1, "Stream/Output/Audio", "first"))),
        PwInput::Event(PwEvent::Global(audio_stream_node(1, "Stream/Output/Audio", "second"))),
        PwInput::Request(PwRequest::Nodes),
        PwInput::Request(PwRequest::Quit),
    ];
    let responses = run_session(inputs);
    match &responses[0] {
        PwResponse::Nodes(nodes) => {
            assert_eq!(nodes.len(), 1);
            assert_eq!(nodes[0].id(), 1);
            assert_eq!(nodes[0].node_name(), "second");
        },
        other => panic!("expected Nodes, got {:?}", other),
    }
}

#[test]
fn port_removal_is_independent() {
    let inputs = vec![
        PwInput::Event(PwEvent::Global(port_object(20, "10", "0", "in"))),
        PwInput::Event(PwEvent::GlobalRemove(20)),
        PwInput::Request(PwRequest::Ports),
        PwInput::Request(PwRequest::Quit),
    ];
    let responses = run_session(inputs);
    match &responses[0] {
        PwResponse::Ports(ports) => assert!(ports.is_empty()),
        other => panic!("expected Ports, got {:?}", other),
    }
}

#[test]
fn quit_answers_once_then_sends_fail() {
    let (pw_sender, pw_receiver) = mpsc::channel();
    let (main_sender, main_receiver) = mpsc::channel();
    let worker = ThreadWorker::try_new(main_sender, pw_receiver).unwrap();
    pw_sender.send(PwInput::Request(PwRequest::Quit)).unwrap();
    worker.run(10_000);
    assert!(matches!(main_receiver.recv(), Ok(PwResponse::Quit)));
    // no second response: the worker is gone and took its sender with it
    assert!(main_receiver.recv().is_err());
    // a command submitted after the Quit response fails with a send error
    let client = Client::from_parts(pw_sender, main_receiver);
    assert_eq!(client.quit(), Err(Error::Send));
    assert_eq!(client.create_link(link_info(1, 0, 2, 0)), Err(Error::Send));
}

#[test]
fn end_to_end_link_lifecycle() {
    let inputs = vec![
        PwInput::Request(PwRequest::CreateLink(link_info(1, 0, 2, 0))),
        PwInput::Request(PwRequest::RemoveLink(Link::new(1))),
        PwInput::Request(PwRequest::RemoveLink(Link::new(1))),
        PwInput::Request(PwRequest::Quit),
    ];
    let responses = run_session(inputs);
    assert!(matches!(responses[0], PwResponse::CreateLink(link) if link == Link::new(1)));
    assert!(matches!(responses[1], PwResponse::RemoveLink));
    assert!(matches!(responses[2], PwResponse::Error(Error::LinkNotFound)));
}

#[test]
fn handle_not_reused_after_removal() {
    let inputs = vec![
        PwInput::Request(PwRequest::CreateLink(link_info(1, 0, 2, 0))),
        PwInput::Request(PwRequest::RemoveLink(Link::new(1))),
        PwInput::Request(PwRequest::CreateLink(link_info(1, 0, 3, 0))),
        PwInput::Request(PwRequest::Quit),
    ];
    let responses = run_session(inputs);
    assert!(matches!(responses[2], PwResponse::CreateLink(link) if link == Link::new(2)));
}

#[test]
fn facade_translates_responses() {
    // The test holds both far ends, so a pre-loaded reply is consumed by
    // the next facade call.
    let (pw_sender, _pw_receiver) = mpsc::channel();
    let (main_sender, main_receiver) = mpsc::channel();
    let client = Client::from_parts(pw_sender, main_receiver);

    main_sender.send(PwResponse::Quit).unwrap();
    assert_eq!(client.quit(), Ok(()));

    // a reply whose kind does not match the request's kind
    main_sender.send(PwResponse::Quit).unwrap();
    assert_eq!(client.create_link(link_info(1, 0, 2, 0)), Err(Error::UnexpectedPwResponse));

    main_sender.send(PwResponse::CreateLink(Link::new(7))).unwrap();
    assert_eq!(client.create_link(link_info(1, 0, 2, 0)), Ok(Link::new(7)));

    main_sender.send(PwResponse::Error(Error::LinkNotFound)).unwrap();
    assert_eq!(client.remove_link(Link::new(7)), Err(Error::LinkNotFound));

    main_sender.send(PwResponse::RemoveLink).unwrap();
    assert_eq!(client.remove_link(Link::new(7)), Ok(()));

    main_sender.send(PwResponse::Nodes(Vec::new())).unwrap();
    assert!(client.application_nodes().unwrap().is_empty());

    main_sender.send(PwResponse::Ports(Vec::new())).unwrap();
    assert!(client.ports().unwrap().is_empty());
}

#[test]
fn facade_reports_closed_reply_channel() {
    let (pw_sender, _pw_receiver) = mpsc::channel();
    let (main_sender, main_receiver) = mpsc::channel();
    drop(main_sender);
    let client = Client::from_parts(pw_sender, main_receiver);
    assert_eq!(client.quit(), Err(Error::Recv));
}

#[test]
fn exhausted_handle_counter_is_an_error() {
    let mut links = mic_bridge::state::IncrementalMap::<LinkInfo>::new();
    links.key = u32::MAX;
    let result = ThreadWorker::create_link(&mut links, &link_info(1, 0, 2, 0));
    assert_eq!(result, Err(Error::LinkHandlesExhausted));
}
