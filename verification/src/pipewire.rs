use vstd::prelude::*;

use std::sync::mpsc::{Receiver, Sender};

use crate::channel::{ch_recv, ch_send};
use crate::error::Error;
use crate::graph::{
    admits_node, node_matches, port_matches, port_well_formed, props_get, Link, LinkInfo, Node,
    Port, PwEvent, PwGlobalObject, PwObjectType,
};
use crate::state::{
    sk_get, snapshot_nodes, snapshot_ports, ClientState, IncrementalMap,
};

verus! {

/// A command issued by the caller thread.
#[derive(Copy, Clone, Debug, PartialEq, Eq, Structural)]
pub enum PwRequest {
    Quit,
    Ports,
    Nodes,
    CreateLink(LinkInfo),
    RemoveLink(Link),
}

/// What the reactor consumes, in arrival order: registry events and
/// caller commands share one queue, so every event that arrived before
/// a command is applied to the projection before that command runs.
#[derive(Debug)]
pub enum PwInput {
    Event(PwEvent),
    Request(PwRequest),
}

/// The answer to one command; `Error` carries a failure attributed to
/// the single command that triggered it.
#[derive(Debug)]
pub enum PwResponse {
    Quit,
    Ports(Vec<Port>),
    Nodes(Vec<Node>),
    CreateLink(Link),
    RemoveLink,
    Error(Error),
}

/// How an add-event for a node changes the state: admitted nodes are
/// keyed by their id, everything else leaves the projection untouched;
/// ports and links never change.
pub open spec fn node_step(
    pre: ClientState,
    obj_id: u32,
    props: Seq<(String, String)>,
    post: ClientState,
) -> bool {
    &&& post.ports == pre.ports
    &&& post.links == pre.links
    &&& if admits_node(props) && props_get(props, "node.name"@) is Some {
        &&& match sk_get(post.nodes@, obj_id) {
            Some(n) => node_matches(n, obj_id, props),
            None => false,
        }
        &&& forall|k: u32| k != obj_id ==> sk_get(post.nodes@, k) == sk_get(pre.nodes@, k)
    } else {
        post.nodes == pre.nodes
    }
}

/// How an add-event for a port changes the state: well-formed ports are
/// keyed by their id; nodes and links never change.
pub open spec fn port_step(
    pre: ClientState,
    obj_id: u32,
    props: Seq<(String, String)>,
    post: ClientState,
) -> bool {
    &&& post.nodes == pre.nodes
    &&& post.links == pre.links
    &&& if port_well_formed(props) {
        &&& match sk_get(post.ports@, obj_id) {
            Some(p) => port_matches(p, obj_id, props),
            None => false,
        }
        &&& forall|k: u32| k != obj_id ==> sk_get(post.ports@, k) == sk_get(pre.ports@, k)
    } else {
        post.ports == pre.ports
    }
}

/// How a remove-event changes the state: the id disappears from both
/// projections independently, every other id is untouched, and the link
/// registry never changes.
pub open spec fn remove_step(pre: ClientState, id: u32, post: ClientState) -> bool {
    &&& post.links == pre.links
    &&& sk_get(post.nodes@, id) is None
    &&& sk_get(post.ports@, id) is None
    &&& forall|k: u32| k != id ==> sk_get(post.nodes@, k) == sk_get(pre.nodes@, k)
    &&& forall|k: u32| k != id ==> sk_get(post.ports@, k) == sk_get(pre.ports@, k)
    &&& sk_get(pre.nodes@, id) is None ==> post.nodes@ == pre.nodes@
    &&& sk_get(pre.ports@, id) is None ==> post.ports@ == pre.ports@
}

/// How one registry event changes the state.
pub open spec fn event_step(pre: ClientState, event: PwEvent, post: ClientState) -> bool {
    match event {
        PwEvent::Global(obj) => match obj.object_type {
            PwObjectType::Node => node_step(pre, obj.id, obj.props@, post),
            PwObjectType::Port => port_step(pre, obj.id, obj.props@, post),
            PwObjectType::Other => post == pre,
        },
        PwEvent::GlobalRemove(id) => remove_step(pre, id, post),
    }
}

/// How a CreateLink command changes the state and what it answers: a
/// fresh handle, one past the counter, never minted before; the registry
/// alone changes. Once the counter is exhausted the command fails and
/// changes nothing.
pub open spec fn create_link_step(
    pre: ClientState,
    info: LinkInfo,
    post: ClientState,
    resp: PwResponse,
) -> bool {
    &&& post.nodes == pre.nodes
    &&& post.ports == pre.ports
    &&& if pre.links.key < u32::MAX {
        &&& post.links.key == pre.links.key + 1
        &&& resp == PwResponse::CreateLink(Link { internal_link_id: (pre.links.key + 1) as u32 })
        &&& sk_get(pre.links.map@, (pre.links.key + 1) as u32) is None
        &&& sk_get(post.links.map@, (pre.links.key + 1) as u32) == Some(info)
        &&& forall|k: u32|
            k != (pre.links.key + 1) as u32 ==> sk_get(post.links.map@, k) == sk_get(
                pre.links.map@,
                k,
            )
    } else {
        &&& post.links == pre.links
        &&& resp == PwResponse::Error(Error::LinkHandlesExhausted)
    }
}

/// How a RemoveLink command changes the state and what it answers: a
/// handle in use is withdrawn and the command succeeds; any other handle
/// fails with `LinkNotFound` and changes nothing.
pub open spec fn remove_link_step(
    pre: ClientState,
    link: Link,
    post: ClientState,
    resp: PwResponse,
) -> bool {
    &&& post.nodes == pre.nodes
    &&& post.ports == pre.ports
    &&& post.links.key == pre.links.key
    &&& match sk_get(pre.links.map@, link.internal_link_id) {
        Some(_) => resp == PwResponse::RemoveLink,
        None => resp == PwResponse::Error(Error::LinkNotFound) && post.links.map@
            == pre.links.map@,
    }
    &&& sk_get(post.links.map@, link.internal_link_id) is None
    &&& forall|k: u32|
        k != link.internal_link_id ==> sk_get(post.links.map@, k) == sk_get(pre.links.map@, k)
}

/// Exactly one response per command, of the matching shape: how the
/// reactor's one command turn reads.
pub open spec fn request_step(
    pre: ClientState,
    request: PwRequest,
    post: ClientState,
    resp: PwResponse,
    quit: bool,
) -> bool {
    match request {
        PwRequest::Quit => post == pre && resp == PwResponse::Quit && quit == true,
        PwRequest::Ports => post == pre && quit == false && match resp {
            PwResponse::Ports(v) => v@.len() == pre.ports@.len() && forall|i: int|
                0 <= i < v@.len() ==> v@[i] == (#[trigger] pre.ports@[i]).1,
            _ => false,
        },
        PwRequest::Nodes => post == pre && quit == false && match resp {
            PwResponse::Nodes(v) => v@.len() == pre.nodes@.len() && forall|i: int|
                0 <= i < v@.len() ==> v@[i] == (#[trigger] pre.nodes@[i]).1,
            _ => false,
        },
        PwRequest::CreateLink(info) => create_link_step(pre, info, post, resp) && quit == false,
        PwRequest::RemoveLink(link) => remove_link_step(pre, link, post, resp) && quit == false,
    }
}

/// The Graph Reactor: the one owner of the projection and the link
/// registry; it consumes inputs one turn at a time and answers every
/// command with exactly one response.
pub struct ThreadWorker {
    pub main_sender: Sender<PwResponse>,
    pub pw_reciever: Receiver<PwInput>,
    pub state: ClientState,
}

impl ThreadWorker {
    pub fn try_new(main_sender: Sender<PwResponse>, pw_reciever: Receiver<PwInput>) -> (r: Result<
        ThreadWorker,
        Error,
    >)
        ensures
            r matches Ok(w) && w.state.wf() && w.state.nodes@ == Seq::<(u32, Node)>::empty()
                && w.state.ports@ == Seq::<(u32, Port)>::empty() && w.state.links.map@ == Seq::<
                (u32, LinkInfo),
            >::empty() && w.state.links.key == 0,
    {
        Ok(ThreadWorker { main_sender, pw_reciever, state: ClientState::new() })
    }

    /// Applies a node add-event: filter, then insert by id.
    pub fn handle_node(object: &PwGlobalObject, state: &mut ClientState)
        requires
            old(state).wf(),
        ensures
            final(state).wf(),
            node_step(*old(state), object.id, object.props@, *final(state)),
    {
        if crate::graph::node_admitted(object) {
            if let Some(node) = Node::from_global_obj(object) {
                let id = node.id();
                state.nodes.insert(id, node);
            }
        }
    }

    /// Applies a port add-event: insert by id, whatever node it names.
    pub fn handle_port(object: &PwGlobalObject, state: &mut ClientState)
        requires
            old(state).wf(),
        ensures
            final(state).wf(),
            port_step(*old(state), object.id, object.props@, *final(state)),
    {
        if let Some(port) = Port::from_global_obj(object) {
            let id = port.id();
            state.ports.insert(id, port);
        }
    }

    /// Applies one registry event to the projection.
    pub fn apply_event(event: &PwEvent, state: &mut ClientState)
        requires
            old(state).wf(),
        ensures
            final(state).wf(),
            event_step(*old(state), *event, *final(state)),
    {
        match event {
            PwEvent::Global(object) => match object.object_type {
                PwObjectType::Node => Self::handle_node(object, state),
                PwObjectType::Port => Self::handle_port(object, state),
                PwObjectType::Other => {},
            },
            PwEvent::GlobalRemove(id) => {
                let _ = state.nodes.remove(*id);
                let _ = state.ports.remove(*id);
            },
        }
    }

    /// Registers the desired link under a fresh handle.
    pub fn create_link(links: &mut IncrementalMap<LinkInfo>, link: &LinkInfo) -> (r: Result<
        Link,
        Error,
    >)
        requires
            old(links).wf(),
        ensures
            final(links).wf(),
            old(links).key < u32::MAX ==> r == Ok::<Link, Error>(
                Link { internal_link_id: (old(links).key + 1) as u32 },
            ) && final(links).key == old(links).key + 1 && sk_get(
                old(links).map@,
                (old(links).key + 1) as u32,
            ) is None && sk_get(final(links).map@, (old(links).key + 1) as u32) == Some(*link)
                && forall|k: u32|
                k != (old(links).key + 1) as u32 ==> sk_get(final(links).map@, k) == sk_get(
                    old(links).map@,
                    k,
                ),
            old(links).key == u32::MAX ==> r == Err::<Link, Error>(Error::LinkHandlesExhausted)
                && *final(links) == *old(links),
    {
        if links.key < u32::MAX {
            let handle = links.insert(*link);
            Ok(Link::new(handle))
        } else {
            Err(Error::LinkHandlesExhausted)
        }
    }

    /// Withdraws the handle; removing a handle not in use is an explicit
    /// failure, never a silent success.
    pub fn remove_link(links: &mut IncrementalMap<LinkInfo>, link: Link) -> (r: Result<(), Error>)
        requires
            old(links).wf(),
        ensures
            final(links).wf(),
            final(links).key == old(links).key,
            r matches Ok(()) <==> sk_get(old(links).map@, link.internal_link_id) is Some,
            r matches Err(e) ==> e == Error::LinkNotFound,
            sk_get(final(links).map@, link.internal_link_id) is None,
            forall|k: u32|
                k != link.internal_link_id ==> sk_get(final(links).map@, k) == sk_get(
                    old(links).map@,
                    k,
                ),
            sk_get(old(links).map@, link.internal_link_id) is None ==> final(links).map@ == old(
                links,
            ).map@,
    {
        match links.remove(link.internal_link_id) {
            Some(_) => Ok(()),
            None => Err(Error::LinkNotFound),
        }
    }

    /// Processes one command to completion and answers it; the returned
    /// flag says whether the command was Quit, which stops the loop.
    pub fn handle_request(&mut self, request: PwRequest) -> (r: (PwResponse, bool))
        requires
            old(self).state.wf(),
        ensures
            final(self).state.wf(),
            request_step(old(self).state, request, final(self).state, r.0, r.1),
    {
        match request {
            PwRequest::Quit => (PwResponse::Quit, true),
            PwRequest::Ports => (PwResponse::Ports(snapshot_ports(&self.state.ports)), false),
            PwRequest::Nodes => (PwResponse::Nodes(snapshot_nodes(&self.state.nodes)), false),
            PwRequest::CreateLink(info) => match Self::create_link(&mut self.state.links, &info) {
                Ok(link) => (PwResponse::CreateLink(link), false),
                Err(e) => (PwResponse::Error(e), false),
            },
            PwRequest::RemoveLink(link) => match Self::remove_link(&mut self.state.links, link) {
                Ok(_) => (PwResponse::RemoveLink, false),
                Err(e) => (PwResponse::Error(e), false),
            },
        }
    }

    /// The cooperative loop: one input per turn, events applied in
    /// arrival order, each command answered before the next turn; it
    /// stops on Quit — whose response is sent before the loop ends — or
    /// when the input channel closes or the turn budget runs out. A
    /// caller that wants the loop unbounded in practice passes
    /// `u64::MAX` turns.
    pub fn run(self, turns: u64)
        requires
            self.state.wf(),
    {
        let mut worker = self;
        let mut remaining = turns;
        while remaining > 0
            invariant
                worker.state.wf(),
            decreases remaining,
        {
            remaining = remaining - 1;
            match ch_recv(&worker.pw_reciever) {
                Some(PwInput::Event(event)) => {
                    Self::apply_event(&event, &mut worker.state);
                },
                Some(PwInput::Request(request)) => {
                    let (response, quit) = worker.handle_request(request);
                    let _ = ch_send(&worker.main_sender, response);
                    if quit {
                        return ;
                    }
                },
                None => {
                    return ;
                },
            }
        }
    }
}

/// Translates a reply to Quit into a typed result: any mismatched shape
/// is the protocol violation `UnexpectedPwResponse`.
pub fn expect_quit(response: PwResponse) -> (r: Result<(), Error>)
    ensures
        r matches Ok(()) <==> response is Quit,
        response matches PwResponse::Error(e) ==> r == Err::<(), Error>(e),
        !(response is Quit || response is Error) ==> r == Err::<(), Error>(
            Error::UnexpectedPwResponse,
        ),
{
    match response {
        PwResponse::Quit => Ok(()),
        PwResponse::Error(e) => Err(e),
        _ => Err(Error::UnexpectedPwResponse),
    }
}

/// Translates a reply to Nodes into a typed result.
pub fn expect_nodes(response: PwResponse) -> (r: Result<Vec<Node>, Error>)
    ensures
        response matches PwResponse::Nodes(v) ==> r == Ok::<Vec<Node>, Error>(v),
        response matches PwResponse::Error(e) ==> r == Err::<Vec<Node>, Error>(e),
        !(response is Nodes || response is Error) ==> r == Err::<Vec<Node>, Error>(
            Error::UnexpectedPwResponse,
        ),
        r is Ok <==> response is Nodes,
{
    match response {
        PwResponse::Nodes(v) => Ok(v),
        PwResponse::Error(e) => Err(e),
        _ => Err(Error::UnexpectedPwResponse),
    }
}

/// Translates a reply to Ports into a typed result.
pub fn expect_ports(response: PwResponse) -> (r: Result<Vec<Port>, Error>)
    ensures
        response matches PwResponse::Ports(v) ==> r == Ok::<Vec<Port>, Error>(v),
        response matches PwResponse::Error(e) ==> r == Err::<Vec<Port>, Error>(e),
        !(response is Ports || response is Error) ==> r == Err::<Vec<Port>, Error>(
            Error::UnexpectedPwResponse,
        ),
        r is Ok <==> response is Ports,
{
    match response {
        PwResponse::Ports(v) => Ok(v),
        PwResponse::Error(e) => Err(e),
        _ => Err(Error::UnexpectedPwResponse),
    }
}

/// Translates a reply to CreateLink into a typed result.
pub fn expect_create_link(response: PwResponse) -> (r: Result<Link, Error>)
    ensures
        response matches PwResponse::CreateLink(l) ==> r == Ok::<Link, Error>(l),
        response matches PwResponse::Error(e) ==> r == Err::<Link, Error>(e),
        !(response is CreateLink || response is Error) ==> r == Err::<Link, Error>(
            Error::UnexpectedPwResponse,
        ),
        r is Ok <==> response is CreateLink,
{
    match response {
        PwResponse::CreateLink(l) => Ok(l),
        PwResponse::Error(e) => Err(e),
        _ => Err(Error::UnexpectedPwResponse),
    }
}

/// Translates a reply to RemoveLink into a typed result.
pub fn expect_remove_link(response: PwResponse) -> (r: Result<(), Error>)
    ensures
        r matches Ok(()) <==> response is RemoveLink,
        response matches PwResponse::Error(e) ==> r == Err::<(), Error>(e),
        !(response is RemoveLink || response is Error) ==> r == Err::<(), Error>(
            Error::UnexpectedPwResponse,
        ),
{
    match response {
        PwResponse::RemoveLink => Ok(()),
        PwResponse::Error(e) => Err(e),
        _ => Err(Error::UnexpectedPwResponse),
    }
}

/// The Client Facade: stateless but for the two channel endpoints; each
/// operation sends exactly one command and blocks for exactly one
/// response.
pub struct Client {
    pw_sender: Sender<PwInput>,
    main_receiver: Receiver<PwResponse>,
}

impl Client {
    /// Builds a facade over the two channel endpoints; the reactor owns
    /// the far ends.
    pub fn from_parts(pw_sender: Sender<PwInput>, main_receiver: Receiver<PwResponse>) -> Client {
        Client { pw_sender, main_receiver }
    }

    /// One round trip: a send error means the reactor is gone, a receive
    /// error that it closed without answering.
    fn generic_requset(&self, request: PwRequest) -> (r: Result<PwResponse, Error>)
        ensures
            r matches Err(e) ==> e == Error::Send || e == Error::Recv,
    {
        if !ch_send(&self.pw_sender, PwInput::Request(request)) {
            return Err(Error::Send);
        }
        match ch_recv(&self.main_receiver) {
            Some(response) => Ok(response),
            None => Err(Error::Recv),
        }
    }

    /// Asks the reactor to stop; `Ok` exactly when the reply was the
    /// Quit response.
    pub fn quit(&self) -> Result<(), Error> {
        match self.generic_requset(PwRequest::Quit) {
            Ok(response) => expect_quit(response),
            Err(e) => Err(e),
        }
    }

    /// A point-in-time snapshot of the admitted nodes.
    pub fn application_nodes(&self) -> Result<Vec<Node>, Error> {
        match self.generic_requset(PwRequest::Nodes) {
            Ok(response) => expect_nodes(response),
            Err(e) => Err(e),
        }
    }

    /// A point-in-time snapshot of the ports.
    pub fn ports(&self) -> Result<Vec<Port>, Error> {
        match self.generic_requset(PwRequest::Ports) {
            Ok(response) => expect_ports(response),
            Err(e) => Err(e),
        }
    }

    /// Asks the reactor to create a link and hands back its fresh handle.
    pub fn create_link(&self, link_info: LinkInfo) -> Result<Link, Error> {
        match self.generic_requset(PwRequest::CreateLink(link_info)) {
            Ok(response) => expect_create_link(response),
            Err(e) => Err(e),
        }
    }

    /// Asks the reactor to tear the link down and withdraw the handle.
    pub fn remove_link(&self, link: Link) -> Result<(), Error> {
        match self.generic_requset(PwRequest::RemoveLink(link)) {
            Ok(response) => expect_remove_link(response),
            Err(e) => Err(e),
        }
    }
}

} // verus!
