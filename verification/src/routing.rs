use vstd::prelude::*;

use crate::error::Error;
use crate::graph::{is_self_node, LinkInfo, Node, Port, PortDirection};
use crate::strutil::str_contains;

verus! {

/// The first node whose application name contains the executable's name:
/// the self-identification heuristic, approximate on purpose.
pub fn find_self_node(nodes: &Vec<Node>, executable_name: &str) -> (r: Result<Node, Error>)
    ensures
        match r {
            Ok(n) => exists|i: int|
                {
                    &&& 0 <= i < nodes@.len()
                    &&& n == #[trigger] nodes@[i]
                    &&& is_self_node(nodes@[i], executable_name@)
                    &&& forall|j: int|
                        0 <= j < i ==> !is_self_node(#[trigger] nodes@[j], executable_name@)
                },
            Err(e) => e == Error::ApplicationNodeNotFound && forall|i: int|
                0 <= i < nodes@.len() ==> !is_self_node(#[trigger] nodes@[i], executable_name@),
        },
{
    let mut i: usize = 0;
    while i < nodes.len()
        invariant
            0 <= i <= nodes@.len(),
            forall|j: int| 0 <= j < i ==> !is_self_node(#[trigger] nodes@[j], executable_name@),
        decreases nodes@.len() - i,
    {
        let found = match nodes[i].application_name() {
            Some(name) => str_contains(name.as_str(), executable_name),
            None => false,
        };
        if found {
            return Ok(nodes[i].clone());
        }
        i += 1;
    }
    Err(Error::ApplicationNodeNotFound)
}

/// Every node's id, in order.
pub fn node_ids(nodes: &Vec<Node>) -> (r: Vec<u32>)
    ensures
        r@.len() == nodes@.len(),
        forall|i: int| 0 <= i < nodes@.len() ==> r@[i] == (#[trigger] nodes@[i]).id,
{
    let mut r: Vec<u32> = Vec::new();
    let mut i: usize = 0;
    while i < nodes.len()
        invariant
            0 <= i <= nodes@.len(),
            r@.len() == i,
            forall|j: int| 0 <= j < i ==> r@[j] == (#[trigger] nodes@[j]).id,
        decreases nodes@.len() - i,
    {
        r.push(nodes[i].id());
        i += 1;
    }
    r
}

/// Whether `ids` lists `id`.
pub fn contains_id(ids: &Vec<u32>, id: u32) -> (r: bool)
    ensures
        r == ids@.contains(id),
{
    let mut i: usize = 0;
    while i < ids.len()
        invariant
            0 <= i <= ids@.len(),
            forall|j: int| 0 <= j < i ==> ids@[j] != id,
        decreases ids@.len() - i,
    {
        if ids[i] == id {
            return true;
        }
        i += 1;
    }
    false
}

/// A port that belongs to one of the listed applications and consumes
/// audio: a capture input the caller wants to feed.
pub open spec fn is_app_input_port(p: Port, ids: Seq<u32>) -> bool {
    ids.contains(p.node_id) && p.direction == PortDirection::In
}

/// The application input ports among `ports`, in order.
pub open spec fn input_ports_of(ports: Seq<Port>, ids: Seq<u32>) -> Seq<Port>
    decreases ports.len(),
{
    if ports.len() == 0 {
        Seq::empty()
    } else {
        let rest = input_ports_of(ports.drop_last(), ids);
        if is_app_input_port(ports.last(), ids) {
            rest.push(ports.last())
        } else {
            rest
        }
    }
}

/// Selects the capture inputs of the listed applications.
pub fn application_input_ports(ports: &Vec<Port>, ids: &Vec<u32>) -> (r: Vec<Port>)
    ensures
        r@ == input_ports_of(ports@, ids@),
{
    let mut r: Vec<Port> = Vec::new();
    let mut i: usize = 0;
    while i < ports.len()
        invariant
            0 <= i <= ports@.len(),
            r@ == input_ports_of(ports@.take(i as int), ids@),
        decreases ports@.len() - i,
    {
        proof {
            assert(ports@.take(i + 1).drop_last() =~= ports@.take(i as int));
            assert(ports@.take(i + 1).last() == ports@[i as int]);
        }
        let p = ports[i];
        if contains_id(ids, p.node_id) && p.direction == PortDirection::In {
            r.push(p);
        }
        i += 1;
    }
    proof {
        assert(ports@.take(ports@.len() as int) =~= ports@);
    }
    r
}

/// The first port that belongs to `node_id`: how the caller locates its
/// own output port among a snapshot's ports.
pub fn find_self_output_port(ports: &Vec<Port>, node_id: u32) -> (r: Result<Port, Error>)
    ensures
        match r {
            Ok(p) => exists|i: int|
                {
                    &&& 0 <= i < ports@.len()
                    &&& p == #[trigger] ports@[i]
                    &&& p.node_id == node_id
                    &&& forall|j: int| 0 <= j < i ==> (#[trigger] ports@[j]).node_id != node_id
                },
            Err(e) => e == Error::ApplicationOutputPortNotFound && forall|i: int|
                0 <= i < ports@.len() ==> (#[trigger] ports@[i]).node_id != node_id,
        },
{
    let mut i: usize = 0;
    while i < ports.len()
        invariant
            0 <= i <= ports@.len(),
            forall|j: int| 0 <= j < i ==> (#[trigger] ports@[j]).node_id != node_id,
        decreases ports@.len() - i,
    {
        if ports[i].node_id() == node_id {
            return Ok(ports[i]);
        }
        i += 1;
    }
    Err(Error::ApplicationOutputPortNotFound)
}

/// One desired link per capture input, from the caller's own output port.
pub fn plan_links(self_output: &Port, inputs: &Vec<Port>) -> (r: Vec<LinkInfo>)
    ensures
        r@.len() == inputs@.len(),
        forall|i: int|
            0 <= i < inputs@.len() ==> r@[i] == (LinkInfo {
                output_node_id: self_output.node_id,
                output_port_id: self_output.port_id,
                input_node_id: (#[trigger] inputs@[i]).node_id,
                input_port_id: inputs@[i].port_id,
            }),
{
    let mut r: Vec<LinkInfo> = Vec::new();
    let mut i: usize = 0;
    while i < inputs.len()
        invariant
            0 <= i <= inputs@.len(),
            r@.len() == i,
            forall|j: int|
                0 <= j < i ==> r@[j] == (LinkInfo {
                    output_node_id: self_output.node_id,
                    output_port_id: self_output.port_id,
                    input_node_id: (#[trigger] inputs@[j]).node_id,
                    input_port_id: inputs@[j].port_id,
                }),
        decreases inputs@.len() - i,
    {
        let port = inputs[i];
        r.push(
            LinkInfo::new(
                self_output.node_id(),
                self_output.port_id(),
                port.node_id(),
                port.port_id(),
            ),
        );
        i += 1;
    }
    r
}

} // verus!
