use vstd::prelude::*;

use crate::strutil::{
    has_prefix, has_substring, parse_u32, spec_parse_u32, str_eq, str_starts_with,
};

verus! {

/// Whether a port produces audio (`Out`) or consumes it (`In`).
#[derive(Copy, Clone, Debug, PartialEq, Eq, Structural)]
pub enum PortDirection {
    Out,
    In,
}

/// One audio stream endpoint tracked by the registry.
#[derive(Debug)]
pub struct Node {
    pub id: u32,
    pub application_name: Option<String>,
    pub node_name: String,
}

impl Clone for Node {
    fn clone(&self) -> (res: Self)
        ensures
            res == *self,
    {
        Node {
            id: self.id,
            application_name: match &self.application_name {
                Some(name) => Some(name.clone()),
                None => None,
            },
            node_name: self.node_name.clone(),
        }
    }
}

/// A directional connection point on a node.
#[derive(Copy, Clone, Debug, PartialEq, Eq, Structural)]
pub struct Port {
    pub id: u32,
    pub node_id: u32,
    pub port_id: u32,
    pub direction: PortDirection,
}

/// The desired endpoints of a link to be created; pure input, no identity.
#[derive(Copy, Clone, Debug, PartialEq, Eq, Structural)]
pub struct LinkInfo {
    pub output_node_id: u32,
    pub output_port_id: u32,
    pub input_node_id: u32,
    pub input_port_id: u32,
}

impl LinkInfo {
    pub fn new(
        output_node_id: u32,
        output_port_id: u32,
        input_node_id: u32,
        input_port_id: u32,
    ) -> (r: Self)
        ensures
            r == (LinkInfo { output_node_id, output_port_id, input_node_id, input_port_id }),
    {
        Self { output_node_id, output_port_id, input_node_id, input_port_id }
    }
}

/// An opaque handle for a created link: minted locally, starting at 1,
/// strictly increasing, never reused within a run.
#[derive(Copy, Clone, Debug, PartialEq, Eq, Structural)]
pub struct Link {
    pub internal_link_id: u32,
}

impl Link {
    pub fn new(id: u32) -> (r: Self)
        ensures
            r == (Link { internal_link_id: id }),
    {
        Self { internal_link_id: id }
    }
}

/// The type tag of a registry object; anything that is neither a node
/// nor a port is ignored by the projection.
#[derive(Copy, Clone, Debug, PartialEq, Eq, Structural)]
pub enum PwObjectType {
    Node,
    Port,
    Other,
}

/// A registry add-event: a server-assigned id, a type tag, and a
/// key/value property dictionary.
#[derive(Clone, Debug)]
pub struct PwGlobalObject {
    pub id: u32,
    pub object_type: PwObjectType,
    pub props: Vec<(String, String)>,
}

/// A registry event: an object appeared, or the object with the given
/// id went away.
#[derive(Clone, Debug)]
pub enum PwEvent {
    Global(PwGlobalObject),
    GlobalRemove(u32),
}

/// First value bound to `key` in the property dictionary.
pub open spec fn props_get(props: Seq<(String, String)>, key: Seq<char>) -> Option<Seq<char>>
    decreases props.len(),
{
    if props.len() == 0 {
        None
    } else if props[0].0@ == key {
        Some(props[0].1@)
    } else {
        props_get(props.drop_first(), key)
    }
}

/// Looks `key` up in the property dictionary, first match wins.
pub fn get_prop<'a>(props: &'a Vec<(String, String)>, key: &str) -> (r: Option<&'a String>)
    ensures
        match r {
            Some(v) => props_get(props@, key@) == Some(v@),
            None => props_get(props@, key@) is None,
        },
{
    let mut i: usize = 0;
    proof {
        assert(props@.skip(0) =~= props@);
    }
    while i < props.len()
        invariant
            0 <= i <= props@.len(),
            props_get(props@.skip(i as int), key@) == props_get(props@, key@),
        decreases props@.len() - i,
    {
        proof {
            assert(props@.skip(i as int)[0] == props@[i as int]);
            assert(props@.skip(i as int).drop_first() =~= props@.skip(i + 1));
        }
        if str_eq(props[i].0.as_str(), key) {
            return Some(&props[i].1);
        }
        i += 1;
    }
    proof {
        assert(props@.skip(props@.len() as int) =~= Seq::<(String, String)>::empty());
    }
    None
}

/// The admission filter for nodes: media type is exactly "Audio" and the
/// media class begins with "Stream/", which selects application streams
/// and excludes hardware devices and monitors.
pub open spec fn admits_node(props: Seq<(String, String)>) -> bool {
    props_get(props, "media.type"@) == Some("Audio"@) && match props_get(
        props,
        "media.class"@,
    ) {
        Some(class) => has_prefix(class, "Stream/"@),
        None => false,
    }
}

/// Executable form of `admits_node`.
pub fn node_admitted(object: &PwGlobalObject) -> (r: bool)
    ensures
        r == admits_node(object.props@),
{
    let media_type_ok = match get_prop(&object.props, "media.type") {
        Some(t) => str_eq(t.as_str(), "Audio"),
        None => false,
    };
    if !media_type_ok {
        return false;
    }
    match get_prop(&object.props, "media.class") {
        Some(class) => str_starts_with(class.as_str(), "Stream/"),
        None => false,
    }
}

/// `n` is the node an add-event for `id` with these properties describes.
pub open spec fn node_matches(n: Node, id: u32, props: Seq<(String, String)>) -> bool {
    &&& n.id == id
    &&& props_get(props, "node.name"@) == Some(n.node_name@)
    &&& match n.application_name {
        Some(name) => props_get(props, "application.name"@) == Some(name@),
        None => props_get(props, "application.name"@) is None,
    }
}

/// `p` is the port an add-event for `id` with these properties describes.
pub open spec fn port_matches(p: Port, id: u32, props: Seq<(String, String)>) -> bool {
    &&& p.id == id
    &&& match props_get(props, "port.direction"@) {
        Some(d) => (d == "in"@ && p.direction == PortDirection::In) || (d == "out"@
            && p.direction == PortDirection::Out),
        None => false,
    }
    &&& spec_parse_u32(props_get(props, "node.id"@).unwrap_or(Seq::empty())) == Some(p.node_id)
    &&& props_get(props, "node.id"@) is Some
    &&& spec_parse_u32(props_get(props, "port.id"@).unwrap_or(Seq::empty())) == Some(p.port_id)
    &&& props_get(props, "port.id"@) is Some
}

/// The add-event describes a well-formed port: a direction that is "in"
/// or "out", and numeric node and port indices.
pub open spec fn port_well_formed(props: Seq<(String, String)>) -> bool {
    &&& match props_get(props, "port.direction"@) {
        Some(d) => d == "in"@ || d == "out"@,
        None => false,
    }
    &&& match props_get(props, "node.id"@) {
        Some(s) => spec_parse_u32(s) is Some,
        None => false,
    }
    &&& match props_get(props, "port.id"@) {
        Some(s) => spec_parse_u32(s) is Some,
        None => false,
    }
}

impl Node {
    pub fn application_name(&self) -> (r: Option<&String>)
        ensures
            match r {
                Some(name) => self.application_name == Some(*name),
                None => self.application_name is None,
            },
    {
        self.application_name.as_ref()
    }

    pub fn id(&self) -> (r: u32)
        ensures
            r == self.id,
    {
        self.id
    }

    pub fn node_name(&self) -> (r: &String)
        ensures
            r == self.node_name,
    {
        &self.node_name
    }

    /// Reads a node out of an add-event; `None` when the event carries
    /// no "node.name" property.
    pub fn from_global_obj(object: &PwGlobalObject) -> (r: Option<Node>)
        ensures
            match r {
                Some(n) => node_matches(n, object.id, object.props@),
                None => props_get(object.props@, "node.name"@) is None,
            },
    {
        let node_name = match get_prop(&object.props, "node.name") {
            Some(name) => name.clone(),
            None => {
                return None;
            },
        };
        let application_name = match get_prop(&object.props, "application.name") {
            Some(name) => Some(name.clone()),
            None => None,
        };
        Some(Node { id: object.id, application_name, node_name })
    }
}

impl Port {
    pub fn id(&self) -> (r: u32)
        ensures
            r == self.id,
    {
        self.id
    }

    pub fn port_id(&self) -> (r: u32)
        ensures
            r == self.port_id,
    {
        self.port_id
    }

    pub fn direction(&self) -> (r: PortDirection)
        ensures
            r == self.direction,
    {
        self.direction
    }

    pub fn node_id(&self) -> (r: u32)
        ensures
            r == self.node_id,
    {
        self.node_id
    }

    /// Reads a port out of an add-event; `None` when the direction is
    /// neither "in" nor "out" or an id property is missing or not a
    /// decimal number.
    pub fn from_global_obj(object: &PwGlobalObject) -> (r: Option<Port>)
        ensures
            match r {
                Some(p) => port_matches(p, object.id, object.props@),
                None => !port_well_formed(object.props@),
            },
            r is Some <==> port_well_formed(object.props@),
    {
        let direction = match get_prop(&object.props, "port.direction") {
            Some(d) => {
                if str_eq(d.as_str(), "in") {
                    PortDirection::In
                } else if str_eq(d.as_str(), "out") {
                    PortDirection::Out
                } else {
                    return None;
                }
            },
            None => {
                return None;
            },
        };
        let node_id = match get_prop(&object.props, "node.id") {
            Some(s) => match parse_u32(s.as_str()) {
                Some(v) => v,
                None => {
                    return None;
                },
            },
            None => {
                return None;
            },
        };
        let port_id = match get_prop(&object.props, "port.id") {
            Some(s) => match parse_u32(s.as_str()) {
                Some(v) => v,
                None => {
                    return None;
                },
            },
            None => {
                return None;
            },
        };
        Some(Port { id: object.id, node_id, port_id, direction })
    }
}

/// The node's application name contains `executable_name`: the
/// intentionally approximate heuristic by which the caller recognises
/// its own stream endpoint.
pub open spec fn is_self_node(n: Node, executable_name: Seq<char>) -> bool {
    match n.application_name {
        Some(name) => has_substring(name@, executable_name),
        None => false,
    }
}

} // verus!
