//! A bridge between a blocking caller thread and a cooperative,
//! single-threaded event loop that mirrors an audio graph server's
//! object registry, creates links between stream ports, and tears
//! them down again.

mod channel;
pub mod error;
pub mod graph;
pub mod laws;
pub mod pipewire;
pub mod routing;
pub mod state;
pub mod strutil;

pub use error::{Error, Result};
pub use graph::{Link, LinkInfo, Node, Port, PortDirection};
pub use pipewire::Client;
