//! A mesh of stars.
//!
//! Stars are nodes that find each other, link up over lanes and learn by
//! hop-counted flooding how far the central star is. This library holds the
//! protocol of that mesh as plain state machines: the handshake that turns a
//! transport into a tunnel ([`proto`]), the lanes that outlive their tunnels
//! ([`lane`]), the connectors that keep lanes supplied with tunnels and the
//! framing of the wire ([`connector`]), the node that bootstraps itself into
//! the mesh ([`proto`]), and the laws that hold of it ([`discovery`]). Time
//! and transport are handed in from outside: a caller owns the clock and the
//! sockets, and moves frames between the queues of these machines.
//!
//! Beside the mesh stand the names that are used on it: keys ([`keys`]),
//! points and their resolution ([`point`], [`resolve`]), kinds and selectors
//! ([`kind`]), and addresses of resources ([`address`]).

pub mod text;
pub mod lex;
pub mod error;
pub mod id;
pub mod star;
pub mod keys;
pub mod entity;
pub mod application;
pub mod user;
pub mod frame;
pub mod cache;
pub mod channel;
pub mod lane;
pub mod proto;
pub mod connector;
pub mod discovery;
pub mod address;
pub mod parse;
pub mod kind;
pub mod point;
pub mod resolve;
pub mod util;
pub mod actor;
