//! A client for Rocket.Chat's realtime API: the wire protocol, the connection state
//! machines, the entity cache and the stream catalog generator.
//!
//! Every function here computes. Sockets, clocks and files belong to the program that
//! drives this library.
pub mod assoc;
pub mod cache;
pub mod codegen;
pub mod handler;
pub mod lists;
pub mod model;
pub mod realtime;
pub mod text;
pub mod utf8;
