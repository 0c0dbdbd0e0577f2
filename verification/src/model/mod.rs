//! The wire protocol and the documents it carries.
pub mod catalog;
pub mod datetime;
pub mod declared;
pub mod determined;
pub mod entity;
pub mod event;
pub mod faithful;
pub mod framing;
pub mod id;
pub mod json;
pub mod members;
pub mod names;
pub mod payload;
pub mod places;
pub mod protocol;
pub mod streams;
pub mod text;
pub mod wire;
