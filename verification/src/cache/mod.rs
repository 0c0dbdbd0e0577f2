//! An in-memory cache of what the server has pushed.
pub mod config;
pub mod debug;
pub mod effects;
pub mod fields;
pub mod laws;
pub mod merge;
pub mod reference;
pub mod resource;
pub mod store;
pub mod table;
pub mod update;
pub use config::{CacheBuilder, Config, NonZeroSize, TombstonePolicy};
pub use reference::Reference;
pub use resource::ResourceType;
pub use store::{Cache, CacheStats};
pub use update::UpdateCache;
