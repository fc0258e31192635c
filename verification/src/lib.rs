//! Metadata and routing core of a sharded store for subgraph deployments.
//!
//! The crate is an executable model of the bookkeeping that surrounds indexed
//! data: the per-deployment record with its block pointer, reorganization
//! counters and health, the rules by which a subgraph name switches between
//! deployments, the placement of deployments in shards, and the events that
//! announce changes. Every function carries a contract over the mathematical
//! view of the state it touches.
//!
//! - [`ids`], [`block`], [`error`], [`event`] and [`metadata`] hold the
//!   values that everything else speaks of.
//! - [`table`] says what it is to find, change, store and delete rows, and
//!   [`text`] builds the texts of ids and messages.
//! - [`records`] holds the tables of one shard, [`deployment`] the life of a
//!   deployment in them, and [`entity`] how a deployment is created.
//! - [`primary`] holds what only the primary shard keeps, and the rules by
//!   which a name switches from one deployment to the next.
//! - [`shard_data`] decides where an operation belongs.
//! - [`sharded_store`] puts the primary, the shards and the event bus
//!   together; [`status`] and [`query_store`] serve its readers.
//! - [`laws`] and [`switch_laws`] state what holds across operations.

pub mod block;
pub mod deployment;
pub mod entity;
pub mod error;
pub mod event;
pub mod ids;
pub mod laws;
pub mod metadata;
pub mod primary;
pub mod query_store;
pub mod records;
pub mod shard_data;
pub mod sharded_store;
pub mod status;
pub mod switch_laws;
pub mod table;
pub mod text;
