//! A typed layer over the Datastore property model.
//!
//! The crate holds the parts of a Datastore client that decide and compute:
//!
//! - [`key`]: keys, an ordered path of kind and identifier segments;
//! - [`value`] and [`entity`]: the closed union of property values, the
//!   property bag, and its typed getters;
//! - [`builder`]: fluent assembly of a property bag;
//! - [`convert`]: the conversion contract that a domain type implements;
//! - [`datastore`]: what each operation of the store facade sends, and
//!   what it makes of the answer;
//! - [`auth`]: the headers that the authenticated transport sets on a
//!   call, and when it gives a call up;
//! - [`laws`]: what holds between the builder and the getters.
//!
//! Every function states in its contract what it returns, over the
//! mathematical value (`@`) of its arguments, and Verus proves the contract
//! against the body. Two functions call into other crates, `http` to parse
//! a header value and `time` to ask whether its calendar reaches a
//! timestamp; their contracts are taken on trust and say so.
//!
//! Nothing here touches the network. A caller connects, waits for tokens
//! and sends, and hands this crate plain values.

pub mod auth;
pub mod builder;
pub mod convert;
pub mod datastore;
pub mod datetime;
pub mod entity;
pub mod key;
pub mod laws;
mod text;
pub mod value;

pub use auth::{AuthError, AuthErrorView, AuthInterceptor, Authorized, Call};
pub use builder::EntityBuilder;
pub use convert::{Kind, TryFromEntity, TryFromEntityError, TryFromEntityErrorView};
pub use datastore::{
    CommitMode, CommitRequest, CommitRequestView, Datastore, DatastoreView, KindQuery,
    LookupRequest, LookupRequestView, Mutation, MutationView, RunQueryRequest,
};
pub use datetime::UnixDateTime;
pub use entity::{Entity, EntityValueError, EntityView, Property};
pub use key::{
    IdType, IdTypeView, Key, KeyError, KeyView, PartitionId, PartitionIdView, PathElement,
    PathElementView,
};
pub use value::{ArrayValue, Timestamp, Value, ValueType, ValueTypeView, ValueView};
