//! A typed client for the LaunchDarkly REST API.
//!
//! The crate plans authenticated requests, decides what a response means and
//! decodes JSON documents into typed records. It performs no I/O itself: the
//! caller sends the [`Request`] that a [`Client`] plans, reads the body of
//! the response into a [`Json`] and hands the [`Reply`] back to
//! [`Client::receive`].
//!
//! A [`Json`] keeps every member of an object, in the order of the text and
//! as often as the text spells its name. The decoders rely on that to refuse
//! a document that spells a name twice where they read it, so the reader
//! that fills a [`Json`] must not merge such members.

pub mod client;
pub mod decode;
pub mod environments;
pub mod error;
pub mod flag;
pub mod form;
pub mod json;
pub mod links;
pub mod member;
pub mod project;
pub mod query;
pub mod targeting;

pub use client::{Client, Method, Reply, Request};
pub use decode::FromJson;
pub use environments::FlagEnvironments;
pub use error::{
    ApiError, CodecError, ErrorKind, Problem, Result, SchemaError, Step,
};
pub use flag::{FeatureFlag, FeatureFlags, Variation};
pub use json::{Json, Number};
pub use links::{Link, Links};
pub use member::Member;
pub use project::{Environment, Project, Projects, Pubnub};
pub use query::FlagOptions;
pub use targeting::{
    Clause, Fallthrough, FeatureFlagConfig, Rollout, Rule, Target, WeightedVariation,
};
