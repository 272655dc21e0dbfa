//! The start-up of a newsletter service, as decisions: how the layered
//! configuration resolves, what has to be provisioned, in which order the
//! steps of a start follow one another and when a start fails. The work
//! itself (reading files, talking to the database, binding sockets, serving
//! HTTP) is left to the caller, which reports each outcome back.

pub mod configuration;
pub mod domain;
pub mod email_client;
pub mod environment;
pub mod identifier;
pub mod layers;
pub mod numbers;
pub mod provision;
pub mod routes;
pub mod secret;
pub mod sequence;
pub mod startup;
pub mod telemetry;
pub mod text;
