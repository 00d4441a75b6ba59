//! A verified tool-execution pipeline over a remote completion API.
//!
//! The library exposes a small set of research and documentation
//! operations to an external tool-calling dispatcher.  Each operation
//! validates its arguments, turns them into a natural-language prompt,
//! and builds the outbound request; a similarity cache sits in front of
//! every remote call, a usage reporter meters each completed one, and a
//! citation-aware formatter renders the payload that comes back.
//!
//! The transport itself is an external collaborator.  The pipeline is
//! split around it: [`gateway::ApiGateway::prepare`] carries a call up
//! to the wire — returning a cached payload instead when one is close
//! enough — and [`gateway::ApiGateway::complete`] takes over once the
//! payload has arrived.  Everything on this side of the wire is
//! verified against the specifications in each module.

pub mod cache;
pub mod errors;
pub mod format;
pub mod gateway;
pub mod json;
pub mod prompts;
pub mod registry;
pub mod request;
pub mod text;
pub mod tools;
pub mod usage;
