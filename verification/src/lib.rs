//! In-memory loading of externally supplied code modules.
//!
//! Two independent subsystems, each a pipeline of acquisition,
//! materialization and invocation stages:
//!
//! * [`dotnet`] hosts a managed-code runtime, loads a module image from a
//!   byte buffer into an isolated execution domain, and invokes its entry
//!   routine with marshalled string arguments.
//! * [`dylib`] retags a raw shared-library image so the platform loader
//!   accepts it as a loadable bundle, links it from memory, and resolves
//!   exported symbols by name.
//!
//! Every native call is made by an unverified platform driver; this crate
//! holds the decision logic of each stage as verified functions from the raw
//! outcomes of those calls (handles and status codes) to the next stage's
//! state, so the sequencing, the error mapping and the argument marshalling
//! carry proofs.

pub mod dotnet;
pub mod dylib;
