//! Web-application security reconnaissance engine.
//!
//! Given a target URL, the engine runs a set of independent probing stages
//! (security-header audit, transport-security assessment, technology
//! fingerprinting, and an OWASP-style vulnerability probe set) and assembles
//! their output into a single report. Network traffic is performed by the
//! surrounding application; every decision that turns raw HTTP responses into
//! findings, every store mutation and every lifecycle transition is verified
//! here.

pub mod aggregate;
pub mod certificate;
pub mod collaboration;
pub mod headers;
pub mod models;
pub mod orchestrator;
pub mod outside;
pub mod owasp;
pub mod store;
pub mod technology;
pub mod text;
