//! A small tool-dispatch library for an air-quality data service.
//!
//! Four tools (listing countries, fetching one country, listing locations,
//! and fetching the latest measurements of a location) each map a validated
//! tool input onto one outbound request shape, and each remote response is
//! reduced to a single textual result. The mapping, the credential check,
//! and the reduction are the verified core; the process that carries tool
//! calls in and HTTP requests out lives outside this crate.

pub mod config;
pub mod dispatch;
pub mod records;
pub mod render;
pub mod requests;
