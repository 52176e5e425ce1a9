//! Desktop glue layer: a facade over the operating system's credential store
//! (set / get / delete of small secrets under a fixed application namespace)
//! and a relay that forwards deep-link activation URIs to the UI layer as
//! notifications, in order, with per-URI delivery failures treated as
//! non-fatal.

pub mod keychain;
pub mod model;
pub mod relay;
mod store;
