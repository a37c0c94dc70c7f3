//! Resolves the icon of a web site and keeps it in a content-addressed cache.
//!
//! The library holds the rules: how a site name becomes an ordered list of
//! candidate icon addresses, under which file each candidate is cached, and
//! which step follows which while the candidates are tried. It performs no
//! input or output itself; a caller carries out the requests and file
//! operations that [`resolution::Resolution`] asks for and reports what
//! happened.

pub mod cache;
pub mod candidates;
pub mod digest;
pub mod hex;
pub mod links;
pub mod resolution;
pub mod runs;
pub mod site;
pub mod transport;
