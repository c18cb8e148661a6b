//! Client-side mechanisms for a versioned, paginated REST control plane:
//! service discovery and API version negotiation, lazily resolved resource
//! references, change tracking for partial updates, and paginated listing.
//! Network I/O is left to the caller, who supplies the calls as closures or
//! drives the discovery walk step by step.

use vstd::prelude::*;

pub mod discovery;
pub mod endpoint;
pub mod error;
pub mod floatingips;
pub mod new_port;
pub mod pager;
pub mod port_query;
pub mod ports;
pub mod protocol;
pub mod query;
pub mod reference;
pub mod text;
pub mod timestamp;
pub mod tracker;
pub mod version;
pub mod version_text;

verus! {

} // verus!
