//! A verified SDK core for the HAL open-archive search API: query building,
//! response interpretation and the decisions of its front ends.
//!
//! HAL (*Hyper Articles en Ligne*) is a French open-access repository whose
//! public search API is backed by Apache Solr. The HTTP exchange itself is
//! left to the caller; this crate builds the requests, reads the answers and
//! makes the decisions of the command-line and browser front ends.

pub mod browse;
pub mod client;
pub mod doc;
pub mod error;
pub mod laws;
pub mod query;
pub mod response;
pub mod text;

pub use client::HalClient;
pub use doc::HalDoc;
pub use error::HalError;
pub use query::{Field, SearchQuery};
pub use response::{FacetCounts, FacetValue, ResponseBody, SearchResponse};

use vstd::prelude::*;

verus! {

/// The crate version.
pub const VERSION: &'static str = "0.2.0";

} // verus!
