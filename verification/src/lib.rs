//! Reconciliation of item-availability state between a spreadsheet-held
//! source of truth and a food-ordering platform's live menu.
//!
//! The library parses tabular key rows, builds and encrypts the request
//! bodies the platform expects, diffs desired against observed menu status,
//! and drives each key through a four-stage pipeline whose outcomes are
//! collected in an append-only sink.

use vstd::prelude::*;

pub mod cipher;
pub mod flagger;
pub mod google;
pub mod input;
pub mod json;
pub mod keys;
pub mod pipeline;
pub mod platform;
pub mod sink;
pub mod sql;
pub mod text;

verus! {

} // verus!
