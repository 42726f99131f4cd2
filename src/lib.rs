//! Storefront watcher: compares freshly listed items of followed artists (or
//! categories) with what is stored, and decides which items to restock,
//! create, mark as gone, skip or announce. The reconciliation of one entity
//! is a state machine (`run`) whose steps the caller performs; the decisions
//! it takes are proved against the contracts in `reconcile` and `run`.

use vstd::prelude::*;

pub mod amiami;
pub mod artist;
pub mod availability;
pub mod config;
mod json;
pub mod listing;
pub mod notify;
pub mod product;
pub mod reconcile;
pub mod run;
pub mod store;
pub mod web;
