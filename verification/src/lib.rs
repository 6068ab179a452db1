//! Keeps Cloudflare DNS `A` records pointing at the machine's external address.
//!
//! The library holds the decisions: which settings are read and where from
//! (`config`), how the lists of record types, hosts and zones are read and
//! checked (`settings`, `text`), which requests the Cloudflare API gets and what
//! a listing of records asks for (`cloudflare`), where the external address is
//! asked for (`external_ip`), and the round of updates itself, as a state
//! machine whose requests the caller performs (`monitor`).
use vstd::prelude::*;

pub mod config;
pub mod text;
pub mod settings;
pub mod cloudflare;
pub mod external_ip;
pub mod monitor;

verus! {

} // verus!
