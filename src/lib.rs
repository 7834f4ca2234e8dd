//! A mock 3-D Secure 2.x Access Control Server: the transaction flow from
//! `AReq` through an optional browser or mobile challenge to the final
//! result, the mobile challenge's key agreement (P-256 ECDH with ConcatKDF)
//! and JWE codec in its Android (`A128CBC-HS256`) and iOS (`A128GCM`)
//! dialects, the ACS signed content, and a transaction store with a time to
//! live and lookup by ACS transaction id.
//!
//! Each module states what it computes in `requires`/`ensures` contracts,
//! proved by Verus. The calls into outside crates are gathered in `codec`,
//! `primitives` and `signing`, each behind a small trusted function.
use vstd::prelude::*;

pub mod browser;
pub mod challenge;
pub mod codec;
pub mod compact;
pub mod config;
pub mod crypto;
pub mod flow;
pub mod jwe;
pub mod models;
pub mod primitives;
pub mod signing;
pub mod store;
pub mod text;

verus! {

} // verus!
