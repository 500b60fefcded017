//! The object model of a boundary-representation kernel
//!
//! Objects live in append-only stores and refer to each other by identity
//! ([`storage`], [`objects`]). They are checked on demand ([`validate`]) and
//! moved as a whole, with each shared object moved once ([`transform`]).

use vstd::prelude::*;

pub mod input;
pub mod mesh;
pub mod nodes;
pub mod objects;
pub mod partial;
pub mod storage;
pub mod transform;
pub mod validate;

verus! {

} // verus!
