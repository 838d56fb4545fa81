//! What can go wrong between the service and its pool of database
//! connections.

use vstd::prelude::*;

verus! {

/// No connection could be had from the pool; the text is the pool's.
#[derive(Debug, Clone, PartialEq, Eq)]
pub enum DbConnErr {
    R2d2(String),
}

} // verus!
