//! The parameters of an engine whose blocks are signed by fixed authorities.
use crate::hash::Address;
use crate::uint::U256;
use vstd::prelude::*;

verus! {

/// A number as chain configurations write it.
#[derive(Clone, Copy, Debug, PartialEq, Eq)]
pub struct Uint(pub U256);

/// Who may sign blocks.
#[derive(Debug, PartialEq, Eq)]
pub enum ValidatorSet {
    /// The accounts of a fixed list.
    List(Vec<Address>),
    /// Those that a contract names.
    SafeContract(Address),
    /// Those that a contract names, which takes reports of misbehaviour too.
    Contract(Address),
    /// Those that each set names, from its block on.
    Multi(Vec<(Uint, ValidatorSet)>),
}

/// The parameters of an authority engine.
#[derive(Debug, PartialEq, Eq)]
pub struct BasicAuthorityParams {
    /// Block duration.
    pub duration_limit: Uint,
    /// Valid authorities.
    pub validators: ValidatorSet,
}

/// An authority engine.
#[derive(Debug, PartialEq, Eq)]
pub struct BasicAuthority {
    /// The parameters.
    pub params: BasicAuthorityParams,
}

} // verus!
