//! Messages of the gas-evaporation test contract.
use vstd::prelude::*;

verus! {

/// How the test contract is instantiated.
#[derive(Clone, Copy, Debug, PartialEq, Eq, Structural)]
pub enum InstantiateMsg {
    Nop {},
}

/// What the test contract is asked to do.
#[derive(Clone, Copy, Debug, PartialEq, Eq, Structural)]
pub enum ExecuteMsg {
    /// Burn the given amount of gas.
    Evaporate { amount: u32 },
    /// Report the gas left.
    CheckGas {},
    /// Use exactly the given amount of gas.
    UseExact { amount: u32 },
}

} // verus!
