//! The actions that the operator of a mix node can ask for on the command
//! line.

use vstd::prelude::*;

verus! {

/// What a mix node operator asked for.
#[derive(Clone, Copy, Debug, PartialEq, Eq, Structural)]
pub struct MixnetOperatorsMixnode {
    pub command: MixnetOperatorsMixnodeCommands,
}

/// The actions open to a mix node operator. One of them is always given:
/// there are no arguments beside the subcommand.
#[derive(Clone, Copy, Debug, PartialEq, Eq, Structural)]
pub enum MixnetOperatorsMixnodeCommands {
    /// Operations for mixnode keys
    Keys,
    /// Manage your mixnode operator rewards
    Rewards,
    /// Manage your mixnode settings stored in the directory
    Settings,
    /// Bond to a mixnode
    Bond,
    /// Unbound from a mixnode
    Unbound,
    /// Bond to a mixnode with locked tokens
    BondVesting,
    /// Unbound from a mixnode that was bonded with locked tokens
    UnboundVesting,
}

} // verus!
