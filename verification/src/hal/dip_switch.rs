//! The DIP switch that selects a node's address at boot.
use vstd::prelude::*;

use crate::svc::race_node::NodeAddress;

verus! {

pub trait DipSwitch {
    fn address(&self) -> NodeAddress;
}

} // verus!
