//! The network: the peers, the controller that owns them, and what they say
//! to each other inside the process.

pub mod address;
pub mod command;
pub mod controller;
pub mod event;
pub mod ident;
pub mod peer;

use vstd::prelude::*;

verus! {

/// The configuration of the network.
#[derive(Debug, Clone)]
pub struct Network {
    /// The configuration of the controller.
    pub controller: controller::Controller,
}

} // verus!
