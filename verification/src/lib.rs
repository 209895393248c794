//! A peer-to-peer escrow engine: the state machine of one trade, its
//! deadlines, its fee and bond arithmetic, and the bonded dispute protocol.

pub mod calc;
pub mod party;
pub mod model;
pub mod deadline;
pub mod custody;
pub mod accounts;
pub mod events;
pub mod machine;
pub mod dispute;
pub mod laws;
