use vstd::prelude::*;

pub mod height;
pub mod ids;
pub mod channel;
pub mod context;
pub mod recv_packet;
pub mod light_client;
pub mod query;
pub mod supervisor;

verus! {

} // verus!
