//! The auction service as a whole.

use vstd::prelude::*;

verus! {

/// Name of the service.
pub const SERVICE_NAME: &'static str = "auction";

/// Service ID.
pub const SERVICE_ID: u16 = 1;

/// The auction service.
#[derive(Clone, Copy, Debug)]
pub struct AuctionService;

impl AuctionService {
    /// Makes the service.
    pub fn new() -> (service: AuctionService)
        ensures
            service == AuctionService,
    {
        AuctionService {  }
    }

    /// Name of the service.
    pub fn service_name(&self) -> (name: &'static str)
        ensures
            name@ == "auction"@,
    {
        SERVICE_NAME
    }

    /// Service ID, by which transactions find the service.
    pub fn service_id(&self) -> (id: u16)
        ensures
            id == 1,
    {
        SERVICE_ID
    }

    /// Hashes of the service tables that go into the state hash: there are none, as
    /// the tables are not Merkelized.
    pub fn state_hash(&self) -> (hashes: Vec<crate::crypto::Hash>)
        ensures
            hashes@ == Seq::<crate::crypto::Hash>::empty(),
    {
        Vec::new()
    }
}

} // verus!
