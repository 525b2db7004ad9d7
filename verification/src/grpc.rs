//! The stand-alone gRPC restaurant service, whose menu is still empty.
use vstd::prelude::*;
use crate::transport::{MenuRequest, MenuResponse};

verus! {

/// The stand-alone restaurant service.
#[derive(Debug)]
pub struct RestaurantServiceImp {}

impl Default for RestaurantServiceImp {
    fn default() -> (res: Self)
        ensures
            res == (RestaurantServiceImp {}),
    {
        RestaurantServiceImp {}
    }
}

impl RestaurantServiceImp {
    /// The menu, which lists no dish yet.
    pub fn get_menu(&self, request: &MenuRequest) -> (res: MenuResponse)
        ensures
            res.items@.len() == 0,
    {
        MenuResponse { items: Vec::new() }
    }
}

} // verus!
