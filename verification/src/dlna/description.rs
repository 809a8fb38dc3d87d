//! How a renderer describes itself.

use vstd::prelude::*;

verus! {

/// The description of a renderer.
#[derive(Debug, PartialEq, Eq)]
pub struct Root {
    pub device: Device,
}

/// What a renderer is and what it offers.
#[derive(Debug, PartialEq, Eq)]
pub struct Device {
    pub friendly_name: String,
    pub model_name: String,
    pub serial_number: String,
    pub icon_list: IconList,
    pub service_list: ServiceList,
}

/// The pictures that stand for a renderer.
#[derive(Debug, PartialEq, Eq)]
pub struct IconList {
    pub icon: Vec<Icon>,
}

impl IconList {
    /// The pictures, in order.
    pub fn as_slice(&self) -> (icons: &[Icon])
        ensures
            icons@ == self.icon@,
    {
        self.icon.as_slice()
    }
}

/// One picture, and where to get it.
#[derive(Debug, PartialEq, Eq)]
pub struct Icon {
    pub mimetype: String,
    pub width: u32,
    pub height: u32,
    pub depth: u32,
    pub url: String,
}

/// The services that a renderer offers.
#[derive(Debug, PartialEq, Eq)]
pub struct ServiceList {
    pub service: Vec<Service>,
}

impl ServiceList {
    /// The services, in order.
    pub fn as_slice(&self) -> (services: &[Service])
        ensures
            services@ == self.service@,
    {
        self.service.as_slice()
    }
}

/// One service, and where to reach it.
#[derive(Debug, PartialEq, Eq)]
pub struct Service {
    pub service_type: String,
    pub service_id: String,
    pub control_url: String,
    pub event_sub_url: String,
}

} // verus!
