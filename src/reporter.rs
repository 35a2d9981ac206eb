use vstd::prelude::*;

verus! {

/// One forwarded local service and the port the relay assigned to it.
#[derive(Clone, Debug)]
pub struct ForwardEntry {
    pub local_host: String,
    pub local_port: u16,
    pub remote_port: u16,
}

/// The connection metadata reported to the control server.
#[derive(Clone, Debug)]
pub struct ForwardInfo {
    pub client_country: String,
    pub app_version: String,
    pub hostname: String,
    pub access_id: String,
    pub mac_address: String,
    pub forward_entries: Vec<ForwardEntry>,
    pub all_mac_addresses: Vec<String>,
}

/// The answer of the geolocation lookup.
#[derive(Clone, Debug)]
pub struct Country {
    pub ip: String,
    pub country: String,
}

} // verus!
