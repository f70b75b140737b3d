//! What a gateway reports of itself in an inform.

use crate::inform::payload::net::{
    OpnFiInformConfigPortTableItem, OpnFiInformNetworkConfig, OpnFiInformNetworkInterface,
};
use crate::inform::payload::stats::OpnFiInformSystemStatus;
use vstd::prelude::*;

verus! {

/// The report of a gateway.
#[derive(PartialEq, Clone, Debug, Default)]
pub struct OpnFiInformGatewayPayload {
    pub bootrom_version: String,
    pub cfgversion: String,
    pub config_network_wan: OpnFiInformNetworkConfig,
    pub config_network_wan2: OpnFiInformNetworkConfig,
    pub config_port_table: Vec<OpnFiInformConfigPortTableItem>,
    pub default: bool,
    pub discovery_response: bool,
    pub fw_caps: i32,
    pub guest_token: Option<String>,
    pub has_default_route_distance: bool,
    pub has_dnsmasq_hostfile_update: bool,
    pub has_dpi: bool,
    pub has_eth1: bool,
    pub has_porta: bool,
    pub has_ssh_disable: bool,
    pub has_vti: bool,
    pub hostname: String,
    pub if_table: Vec<OpnFiInformNetworkInterface>,
    pub inform_url: String,
    pub ip: String,
    pub isolated: bool,
    pub locating: bool,
    pub mac: String,
    pub model: String,
    pub model_display: String,
    pub netmask: String,
    pub radius_caps: i32,
    pub required_version: String,
    pub selfrun_beacon: bool,
    pub serial: String,
    pub state: i32,
    pub system_status: OpnFiInformSystemStatus,
    pub time: usize,
    pub uplink: String,
    pub uptime: usize,
    pub version: String,
}

} // verus!
