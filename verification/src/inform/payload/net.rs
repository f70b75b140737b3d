//! How the device's network interfaces are set up and what they have counted.

use vstd::prelude::*;
use vstd::string::StringExecFns;

verus! {

// ===== Network Config =====
/// How an uplink gets its address.
#[derive(PartialEq, Clone, Debug)]
pub enum OpnFiInformNetworkConfig {
    Disabled,
    DHCP,
    Static(OpnFiInformNetworkConfigStatic),
}

impl Default for OpnFiInformNetworkConfig {
    /// An uplink is disabled unless it is said to be otherwise.
    fn default() -> (r: Self)
        ensures
            r is Disabled,
    {
        OpnFiInformNetworkConfig::Disabled
    }
}

/// The fixed address of an uplink.
#[derive(PartialEq, Clone, Debug)]
pub struct OpnFiInformNetworkConfigStatic {
    pub ip: String,
    pub netmask: String,
    pub gateway: String,
    pub dns1: Option<String>,
    pub dns2: Option<String>,
}

// ===== Config Port Table =====
/// One port of the device: its role and the interface that serves it.
#[derive(PartialEq, Clone, Debug)]
pub struct OpnFiInformConfigPortTableItem {
    pub name: String,
    pub ifname: String,
}

impl OpnFiInformConfigPortTableItem {
    /// The port with this role on this interface.
    pub fn new(name: String, ifname: String) -> (r: Self)
        ensures
            r.name == name,
            r.ifname == ifname,
    {
        Self { name, ifname }
    }
}

// ===== Interface =====
/// What one interface reports.
#[derive(PartialEq, Clone, Debug, Default)]
pub struct OpnFiInformNetworkInterface {
    pub drops: usize,
    pub enabled: bool,
    pub full_duplex: bool,
    pub gateways: Vec<String>,
    pub ip: String,
    pub latency: usize,
    pub mac: String,
    pub name: String,
    pub nameservers: Vec<String>,
    pub netmask: String,
    pub num_port: usize,
    pub rx_bytes: usize,
    pub rx_dropped: usize,
    pub rx_errors: usize,
    pub rx_multicast: usize,
    pub rx_packets: usize,
    pub speed: usize,
    pub speedtest_lastrun: usize,
    pub speedtest_ping: usize,
    pub speedtest_status: String,
    pub tx_bytes: usize,
    pub tx_dropped: usize,
    pub tx_errors: usize,
    pub tx_packets: usize,
    pub up: bool,
    pub uptime: usize,
    pub xput_down: usize,
    pub xput_up: usize,
}

/// What the system has counted on one interface.
#[derive(PartialEq, Eq, Clone, Copy, Debug, Default)]
pub struct InterfaceCounters {
    pub rx_bytes: usize,
    pub rx_dropped: usize,
    pub rx_errors: usize,
    pub rx_packets: usize,
    pub tx_bytes: usize,
    pub tx_dropped: usize,
    pub tx_errors: usize,
    pub tx_packets: usize,
}

impl OpnFiInformNetworkInterface {
    /// What an interface that is up reports: its name and addresses as given, the
    /// counters as they are, the drops in both directions added up (at most
    /// `usize::MAX`), a speed of 1000, a latency of 1, an idle speed test, and
    /// neither gateways nor name servers.
    pub fn from_counters(
        name: String,
        mac: String,
        ip: String,
        netmask: String,
        num_port: usize,
        counters: InterfaceCounters,
    ) -> (r: Self)
        ensures
            r.name == name,
            r.mac == mac,
            r.ip == ip,
            r.netmask == netmask,
            r.num_port == num_port,
            r.drops == if counters.rx_dropped + counters.tx_dropped > usize::MAX {
                usize::MAX
            } else {
                (counters.rx_dropped + counters.tx_dropped) as usize
            },
            r.rx_bytes == counters.rx_bytes,
            r.rx_dropped == counters.rx_dropped,
            r.rx_errors == counters.rx_errors,
            r.rx_packets == counters.rx_packets,
            r.tx_bytes == counters.tx_bytes,
            r.tx_dropped == counters.tx_dropped,
            r.tx_errors == counters.tx_errors,
            r.tx_packets == counters.tx_packets,
            r.enabled && r.full_duplex && r.up,
            r.latency == 1 && r.speed == 1000,
            r.rx_multicast == 0 && r.speedtest_lastrun == 0 && r.speedtest_ping == 0,
            r.uptime == 0 && r.xput_down == 0 && r.xput_up == 0,
            r.speedtest_status@ == "Idle"@,
            r.gateways@.len() == 0,
            r.nameservers@.len() == 0,
    {
        let drops: usize = if counters.rx_dropped > usize::MAX - counters.tx_dropped {
            usize::MAX
        } else {
            counters.rx_dropped + counters.tx_dropped
        };
        OpnFiInformNetworkInterface {
            drops,
            enabled: true,
            full_duplex: true,
            gateways: Vec::new(),
            ip,
            latency: 1,
            mac,
            name,
            nameservers: Vec::new(),
            netmask,
            num_port,
            rx_bytes: counters.rx_bytes,
            rx_dropped: counters.rx_dropped,
            rx_errors: counters.rx_errors,
            rx_multicast: 0,
            rx_packets: counters.rx_packets,
            speed: 1000,
            speedtest_lastrun: 0,
            speedtest_ping: 0,
            speedtest_status: String::from_str("Idle"),
            tx_bytes: counters.tx_bytes,
            tx_dropped: counters.tx_dropped,
            tx_errors: counters.tx_errors,
            tx_packets: counters.tx_packets,
            up: true,
            uptime: 0,
            xput_down: 0,
            xput_up: 0,
        }
    }
}

} // verus!
