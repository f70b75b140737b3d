//! The commands with which a controller answers an inform.

use vstd::prelude::*;
use vstd::string::StringExecFns;

verus! {

/// `SystemTime::now` since `UNIX_EPOCH`, in whole seconds; 0 where the clock
/// stands before the epoch. Nothing is claimed of the result: it is the time.
#[verifier::external_body]
fn time() -> u64 {
    match std::time::SystemTime::now().duration_since(std::time::UNIX_EPOCH) {
        Ok(epoch) => epoch.as_secs(),
        Err(_) => 0,
    }
}

/// The different inform commands.
#[derive(PartialEq, Clone, Debug)]
pub enum OpnFiInformPayloadCommand {
    NoOp(OpnFiInformPayloadNoOpCommand),
    SetParam(OpnFiInformPayloadSetParamsCommand),
    Upgrade(OpnFiInformPayloadUpgradeCommand),
    Reboot(OpnFiInformPayloadRebootCommand),
    Cmd(OpnFiInformPayloadCmdCommand),
    SetDefault(OpnFiInformPayloadSetDefaultCommand),
}

// ===== NoOp =====
/// Nothing to do but to inform again after `interval` seconds.
#[derive(PartialEq, Clone, Debug)]
pub struct OpnFiInformPayloadNoOpCommand {
    pub interval: u64,
    pub server_time_in_utc: String,
}

impl Default for OpnFiInformPayloadNoOpCommand {
    /// An interval of 10 seconds, stamped with the time of the call.
    fn default() -> (r: Self)
        ensures
            r.interval == 10,
    {
        OpnFiInformPayloadNoOpCommand { interval: 10, server_time_in_utc: time().to_string() }
    }
}

impl OpnFiInformPayloadNoOpCommand {
    /// The seconds to wait before the next inform.
    pub fn interval(&self) -> (r: u64)
        ensures
            r == self.interval,
    {
        self.interval
    }
}

// ===== SetParam =====
/// New settings for the device.
#[derive(PartialEq, Clone, Debug)]
pub struct OpnFiInformPayloadSetParamsCommand {
    pub mgmt_cfg: Option<String>,
    pub system_cfg: Option<String>,
    pub blocked_sta: Option<String>,
    pub server_time_in_utc: String,
}

impl OpnFiInformPayloadSetParamsCommand {
    /// Whether the command carries a management configuration.
    pub fn is_mgmt_cfg(&self) -> (r: bool)
        ensures
            r == self.mgmt_cfg is Some,
    {
        self.mgmt_cfg.is_some()
    }

    /// Whether the command carries a system configuration.
    pub fn is_system_cfg(&self) -> (r: bool)
        ensures
            r == self.system_cfg is Some,
    {
        self.system_cfg.is_some()
    }
}

impl Default for OpnFiInformPayloadSetParamsCommand {
    /// No settings at all, stamped with the time of the call.
    fn default() -> (r: Self)
        ensures
            r.mgmt_cfg is None,
            r.system_cfg is None,
            r.blocked_sta is None,
    {
        Self {
            mgmt_cfg: None,
            system_cfg: None,
            blocked_sta: None,
            server_time_in_utc: time().to_string(),
        }
    }
}

// ===== Upgrade =====
/// Firmware or software to upgrade to.
#[derive(PartialEq, Clone, Debug)]
pub struct OpnFiInformPayloadUpgradeCommand {
    pub md5sum: String,
    pub url: String,
    pub version: String,
    pub server_time_in_utc: String,
}

impl Default for OpnFiInformPayloadUpgradeCommand {
    /// Nothing to upgrade to, stamped with the time of the call.
    fn default() -> (r: Self)
        ensures
            r.md5sum@.len() == 0,
            r.url@.len() == 0,
            r.version@.len() == 0,
    {
        Self {
            md5sum: String::new(),
            url: String::new(),
            version: String::new(),
            server_time_in_utc: time().to_string(),
        }
    }
}

// ===== Reboot =====
/// The device is to reboot.
#[derive(PartialEq, Clone, Debug)]
pub struct OpnFiInformPayloadRebootCommand {
    pub id: String,
    pub datetime: String,
    pub device_id: String,
    pub reboot_type: String,
    pub server_time_in_utc: String,
    pub time: u64,
}

impl Default for OpnFiInformPayloadRebootCommand {
    /// A soft reboot of no device, stamped with the time of the call.
    fn default() -> (r: Self)
        ensures
            r.id@.len() == 0,
            r.datetime@.len() == 0,
            r.device_id@.len() == 0,
            r.reboot_type@ == "soft"@,
    {
        let now: u64 = time();
        Self {
            id: String::new(),
            datetime: String::new(),
            device_id: String::new(),
            reboot_type: String::from_str("soft"),
            server_time_in_utc: now.to_string(),
            time: now,
        }
    }
}

// ===== CMD =====
/// A command by name.
#[derive(PartialEq, Clone, Debug)]
pub struct OpnFiInformPayloadCmdCommand {
    pub id: String,
    pub cmd: String,
    pub date_time: String,
    pub device_id: String,
    pub server_time_in_utc: String,
    pub time: u64,
    pub use_alert: bool,
}

impl Default for OpnFiInformPayloadCmdCommand {
    /// No command for no device, to be alerted on, stamped with the time of the call.
    fn default() -> (r: Self)
        ensures
            r.id@.len() == 0,
            r.cmd@.len() == 0,
            r.date_time@.len() == 0,
            r.device_id@.len() == 0,
            r.use_alert,
    {
        Self {
            id: String::new(),
            cmd: String::new(),
            date_time: String::new(),
            device_id: String::new(),
            server_time_in_utc: time().to_string(),
            time: time(),
            use_alert: true,
        }
    }
}

// ===== SetDefault =====
/// The controller has forgotten the device: it is to go back to its defaults.
#[derive(PartialEq, Clone, Debug)]
pub struct OpnFiInformPayloadSetDefaultCommand {
    pub server_time_in_utc: String,
}

impl Default for OpnFiInformPayloadSetDefaultCommand {
    /// Stamped with the time of the call.
    fn default() -> (r: Self) {
        Self { server_time_in_utc: time().to_string() }
    }
}

} // verus!
