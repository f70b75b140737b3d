//! How busy the device is.

use vstd::prelude::*;
use vstd::string::StringExecFns;

verus! {

/// The load of the device, each figure as the text of a whole percentage.
#[derive(PartialEq, Clone, Debug)]
pub struct OpnFiInformSystemStatus {
    pub cpu: String,
    pub mem: String,
}

impl OpnFiInformSystemStatus {
    /// The status with these two figures.
    pub fn new(cpu: String, mem: String) -> (r: Self)
        ensures
            r.cpu == cpu,
            r.mem == mem,
    {
        OpnFiInformSystemStatus { cpu, mem }
    }
}

impl Default for OpnFiInformSystemStatus {
    /// Both figures are `0`.
    fn default() -> (r: Self)
        ensures
            r.cpu@ == "0"@,
            r.mem@ == "0"@,
    {
        OpnFiInformSystemStatus::new(String::from_str("0"), String::from_str("0"))
    }
}

} // verus!
