//! The settings of a radio that is driven through SoapySDR.

use vstd::prelude::*;

verus! {

/// Settings for a USRP B2xx.
#[derive(Clone, Debug, PartialEq, Eq)]
pub struct CfgUsrpB2xx {
    pub rx_ant: Option<String>,
    pub tx_ant: Option<String>,
}

/// Settings for a LimeSDR.
#[derive(Clone, Debug, PartialEq, Eq)]
pub struct CfgLimeSdr {
    pub rx_ant: Option<String>,
    pub tx_ant: Option<String>,
}

/// Settings for an SXceiver.
#[derive(Clone, Debug, PartialEq, Eq)]
pub struct CfgSxCeiver {
    pub rx_ant: Option<String>,
    pub tx_ant: Option<String>,
}

/// The hardware behind the driver. Exactly one of the three is to be given.
#[derive(Clone, Debug, PartialEq, Eq)]
pub struct SoapyIoCfg {
    pub iocfg_usrpb2xx: Option<CfgUsrpB2xx>,
    pub iocfg_limesdr: Option<CfgLimeSdr>,
    pub iocfg_sxceiver: Option<CfgSxCeiver>,
}

/// The settings of a radio that is driven through SoapySDR.
#[derive(Clone, Debug, PartialEq, Eq)]
pub struct CfgSoapySdr {
    /// Uplink (receive) frequency in Hz.
    pub ul_freq: u32,
    /// Downlink (transmit) frequency in Hz.
    pub dl_freq: u32,
    /// Frequency error of the radio's oscillator in parts per billion.
    pub ppb_err: Option<i32>,
    pub io_cfg: SoapyIoCfg,
}

impl SoapyIoCfg {
    /// How many hardware configurations are given.
    pub open spec fn spec_count(&self) -> int {
        (if self.iocfg_usrpb2xx is Some {
            1int
        } else {
            0int
        }) + (if self.iocfg_limesdr is Some {
            1int
        } else {
            0int
        }) + (if self.iocfg_sxceiver is Some {
            1int
        } else {
            0int
        })
    }

    /// How many hardware configurations are given.
    pub fn count(&self) -> (n: usize)
        ensures
            n == self.spec_count(),
    {
        let mut n: usize = 0;
        if self.iocfg_usrpb2xx.is_some() {
            n = n + 1;
        }
        if self.iocfg_limesdr.is_some() {
            n = n + 1;
        }
        if self.iocfg_sxceiver.is_some() {
            n = n + 1;
        }
        n
    }
}

} // verus!
