//! The configuration that all entities share: an immutable part, validated once
//! when it is built, and a small mutable state behind a lock.

use crate::config::stack_config_soapy::CfgSoapySdr;
use crate::freqs::FreqInfo;
use crate::scrambler::scramb_init;
use crate::scrambler::tetra_scramb_get_init;
use std::sync::Arc;
use std::sync::RwLock;
use std::sync::RwLockReadGuard;
use std::sync::RwLockWriteGuard;
use vstd::prelude::*;

verus! {

/// Which side of the air interface the stack is.
#[derive(Debug, Clone, Copy, PartialEq, Eq, Structural)]
pub enum StackMode {
    Bs,
    Ms,
    Mon,
}

/// The PHY layer backend type.
#[derive(Debug, Clone, Copy, PartialEq, Eq, Structural)]
pub enum PhyBackend {
    /// No choice was made.
    Undefined,
    /// No radio at all, for tests.
    NoBackend,
    SoapySdr,
}

/// PHY layer I/O configuration.
#[derive(Debug, Clone)]
pub struct CfgPhyIo {
    /// Backend type.
    pub backend: PhyBackend,
    /// For a file backend: path to the input file.
    pub input_file: Option<String>,
    /// For the SoapySDR backend: its configuration.
    pub soapysdr: Option<CfgSoapySdr>,
}

/// The network the cell belongs to.
#[derive(Debug, Clone, Copy, PartialEq, Eq, Structural)]
pub struct CfgNetInfo {
    /// Mobile country code, 10 bits.
    pub mcc: u16,
    /// Mobile network code, 14 bits.
    pub mnc: u16,
}

/// What the cell broadcasts about itself.
#[derive(Debug, Clone, Copy, PartialEq, Eq, Structural)]
pub struct CfgCellInfo {
    /// 2 bits.
    pub neighbor_cell_broadcast: u8,
    /// 2 bits.
    pub cell_load_ca: u8,
    pub late_entry_supported: bool,
    /// 12 bits.
    pub main_carrier: u16,
    /// 4 bits.
    pub freq_band: u8,
    /// 2 bits.
    pub freq_offset: u8,
    /// 3 bits.
    pub duplex_spacing_setting: u8,
    pub reverse_operation: bool,
    /// 14 bits.
    pub location_area: u16,
    /// 16 bits.
    pub subscriber_class: u16,
    pub registration: bool,
    pub deregistration: bool,
    pub priority_cell: bool,
    pub no_minimum_mode: bool,
    pub migration: bool,
    pub system_wide_services: bool,
    pub voice_service: bool,
    pub circuit_mode_data_service: bool,
    pub sndcp_service: bool,
    pub aie_service: bool,
    pub advanced_link: bool,
    pub system_code: u8,
    pub colour_code: u8,
    pub sharing_mode: u8,
    pub ts_reserved_frames: u8,
    pub u_plane_dtx: bool,
    pub frame_18_ext: bool,
}

/// The immutable configuration.
#[derive(Debug, Clone)]
pub struct StackConfig {
    pub stack_mode: StackMode,
    pub phy_io: CfgPhyIo,
    pub net: CfgNetInfo,
    pub cell: CfgCellInfo,
}

/// Why a configuration is refused.
#[derive(Debug, Clone, Copy, PartialEq, Eq, Structural)]
pub enum ConfigError {
    BackendUndefined,
    SoapySdrConfigMissing,
    HardwareConfigCount,
    InvalidPhyFrequencies,
    InvalidCellFrequencies,
    BandMismatch,
    CarrierMismatch,
    FreqOffsetMismatch,
    ReverseOperationMismatch,
    DuplexSpacingMismatch,
}

/// The band that a configuration has where it names none.
pub fn default_freq_band() -> (band: u8)
    ensures
        band == 4,
{
    4
}

/// The main carrier that a configuration has where it names none.
pub fn default_main_carrier() -> (carrier: u16)
    ensures
        carrier == 1521,
{
    1521
}

/// The stack mode that a configuration has where it names none.
pub fn default_stack_mode() -> (mode: StackMode)
    ensures
        mode == StackMode::Bs,
{
    StackMode::Bs
}

impl Default for CfgPhyIo {
    fn default() -> (io: CfgPhyIo)
        ensures
            io.backend == PhyBackend::Undefined,
            io.input_file is None,
            io.soapysdr is None,
    {
        CfgPhyIo { backend: PhyBackend::Undefined, input_file: None, soapysdr: None }
    }
}

impl CfgCellInfo {
    /// The cell information of a configuration that names none: band 4, main
    /// carrier 1521, registration and deregistration allowed, everything else
    /// zero or off.
    pub open spec fn spec_default() -> CfgCellInfo {
        CfgCellInfo {
            freq_band: 4,
            main_carrier: 1521,
            freq_offset: 0,
            duplex_spacing_setting: 0,
            reverse_operation: false,
            neighbor_cell_broadcast: 0,
            cell_load_ca: 0,
            late_entry_supported: false,
            location_area: 0,
            subscriber_class: 0,
            registration: true,
            deregistration: true,
            priority_cell: false,
            no_minimum_mode: false,
            migration: false,
            system_wide_services: false,
            voice_service: false,
            circuit_mode_data_service: false,
            sndcp_service: false,
            aie_service: false,
            advanced_link: false,
            system_code: 0,
            colour_code: 0,
            sharing_mode: 0,
            ts_reserved_frames: 0,
            u_plane_dtx: false,
            frame_18_ext: false,
        }
    }
}

impl Default for CfgCellInfo {
    fn default() -> (cell: CfgCellInfo)
        ensures
            cell == CfgCellInfo::spec_default(),
    {
        CfgCellInfo {
            freq_band: default_freq_band(),
            main_carrier: default_main_carrier(),
            freq_offset: 0,
            duplex_spacing_setting: 0,
            reverse_operation: false,
            neighbor_cell_broadcast: 0,
            cell_load_ca: 0,
            late_entry_supported: false,
            location_area: 0,
            subscriber_class: 0,
            registration: true,
            deregistration: true,
            priority_cell: false,
            no_minimum_mode: false,
            migration: false,
            system_wide_services: false,
            voice_service: false,
            circuit_mode_data_service: false,
            sndcp_service: false,
            aie_service: false,
            advanced_link: false,
            system_code: 0,
            colour_code: 0,
            sharing_mode: 0,
            ts_reserved_frames: 0,
            u_plane_dtx: false,
            frame_18_ext: false,
        }
    }
}

impl ConfigError {
    /// What is wrong, in words: the text of `message`.
    pub open spec fn spec_message(&self) -> Seq<char> {
        match self {
            ConfigError::BackendUndefined => "phy_io backend must be defined"@,
            ConfigError::SoapySdrConfigMissing => {
                "soapysdr configuration must be provided for Soapysdr backend"@
            },
            ConfigError::HardwareConfigCount => {
                "soapysdr backend requires exactly one hardware configuration \
                 (iocfg_usrpb2xx, iocfg_limesdr, or iocfg_sxceiver)"@
            },
            ConfigError::InvalidPhyFrequencies => "Invalid PhyIo DL/UL frequencies"@,
            ConfigError::InvalidCellFrequencies => "Invalid cell info frequency settings"@,
            ConfigError::BandMismatch => "PhyIo Tx frequency band does not match cell info band"@,
            ConfigError::CarrierMismatch => {
                "PhyIo Tx frequency carrier does not match cell info carrier"@
            },
            ConfigError::FreqOffsetMismatch => {
                "PhyIo Tx frequency offset does not match cell info offset"@
            },
            ConfigError::ReverseOperationMismatch => {
                "PhyIo Tx frequency reverse operation does not match cell info reverse operation"@
            },
            ConfigError::DuplexSpacingMismatch => {
                "PhyIo Tx frequency duplex spacing does not match cell info duplex spacing"@
            },
        }
    }

    /// What is wrong, in words.
    pub fn message(&self) -> (text: &'static str)
        ensures
            text@ == self.spec_message(),
    {
        match self {
            ConfigError::BackendUndefined => "phy_io backend must be defined",
            ConfigError::SoapySdrConfigMissing => {
                "soapysdr configuration must be provided for Soapysdr backend"
            },
            ConfigError::HardwareConfigCount => {
                "soapysdr backend requires exactly one hardware configuration \
                 (iocfg_usrpb2xx, iocfg_limesdr, or iocfg_sxceiver)"
            },
            ConfigError::InvalidPhyFrequencies => "Invalid PhyIo DL/UL frequencies",
            ConfigError::InvalidCellFrequencies => "Invalid cell info frequency settings",
            ConfigError::BandMismatch => "PhyIo Tx frequency band does not match cell info band",
            ConfigError::CarrierMismatch => {
                "PhyIo Tx frequency carrier does not match cell info carrier"
            },
            ConfigError::FreqOffsetMismatch => {
                "PhyIo Tx frequency offset does not match cell info offset"
            },
            ConfigError::ReverseOperationMismatch => {
                "PhyIo Tx frequency reverse operation does not match cell info reverse operation"
            },
            ConfigError::DuplexSpacingMismatch => {
                "PhyIo Tx frequency duplex spacing does not match cell info duplex spacing"
            },
        }
    }
}

impl StackConfig {
    /// A configuration for `mode` in the network `(mcc, mnc)`, with no PHY
    /// backend chosen yet and the default cell information.
    pub fn new(mode: StackMode, mcc: u16, mnc: u16) -> (cfg: StackConfig)
        ensures
            cfg.stack_mode == mode,
            cfg.phy_io.backend == PhyBackend::Undefined,
            cfg.phy_io.input_file is None,
            cfg.phy_io.soapysdr is None,
            cfg.net == (CfgNetInfo { mcc, mnc }),
            cfg.cell == CfgCellInfo::spec_default(),
    {
        StackConfig {
            stack_mode: mode,
            phy_io: CfgPhyIo::default(),
            net: CfgNetInfo { mcc, mnc },
            cell: CfgCellInfo::default(),
        }
    }

    /// Whether the frequencies of the radio are those that the cell announces:
    /// the first difference, in the order band, carrier, offset, reverse
    /// operation, duplex spacing.
    pub open spec fn spec_check_frequencies(&self, soapy: CfgSoapySdr) -> Result<(), ConfigError> {
        match FreqInfo::spec_from_dlul_freqs(soapy.dl_freq, soapy.ul_freq) {
            Err(_) => Err(ConfigError::InvalidPhyFrequencies),
            Ok(f1) => match FreqInfo::spec_from_sysinfo_settings(
                self.cell.freq_band,
                self.cell.main_carrier,
                self.cell.freq_offset,
                self.cell.duplex_spacing_setting,
                self.cell.reverse_operation,
            ) {
                Err(_) => Err(ConfigError::InvalidCellFrequencies),
                Ok(f2) => if f1.band != f2.band {
                    Err(ConfigError::BandMismatch)
                } else if f1.carrier != f2.carrier {
                    Err(ConfigError::CarrierMismatch)
                } else if f1.freq_offset != f2.freq_offset {
                    Err(ConfigError::FreqOffsetMismatch)
                } else if f1.reverse_operation != f2.reverse_operation {
                    Err(ConfigError::ReverseOperationMismatch)
                } else if f1.duplex_spacing != f2.duplex_spacing {
                    Err(ConfigError::DuplexSpacingMismatch)
                } else {
                    Ok(())
                },
            },
        }
    }

    /// Whether the configuration can be used, and if not, the first reason.
    ///
    /// A PHY backend has to be chosen. The backend `NoBackend`, for tests, needs
    /// nothing more. The SoapySDR backend needs its configuration, in it exactly
    /// one hardware configuration, and frequencies that are those which the
    /// cell information announces.
    pub open spec fn spec_validate(&self) -> Result<(), ConfigError> {
        match self.phy_io.backend {
            PhyBackend::Undefined => Err(ConfigError::BackendUndefined),
            PhyBackend::NoBackend => Ok(()),
            PhyBackend::SoapySdr => match self.phy_io.soapysdr {
                None => Err(ConfigError::SoapySdrConfigMissing),
                Some(soapy) => if soapy.io_cfg.spec_count() != 1 {
                    Err(ConfigError::HardwareConfigCount)
                } else {
                    self.spec_check_frequencies(soapy)
                },
            },
        }
    }

    /// Checks that the frequencies of the radio are those that the cell announces.
    fn check_frequencies(&self, soapy: &CfgSoapySdr) -> (r: Result<(), ConfigError>)
        ensures
            r == self.spec_check_frequencies(*soapy),
    {
        let f1 = match FreqInfo::from_dlul_freqs(soapy.dl_freq, soapy.ul_freq) {
            Ok(f) => f,
            Err(_) => {
                return Err(ConfigError::InvalidPhyFrequencies);
            },
        };
        let f2 = match FreqInfo::from_sysinfo_settings(
            self.cell.freq_band,
            self.cell.main_carrier,
            self.cell.freq_offset,
            self.cell.duplex_spacing_setting,
            self.cell.reverse_operation,
        ) {
            Ok(f) => f,
            Err(_) => {
                return Err(ConfigError::InvalidCellFrequencies);
            },
        };
        if f1.band != f2.band {
            return Err(ConfigError::BandMismatch);
        }
        if f1.carrier != f2.carrier {
            return Err(ConfigError::CarrierMismatch);
        }
        if f1.freq_offset != f2.freq_offset {
            return Err(ConfigError::FreqOffsetMismatch);
        }
        if f1.reverse_operation != f2.reverse_operation {
            return Err(ConfigError::ReverseOperationMismatch);
        }
        if f1.duplex_spacing != f2.duplex_spacing {
            return Err(ConfigError::DuplexSpacingMismatch);
        }
        Ok(())
    }

    /// Validates that all required configuration fields are properly set.
    pub fn validate(&self) -> (r: Result<(), ConfigError>)
        ensures
            r == self.spec_validate(),
    {
        match self.phy_io.backend {
            PhyBackend::Undefined => Err(ConfigError::BackendUndefined),
            PhyBackend::NoBackend => Ok(()),
            PhyBackend::SoapySdr => match &self.phy_io.soapysdr {
                None => Err(ConfigError::SoapySdrConfigMissing),
                Some(soapy) => {
                    if soapy.io_cfg.count() != 1 {
                        return Err(ConfigError::HardwareConfigCount);
                    }
                    self.check_frequencies(soapy)
                },
            },
        }
    }

    /// The scrambling code of the cell.
    pub fn scrambling_code(&self) -> (code: u32)
        ensures
            code == scramb_init(self.net.mcc, self.net.mnc, self.cell.colour_code),
    {
        tetra_scramb_get_init(self.net.mcc, self.net.mnc, self.cell.colour_code)
    }
}

/// Mutable state that the stack edits while it runs.
#[derive(Debug, Clone, Copy, PartialEq, Eq, Structural)]
pub struct StackState {
    pub cell_load_ca: u8,
}

impl Default for StackState {
    fn default() -> (state: StackState)
        ensures
            state.cell_load_ca == 0,
    {
        StackState { cell_load_ca: 0 }
    }
}

/// `std::sync::RwLock`, as a type whose inside the verifier does not see.
#[verifier::external_type_specification]
#[verifier::external_body]
#[verifier::reject_recursive_types(T)]
pub struct ExRwLock<T: ?Sized>(RwLock<T>);

/// `std::sync::RwLockReadGuard`, as a type whose inside the verifier does not
/// see.
#[verifier::external_type_specification]
#[verifier::external_body]
#[verifier::reject_recursive_types(T)]
pub struct ExRwLockReadGuard<'a, T: ?Sized>(RwLockReadGuard<'a, T>);

/// `std::sync::RwLockWriteGuard`, as a type whose inside the verifier does not
/// see.
#[verifier::external_type_specification]
#[verifier::external_body]
#[verifier::reject_recursive_types(T)]
pub struct ExRwLockWriteGuard<'a, T: ?Sized + 'a>(RwLockWriteGuard<'a, T>);

/// `RwLock::new` of std: a lock around `state`. Nothing is claimed of it.
#[verifier::external_body]
fn new_state_lock(state: StackState) -> RwLock<StackState> {
    RwLock::new(state)
}

/// `RwLock::try_read` of std: a read guard, or `None` where the lock is held for
/// writing or a writer has panicked. Nothing is claimed of which.
#[verifier::external_body]
fn try_read_state(lock: &RwLock<StackState>) -> Option<RwLockReadGuard<'_, StackState>> {
    lock.try_read().ok()
}

/// `RwLock::try_write` of std: a write guard, or `None` where the lock is held
/// or a writer has panicked. Nothing is claimed of which.
#[verifier::external_body]
fn try_write_state(lock: &RwLock<StackState>) -> Option<RwLockWriteGuard<'_, StackState>> {
    lock.try_write().ok()
}

/// `Deref::deref` of std on a read guard: the cell load of the state that the
/// guard gives access to. Nothing is claimed of the load: it is whatever a
/// holder of the lock wrote last.
#[verifier::external_body]
fn load_under(guard: &RwLockReadGuard<'_, StackState>) -> u8 {
    guard.cell_load_ca
}

/// `DerefMut::deref_mut` of std on a write guard: gives the state that the
/// guard gives access to the cell load `load`.
#[verifier::external_body]
fn set_load_under(guard: &mut RwLockWriteGuard<'_, StackState>, load: u8) {
    guard.cell_load_ca = load;
}

/// Global shared configuration: immutable config and mutable state.
pub struct SharedConfig {
    /// Read-only configuration.
    cfg: Arc<StackConfig>,
    /// Mutable state, written by the stack and read by others.
    state: Arc<RwLock<StackState>>,
}

/// A clone is a second handle on the same configuration and the same state.
impl Clone for SharedConfig {
    fn clone(&self) -> (handle: Self)
        ensures
            handle == *self,
    {
        SharedConfig { cfg: Arc::clone(&self.cfg), state: Arc::clone(&self.state) }
    }
}

impl SharedConfig {
    /// The immutable configuration.
    pub closed spec fn spec_config(&self) -> StackConfig {
        *self.cfg
    }

    /// Shares `cfg` with the default state.
    pub fn from_config(cfg: StackConfig) -> (shared: SharedConfig)
        requires
            cfg.spec_validate() is Ok,
        ensures
            shared.spec_config() == cfg,
    {
        Self::from_parts(cfg, StackState::default())
    }

    /// Shares `cfg` and `state`. The configuration has to be one that
    /// `validate` accepts.
    pub fn from_parts(cfg: StackConfig, state: StackState) -> (shared: SharedConfig)
        requires
            cfg.spec_validate() is Ok,
        ensures
            shared.spec_config() == cfg,
    {
        SharedConfig { cfg: Arc::new(cfg), state: Arc::new(new_state_lock(state)) }
    }

    /// The immutable configuration.
    pub fn config(&self) -> (cfg: Arc<StackConfig>)
        ensures
            *cfg == self.spec_config(),
    {
        Arc::clone(&self.cfg)
    }

    /// A read guard for the mutable state, or `None` where the state is being
    /// written.
    pub fn state_read(&self) -> Option<RwLockReadGuard<'_, StackState>> {
        try_read_state(&self.state)
    }

    /// A write guard for the mutable state, or `None` where the state is being
    /// read or written.
    pub fn state_write(&self) -> Option<RwLockWriteGuard<'_, StackState>> {
        try_write_state(&self.state)
    }

    /// The cell load that the state shows, or `None` where the state is being
    /// written.
    pub fn cell_load_ca(&self) -> Option<u8> {
        match self.state_read() {
            Some(guard) => Some(load_under(&guard)),
            None => None,
        }
    }

    /// Gives the state the cell load `load`. Returns whether it did: it does
    /// not where the state is being read or written.
    pub fn set_cell_load_ca(&self, load: u8) -> (written: bool) {
        match self.state_write() {
            Some(mut guard) => {
                set_load_under(&mut guard, load);
                true
            },
            None => false,
        }
    }
}

} // verus!
