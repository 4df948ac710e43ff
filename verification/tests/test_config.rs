use bluestation::config::stack_config::{
    default_freq_band, default_main_carrier, default_stack_mode, CfgCellInfo, CfgNetInfo, CfgPhyIo,
    ConfigError, PhyBackend, SharedConfig, StackConfig, StackMode, StackState,
};
use bluestation::config::stack_config_soapy::{
    CfgLimeSdr, CfgSoapySdr, CfgSxCeiver, CfgUsrpB2xx, SoapyIoCfg,
};
use bluestation::freqs::{FreqErr, FreqInfo};
use bluestation::scrambler::tetra_scramb_get_init;

fn soapy(dl_freq: u32, ul_freq: u32) -> CfgSoapySdr {
    CfgSoapySdr {
        ul_freq,
        dl_freq,
        ppb_err: None,
        io_cfg: SoapyIoCfg {
            iocfg_usrpb2xx: None,
            iocfg_limesdr: Some(CfgLimeSdr { rx_ant: None, tx_ant: None }),
            iocfg_sxceiver: None,
        },
    }
}

fn config_with(soapysdr: Option<CfgSoapySdr>) -> StackConfig {
    let mut cfg = StackConfig::new(StackMode::Bs, 204, 1337);
    cfg.phy_io.backend = PhyBackend::SoapySdr;
    cfg.phy_io.soapysdr = soapysdr;
    cfg
}

#[test]
fn defaults() {
    assert_eq!(default_freq_band(), 4);
    assert_eq!(default_main_carrier(), 1521);
    assert_eq!(default_stack_mode(), StackMode::Bs);
    let cfg = StackConfig::new(StackMode::Ms, 204, 1337);
    assert_eq!(cfg.stack_mode, StackMode::Ms);
    assert_eq!(cfg.net, CfgNetInfo { mcc: 204, mnc: 1337 });
    assert_eq!(cfg.phy_io.backend, PhyBackend::Undefined);
    assert!(cfg.phy_io.input_file.is_none());
    assert!(cfg.phy_io.soapysdr.is_none());
    let cell = CfgCellInfo::default();
    assert_eq!(cfg.cell, cell);
    assert_eq!(cell.freq_band, 4);
    assert_eq!(cell.main_carrier, 1521);
    assert!(cell.registration);
    assert!(cell.deregistration);
    assert!(!cell.voice_service);
    assert_eq!(cell.colour_code, 0);
    assert_eq!(cell.subscriber_class, 0);
    assert_eq!(CfgPhyIo::default().backend, PhyBackend::Undefined);
    assert_eq!(StackState::default().cell_load_ca, 0);
}

#[test]
fn a_backend_has_to_be_chosen() {
    let mut cfg = StackConfig::new(StackMode::Bs, 204, 1337);
    assert_eq!(cfg.validate(), Err(ConfigError::BackendUndefined));
    assert_eq!(cfg.validate().unwrap_err().message(), "phy_io backend must be defined");
    cfg.phy_io.backend = PhyBackend::NoBackend;
    assert_eq!(cfg.validate(), Ok(()));
}

#[test]
fn soapysdr_needs_its_configuration_and_one_hardware() {
    assert_eq!(config_with(None).validate(), Err(ConfigError::SoapySdrConfigMissing));
    let mut none = soapy(438_025_000, 428_025_000);
    none.io_cfg.iocfg_limesdr = None;
    assert_eq!(config_with(Some(none)).validate(), Err(ConfigError::HardwareConfigCount));
    let mut two = soapy(438_025_000, 428_025_000);
    two.io_cfg.iocfg_usrpb2xx = Some(CfgUsrpB2xx { rx_ant: None, tx_ant: None });
    assert_eq!(two.io_cfg.count(), 2);
    assert_eq!(config_with(Some(two.clone())).validate(), Err(ConfigError::HardwareConfigCount));
    two.io_cfg.iocfg_sxceiver = Some(CfgSxCeiver { rx_ant: None, tx_ant: None });
    assert_eq!(two.io_cfg.count(), 3);
    assert_eq!(config_with(Some(two)).validate(), Err(ConfigError::HardwareConfigCount));
    assert_eq!(config_with(Some(soapy(438_025_000, 428_025_000))).validate(), Ok(()));
}

#[test]
fn radio_and_cell_have_to_agree() {
    let check = |dl, ul| config_with(Some(soapy(dl, ul))).validate();
    assert_eq!(check(438_025_000, 428_025_000), Ok(()));
    assert_eq!(check(438_025_001, 428_025_001), Err(ConfigError::InvalidPhyFrequencies));
    assert_eq!(check(438_025_000, 437_025_000), Err(ConfigError::InvalidPhyFrequencies));
    assert_eq!(check(338_025_000, 328_025_000), Err(ConfigError::BandMismatch));
    assert_eq!(check(438_050_000, 428_050_000), Err(ConfigError::CarrierMismatch));
    assert_eq!(check(438_031_250, 428_031_250), Err(ConfigError::FreqOffsetMismatch));
    assert_eq!(check(438_025_000, 448_025_000), Err(ConfigError::ReverseOperationMismatch));
    assert_eq!(check(438_025_000, 431_025_000), Err(ConfigError::DuplexSpacingMismatch));

    let mut cfg = config_with(Some(soapy(438_025_000, 428_025_000)));
    cfg.cell.freq_band = 0;
    assert_eq!(cfg.validate(), Err(ConfigError::InvalidCellFrequencies));
    assert_eq!(
        cfg.validate().unwrap_err().message(),
        "Invalid cell info frequency settings"
    );
}

#[test]
fn frequencies_of_settings() {
    let info = FreqInfo::from_sysinfo_settings(4, 1521, 0, 0, false).unwrap();
    assert_eq!(
        info,
        FreqInfo {
            band: 4,
            carrier: 1521,
            freq_offset: 0,
            duplex_spacing: 0,
            reverse_operation: false
        }
    );
    assert_eq!(info.dl_freq(), 438_025_000);
    assert_eq!(info.ul_freq(), 428_025_000);
    let reversed = FreqInfo::from_sysinfo_settings(4, 1521, 1, 1, true).unwrap();
    assert_eq!(reversed.dl_freq(), 438_031_250);
    assert_eq!(reversed.ul_freq(), 445_031_250);
    let below = FreqInfo::from_sysinfo_settings(3, 0, 2, 2, false).unwrap();
    assert_eq!(below.dl_freq(), 299_993_750);
    assert_eq!(below.ul_freq(), 299_993_750);
    assert_eq!(FreqInfo::from_sysinfo_settings(3, 0, 3, 3, false).unwrap().dl_freq(), 300_012_500);

    assert_eq!(FreqInfo::from_sysinfo_settings(16, 0, 0, 2, false), Err(FreqErr::OutOfRange));
    assert_eq!(FreqInfo::from_sysinfo_settings(4, 4096, 0, 0, false), Err(FreqErr::OutOfRange));
    assert_eq!(FreqInfo::from_sysinfo_settings(4, 0, 4, 0, false), Err(FreqErr::OutOfRange));
    assert_eq!(FreqInfo::from_sysinfo_settings(4, 0, 0, 8, false), Err(FreqErr::OutOfRange));
    assert_eq!(FreqInfo::from_sysinfo_settings(0, 0, 2, 2, false), Err(FreqErr::OutOfRange));
    assert_eq!(
        FreqInfo::from_sysinfo_settings(4, 0, 0, 6, false),
        Err(FreqErr::UnknownDuplexSpacing)
    );
    assert_eq!(
        FreqInfo::from_sysinfo_settings(0, 10, 0, 0, false),
        Err(FreqErr::UnknownDuplexSpacing)
    );
}

#[test]
fn settings_of_frequencies() {
    let found = |dl, ul| FreqInfo::from_dlul_freqs(dl, ul);
    let info = |carrier, freq_offset, duplex_spacing, reverse_operation| {
        Ok(FreqInfo { band: 4, carrier, freq_offset, duplex_spacing, reverse_operation })
    };
    assert_eq!(found(438_025_000, 428_025_000), info(1521, 0, 0, false));
    assert_eq!(found(438_031_250, 428_031_250), info(1521, 1, 0, false));
    assert_eq!(found(438_037_500, 428_037_500), info(1521, 3, 0, false));
    assert_eq!(found(438_043_750, 428_043_750), info(1522, 2, 0, false));
    assert_eq!(found(438_025_000, 448_025_000), info(1521, 0, 0, true));
    assert_eq!(found(438_025_000, 431_025_000), info(1521, 0, 1, false));
    assert_eq!(found(438_025_000, 438_025_000), info(1521, 0, 2, false));
    assert_eq!(found(438_025_000, 430_025_000), info(1521, 0, 3, false));
    assert_eq!(found(438_025_000, 433_025_000), info(1521, 0, 4, false));
    assert_eq!(found(438_025_000, 428_525_000), info(1521, 0, 5, false));

    assert_eq!(found(438_025_100, 428_025_100), Err(FreqErr::OffRaster));
    assert_eq!(found(438_025_000, 437_025_000), Err(FreqErr::UnknownDuplexSpacing));
    assert_eq!(found(438_025_000, 428_025_500), Err(FreqErr::UnknownDuplexSpacing));
    assert_eq!(found(1_700_000_000, 1_690_000_000), Err(FreqErr::OutOfRange));
    // 6.25 kHz below the first carrier of the next band.
    assert_eq!(found(499_993_750, 489_993_750), info(4000, 2, 0, false));

    for (dl, ul) in [(438_025_000, 428_025_000), (438_043_750, 445_043_750), (91_250_000, 92_850_000 + 4_500_000 - 1_600_000)] {
        if let Ok(info) = found(dl, ul) {
            assert_eq!(info.dl_freq(), dl);
            assert_eq!(info.ul_freq(), ul);
        }
    }
}

#[test]
fn scrambling_code() {
    assert_eq!(tetra_scramb_get_init(204, 1337, 1), 855_980_295);
    assert_eq!(tetra_scramb_get_init(0, 0, 0), 3);
    assert_eq!(tetra_scramb_get_init(1023, 16383, 63), u32::MAX);
    // Only the low bits of each part count.
    assert_eq!(tetra_scramb_get_init(1024 + 204, 16384 + 1337, 64 + 1), 855_980_295);
    let mut cfg = StackConfig::new(StackMode::Bs, 204, 1337);
    cfg.cell.colour_code = 1;
    assert_eq!(cfg.scrambling_code(), 855_980_295);
}

#[test]
fn shared_config_shares() {
    let mut cfg = StackConfig::new(StackMode::Bs, 204, 1337);
    cfg.phy_io.backend = PhyBackend::NoBackend;
    cfg.cell.colour_code = 9;
    let shared = SharedConfig::from_parts(cfg, StackState { cell_load_ca: 2 });
    let other = shared.clone();
    assert_eq!(shared.config().cell.colour_code, 9);
    assert_eq!(other.config().net.mnc, 1337);
    assert_eq!(shared.state_read().unwrap().cell_load_ca, 2);
    {
        let mut state = other.state_write().unwrap();
        state.cell_load_ca = 3;
        // While the state is being written it cannot be read.
        assert!(shared.state_read().is_none());
        assert!(shared.state_write().is_none());
    }
    assert_eq!(shared.state_read().unwrap().cell_load_ca, 3);
    {
        let _reading = shared.state_read().unwrap();
        assert!(other.state_read().is_some());
        assert!(other.state_write().is_none());
    }
    let fresh = SharedConfig::from_config(shared.config().as_ref().clone());
    assert_eq!(fresh.state_read().unwrap().cell_load_ca, 0);
}

#[test]
fn messages() {
    assert_eq!(
        ConfigError::HardwareConfigCount.message(),
        "soapysdr backend requires exactly one hardware configuration (iocfg_usrpb2xx, iocfg_limesdr, or iocfg_sxceiver)"
    );
    assert_eq!(
        ConfigError::SoapySdrConfigMissing.message(),
        "soapysdr configuration must be provided for Soapysdr backend"
    );
    assert_eq!(ConfigError::InvalidPhyFrequencies.message(), "Invalid PhyIo DL/UL frequencies");
    assert_eq!(
        ConfigError::BandMismatch.message(),
        "PhyIo Tx frequency band does not match cell info band"
    );
    assert_eq!(
        ConfigError::CarrierMismatch.message(),
        "PhyIo Tx frequency carrier does not match cell info carrier"
    );
    assert_eq!(
        ConfigError::FreqOffsetMismatch.message(),
        "PhyIo Tx frequency offset does not match cell info offset"
    );
    assert_eq!(
        ConfigError::ReverseOperationMismatch.message(),
        "PhyIo Tx frequency reverse operation does not match cell info reverse operation"
    );
    assert_eq!(
        ConfigError::DuplexSpacingMismatch.message(),
        "PhyIo Tx frequency duplex spacing does not match cell info duplex spacing"
    );
}

#[test]
fn cell_load_is_read_and_written_under_the_lock() {
    let mut cfg = StackConfig::new(StackMode::Bs, 204, 1337);
    cfg.phy_io.backend = PhyBackend::NoBackend;
    let shared = SharedConfig::from_parts(cfg, StackState { cell_load_ca: 2 });
    let other = shared.clone();
    assert_eq!(shared.cell_load_ca(), Some(2));
    assert!(other.set_cell_load_ca(3));
    assert_eq!(shared.cell_load_ca(), Some(3));
    {
        let _reading = shared.state_read().unwrap();
        assert_eq!(other.cell_load_ca(), Some(3));
        assert!(!other.set_cell_load_ca(1));
    }
    {
        let _writing = shared.state_write().unwrap();
        assert_eq!(other.cell_load_ca(), None);
        assert!(!other.set_cell_load_ca(1));
    }
    assert_eq!(shared.cell_load_ca(), Some(3));
}
