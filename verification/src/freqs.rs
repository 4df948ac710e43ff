//! Carrier frequencies and the settings that a cell broadcasts for them.
//!
//! A downlink carrier lies at `band * 100 MHz + carrier * 25 kHz + offset`. The
//! uplink lies one duplex spacing below it, or above it in reverse operation.
//! The duplex spacing is named by a setting whose meaning depends on the band.

use vstd::prelude::*;

verus! {

pub const HZ_PER_BAND: u32 = 100_000_000;

pub const HZ_PER_CARRIER: u32 = 25_000;

/// Why frequencies and broadcast settings do not describe each other.
#[derive(Clone, Copy, Debug, PartialEq, Eq, Structural)]
pub enum FreqErr {
    /// A setting lies outside the range of its field.
    OutOfRange,
    /// The downlink frequency lies on no carrier raster.
    OffRaster,
    /// The band has no duplex spacing of that size, or none under that setting.
    UnknownDuplexSpacing,
}

/// A carrier as the cell broadcasts it.
#[derive(Clone, Copy, Debug, PartialEq, Eq, Structural)]
pub struct FreqInfo {
    /// 4 bits: hundreds of MHz.
    pub band: u8,
    /// 12 bits: steps of 25 kHz within the band.
    pub carrier: u16,
    /// 2 bits: 0 none, 1 +6.25 kHz, 2 -6.25 kHz, 3 +12.5 kHz.
    pub freq_offset: u8,
    /// 3 bits: the duplex spacing setting.
    pub duplex_spacing: u8,
    /// Whether the uplink lies above the downlink.
    pub reverse_operation: bool,
}

/// The duplex spacing in kHz that a setting names in a band, where it names one.
pub open spec fn spec_duplex_spacing_khz(setting: u8, band: u8) -> Option<u32> {
    if setting == 0 {
        if band == 1 {
            Some(1600)
        } else if 2 <= band <= 6 {
            Some(10000)
        } else {
            None
        }
    } else if setting == 1 {
        if band == 1 {
            Some(4500)
        } else if band == 3 {
            Some(36000)
        } else if band == 4 {
            Some(7000)
        } else if band == 8 || band == 9 {
            Some(45000)
        } else {
            None
        }
    } else if setting == 2 {
        if band <= 15 {
            Some(0)
        } else {
            None
        }
    } else if setting == 3 {
        if band == 3 || band == 4 {
            Some(8000)
        } else if band == 8 || band == 9 {
            Some(18000)
        } else {
            None
        }
    } else if setting == 4 {
        if band == 3 {
            Some(18000)
        } else if band == 4 {
            Some(5000)
        } else if band == 6 || band == 7 {
            Some(30000)
        } else if band == 9 {
            Some(39000)
        } else {
            None
        }
    } else if setting == 5 {
        if band == 4 {
            Some(9500)
        } else {
            None
        }
    } else {
        None
    }
}

/// The offset in Hz, counted from 6.25 kHz below the carrier's raster point, that
/// a frequency offset setting names.
pub open spec fn spec_offset_quarter(freq_offset: u8) -> int {
    if freq_offset == 1 {
        2
    } else if freq_offset == 2 {
        0
    } else if freq_offset == 3 {
        3
    } else {
        1
    }
}

impl FreqInfo {
    /// Every setting lies in the range of its field, the band has a duplex
    /// spacing under the setting, and both frequencies can be written in 32 bits
    /// and do not fall below zero.
    pub open spec fn is_valid(self) -> bool {
        &&& self.band <= 15
        &&& self.carrier < 4096
        &&& self.freq_offset < 4
        &&& self.duplex_spacing < 8
        &&& spec_duplex_spacing_khz(self.duplex_spacing, self.band) is Some
        &&& 0 <= self.spec_dl_freq()
        &&& 0 <= self.spec_ul_freq()
    }

    /// The downlink frequency in Hz.
    pub open spec fn spec_dl_freq(self) -> int {
        self.band * 100_000_000 + self.carrier * 25_000 + (spec_offset_quarter(self.freq_offset)
            - 1) * 6250
    }

    /// The uplink frequency in Hz.
    pub open spec fn spec_ul_freq(self) -> int {
        let spacing = spec_duplex_spacing_khz(self.duplex_spacing, self.band).unwrap() * 1000;
        if self.reverse_operation {
            self.spec_dl_freq() + spacing
        } else {
            self.spec_dl_freq() - spacing
        }
    }

    /// The carrier that the settings name, where they name one.
    pub open spec fn spec_from_sysinfo_settings(
        band: u8,
        carrier: u16,
        freq_offset: u8,
        duplex_spacing: u8,
        reverse_operation: bool,
    ) -> Result<FreqInfo, FreqErr> {
        let info = FreqInfo { band, carrier, freq_offset, duplex_spacing, reverse_operation };
        if band > 15 || carrier >= 4096 || freq_offset >= 4 || duplex_spacing >= 8 {
            Err(FreqErr::OutOfRange)
        } else if spec_duplex_spacing_khz(duplex_spacing, band) is None {
            Err(FreqErr::UnknownDuplexSpacing)
        } else if info.spec_dl_freq() < 0 || info.spec_ul_freq() < 0 {
            Err(FreqErr::OutOfRange)
        } else {
            Ok(info)
        }
    }

    /// The lowest setting under which `band` has the duplex spacing `khz`, from
    /// `from` on.
    pub open spec fn spec_find_setting(band: u8, khz: int, from: u8) -> Option<u8>
        decreases 8 - from,
    {
        if from >= 8 {
            None
        } else if spec_duplex_spacing_khz(from, band) == Some(khz as u32) && 0 <= khz
            <= u32::MAX {
            Some(from)
        } else {
            Self::spec_find_setting(band, khz, (from + 1) as u8)
        }
    }

    /// The carrier that a pair of frequencies in Hz lies on, where it lies on one.
    ///
    /// The downlink must lie on the raster of a carrier: a multiple of 25 kHz, or
    /// 6.25 kHz or 12.5 kHz above one, or 6.25 kHz below one. The distance to the
    /// uplink must be a whole number of kHz that is a duplex spacing of the band;
    /// of several settings with that spacing the lowest is taken.
    pub open spec fn spec_from_dlul_freqs(dl_freq: u32, ul_freq: u32) -> Result<
        FreqInfo,
        FreqErr,
    > {
        let band = dl_freq / 100_000_000;
        let within = dl_freq % 100_000_000;
        let quarter = (within % 25_000) / 6250;
        let carrier = within / 25_000 + if quarter == 3 {
            1int
        } else {
            0int
        };
        let freq_offset: u8 = if quarter == 0 {
            0
        } else if quarter == 1 {
            1
        } else if quarter == 2 {
            3
        } else {
            2
        };
        let reverse_operation = ul_freq > dl_freq;
        let distance = if reverse_operation {
            ul_freq - dl_freq
        } else {
            dl_freq - ul_freq
        };
        if band > 15 || carrier >= 4096 {
            Err(FreqErr::OutOfRange)
        } else if within % 6250 != 0 {
            Err(FreqErr::OffRaster)
        } else if distance % 1000 != 0 {
            Err(FreqErr::UnknownDuplexSpacing)
        } else {
            match Self::spec_find_setting(band as u8, distance / 1000, 0) {
                None => Err(FreqErr::UnknownDuplexSpacing),
                Some(duplex_spacing) => Ok(
                    FreqInfo {
                        band: band as u8,
                        carrier: carrier as u16,
                        freq_offset,
                        duplex_spacing,
                        reverse_operation,
                    },
                ),
            }
        }
    }

    /// The carrier found for a pair of frequencies lies on that pair.
    pub proof fn lemma_from_dlul_freqs_exact(dl_freq: u32, ul_freq: u32)
        requires
            Self::spec_from_dlul_freqs(dl_freq, ul_freq) is Ok,
        ensures
            Self::spec_from_dlul_freqs(dl_freq, ul_freq).unwrap().is_valid(),
            Self::spec_from_dlul_freqs(dl_freq, ul_freq).unwrap().spec_dl_freq() == dl_freq,
            Self::spec_from_dlul_freqs(dl_freq, ul_freq).unwrap().spec_ul_freq() == ul_freq,
    {
        let info = Self::spec_from_dlul_freqs(dl_freq, ul_freq).unwrap();
        let band = (dl_freq / 100_000_000) as u8;
        let reverse_operation = ul_freq > dl_freq;
        let distance: int = if reverse_operation {
            ul_freq - dl_freq
        } else {
            dl_freq - ul_freq
        };
        Self::lemma_find_setting(band, distance / 1000, 0);
    }

    /// A setting that is found names the spacing that was looked for.
    pub proof fn lemma_find_setting(band: u8, khz: int, from: u8)
        ensures
            Self::spec_find_setting(band, khz, from) matches Some(s) ==> from <= s < 8
                && spec_duplex_spacing_khz(s, band) == Some(khz as u32) && 0 <= khz <= u32::MAX,
        decreases 8 - from,
    {
        if from < 8 && !(spec_duplex_spacing_khz(from, band) == Some(khz as u32) && 0 <= khz
            <= u32::MAX) {
            Self::lemma_find_setting(band, khz, (from + 1) as u8);
        }
    }

    /// The duplex spacing in kHz that a setting names in a band, where it names one.
    pub fn duplex_spacing_khz(setting: u8, band: u8) -> (r: Option<u32>)
        ensures
            r == spec_duplex_spacing_khz(setting, band),
    {
        match setting {
            0 => match band {
                1 => Some(1600),
                2 | 3 | 4 | 5 | 6 => Some(10000),
                _ => None,
            },
            1 => match band {
                1 => Some(4500),
                3 => Some(36000),
                4 => Some(7000),
                8 | 9 => Some(45000),
                _ => None,
            },
            2 => if band <= 15 {
                Some(0)
            } else {
                None
            },
            3 => match band {
                3 | 4 => Some(8000),
                8 | 9 => Some(18000),
                _ => None,
            },
            4 => match band {
                3 => Some(18000),
                4 => Some(5000),
                6 | 7 => Some(30000),
                9 => Some(39000),
                _ => None,
            },
            5 => match band {
                4 => Some(9500),
                _ => None,
            },
            _ => None,
        }
    }

    /// The carrier that the settings of a cell name.
    pub fn from_sysinfo_settings(
        band: u8,
        carrier: u16,
        freq_offset: u8,
        duplex_spacing: u8,
        reverse_operation: bool,
    ) -> (r: Result<FreqInfo, FreqErr>)
        ensures
            r == Self::spec_from_sysinfo_settings(
                band,
                carrier,
                freq_offset,
                duplex_spacing,
                reverse_operation,
            ),
            r matches Ok(info) ==> info.is_valid() && info == (FreqInfo {
                band,
                carrier,
                freq_offset,
                duplex_spacing,
                reverse_operation,
            }),
    {
        if band > 15 || carrier >= 4096 || freq_offset >= 4 || duplex_spacing >= 8 {
            return Err(FreqErr::OutOfRange);
        }
        let khz = match Self::duplex_spacing_khz(duplex_spacing, band) {
            None => {
                return Err(FreqErr::UnknownDuplexSpacing);
            },
            Some(khz) => khz,
        };
        let quarter: i64 = match freq_offset {
            1 => 2,
            2 => 0,
            3 => 3,
            _ => 1,
        };
        let dl: i64 = band as i64 * 100_000_000 + carrier as i64 * 25_000 + (quarter - 1) * 6250;
        let ul: i64 = if reverse_operation {
            dl + khz as i64 * 1000
        } else {
            dl - khz as i64 * 1000
        };
        if dl < 0 || ul < 0 {
            return Err(FreqErr::OutOfRange);
        }
        Ok(FreqInfo { band, carrier, freq_offset, duplex_spacing, reverse_operation })
    }

    /// The carrier that a pair of frequencies in Hz lies on.
    #[verifier::loop_isolation(false)]
    pub fn from_dlul_freqs(dl_freq: u32, ul_freq: u32) -> (r: Result<FreqInfo, FreqErr>)
        ensures
            r == Self::spec_from_dlul_freqs(dl_freq, ul_freq),
            r matches Ok(info) ==> info.is_valid() && info.spec_dl_freq() == dl_freq
                && info.spec_ul_freq() == ul_freq,
    {
        proof {
            if Self::spec_from_dlul_freqs(dl_freq, ul_freq) is Ok {
                Self::lemma_from_dlul_freqs_exact(dl_freq, ul_freq);
            }
        }
        let band = dl_freq / 100_000_000;
        let within = dl_freq % 100_000_000;
        let quarter = (within % 25_000) / 6250;
        let carrier = within / 25_000 + if quarter == 3 {
            1
        } else {
            0
        };
        let freq_offset: u8 = match quarter {
            0 => 0,
            1 => 1,
            2 => 3,
            _ => 2,
        };
        let reverse_operation = ul_freq > dl_freq;
        let distance = if reverse_operation {
            ul_freq - dl_freq
        } else {
            dl_freq - ul_freq
        };
        if band > 15 || carrier >= 4096 {
            return Err(FreqErr::OutOfRange);
        }
        if within % 6250 != 0 {
            return Err(FreqErr::OffRaster);
        }
        if distance % 1000 != 0 {
            return Err(FreqErr::UnknownDuplexSpacing);
        }
        let khz = distance / 1000;
        let mut setting: u8 = 0;
        while setting < 8
            invariant
                setting <= 8,
                band <= 15,
                khz == distance / 1000,
                Self::spec_find_setting(band as u8, khz as int, 0) == Self::spec_find_setting(
                    band as u8,
                    khz as int,
                    setting,
                ),
            decreases 8 - setting,
        {
            match Self::duplex_spacing_khz(setting, band as u8) {
                Some(found) => {
                    if found == khz {
                        return Ok(
                            FreqInfo {
                                band: band as u8,
                                carrier: carrier as u16,
                                freq_offset,
                                duplex_spacing: setting,
                                reverse_operation,
                            },
                        );
                    }
                },
                None => {},
            }
            setting = setting + 1;
        }
        Err(FreqErr::UnknownDuplexSpacing)
    }

    /// The downlink frequency in Hz.
    pub fn dl_freq(&self) -> (hz: u32)
        requires
            self.is_valid(),
        ensures
            hz == self.spec_dl_freq(),
    {
        let quarter: i64 = match self.freq_offset {
            1 => 2,
            2 => 0,
            3 => 3,
            _ => 1,
        };
        (self.band as i64 * 100_000_000 + self.carrier as i64 * 25_000 + (quarter - 1)
            * 6250) as u32
    }

    /// The uplink frequency in Hz.
    pub fn ul_freq(&self) -> (hz: u32)
        requires
            self.is_valid(),
        ensures
            hz == self.spec_ul_freq(),
    {
        let khz = match Self::duplex_spacing_khz(self.duplex_spacing, self.band) {
            Some(khz) => khz,
            None => 0,
        };
        let dl = self.dl_freq() as i64;
        if self.reverse_operation {
            (dl + khz as i64 * 1000) as u32
        } else {
            (dl - khz as i64 * 1000) as u32
        }
    }
}

} // verus!
