//! The calibration values that the factory left in the device information page.
//!
//! The page lies in read-only memory at fixed addresses. Whoever can read that memory fills a
//! [`DeviceInformation`] with the bytes found there; the functions below look the values up in
//! it.

use vstd::prelude::*;

verus! {

/// The address of the coarse calibration of the `USHFRCO` for its 24 MHz band.
pub const USHFRCO_COARSECAL_BAND_24: u32 = 0x0fe0_81cc;

/// The address of the fine calibration of the `USHFRCO` for its 24 MHz band.
pub const USHFRCO_FINECAL_BAND_24: u32 = 0x0fe0_81cd;

/// The address of the coarse calibration of the `USHFRCO` for its 48 MHz band.
pub const USHFRCO_COARSECAL_BAND_48: u32 = 0x0fe0_81ce;

/// The address of the fine calibration of the `USHFRCO` for its 48 MHz band.
pub const USHFRCO_FINECAL_BAND_48: u32 = 0x0fe0_81cf;

/// The address of the tuning of the `AUXHFRCO` for its 1 MHz band.
pub const AUXHFRCO_CALIB_BAND_1: u32 = 0x0fe0_81d4;

/// The address of the tuning of the `AUXHFRCO` for its 7 MHz band.
pub const AUXHFRCO_CALIB_BAND_7: u32 = 0x0fe0_81d5;

/// The address of the tuning of the `AUXHFRCO` for its 11 MHz band.
pub const AUXHFRCO_CALIB_BAND_11: u32 = 0x0fe0_81d6;

/// The address of the tuning of the `AUXHFRCO` for its 14 MHz band.
pub const AUXHFRCO_CALIB_BAND_14: u32 = 0x0fe0_81d7;

/// The address of the tuning of the `AUXHFRCO` for its 21 MHz band.
pub const AUXHFRCO_CALIB_BAND_21: u32 = 0x0fe0_81d8;

/// The address of the tuning of the `HFRCO` for its 1 MHz band.
pub const HFRCO_CALIB_BAND_1: u32 = 0x0fe0_81dc;

/// The address of the tuning of the `HFRCO` for its 7 MHz band.
pub const HFRCO_CALIB_BAND_7: u32 = 0x0fe0_81dd;

/// The address of the tuning of the `HFRCO` for its 11 MHz band.
pub const HFRCO_CALIB_BAND_11: u32 = 0x0fe0_81de;

/// The address of the tuning of the `HFRCO` for its 14 MHz band.
pub const HFRCO_CALIB_BAND_14: u32 = 0x0fe0_81df;

/// The address of the tuning of the `HFRCO` for its 21 MHz band.
pub const HFRCO_CALIB_BAND_21: u32 = 0x0fe0_81e0;

/// The calibration bytes of the device information page, each under the name of its address.
#[derive(Clone, Copy, Debug, PartialEq, Eq, Structural)]
pub struct DeviceInformation {
    pub ushfrco_coarsecal_band_24: u8,
    pub ushfrco_finecal_band_24: u8,
    pub ushfrco_coarsecal_band_48: u8,
    pub ushfrco_finecal_band_48: u8,
    pub auxhfrco_calib_band_1: u8,
    pub auxhfrco_calib_band_7: u8,
    pub auxhfrco_calib_band_11: u8,
    pub auxhfrco_calib_band_14: u8,
    pub auxhfrco_calib_band_21: u8,
    pub hfrco_calib_band_1: u8,
    pub hfrco_calib_band_7: u8,
    pub hfrco_calib_band_11: u8,
    pub hfrco_calib_band_14: u8,
    pub hfrco_calib_band_21: u8,
}

/// The tuning of the `HFRCO` for its 1 MHz band.
pub fn get_hfrco_calib_band_1(information: &DeviceInformation) -> (tuning: u8)
    ensures
        tuning == information.hfrco_calib_band_1,
{
    information.hfrco_calib_band_1
}

/// The tuning of the `HFRCO` for its 7 MHz band.
pub fn get_hfrco_calib_band_7(information: &DeviceInformation) -> (tuning: u8)
    ensures
        tuning == information.hfrco_calib_band_7,
{
    information.hfrco_calib_band_7
}

/// The tuning of the `HFRCO` for its 11 MHz band.
pub fn get_hfrco_calib_band_11(information: &DeviceInformation) -> (tuning: u8)
    ensures
        tuning == information.hfrco_calib_band_11,
{
    information.hfrco_calib_band_11
}

/// The tuning of the `HFRCO` for its 14 MHz band.
pub fn get_hfrco_calib_band_14(information: &DeviceInformation) -> (tuning: u8)
    ensures
        tuning == information.hfrco_calib_band_14,
{
    information.hfrco_calib_band_14
}

/// The tuning of the `HFRCO` for its 21 MHz band.
pub fn get_hfrco_calib_band_21(information: &DeviceInformation) -> (tuning: u8)
    ensures
        tuning == information.hfrco_calib_band_21,
{
    information.hfrco_calib_band_21
}

/// The tuning of the `AUXHFRCO` for its 1 MHz band.
pub fn get_auxhfrco_calib_band_1(information: &DeviceInformation) -> (tuning: u8)
    ensures
        tuning == information.auxhfrco_calib_band_1,
{
    information.auxhfrco_calib_band_1
}

/// The tuning of the `AUXHFRCO` for its 7 MHz band.
pub fn get_auxhfrco_calib_band_7(information: &DeviceInformation) -> (tuning: u8)
    ensures
        tuning == information.auxhfrco_calib_band_7,
{
    information.auxhfrco_calib_band_7
}

/// The tuning of the `AUXHFRCO` for its 11 MHz band.
pub fn get_auxhfrco_calib_band_11(information: &DeviceInformation) -> (tuning: u8)
    ensures
        tuning == information.auxhfrco_calib_band_11,
{
    information.auxhfrco_calib_band_11
}

/// The tuning of the `AUXHFRCO` for its 14 MHz band.
pub fn get_auxhfrco_calib_band_14(information: &DeviceInformation) -> (tuning: u8)
    ensures
        tuning == information.auxhfrco_calib_band_14,
{
    information.auxhfrco_calib_band_14
}

/// The tuning of the `AUXHFRCO` for its 21 MHz band.
pub fn get_auxhfrco_calib_band_21(information: &DeviceInformation) -> (tuning: u8)
    ensures
        tuning == information.auxhfrco_calib_band_21,
{
    information.auxhfrco_calib_band_21
}

/// The coarse and the fine calibration of the `USHFRCO` for its 24 MHz band: the low seven bits
/// of the one byte and the low six bits of the other.
pub fn get_ushfrco_calib_band_24(information: &DeviceInformation) -> (calibration: (u8, u8))
    ensures
        calibration.0 == information.ushfrco_coarsecal_band_24 & 0x7f,
        calibration.1 == information.ushfrco_finecal_band_24 & 0x3f,
        calibration.0 <= 0x7f,
        calibration.1 <= 0x3f,
{
    let coarse: u8 = information.ushfrco_coarsecal_band_24;
    let fine: u8 = information.ushfrco_finecal_band_24;
    assert(coarse & 0x7f <= 0x7f) by (bit_vector);
    assert(fine & 0x3f <= 0x3f) by (bit_vector);
    (coarse & 0x7f, fine & 0x3f)
}

/// The coarse and the fine calibration of the `USHFRCO` for its 48 MHz band: the low seven bits
/// of the one byte and the low six bits of the other.
pub fn get_ushfrco_calib_band_48(information: &DeviceInformation) -> (calibration: (u8, u8))
    ensures
        calibration.0 == information.ushfrco_coarsecal_band_48 & 0x7f,
        calibration.1 == information.ushfrco_finecal_band_48 & 0x3f,
        calibration.0 <= 0x7f,
        calibration.1 <= 0x3f,
{
    let coarse: u8 = information.ushfrco_coarsecal_band_48;
    let fine: u8 = information.ushfrco_finecal_band_48;
    assert(coarse & 0x7f <= 0x7f) by (bit_vector);
    assert(fine & 0x3f <= 0x3f) by (bit_vector);
    (coarse & 0x7f, fine & 0x3f)
}

} // verus!
