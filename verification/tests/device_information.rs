use efm32hg_hal::device_information::{
    get_auxhfrco_calib_band_1, get_auxhfrco_calib_band_11, get_auxhfrco_calib_band_14,
    get_auxhfrco_calib_band_21, get_auxhfrco_calib_band_7, get_hfrco_calib_band_1,
    get_hfrco_calib_band_11, get_hfrco_calib_band_14, get_hfrco_calib_band_21,
    get_hfrco_calib_band_7, get_ushfrco_calib_band_24, get_ushfrco_calib_band_48,
    DeviceInformation, AUXHFRCO_CALIB_BAND_1, AUXHFRCO_CALIB_BAND_11, AUXHFRCO_CALIB_BAND_14,
    AUXHFRCO_CALIB_BAND_21, AUXHFRCO_CALIB_BAND_7, HFRCO_CALIB_BAND_1, HFRCO_CALIB_BAND_11,
    HFRCO_CALIB_BAND_14, HFRCO_CALIB_BAND_21, HFRCO_CALIB_BAND_7, USHFRCO_COARSECAL_BAND_24,
    USHFRCO_COARSECAL_BAND_48, USHFRCO_FINECAL_BAND_24, USHFRCO_FINECAL_BAND_48,
};

fn page() -> DeviceInformation {
    DeviceInformation {
        ushfrco_coarsecal_band_24: 0xff,
        ushfrco_finecal_band_24: 0xff,
        ushfrco_coarsecal_band_48: 0xa5,
        ushfrco_finecal_band_48: 0x7b,
        auxhfrco_calib_band_1: 0x11,
        auxhfrco_calib_band_7: 0x17,
        auxhfrco_calib_band_11: 0x1b,
        auxhfrco_calib_band_14: 0x1e,
        auxhfrco_calib_band_21: 0x25,
        hfrco_calib_band_1: 0x81,
        hfrco_calib_band_7: 0x87,
        hfrco_calib_band_11: 0x8b,
        hfrco_calib_band_14: 0x8e,
        hfrco_calib_band_21: 0x95,
    }
}

#[test]
fn the_tuning_of_each_hfrco_band_is_its_byte() {
    let page = page();
    assert_eq!(get_hfrco_calib_band_1(&page), 0x81);
    assert_eq!(get_hfrco_calib_band_7(&page), 0x87);
    assert_eq!(get_hfrco_calib_band_11(&page), 0x8b);
    assert_eq!(get_hfrco_calib_band_14(&page), 0x8e);
    assert_eq!(get_hfrco_calib_band_21(&page), 0x95);
}

#[test]
fn the_tuning_of_each_auxhfrco_band_is_its_byte() {
    let page = page();
    assert_eq!(get_auxhfrco_calib_band_1(&page), 0x11);
    assert_eq!(get_auxhfrco_calib_band_7(&page), 0x17);
    assert_eq!(get_auxhfrco_calib_band_11(&page), 0x1b);
    assert_eq!(get_auxhfrco_calib_band_14(&page), 0x1e);
    assert_eq!(get_auxhfrco_calib_band_21(&page), 0x25);
}

#[test]
fn the_ushfrco_calibration_keeps_seven_and_six_bits() {
    let page = page();
    assert_eq!(get_ushfrco_calib_band_24(&page), (0x7f, 0x3f));
    assert_eq!(get_ushfrco_calib_band_48(&page), (0x25, 0x3b));
}

#[test]
fn the_ushfrco_calibration_keeps_small_values_whole() {
    let mut page = page();
    page.ushfrco_coarsecal_band_24 = 0x40;
    page.ushfrco_finecal_band_24 = 0x20;
    assert_eq!(get_ushfrco_calib_band_24(&page), (0x40, 0x20));
}

#[test]
fn the_calibration_bytes_lie_where_the_page_has_them() {
    assert_eq!(USHFRCO_COARSECAL_BAND_24, 0x0fe0_81cc);
    assert_eq!(USHFRCO_FINECAL_BAND_24, 0x0fe0_81cd);
    assert_eq!(USHFRCO_COARSECAL_BAND_48, 0x0fe0_81ce);
    assert_eq!(USHFRCO_FINECAL_BAND_48, 0x0fe0_81cf);
    assert_eq!(AUXHFRCO_CALIB_BAND_1, 0x0fe0_81d4);
    assert_eq!(AUXHFRCO_CALIB_BAND_7, 0x0fe0_81d5);
    assert_eq!(AUXHFRCO_CALIB_BAND_11, 0x0fe0_81d6);
    assert_eq!(AUXHFRCO_CALIB_BAND_14, 0x0fe0_81d7);
    assert_eq!(AUXHFRCO_CALIB_BAND_21, 0x0fe0_81d8);
    assert_eq!(HFRCO_CALIB_BAND_1, 0x0fe0_81dc);
    assert_eq!(HFRCO_CALIB_BAND_7, 0x0fe0_81dd);
    assert_eq!(HFRCO_CALIB_BAND_11, 0x0fe0_81de);
    assert_eq!(HFRCO_CALIB_BAND_14, 0x0fe0_81df);
    assert_eq!(HFRCO_CALIB_BAND_21, 0x0fe0_81e0);
}
