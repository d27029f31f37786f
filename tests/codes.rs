use zbars::error::ZBarErrorType;
use zbars::format::{fourcc, Format};
use zbars::scanner::ZBarImageScanner;
use zbars::processor::ConfigStep;
use zbars::status::{config_status, control_status, flag_status, init_status, scan_status, wait_status};
use zbars::symbol::{ZBarConfig, ZBarSymbolType};

#[test]
fn fourcc_packs_first_byte_lowest() {
    assert_eq!(fourcc(b'Y', b'8', b'0', b'0'), 0x3030_3859);
    assert_eq!(fourcc(1, 2, 3, 4), 0x0403_0201);
}

#[test]
fn format_codes_round_trip() {
    assert_eq!(Format::Y800.value(), 0x3030_3859);
    assert_eq!(Format::from_value(0x3030_3859), Format::Y800);
    assert_eq!(Format::from_value(Format::I420.value()), Format::I420);
    assert_eq!(Format::from_value(0x1234_5678), Format::Custom(0x1234_5678));
    assert_eq!(Format::Custom(0x1234_5678).value(), 0x1234_5678);
    assert_eq!(Format::from_label("GREY"), Some(Format::GREY));
    assert_eq!(Format::from_label("ABCD"), Some(Format::Custom(0x4443_4241)));
    assert_eq!(Format::from_label("Y80"), None);
    assert_eq!(Format::from_label("Y8000"), None);
    assert_eq!(Format::Y8.bits_per_pixel(), Some(8));
    assert_eq!(Format::NV21.bits_per_pixel(), Some(12));
    assert_eq!(Format::Custom(1).bits_per_pixel(), None);
}

#[test]
fn engine_codes_of_types_and_settings() {
    assert_eq!(ZBarSymbolType::ZBAR_QRCODE.value(), 64);
    assert_eq!(ZBarSymbolType::ZBAR_CODE128.value(), 128);
    assert_eq!(ZBarSymbolType::ZBAR_NONE.value(), 0);
    assert_eq!(ZBarConfig::ZBAR_CFG_ENABLE.value(), 0);
    assert_eq!(ZBarConfig::ZBAR_CFG_X_DENSITY.value(), 0x100);
}

#[test]
fn status_codes_map_to_errors() {
    assert_eq!(config_status(0), Ok(()));
    assert_eq!(config_status(-1), Err(ZBarErrorType::ConfigurationFailed(-1)));
    assert_eq!(init_status(0), Ok(()));
    assert_eq!(init_status(-2), Err(ZBarErrorType::VideoInitFailed(-2)));
    assert_eq!(flag_status(0), Ok(false));
    assert_eq!(flag_status(1), Ok(true));
    assert_eq!(flag_status(-1), Err(ZBarErrorType::DisplayFailed(-1)));
    assert_eq!(flag_status(2), Err(ZBarErrorType::DisplayFailed(2)));
    assert_eq!(wait_status(5), Ok(5));
    assert_eq!(wait_status(0), Ok(0));
    assert_eq!(wait_status(-1), Err(ZBarErrorType::WaitFailed(-1)));
    assert_eq!(scan_status(0), Ok(false));
    assert_eq!(scan_status(3), Ok(true));
    assert_eq!(scan_status(-1), Err(ZBarErrorType::ScanFailed(-1)));
    assert_eq!(control_status(0, 75), Ok(75));
    assert_eq!(control_status(-1, 75), Err(ZBarErrorType::ConfigurationFailed(-1)));
}

#[test]
fn errors_keep_engine_codes() {
    assert_eq!(ZBarErrorType::ScanFailed(-7).code(), Some(-7));
    assert_eq!(ZBarErrorType::InvalidBufferSize.code(), None);
    assert_eq!(ZBarErrorType::DecodeTextFailed.code(), None);
}

#[test]
fn scanner_applies_settings_in_order() {
    let mut scanner = ZBarImageScanner::builder()
        .with_config(ZBarSymbolType::ZBAR_QRCODE, ZBarConfig::ZBAR_CFG_ENABLE, 1)
        .with_config(ZBarSymbolType::ZBAR_EAN8, ZBarConfig::ZBAR_CFG_MIN_LEN, 4)
        .build();
    assert_eq!(
        scanner.next_step(),
        Some(ConfigStep::SetConfig(ZBarSymbolType::ZBAR_QRCODE, ZBarConfig::ZBAR_CFG_ENABLE, 1))
    );
    assert_eq!(scanner.step_done(0), Ok(()));
    assert_eq!(
        scanner.next_step(),
        Some(ConfigStep::SetConfig(ZBarSymbolType::ZBAR_EAN8, ZBarConfig::ZBAR_CFG_MIN_LEN, 4))
    );
    assert_eq!(scanner.step_done(0), Ok(()));
    assert_eq!(scanner.next_step(), None);
    assert!(scanner.is_ready());
}

#[test]
fn scanner_stops_at_refused_setting() {
    let mut scanner = ZBarImageScanner::builder()
        .with_config(ZBarSymbolType::ZBAR_QRCODE, ZBarConfig::ZBAR_CFG_ENABLE, 1)
        .with_config(ZBarSymbolType::ZBAR_EAN8, ZBarConfig::ZBAR_CFG_MIN_LEN, 4)
        .build();
    assert_eq!(scanner.step_done(-1), Err(ZBarErrorType::ConfigurationFailed(-1)));
    assert_eq!(scanner.next_step(), None);
    assert!(!scanner.is_ready());
}

#[test]
fn scanner_without_settings_is_ready() {
    let scanner = ZBarImageScanner::builder().build();
    assert!(scanner.is_ready());
    assert_eq!(scanner.next_step(), None);
}
