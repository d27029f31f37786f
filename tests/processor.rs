use zbars::error::ZBarErrorType;
use zbars::format::Format;
use zbars::processor::{ConfigStep, ZBarProcessor, ZBarProcessorBuilder};
use zbars::symbol::{ZBarConfig, ZBarSymbolType};

fn run_setup(processor: &mut ZBarProcessor, statuses: &[i32]) -> (Vec<ConfigStep>, Result<(), ZBarErrorType>) {
    let mut made = Vec::new();
    let mut answers = statuses.iter();
    while let Some(step) = processor.next_step() {
        made.push(step);
        let status = *answers.next().expect("more calls than answers");
        if let Err(e) = processor.step_done(status) {
            return (made, Err(e));
        }
    }
    (made, Ok(()))
}

#[test]
fn test_wrong_video_device() {
    let mut processor = ZBarProcessor::builder().threaded(true).build();
    let (_, result) = run_setup(&mut processor, &[0]);
    assert!(result.is_ok());
    assert!(processor.is_threaded());
    assert_eq!(processor.init(-1), Err(ZBarErrorType::VideoInitFailed(-1)));
    assert!(!processor.is_initialized());
    assert!(processor.is_ready());
}

#[test]
fn builder_calls_come_in_fixed_order() {
    let y800 = Format::from_label("Y800").unwrap();
    let mut processor = ZBarProcessor::builder()
        .with_config(ZBarSymbolType::ZBAR_QRCODE, ZBarConfig::ZBAR_CFG_ENABLE, 1)
        .with_format(Some((y800, Format::GREY)))
        .with_iomode(Some(2))
        .with_interface_version(Some(1))
        .with_size(Some((640, 480)))
        .with_config(ZBarSymbolType::ZBAR_CODE128, ZBarConfig::ZBAR_CFG_ENABLE, 1)
        .build();
    let (made, result) = run_setup(&mut processor, &[0, 0, 0, 0, 0, 0, 0]);
    assert_eq!(result, Ok(()));
    assert_eq!(
        made,
        vec![
            ConfigStep::SetConfig(ZBarSymbolType::ZBAR_NONE, ZBarConfig::ZBAR_CFG_ENABLE, 0),
            ConfigStep::RequestSize(640, 480),
            ConfigStep::RequestInterface(1),
            ConfigStep::RequestIomode(2),
            ConfigStep::ForceFormat(Format::Y800, Format::GREY),
            ConfigStep::SetConfig(ZBarSymbolType::ZBAR_QRCODE, ZBarConfig::ZBAR_CFG_ENABLE, 1),
            ConfigStep::SetConfig(ZBarSymbolType::ZBAR_CODE128, ZBarConfig::ZBAR_CFG_ENABLE, 1),
        ]
    );
    assert!(processor.is_ready());
    assert_eq!(processor.failure(), None);
    assert_eq!(processor.next_step(), None);
}

#[test]
fn builder_stops_at_first_refusal() {
    let mut processor = ZBarProcessorBuilder::new()
        .with_size(Some((320, 240)))
        .with_config(ZBarSymbolType::ZBAR_QRCODE, ZBarConfig::ZBAR_CFG_ENABLE, 1)
        .with_config(ZBarSymbolType::ZBAR_EAN13, ZBarConfig::ZBAR_CFG_ENABLE, 1)
        .build();
    let (made, result) = run_setup(&mut processor, &[0, -3, 0, 0]);
    assert_eq!(result, Err(ZBarErrorType::ConfigurationFailed(-3)));
    assert_eq!(
        made,
        vec![
            ConfigStep::SetConfig(ZBarSymbolType::ZBAR_NONE, ZBarConfig::ZBAR_CFG_ENABLE, 0),
            ConfigStep::RequestSize(320, 240),
        ]
    );
    assert_eq!(processor.next_step(), None);
    assert!(!processor.is_ready());
    assert_eq!(processor.failure(), Some(ZBarErrorType::ConfigurationFailed(-3)));
}

#[test]
fn plain_processor_only_disables_all() {
    let mut processor = ZBarProcessor::new(false);
    assert!(!processor.is_threaded());
    assert_eq!(
        processor.next_step(),
        Some(ConfigStep::SetConfig(ZBarSymbolType::ZBAR_NONE, ZBarConfig::ZBAR_CFG_ENABLE, 0))
    );
    assert_eq!(processor.step_done(0), Ok(()));
    assert!(processor.is_ready());
    assert_eq!(processor.init(0), Ok(()));
    assert!(processor.is_initialized());
}

#[test]
fn later_builder_settings_replace_earlier_ones() {
    let mut builder = ZBarProcessorBuilder::new();
    builder.with_iomode(Some(1)).with_iomode(None).threaded(true).threaded(false);
    let mut processor = builder.build();
    assert!(!processor.is_threaded());
    let (made, result) = run_setup(&mut processor, &[0]);
    assert_eq!(result, Ok(()));
    assert_eq!(made.len(), 1);
}

#[test]
fn default_builder_is_new_builder() {
    let mut processor = ZBarProcessorBuilder::default().build();
    assert!(!processor.is_threaded());
    let (made, result) = run_setup(&mut processor, &[0]);
    assert_eq!(result, Ok(()));
    assert_eq!(
        made,
        vec![ConfigStep::SetConfig(ZBarSymbolType::ZBAR_NONE, ZBarConfig::ZBAR_CFG_ENABLE, 0)]
    );
}
