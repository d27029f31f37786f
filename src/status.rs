use vstd::prelude::*;
use crate::error::{ZBarErrorType, ZBarResult};

verus! {

/// A configuration call: zero is success, anything else is the refusal's code.
pub fn config_status(status: i32) -> (r: ZBarResult<()>)
    ensures
        status == 0 ==> r == Ok::<(), ZBarErrorType>(()),
        status != 0 ==> r == Err::<(), ZBarErrorType>(ZBarErrorType::ConfigurationFailed(status)),
{
    if status == 0 {
        Ok(())
    } else {
        Err(ZBarErrorType::ConfigurationFailed(status))
    }
}

/// Opening a video device: zero is success, anything else is the failure's code.
pub fn init_status(status: i32) -> (r: ZBarResult<()>)
    ensures
        status == 0 ==> r == Ok::<(), ZBarErrorType>(()),
        status != 0 ==> r == Err::<(), ZBarErrorType>(ZBarErrorType::VideoInitFailed(status)),
{
    if status == 0 {
        Ok(())
    } else {
        Err(ZBarErrorType::VideoInitFailed(status))
    }
}

/// A yes-or-no answer: zero is no, one is yes, anything else is the failure's code.
pub fn flag_status(status: i32) -> (r: ZBarResult<bool>)
    ensures
        status == 0 ==> r == Ok::<bool, ZBarErrorType>(false),
        status == 1 ==> r == Ok::<bool, ZBarErrorType>(true),
        status != 0 && status != 1 ==> r == Err::<bool, ZBarErrorType>(
            ZBarErrorType::DisplayFailed(status),
        ),
{
    if status == 0 {
        Ok(false)
    } else if status == 1 {
        Ok(true)
    } else {
        Err(ZBarErrorType::DisplayFailed(status))
    }
}

/// Waiting for the user: a negative status is a failure, anything else the event code.
pub fn wait_status(status: i32) -> (r: ZBarResult<i32>)
    ensures
        status >= 0 ==> r == Ok::<i32, ZBarErrorType>(status),
        status < 0 ==> r == Err::<i32, ZBarErrorType>(ZBarErrorType::WaitFailed(status)),
{
    if status < 0 {
        Err(ZBarErrorType::WaitFailed(status))
    } else {
        Ok(status)
    }
}

/// Scanning: a negative status is a failure; otherwise the status counts the symbols found,
/// and the result says whether there are any.
pub fn scan_status(status: i32) -> (r: ZBarResult<bool>)
    ensures
        status > 0 ==> r == Ok::<bool, ZBarErrorType>(true),
        status == 0 ==> r == Ok::<bool, ZBarErrorType>(false),
        status < 0 ==> r == Err::<bool, ZBarErrorType>(ZBarErrorType::ScanFailed(status)),
{
    if status < 0 {
        Err(ZBarErrorType::ScanFailed(status))
    } else {
        Ok(status > 0)
    }
}

/// Reading a device control: zero is success and hands out the value read, anything else is
/// the refusal's code.
pub fn control_status(status: i32, value: i32) -> (r: ZBarResult<i32>)
    ensures
        status == 0 ==> r == Ok::<i32, ZBarErrorType>(value),
        status != 0 ==> r == Err::<i32, ZBarErrorType>(ZBarErrorType::ConfigurationFailed(status)),
{
    if status == 0 {
        Ok(value)
    } else {
        Err(ZBarErrorType::ConfigurationFailed(status))
    }
}

} // verus!
