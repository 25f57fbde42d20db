//! What the state machine asks of the host: the actions that bind, start and
//! unbind the physical device and fetch its reports.
use crate::report::TdispDeviceReportType;
use vstd::prelude::*;

verus! {

/// The error type of `anyhow`, which the host's actions fail with. Nothing is
/// known of what such an error holds; it is only passed on.
#[verifier::external_type_specification]
#[verifier::external_body]
pub struct ExAnyhowError(anyhow::Error);

/// Makes an error from a message, by `anyhow::Error::msg`. Nothing is stated
/// of the error.
#[verifier::external_body]
pub(crate) fn error_from_message(message: &'static str) -> anyhow::Error {
    anyhow::Error::msg(message)
}

/// The actions of the host on the physical device. The state machine calls
/// them; whoever assigns a device implements them. Each action may fail, and
/// one that is not implemented fails always.
pub trait TdispHostDeviceInterface: Send + Sync {
    /// Bind a device to the current partition. This takes the device from
    /// `Unlocked` to `Locked`.
    fn tdisp_bind_device(&mut self) -> (res: Result<(), anyhow::Error>)
        default_ensures
            res is Err,
    {
        Err(error_from_message("not implemented"))
    }

    /// Start a bound device: this takes it from `Locked` to `Run`, so that
    /// its resources can be accepted into the guest context.
    fn tdisp_start_device(&mut self) -> (res: Result<(), anyhow::Error>)
        default_ensures
            res is Err,
    {
        Err(error_from_message("not implemented"))
    }

    /// Unbind a device from the current partition.
    fn tdisp_unbind_device(&mut self) -> (res: Result<(), anyhow::Error>)
        default_ensures
            res is Err,
    {
        Err(error_from_message("not implemented"))
    }

    /// Get a report of the device.
    fn tdisp_get_device_report(&mut self, report_type: &TdispDeviceReportType) -> (res: Result<
        Vec<u8>,
        anyhow::Error,
    >)
        default_ensures
            res is Err,
    {
        Err(error_from_message("not implemented"))
    }
}

} // verus!
