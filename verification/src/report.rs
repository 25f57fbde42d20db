//! The kinds of report that a guest can request for an assigned device, and
//! the numbers that stand for them on the wire.
use vstd::prelude::*;

verus! {

/// The number of report kinds that a TDI produces. The numbers of the reports
/// of the physical device start here.
pub const TDISP_TDI_REPORT_ENUM_COUNT: u32 = 3;

/// A report that the device interface (the TDI) produces.
#[derive(Debug, Copy, Clone, PartialEq, Eq, Structural)]
pub enum TdispTdiReport {
    /// No report: the sentinel for an invalid request.
    TdiInfoInvalid,
    /// The device id that the guest uses for the interface.
    TdiInfoGuestDeviceId,
    /// The interface report used for attestation.
    TdiInfoInterfaceReport,
}

/// A report that the physical device produces.
#[derive(Debug, Copy, Clone, PartialEq, Eq, Structural)]
pub enum TdispDeviceReport {
    /// No report: the sentinel for an invalid request.
    DeviceInfoInvalid,
    /// The certificate chain of the device.
    DeviceInfoCertificateChain,
    /// The measurements of the device.
    DeviceInfoMeasurements,
    /// Whether the device is registered.
    DeviceInfoIsRegistered,
}

/// A report that can be requested for an assigned device.
#[derive(Debug, Copy, Clone, PartialEq, Eq, Structural)]
pub enum TdispDeviceReportType {
    /// A report produced by the device interface and not the physical device.
    TdiReport(TdispTdiReport),
    /// A report produced by the physical device and not the device interface.
    DeviceReport(TdispDeviceReport),
}

impl TdispTdiReport {
    /// The number that stands for this report on the wire.
    pub open spec fn code(self) -> u32 {
        match self {
            TdispTdiReport::TdiInfoInvalid => 0,
            TdispTdiReport::TdiInfoGuestDeviceId => 1,
            TdispTdiReport::TdiInfoInterfaceReport => 2,
        }
    }
}

impl TdispDeviceReport {
    /// The number that stands for this report on the wire.
    pub open spec fn code(self) -> u32 {
        match self {
            TdispDeviceReport::DeviceInfoInvalid => 3,
            TdispDeviceReport::DeviceInfoCertificateChain => 4,
            TdispDeviceReport::DeviceInfoMeasurements => 5,
            TdispDeviceReport::DeviceInfoIsRegistered => 6,
        }
    }
}

impl TdispDeviceReportType {
    /// The number that stands for this report on the wire.
    pub open spec fn code(self) -> u32 {
        match self {
            TdispDeviceReportType::TdiReport(report) => report.code(),
            TdispDeviceReportType::DeviceReport(report) => report.code(),
        }
    }

    /// The report that a number on the wire stands for. Numbers that name no
    /// report stand for the invalid TDI report.
    pub open spec fn of_code(code: u32) -> TdispDeviceReportType {
        if code == 1 {
            TdispDeviceReportType::TdiReport(TdispTdiReport::TdiInfoGuestDeviceId)
        } else if code == 2 {
            TdispDeviceReportType::TdiReport(TdispTdiReport::TdiInfoInterfaceReport)
        } else if code == 3 {
            TdispDeviceReportType::DeviceReport(TdispDeviceReport::DeviceInfoInvalid)
        } else if code == 4 {
            TdispDeviceReportType::DeviceReport(TdispDeviceReport::DeviceInfoCertificateChain)
        } else if code == 5 {
            TdispDeviceReportType::DeviceReport(TdispDeviceReport::DeviceInfoMeasurements)
        } else if code == 6 {
            TdispDeviceReportType::DeviceReport(TdispDeviceReport::DeviceInfoIsRegistered)
        } else {
            TdispDeviceReportType::TdiReport(TdispTdiReport::TdiInfoInvalid)
        }
    }

    /// Whether this is one of the two sentinels that stand for "no report".
    pub open spec fn is_invalid(self) -> bool {
        self == TdispDeviceReportType::TdiReport(TdispTdiReport::TdiInfoInvalid)
            || self == TdispDeviceReportType::DeviceReport(TdispDeviceReport::DeviceInfoInvalid)
    }

    /// Tells whether this is one of the two sentinels that stand for "no
    /// report".
    pub fn is_invalid_report(&self) -> (invalid: bool)
        ensures
            invalid == self.is_invalid(),
    {
        match self {
            TdispDeviceReportType::TdiReport(TdispTdiReport::TdiInfoInvalid) => true,
            TdispDeviceReportType::DeviceReport(TdispDeviceReport::DeviceInfoInvalid) => true,
            _ => false,
        }
    }

    /// Every report is found again from its own number.
    pub proof fn lemma_code_round_trip(self)
        ensures
            TdispDeviceReportType::of_code(self.code()) == self,
    {
    }

    /// A number names an invalid report exactly if it is 0, 3 or above 6.
    pub proof fn lemma_invalid_codes(code: u32)
        ensures
            TdispDeviceReportType::of_code(code).is_invalid() <==> (code == 0 || code == 3 || code
                > 6),
    {
    }
}

impl vstd::std_specs::convert::FromSpecImpl<&TdispTdiReport> for u32 {
    open spec fn obeys_from_spec() -> bool {
        true
    }

    open spec fn from_spec(value: &TdispTdiReport) -> u32 {
        value.code()
    }
}

impl From<&TdispTdiReport> for u32 {
    fn from(value: &TdispTdiReport) -> (code: u32)
        ensures
            code == value.code(),
    {
        match value {
            TdispTdiReport::TdiInfoInvalid => 0,
            TdispTdiReport::TdiInfoGuestDeviceId => 1,
            TdispTdiReport::TdiInfoInterfaceReport => 2,
        }
    }
}

impl vstd::std_specs::convert::FromSpecImpl<&TdispDeviceReport> for u32 {
    open spec fn obeys_from_spec() -> bool {
        true
    }

    open spec fn from_spec(value: &TdispDeviceReport) -> u32 {
        value.code()
    }
}

impl From<&TdispDeviceReport> for u32 {
    fn from(value: &TdispDeviceReport) -> (code: u32)
        ensures
            code == value.code(),
    {
        match value {
            TdispDeviceReport::DeviceInfoInvalid => TDISP_TDI_REPORT_ENUM_COUNT,
            TdispDeviceReport::DeviceInfoCertificateChain => TDISP_TDI_REPORT_ENUM_COUNT + 1,
            TdispDeviceReport::DeviceInfoMeasurements => TDISP_TDI_REPORT_ENUM_COUNT + 2,
            TdispDeviceReport::DeviceInfoIsRegistered => TDISP_TDI_REPORT_ENUM_COUNT + 3,
        }
    }
}

impl vstd::std_specs::convert::FromSpecImpl<&TdispDeviceReportType> for u32 {
    open spec fn obeys_from_spec() -> bool {
        true
    }

    open spec fn from_spec(value: &TdispDeviceReportType) -> u32 {
        value.code()
    }
}

impl From<&TdispDeviceReportType> for u32 {
    fn from(value: &TdispDeviceReportType) -> (code: u32)
        ensures
            code == value.code(),
    {
        match value {
            TdispDeviceReportType::TdiReport(report_type) => u32::from(report_type),
            TdispDeviceReportType::DeviceReport(report_type) => u32::from(report_type),
        }
    }
}

impl vstd::std_specs::convert::FromSpecImpl<u32> for TdispDeviceReportType {
    open spec fn obeys_from_spec() -> bool {
        true
    }

    open spec fn from_spec(value: u32) -> TdispDeviceReportType {
        TdispDeviceReportType::of_code(value)
    }
}

impl From<u32> for TdispDeviceReportType {
    fn from(value: u32) -> (report: TdispDeviceReportType)
        ensures
            report == TdispDeviceReportType::of_code(value),
    {
        match value {
            0 => TdispDeviceReportType::TdiReport(TdispTdiReport::TdiInfoInvalid),
            1 => TdispDeviceReportType::TdiReport(TdispTdiReport::TdiInfoGuestDeviceId),
            2 => TdispDeviceReportType::TdiReport(TdispTdiReport::TdiInfoInterfaceReport),
            3 => TdispDeviceReportType::DeviceReport(TdispDeviceReport::DeviceInfoInvalid),
            4 => TdispDeviceReportType::DeviceReport(TdispDeviceReport::DeviceInfoCertificateChain),
            5 => TdispDeviceReportType::DeviceReport(TdispDeviceReport::DeviceInfoMeasurements),
            6 => TdispDeviceReportType::DeviceReport(TdispDeviceReport::DeviceInfoIsRegistered),
            _ => TdispDeviceReportType::TdiReport(TdispTdiReport::TdiInfoInvalid),
        }
    }
}

} // verus!
