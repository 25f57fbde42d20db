//! Guest/host command protocol for trusted device assignment (TDISP).
//!
//! A guest partition that runs inside a confidential virtual machine asks the
//! host to bind, attest, start and unbind a device that is assigned to it. The
//! host validates every request against one authoritative state machine, so
//! that a device is never usable by the guest before it has been locked.
//!
//! The crate holds the command and response data model, its binary codec, the
//! host state machine, the host command router and the guest dispatcher. All
//! of it is verified with Verus: contracts are stated over the views of the
//! types, and the laws that relate several operations are public proof
//! functions.
pub mod client;
pub mod command;
pub mod emulator;
pub mod host;
pub mod machine;
pub mod report;
pub mod serialize;
pub mod state;
mod wire;

pub use client::TdispClientDevice;
pub use command::GuestToHostCommand;
pub use command::GuestToHostResponse;
pub use command::TdispCommandId;
pub use command::TdispCommandRequestPayload;
pub use command::TdispCommandResponseGetTdiReport;
pub use command::TdispCommandResponsePayload;
pub use command::TdispDeviceInterfaceInfo;
pub use command::TDISP_INTERFACE_VERSION_MAJOR;
pub use command::TDISP_INTERFACE_VERSION_MINOR;
pub use emulator::TdispHostDeviceTarget;
pub use emulator::TdispHostDeviceTargetEmulator;
pub use host::TdispHostDeviceInterface;
pub use machine::TdispGuestRequestInterface;
pub use machine::TdispHostStateMachine;
pub use report::TdispDeviceReport;
pub use report::TdispDeviceReportType;
pub use report::TdispTdiReport;
pub use report::TDISP_TDI_REPORT_ENUM_COUNT;
pub use state::TdispGuestOperationError;
pub use state::TdispGuestUnbindReason;
pub use state::TdispTdiState;
pub use state::TdispUnbindReason;
