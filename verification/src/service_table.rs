//! The entries of the service tables and of the console and block
//! protocols that do no work: each either reports that it is not
//! supported, or succeeds at once.

use crate::status::Status;
use vstd::prelude::*;

verus! {

/// The entries that do no work.
#[derive(Clone, Copy, Debug, PartialEq, Eq, Structural)]
pub enum Service {
    // Text input and output.
    StdinReset,
    StdoutReset,
    StdoutTestString,
    StdoutEnableCursor,
    // Runtime services.
    GetTime,
    SetTime,
    GetWakeupTime,
    SetWakeupTime,
    ConvertPointer,
    GetNextVariableName,
    GetNextHighMonoCount,
    UpdateCapsule,
    QueryCapsuleCapabilities,
    QueryVariableInfo,
    // Boot services.
    SetTimer,
    WaitForEvent,
    SignalEvent,
    CloseEvent,
    CheckEvent,
    ReinstallProtocolInterface,
    UninstallProtocolInterface,
    RegisterProtocolNotify,
    LocateDevicePath,
    InstallConfigurationTable,
    Exit,
    UnloadImage,
    ExitBootServices,
    GetNextMonotonicCount,
    Stall,
    SetWatchdogTimer,
    ConnectController,
    DisconnectController,
    CloseProtocol,
    OpenProtocolInformation,
    ProtocolsPerHandle,
    InstallMultipleProtocolInterfaces,
    UninstallMultipleProtocolInterfaces,
    CalculateCrc32,
    // Block protocol.
    BlockReset,
    WriteBlocks,
    FlushBlocks,
}

/// Whether the entry succeeds at once; every other one is not supported.
pub open spec fn succeeds(service: Service) -> bool {
    ||| service is StdinReset
    ||| service is StdoutReset
    ||| service is StdoutTestString
    ||| service is StdoutEnableCursor
    ||| service is ExitBootServices
    ||| service is Stall
    ||| service is SetWatchdogTimer
    ||| service is CloseProtocol
    ||| service is CalculateCrc32
}

/// The status that the entry returns.
pub fn service_status(service: Service) -> (status: Status)
    ensures
        status == if succeeds(service) {
            Status::Success
        } else {
            Status::Unsupported
        },
{
    match service {
        Service::StdinReset
        | Service::StdoutReset
        | Service::StdoutTestString
        | Service::StdoutEnableCursor
        | Service::ExitBootServices
        | Service::Stall
        | Service::SetWatchdogTimer
        | Service::CloseProtocol
        | Service::CalculateCrc32 => Status::Success,
        _ => Status::Unsupported,
    }
}

/// The priority level that raising the level returns: levels are not
/// kept, so it is always the lowest.
pub fn raise_tpl(_new_tpl: usize) -> (old_tpl: usize)
    ensures
        old_tpl == 0,
{
    0
}

/// Creating an event of the extended kind makes no event: the caller
/// gets the null event and `Success`, or `InvalidParameter` if it gave no
/// place for the event (`has_event` is false).
pub fn create_event_ex(has_event: bool) -> (status: Status)
    ensures
        status == if has_event {
            Status::Success
        } else {
            Status::InvalidParameter
        },
{
    if !has_event {
        return Status::InvalidParameter;
    }
    Status::Success
}

} // verus!
