//! What the firmware installs in the registry when it starts.

use crate::guid::{protocol_guid, ProtocolId};
use crate::handle_database::{install_outcome, null_handle, Handle, HandleDatabase, Records};
use crate::status::Status;
use vstd::prelude::*;

verus! {

/// The handles of the console, as the system table holds them.
#[derive(Clone, Copy, Debug, PartialEq, Eq, Structural)]
pub struct ConsoleHandles {
    pub console_in_handle: Handle,
    pub console_out_handle: Handle,
    pub standard_error_handle: Handle,
}

/// The interfaces of the console.
#[derive(Clone, Copy, Debug, PartialEq, Eq, Structural)]
pub struct ConsoleInterfaces {
    pub con_in: usize,
    pub con_in_ex: usize,
    pub con_out: usize,
    pub std_err: usize,
}

/// One installation for a caller that holds `handle`: the handle that the
/// caller holds afterwards, which changes only if the installation
/// succeeded, and the registry afterwards.
pub open spec fn installed(db: Seq<Records>, handle: Handle, id: ProtocolId, interface: usize) -> (
    Handle,
    Seq<Records>,
) {
    let out = install_outcome(db, handle, protocol_guid(id), interface);
    (
        if out.0 == Status::Success {
            out.1
        } else {
            handle
        },
        out.2,
    )
}

/// The handles and the registry after the console was installed: text
/// input and extended text input on the handle for input, text output on
/// the handle for output and on the handle for errors.
pub open spec fn console_outcome(
    db: Seq<Records>,
    handles: ConsoleHandles,
    interfaces: ConsoleInterfaces,
) -> (ConsoleHandles, Seq<Records>) {
    let input = installed(
        db,
        handles.console_in_handle,
        ProtocolId::SimpleTextInput,
        interfaces.con_in,
    );
    let input_ex = installed(input.1, input.0, ProtocolId::SimpleTextInputEx, interfaces.con_in_ex);
    let output = installed(
        input_ex.1,
        handles.console_out_handle,
        ProtocolId::SimpleTextOutput,
        interfaces.con_out,
    );
    let error = installed(
        output.1,
        handles.standard_error_handle,
        ProtocolId::SimpleTextOutput,
        interfaces.std_err,
    );
    (
        ConsoleHandles {
            console_in_handle: input_ex.0,
            console_out_handle: output.0,
            standard_error_handle: error.0,
        },
        error.1,
    )
}

/// Installs one protocol for a caller that holds `handle`.
fn install(db: &mut HandleDatabase, handle: Handle, id: ProtocolId, interface: usize) -> (r: Handle)
    requires
        old(db).wf(),
    ensures
        (r, final(db)@) == installed(old(db)@, handle, id, interface),
        final(db).wf(),
{
    let (status, new_handle) = db.install_protocol(handle, &id.guid(), interface);
    if status == Status::Success {
        new_handle
    } else {
        handle
    }
}

/// Installs the protocols of the console on the handles of the system
/// table, and returns the handles as the table holds them afterwards.
pub fn initialize_console(
    db: &mut HandleDatabase,
    handles: ConsoleHandles,
    interfaces: ConsoleInterfaces,
) -> (r: ConsoleHandles)
    requires
        old(db).wf(),
    ensures
        (r, final(db)@) == console_outcome(old(db)@, handles, interfaces),
        final(db).wf(),
{
    let console_in_handle = install(
        db,
        handles.console_in_handle,
        ProtocolId::SimpleTextInput,
        interfaces.con_in,
    );
    let console_in_handle = install(
        db,
        console_in_handle,
        ProtocolId::SimpleTextInputEx,
        interfaces.con_in_ex,
    );
    let console_out_handle = install(
        db,
        handles.console_out_handle,
        ProtocolId::SimpleTextOutput,
        interfaces.con_out,
    );
    let standard_error_handle = install(
        db,
        handles.standard_error_handle,
        ProtocolId::SimpleTextOutput,
        interfaces.std_err,
    );
    ConsoleHandles { console_in_handle, console_out_handle, standard_error_handle }
}

/// Installs the file system protocol `interface` of a volume on a handle
/// of its own.
pub fn initialize_fs(db: &mut HandleDatabase, interface: usize) -> (r: (Status, Handle))
    requires
        old(db).wf(),
    ensures
        (r.0, r.1, final(db)@) == install_outcome(
            old(db)@,
            null_handle(),
            protocol_guid(ProtocolId::SimpleFileSystem),
            interface,
        ),
        final(db).wf(),
{
    db.install_protocol(Handle::null(), &ProtocolId::SimpleFileSystem.guid(), interface)
}

} // verus!
