use efi_core::boot_services::{
    allocate_pool, char16_to_char8, ends_narrow_string, get_char16_size, get_memory_map, get_variable, handle_protocol,
    install_multiple_protocol_interfaces_real, install_protocol_interface, locate_handle,
    locate_handle_buffer, locate_protocol, open_protocol, print_char16, print_guid, set_variable,
    set_virtual_address_map, stdin_read_key_stroke, stdout_query_mode, variable_name, InputKey,
    VariableLimits, MEMORY_DESCRIPTOR_SIZE,
};
use efi_core::calloc::{
    free, malloc, malloc_result, page_count, whole_pages, EfiConstant, PageRequest, PAGE_SIZE,
};
use efi_core::guid::{Guid, ProtocolId};
use efi_core::handle_database::{Handle, HandleDatabase};
use efi_core::init::{initialize_console, initialize_fs, ConsoleHandles, ConsoleInterfaces};
use efi_core::service_table::{create_event_ex, raise_tpl, service_status, Service};
use efi_core::status::Status;

fn guid(n: u32) -> Guid {
    Guid::from_fields(n, 0x1234, 0x5678, 0x9a, 0xbc, &[1, 2, 3, 4, 5, 6])
}

fn wide(text: &str) -> Vec<u16> {
    text.encode_utf16().collect()
}

#[test]
fn constants_have_the_values_of_the_interface_definitions() {
    assert_eq!(EfiConstant::AllocateAnyPages.value(), 0);
    assert_eq!(EfiConstant::LoaderData.value(), 2);
    assert_eq!(EfiConstant::BootServicesCode.value(), 3);
    assert_eq!(EfiConstant::BootServicesData.value(), 4);
    assert_eq!(EfiConstant::MemoryDescriptorVersion.value(), 1);
    assert_eq!(EfiConstant::OpenProtocolGetProtocol.value(), 2);
    assert_eq!(EfiConstant::ByProtocol.value(), 2);
    assert_eq!(EfiConstant::LoaderData.value(), r_efi::efi::LOADER_DATA);
    assert_eq!(EfiConstant::BootServicesData.value(), r_efi::efi::BOOT_SERVICES_DATA);
    assert_eq!(MEMORY_DESCRIPTOR_SIZE, core::mem::size_of::<r_efi::efi::MemoryDescriptor>());
}

#[test]
fn sizes_are_rounded_up_to_pages() {
    assert_eq!(PAGE_SIZE, 4096);
    assert_eq!(page_count(0), 0);
    assert_eq!(page_count(1), 1);
    assert_eq!(page_count(4095), 1);
    assert_eq!(page_count(4096), 1);
    assert_eq!(page_count(4097), 2);
    assert_eq!(page_count(3 * 4096), 3);
    assert_eq!(page_count(usize::MAX), (usize::MAX / 4096) as u64 + 1);
    assert_eq!(whole_pages(0), 0);
    assert_eq!(whole_pages(4095), 0);
    assert_eq!(whole_pages(4096), 1);
    assert_eq!(whole_pages(0x8000_0fff), 0x80000);
}

#[test]
fn memory_requests() {
    assert_eq!(malloc(600), PageRequest { allocate_type: 0, memory_type: 2, pages: 1, address: 0 });
    assert_eq!(malloc(10000), PageRequest { allocate_type: 0, memory_type: 2, pages: 3, address: 0 });
    assert_eq!(
        allocate_pool(4, 48, 0x1234),
        PageRequest { allocate_type: 0, memory_type: 4, pages: 1, address: 0x1234 }
    );
    assert_eq!(
        allocate_pool(3, 0x5000, 0),
        PageRequest { allocate_type: 0, memory_type: 3, pages: 5, address: 0 }
    );
    assert_eq!(malloc_result(Status::Success, 0x9000), Ok(0x9000));
    assert_eq!(malloc_result(Status::NotFound, 0x9000), Err(Status::OutOfResources));
    assert_eq!(malloc_result(Status::OutOfResources, 0), Err(Status::OutOfResources));
    assert_eq!(free(0x9000), 0x9000);
}

#[test]
fn memory_map_negotiates_the_buffer() {
    assert_eq!(get_memory_map(0, 3), (Status::BufferTooSmall, 120));
    assert_eq!(get_memory_map(119, 3), (Status::BufferTooSmall, 120));
    assert_eq!(get_memory_map(120, 3), (Status::Success, 120));
    assert_eq!(get_memory_map(4096, 3), (Status::Success, 120));
    assert_eq!(get_memory_map(0, 0), (Status::Success, 0));
}

#[test]
fn virtual_address_map_is_checked_for_its_version() {
    assert_eq!(set_virtual_address_map(400, 40, 1), Ok(10));
    assert_eq!(set_virtual_address_map(399, 40, 1), Ok(9));
    assert_eq!(set_virtual_address_map(400, 48, 1), Ok(8));
    assert_eq!(set_virtual_address_map(400, 40, 2), Err(Status::InvalidParameter));
    assert_eq!(set_virtual_address_map(400, 40, 0), Err(Status::InvalidParameter));
}

#[test]
fn install_keeps_the_callers_handle_on_failure() {
    let mut db = HandleDatabase::new();
    let (status, handle) = install_protocol_interface(&mut db, Handle::null(), &guid(1), 11);
    assert_eq!(status, Status::Success);
    assert!(!handle.is_null());
    assert_eq!(install_protocol_interface(&mut db, handle, &guid(1), 12), (Status::InvalidParameter, handle));
    assert_eq!(install_protocol_interface(&mut db, handle, &guid(2), 22), (Status::Success, handle));
    let forged = Handle { signature: 0, slot: 1 };
    assert_eq!(install_protocol_interface(&mut db, forged, &guid(3), 33), (Status::InvalidParameter, forged));
    assert_eq!(db.handle_protocol(handle, &guid(1)), (Status::Success, 11));
}

#[test]
fn lookups_refuse_a_null_identifier() {
    let mut db = HandleDatabase::new();
    let (_, handle) = db.install_protocol(Handle::null(), &guid(1), 11);
    assert_eq!(handle_protocol(&db, handle, None), (Status::InvalidParameter, 0));
    assert_eq!(handle_protocol(&db, handle, Some(&guid(1))), (Status::Success, 11));
    assert_eq!(handle_protocol(&db, handle, Some(&guid(2))), (Status::NotFound, 0));
    assert_eq!(locate_protocol(&db, None), (Status::InvalidParameter, 0));
    assert_eq!(locate_protocol(&db, Some(&guid(1))), (Status::Success, 11));
    assert_eq!(locate_protocol(&db, Some(&guid(2))), (Status::NotFound, 0));
}

#[test]
fn open_protocol_only_looks_up() {
    let mut db = HandleDatabase::new();
    let (_, handle) = db.install_protocol(Handle::null(), &guid(1), 11);
    assert_eq!(open_protocol(&db, handle, None, 2), (Status::InvalidParameter, 0));
    assert_eq!(open_protocol(&db, handle, Some(&guid(1)), 2), (Status::Success, 11));
    assert_eq!(open_protocol(&db, handle, Some(&guid(1)), 1), (Status::Unsupported, 0));
    assert_eq!(open_protocol(&db, handle, Some(&guid(1)), 0x10), (Status::Unsupported, 0));
    assert_eq!(open_protocol(&db, handle, Some(&guid(2)), 2), (Status::NotFound, 0));
    assert_eq!(open_protocol(&db, Handle::null(), Some(&guid(1)), 2), (Status::InvalidParameter, 0));
}

#[test]
fn search_for_handles_checks_its_arguments() {
    let mut db = HandleDatabase::new();
    let (_, a) = db.install_protocol(Handle::null(), &guid(1), 11);
    let (_, b) = db.install_protocol(Handle::null(), &guid(1), 12);
    let g = guid(1);

    assert_eq!(locate_handle(&db, 2, None, 0, 64), (Status::InvalidParameter, 64, vec![]));
    assert_eq!(locate_handle(&db, 0, Some(&g), 0, 64), (Status::Unsupported, 64, vec![]));
    assert_eq!(locate_handle(&db, 1, Some(&g), 0, 64), (Status::Unsupported, 64, vec![]));
    assert_eq!(locate_handle(&db, 2, Some(&g), 0x500, 64), (Status::Unsupported, 64, vec![]));
    assert_eq!(locate_handle(&db, 2, Some(&guid(9)), 0, 64), (Status::NotFound, 64, vec![]));
    assert_eq!(locate_handle(&db, 2, Some(&g), 0, 8), (Status::BufferTooSmall, 16, vec![]));
    assert_eq!(locate_handle(&db, 2, Some(&g), 0, 64), (Status::Success, 16, vec![a, b]));

    assert_eq!(locate_handle_buffer(&db, 2, None, 0), (Status::InvalidParameter, 0, vec![]));
    assert_eq!(locate_handle_buffer(&db, 0, Some(&g), 0), (Status::Unsupported, 0, vec![]));
    assert_eq!(locate_handle_buffer(&db, 2, Some(&g), 7), (Status::Unsupported, 0, vec![]));
    assert_eq!(locate_handle_buffer(&db, 2, Some(&guid(9)), 0), (Status::NotFound, 0, vec![]));
    assert_eq!(locate_handle_buffer(&db, 2, Some(&g), 0), (Status::Success, 2, vec![a, b]));
}

#[test]
fn pairs_are_installed_up_to_the_last_identifier() {
    let mut db = HandleDatabase::new();
    let mut args = vec![(None, 0usize); 8];
    assert_eq!(
        install_multiple_protocol_interfaces_real(&mut db, Handle::null(), &args, false),
        (Status::InvalidParameter, Handle::null())
    );
    assert_eq!(
        install_multiple_protocol_interfaces_real(&mut db, Handle::null(), &[], false),
        (Status::InvalidParameter, Handle::null())
    );
    args[0] = (Some(guid(1)), 11);
    args[1] = (Some(guid(2)), 22);
    args[2] = (Some(guid(3)), 33);
    assert_eq!(
        install_multiple_protocol_interfaces_real(&mut db, Handle::null(), &args, true),
        (Status::Unsupported, Handle::null())
    );
    assert_eq!(db.locate_all(&guid(1)), Vec::<Handle>::new());

    let (status, handle) = install_multiple_protocol_interfaces_real(&mut db, Handle::null(), &args, false);
    assert_eq!(status, Status::Success);
    assert_eq!(db.handle_protocol(handle, &guid(1)), (Status::Success, 11));
    assert_eq!(db.handle_protocol(handle, &guid(2)), (Status::Success, 22));
    assert_eq!(db.handle_protocol(handle, &guid(3)), (Status::Success, 33));

    // A gap among the identifiers.
    let mut gap = vec![(None, 0usize); 8];
    gap[0] = (Some(guid(4)), 44);
    gap[2] = (Some(guid(5)), 55);
    assert_eq!(
        install_multiple_protocol_interfaces_real(&mut db, handle, &gap, false),
        (Status::InvalidParameter, handle)
    );
    assert_eq!(db.handle_protocol(handle, &guid(4)), (Status::NotFound, 0));

    // A failure keeps what was installed before it, and the caller's handle.
    let mut twice = vec![(None, 0usize); 8];
    twice[0] = (Some(guid(6)), 66);
    twice[1] = (Some(guid(1)), 99);
    assert_eq!(
        install_multiple_protocol_interfaces_real(&mut db, handle, &twice, false),
        (Status::InvalidParameter, handle)
    );
    assert_eq!(db.handle_protocol(handle, &guid(6)), (Status::Success, 66));
    assert_eq!(db.handle_protocol(handle, &guid(1)), (Status::Success, 11));

    let nine: Vec<(Option<Guid>, usize)> = (20..29).map(|n| (Some(guid(n)), n as usize)).collect();
    assert_eq!(
        install_multiple_protocol_interfaces_real(&mut db, handle, &nine, false),
        (Status::Unsupported, handle)
    );
    assert_eq!(db.handle_protocol(handle, &guid(20)), (Status::NotFound, 0));

    let full: Vec<(Option<Guid>, usize)> = (10..18).map(|n| (Some(guid(n)), n as usize)).collect();
    let (status, other) = install_multiple_protocol_interfaces_real(&mut db, Handle::null(), &full, false);
    assert_eq!(status, Status::Success);
    assert_ne!(other, handle);
    assert_eq!(db.handle_protocol(other, &guid(17)), (Status::Success, 17));
}

#[test]
fn key_strokes() {
    assert_eq!(stdin_read_key_stroke(0), (Status::NotReady, InputKey { scan_code: 0, unicode_char: 0 }));
    assert_eq!(stdin_read_key_stroke(0x0d), (Status::Success, InputKey { scan_code: 0, unicode_char: 0x0d }));
    assert_eq!(stdin_read_key_stroke(0xff), (Status::Success, InputKey { scan_code: 0, unicode_char: 0xff }));
}

#[test]
fn text_modes() {
    assert_eq!(stdout_query_mode(0, true, true), (Status::Success, 80, 25));
    assert_eq!(stdout_query_mode(1, true, true), (Status::Success, 80, 50));
    assert_eq!(stdout_query_mode(2, true, true), (Status::Unsupported, 0, 0));
    assert_eq!(stdout_query_mode(0, false, true), (Status::InvalidParameter, 0, 0));
    assert_eq!(stdout_query_mode(0, true, false), (Status::InvalidParameter, 0, 0));
    assert_eq!(stdout_query_mode(7, false, false), (Status::InvalidParameter, 0, 0));
}

#[test]
fn string_sizes_count_the_terminator() {
    let mut message = wide("Boot");
    message.push(0);
    message.extend_from_slice(&wide("xx"));
    assert_eq!(get_char16_size(&message, usize::MAX), 5);
    assert_eq!(get_char16_size(&message, 5), 5);
    assert_eq!(get_char16_size(&message, 4), 4);
    assert_eq!(get_char16_size(&message, 0), 0);
    assert_eq!(get_char16_size(&wide("abc"), 10), 3);
    assert_eq!(get_char16_size(&[], 10), 0);
    // These strings are read as bytes: a zero low byte ends them.
    assert_eq!(get_char16_size(&[0x0100, 0x41], 10), 1);
    assert!(ends_narrow_string(0));
    assert!(ends_narrow_string(0x0100));
    assert!(!ends_narrow_string(0x0001));
}

#[test]
fn strings_are_narrowed_to_their_low_bytes() {
    let mut message = wide("Lang");
    message.push(0);
    message.push(0x41);
    assert_eq!(char16_to_char8(&message, 6, 16), b"Lang\0".to_vec());
    assert_eq!(char16_to_char8(&message, 3, 16), b"Lan".to_vec());
    assert_eq!(char16_to_char8(&message, 6, 2), b"La".to_vec());
    assert_eq!(char16_to_char8(&message, 0, 2), Vec::<u8>::new());
    assert_eq!(char16_to_char8(&[0x1241, 0x20ac, 0x0300, 0x41], 4, 4), vec![0x41, 0xac, 0x00]);
    assert_eq!(print_char16(&message, usize::MAX), (5, b"Lang".to_vec()));
    assert_eq!(print_char16(&message, 3), (3, b"Lan".to_vec()));
    assert_eq!(print_char16(&wide("ab"), 10), (2, b"ab".to_vec()));
    assert_eq!(print_char16(&[0], 10), (1, vec![]));
    assert_eq!(print_char16(&[], 10), (0, vec![]));
}

#[test]
fn variables_are_checked_against_the_limits_of_the_store() {
    let limits = VariableLimits { max_name: 8, max_data: 16 };
    let mut name = wide("Lang");
    name.push(0);
    assert_eq!(variable_name(&name, limits), Ok(b"Lang\0".to_vec()));
    let mut long = wide("PlatformLang");
    long.push(0);
    assert_eq!(variable_name(&long, limits), Err(Status::Unsupported));
    let mut edge = wide("1234567");
    edge.push(0);
    assert_eq!(variable_name(&edge, limits), Ok(b"1234567\0".to_vec()));

    assert_eq!(set_variable(&name, 16, limits), Ok(b"Lang\0".to_vec()));
    assert_eq!(set_variable(&name, 17, limits), Err(Status::Unsupported));
    assert_eq!(set_variable(&long, 3, limits), Err(Status::Unsupported));

    assert_eq!(get_variable(Status::NotFound, 10, 3), (Status::NotFound, 10));
    assert_eq!(get_variable(Status::Success, 2, 3), (Status::BufferTooSmall, 3));
    assert_eq!(get_variable(Status::Success, 3, 3), (Status::Success, 3));
    assert_eq!(get_variable(Status::Success, 100, 3), (Status::Success, 3));
}

#[test]
fn identifiers_are_printed_in_groups() {
    let guid = Guid::from_fields(0xdecf2644, 0x0bc0, 0x4840, 0xb5, 0x99, &[0x13, 0x4b, 0xee, 0x0a, 0x9e, 0x71]);
    assert_eq!(print_guid(&guid), b"decf2644-0bc0-4840-b599-134bee0a9e71".to_vec());
    assert_eq!(
        print_guid(&ProtocolId::SimpleFileSystem.guid()),
        b"964e5b22-6459-11d2-8e39-00a0c969723b".to_vec()
    );
    let zero = Guid::from_fields(0, 0, 0, 0, 0, &[0; 6]);
    assert_eq!(print_guid(&zero), b"00000000-0000-0000-0000-000000000000".to_vec());
}

#[test]
fn console_is_installed_on_the_handles_of_the_system_table() {
    let mut db = HandleDatabase::new();
    let handles = ConsoleHandles {
        console_in_handle: Handle::null(),
        console_out_handle: Handle::null(),
        standard_error_handle: Handle::null(),
    };
    let interfaces = ConsoleInterfaces { con_in: 0x100, con_in_ex: 0x200, con_out: 0x300, std_err: 0x400 };
    let after = initialize_console(&mut db, handles, interfaces);
    assert!(!after.console_in_handle.is_null());
    assert_ne!(after.console_in_handle, after.console_out_handle);
    assert_ne!(after.console_out_handle, after.standard_error_handle);
    let input = ProtocolId::SimpleTextInput.guid();
    let input_ex = ProtocolId::SimpleTextInputEx.guid();
    let output = ProtocolId::SimpleTextOutput.guid();
    assert_eq!(db.handle_protocol(after.console_in_handle, &input), (Status::Success, 0x100));
    assert_eq!(db.handle_protocol(after.console_in_handle, &input_ex), (Status::Success, 0x200));
    assert_eq!(db.handle_protocol(after.console_out_handle, &output), (Status::Success, 0x300));
    assert_eq!(db.handle_protocol(after.standard_error_handle, &output), (Status::Success, 0x400));
    assert_eq!(db.locate_all(&output), vec![after.console_out_handle, after.standard_error_handle]);
}

#[test]
fn console_handles_that_are_no_handles_get_nothing() {
    let mut db = HandleDatabase::new();
    let handles = ConsoleHandles {
        console_in_handle: Handle::null(),
        console_out_handle: Handle { signature: 0, slot: 1 },
        standard_error_handle: Handle { signature: 0, slot: 2 },
    };
    let interfaces = ConsoleInterfaces { con_in: 0x100, con_in_ex: 0x200, con_out: 0x300, std_err: 0x400 };
    let after = initialize_console(&mut db, handles, interfaces);
    assert!(!after.console_in_handle.is_null());
    assert_eq!(after.console_out_handle, handles.console_out_handle);
    assert_eq!(after.standard_error_handle, handles.standard_error_handle);
    assert_eq!(db.locate_all(&ProtocolId::SimpleTextOutput.guid()), Vec::<Handle>::new());
    assert_eq!(db.locate_all(&ProtocolId::SimpleTextInputEx.guid()), vec![after.console_in_handle]);
}

#[test]
fn file_system_gets_a_handle_of_its_own() {
    let mut db = HandleDatabase::new();
    let (status, handle) = initialize_fs(&mut db, 0x5000);
    assert_eq!(status, Status::Success);
    assert_eq!(db.locate_protocol(&ProtocolId::SimpleFileSystem.guid()), (Status::Success, 0x5000));
    assert_eq!(db.locate_all(&ProtocolId::SimpleFileSystem.guid()), vec![handle]);
}

#[test]
fn entries_without_work_have_their_status() {
    let succeed = [
        Service::StdinReset,
        Service::StdoutReset,
        Service::StdoutTestString,
        Service::StdoutEnableCursor,
        Service::ExitBootServices,
        Service::Stall,
        Service::SetWatchdogTimer,
        Service::CloseProtocol,
        Service::CalculateCrc32,
    ];
    for service in succeed {
        assert_eq!(service_status(service), Status::Success);
    }
    let unsupported = [
        Service::GetTime,
        Service::SetTime,
        Service::GetWakeupTime,
        Service::SetWakeupTime,
        Service::ConvertPointer,
        Service::GetNextVariableName,
        Service::GetNextHighMonoCount,
        Service::UpdateCapsule,
        Service::QueryCapsuleCapabilities,
        Service::QueryVariableInfo,
        Service::SetTimer,
        Service::WaitForEvent,
        Service::SignalEvent,
        Service::CloseEvent,
        Service::CheckEvent,
        Service::ReinstallProtocolInterface,
        Service::UninstallProtocolInterface,
        Service::RegisterProtocolNotify,
        Service::LocateDevicePath,
        Service::InstallConfigurationTable,
        Service::Exit,
        Service::UnloadImage,
        Service::GetNextMonotonicCount,
        Service::ConnectController,
        Service::DisconnectController,
        Service::OpenProtocolInformation,
        Service::ProtocolsPerHandle,
        Service::InstallMultipleProtocolInterfaces,
        Service::UninstallMultipleProtocolInterfaces,
        Service::BlockReset,
        Service::WriteBlocks,
        Service::FlushBlocks,
    ];
    for service in unsupported {
        assert_eq!(service_status(service), Status::Unsupported);
    }
    assert_eq!(raise_tpl(31), 0);
    assert_eq!(create_event_ex(true), Status::Success);
    assert_eq!(create_event_ex(false), Status::InvalidParameter);
}
