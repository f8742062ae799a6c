//! Requests to the page allocator. All memory is handed out in whole
//! pages; the allocator itself is not part of the library.

use crate::status::Status;
use vstd::prelude::*;

verus! {

/// The size in bytes of a page.
pub const PAGE_SIZE: u64 = 4096;

/// The numbers that the service interface defines and the firmware uses.
#[derive(Clone, Copy, Debug, PartialEq, Eq, Structural)]
pub enum EfiConstant {
    /// The kind of allocation that may lie at any address.
    AllocateAnyPages,
    /// The kind of memory that holds the data of a loader.
    LoaderData,
    /// The kind of memory that holds the code of a boot service.
    BootServicesCode,
    /// The kind of memory that holds the data of a boot service.
    BootServicesData,
    /// The version of the layout of a memory descriptor.
    MemoryDescriptorVersion,
    /// The way of opening a protocol that only looks it up.
    OpenProtocolGetProtocol,
    /// The kind of search that goes by a protocol's identifier.
    ByProtocol,
}

/// The value of each number.
pub open spec fn constant_value(constant: EfiConstant) -> u32 {
    match constant {
        EfiConstant::AllocateAnyPages => 0,
        EfiConstant::LoaderData => 2,
        EfiConstant::BootServicesCode => 3,
        EfiConstant::BootServicesData => 4,
        EfiConstant::MemoryDescriptorVersion => 1,
        EfiConstant::OpenProtocolGetProtocol => 2,
        EfiConstant::ByProtocol => 2,
    }
}

/// The constants of `r_efi::efi` that `constant` names, in the order of
/// the variants: `ALLOCATE_ANY_PAGES`, `LOADER_DATA`, `BOOT_SERVICES_CODE`,
/// `BOOT_SERVICES_DATA`, `MEMORY_DESCRIPTOR_VERSION`,
/// `OPEN_PROTOCOL_GET_PROTOCOL` and `BY_PROTOCOL`.
#[verifier::external_body]
fn efi_constant(constant: EfiConstant) -> (value: u32)
    ensures
        value == constant_value(constant),
{
    match constant {
        EfiConstant::AllocateAnyPages => r_efi::efi::ALLOCATE_ANY_PAGES,
        EfiConstant::LoaderData => r_efi::efi::LOADER_DATA,
        EfiConstant::BootServicesCode => r_efi::efi::BOOT_SERVICES_CODE,
        EfiConstant::BootServicesData => r_efi::efi::BOOT_SERVICES_DATA,
        EfiConstant::MemoryDescriptorVersion => r_efi::efi::MEMORY_DESCRIPTOR_VERSION,
        EfiConstant::OpenProtocolGetProtocol => r_efi::efi::OPEN_PROTOCOL_GET_PROTOCOL,
        EfiConstant::ByProtocol => r_efi::efi::BY_PROTOCOL,
    }
}

impl EfiConstant {
    /// The value of the number.
    pub fn value(self) -> (value: u32)
        ensures
            value == constant_value(self),
    {
        efi_constant(self)
    }
}

/// A request for pages.
#[derive(Clone, Copy, Debug, PartialEq, Eq, Structural)]
pub struct PageRequest {
    /// Where the pages may lie.
    pub allocate_type: u32,
    /// What the pages are for.
    pub memory_type: u32,
    /// How many pages.
    pub pages: u64,
    /// The address that the kind of allocation refers to, if it does.
    pub address: u64,
}

/// The number of pages that hold `size` bytes.
pub open spec fn pages_for(size: int) -> int {
    (size + PAGE_SIZE - 1) / (PAGE_SIZE as int)
}

/// The number of pages that hold `size` bytes.
pub fn page_count(size: usize) -> (pages: u64)
    ensures
        pages == pages_for(size as int),
{
    let whole = (size / 4096) as u64;
    if size % 4096 == 0 {
        whole
    } else {
        whole + 1
    }
}

/// The number of whole pages in `length` bytes.
pub fn whole_pages(length: u64) -> (pages: u64)
    ensures
        pages == length / PAGE_SIZE,
{
    length / PAGE_SIZE
}

/// The request for the memory of an object of `size` bytes: pages for a
/// loader's data, at any address.
pub fn malloc(size: usize) -> (request: PageRequest)
    ensures
        request == (PageRequest {
            allocate_type: constant_value(EfiConstant::AllocateAnyPages),
            memory_type: constant_value(EfiConstant::LoaderData),
            pages: pages_for(size as int) as u64,
            address: 0,
        }),
{
    PageRequest {
        allocate_type: EfiConstant::AllocateAnyPages.value(),
        memory_type: EfiConstant::LoaderData.value(),
        pages: page_count(size),
        address: 0,
    }
}

/// What `malloc` returns when the allocator answered its request with
/// `status` and `address`: the address, or `OutOfResources` whatever the
/// failure was.
pub fn malloc_result(status: Status, address: u64) -> (r: Result<u64, Status>)
    ensures
        r == if status == Status::Success {
            Ok::<u64, Status>(address)
        } else {
            Err::<u64, Status>(Status::OutOfResources)
        },
{
    if status != Status::Success {
        Err(Status::OutOfResources)
    } else {
        Ok(address)
    }
}

/// The request that frees the object at `ptr`: the address of its pages.
pub fn free(ptr: u64) -> (address: u64)
    ensures
        address == ptr,
{
    ptr
}

} // verus!
