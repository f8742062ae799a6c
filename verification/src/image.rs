//! The image loader: the bookkeeping of images that were copied into
//! memory, and the decisions of loading and starting one.
//!
//! The memory allocator and the loader that inspects and relocates an
//! executable are not part of the library. `load_image` is a small state
//! machine: the state names the request to make of them, and
//! `load_image_step` takes the answer and gives the next state.

use crate::boot_services::allocate_pool;
use crate::calloc::{constant_value, pages_for, EfiConstant, PageRequest};
use crate::guid::Guid;
use crate::handle_database::{
    install_outcome, lookup_outcome, null_handle, Handle, HandleDatabase, Records,
};
use crate::status::Status;
use vstd::prelude::*;

verus! {

/// The tag that every record of a loaded image carries.
pub const IMAGE_INFO_SIGNATURE: u32 = 0x49444849;

/// The size in bytes of the memory asked for to hold a record.
pub const IMAGE_INFO_SIZE: usize = 48;

/// The identifier under which the record of a loaded image is installed
/// on the image's handle: decf2644-0bc0-4840-b599-134bee0a9e71.
pub open spec fn spec_image_info_guid() -> Guid {
    Guid {
        time_low: 0xdecf2644,
        time_mid: 0xbc0,
        time_hi_and_version: 0x4840,
        clk_seq_hi_res: 0xb5,
        clk_seq_low: 0x99,
        node: [0x13u8, 0x4bu8, 0xeeu8, 0x0au8, 0x9eu8, 0x71u8],
    }
}

/// The identifier under which the record of a loaded image is installed.
pub fn image_info_guid() -> (guid: Guid)
    ensures
        guid == spec_image_info_guid(),
{
    Guid::from_fields(0xdecf2644, 0xbc0, 0x4840, 0xb5, 0x99, &[0x13, 0x4b, 0xee, 0x0a, 0x9e, 0x71])
}

/// The record of one loaded image.
#[derive(Clone, Copy, Debug, PartialEq, Eq, Structural)]
pub struct ImageInfo {
    pub signature: u32,
    /// The address of the memory that was allocated for the record; it is
    /// the interface installed on the image's handle.
    pub address: usize,
    pub source_buffer: usize,
    pub source_size: usize,
    pub image_address: usize,
    pub image_size: usize,
    pub entry_point: usize,
}

/// What `load_image` asks for next.
#[derive(Clone, Copy, Debug, PartialEq, Eq, Structural)]
pub enum LoadAction {
    /// Memory for the record.
    AllocateRecord { request: PageRequest },
    /// The size that the image in the source buffer takes once loaded.
    GetImageInfo { source_buffer: usize, source_size: usize },
    /// Memory for the image.
    AllocateImage { request: PageRequest },
    /// The copy of the image from the source buffer into the memory
    /// allocated for it, and its entry point there.
    LoadImage { image_address: usize, image_size: usize, source_buffer: usize, source_size: usize },
    /// Nothing: the call is over.
    Done,
}

/// The answer to a request of `load_image`.
#[derive(Clone, Copy, Debug, PartialEq, Eq, Structural)]
pub enum LoadAnswer {
    /// The status of an allocation, and the address of the memory if it
    /// succeeded.
    Allocated { status: Status, address: usize },
    /// The size of the loaded image; zero for what is no executable.
    ImageSize { size: usize },
    /// The entry point of the loaded image; zero where loading failed.
    EntryPoint { address: usize },
}

/// The state of one call of `load_image`.
#[derive(Clone, Copy, Debug, PartialEq, Eq, Structural)]
pub struct LoadState {
    pub action: LoadAction,
    /// The record as far as it is filled in.
    pub info: ImageInfo,
    /// The status of the call, once it is over.
    pub status: Status,
    /// The handle of the image, once the call is over with `Success`.
    pub handle: Handle,
}

/// The images that were loaded.
pub struct Image {
    images: Vec<ImageInfo>,
}

impl View for Image {
    type V = Seq<ImageInfo>;

    /// The records of the loaded images, in the order of their loading.
    closed spec fn view(&self) -> Seq<ImageInfo> {
        self.images@
    }
}

/// The request for `size` bytes of memory for the data of a boot service.
pub open spec fn pool_request(size: usize) -> PageRequest {
    PageRequest {
        allocate_type: constant_value(EfiConstant::AllocateAnyPages),
        memory_type: constant_value(EfiConstant::BootServicesData),
        pages: pages_for(size as int) as u64,
        address: 0,
    }
}

/// A `load_image` that is over.
pub open spec fn load_done(info: ImageInfo, status: Status, handle: Handle) -> LoadState {
    LoadState { action: LoadAction::Done, info, status, handle }
}

/// A `load_image` that asks for `action`.
pub open spec fn load_pending(action: LoadAction, info: ImageInfo) -> LoadState {
    LoadState { action, info, status: Status::Success, handle: null_handle() }
}

/// The first state of the loading of the image in the source buffer.
pub open spec fn load_start(source_buffer: usize, source_size: usize) -> LoadState {
    load_pending(
        LoadAction::AllocateRecord { request: pool_request(IMAGE_INFO_SIZE) },
        ImageInfo {
            signature: IMAGE_INFO_SIGNATURE,
            address: 0,
            source_buffer,
            source_size,
            image_address: 0,
            image_size: 0,
            entry_point: 0,
        },
    )
}

/// The state that follows `state` on `answer`, with the records and the
/// registry afterwards.
///
/// A failed allocation of the record ends the call with the allocator's
/// status, a failed allocation of the image with `OutOfResources`. An
/// image of size zero and an entry point of zero end it with
/// `SecurityViolation`. With the entry point known the record is
/// installed on a new handle under the loader's identifier, and kept if
/// that succeeds; the call ends with the status and the handle of the
/// installation. An answer to another request than the one of `state`
/// changes nothing.
pub open spec fn load_next(
    images: Seq<ImageInfo>,
    db: Seq<Records>,
    state: LoadState,
    answer: LoadAnswer,
) -> (LoadState, Seq<ImageInfo>, Seq<Records>) {
    let info = state.info;
    match (state.action, answer) {
        (LoadAction::AllocateRecord { .. }, LoadAnswer::Allocated { status, address }) => {
            if status != Status::Success {
                (load_done(info, status, null_handle()), images, db)
            } else {
                (
                    load_pending(
                        LoadAction::GetImageInfo {
                            source_buffer: info.source_buffer,
                            source_size: info.source_size,
                        },
                        ImageInfo { address, ..info },
                    ),
                    images,
                    db,
                )
            }
        },
        (LoadAction::GetImageInfo { .. }, LoadAnswer::ImageSize { size }) => {
            if size == 0 {
                (
                    load_done(
                        ImageInfo { image_size: size, ..info },
                        Status::SecurityViolation,
                        null_handle(),
                    ),
                    images,
                    db,
                )
            } else {
                (
                    load_pending(
                        LoadAction::AllocateImage { request: pool_request(size) },
                        ImageInfo { image_size: size, ..info },
                    ),
                    images,
                    db,
                )
            }
        },
        (LoadAction::AllocateImage { .. }, LoadAnswer::Allocated { status, address }) => {
            if status != Status::Success {
                (load_done(info, Status::OutOfResources, null_handle()), images, db)
            } else {
                (
                    load_pending(
                        LoadAction::LoadImage {
                            image_address: address,
                            image_size: info.image_size,
                            source_buffer: info.source_buffer,
                            source_size: info.source_size,
                        },
                        ImageInfo { image_address: address, ..info },
                    ),
                    images,
                    db,
                )
            }
        },
        (LoadAction::LoadImage { .. }, LoadAnswer::EntryPoint { address }) => {
            let loaded = ImageInfo { entry_point: address, ..info };
            if address == 0 {
                (load_done(loaded, Status::SecurityViolation, null_handle()), images, db)
            } else {
                let installed = install_outcome(
                    db,
                    null_handle(),
                    spec_image_info_guid(),
                    info.address,
                );
                (
                    load_done(loaded, installed.0, installed.1),
                    if installed.0 == Status::Success {
                        images.push(loaded)
                    } else {
                        images
                    },
                    installed.2,
                )
            }
        },
        _ => (state, images, db),
    }
}

/// The first record of `images`, from index `from` on, that lies at
/// `address`.
pub open spec fn record_from(images: Seq<ImageInfo>, address: usize, from: int) -> Option<ImageInfo>
    decreases images.len() - from,
{
    if from < 0 || from >= images.len() {
        None
    } else if images[from].address == address {
        Some(images[from])
    } else {
        record_from(images, address, from + 1)
    }
}

/// What starting the image of `image_handle` returns: the entry point to
/// call, or `InvalidParameter` where the handle does not carry the
/// loader's identifier or carries under it no record with the loader's
/// tag.
pub open spec fn start_outcome(images: Seq<ImageInfo>, db: Seq<Records>, image_handle: Handle) -> Result<
    usize,
    Status,
> {
    let found = lookup_outcome(db, image_handle, spec_image_info_guid());
    if found.0 != Status::Success {
        Err(Status::InvalidParameter)
    } else {
        match record_from(images, found.1, 0) {
            None => Err(Status::InvalidParameter),
            Some(info) => if info.signature != IMAGE_INFO_SIGNATURE {
                Err(Status::InvalidParameter)
            } else {
                Ok(info.entry_point)
            },
        }
    }
}

impl Image {
    /// No image loaded.
    pub fn new() -> (image: Image)
        ensures
            image@ == Seq::<ImageInfo>::empty(),
    {
        Image { images: Vec::new() }
    }

    /// Begins the loading of the image of `source_size` bytes at
    /// `source_buffer`. The state returned names what to ask for.
    pub fn load_image(&self, source_buffer: usize, source_size: usize) -> (state: LoadState)
        ensures
            state == load_start(source_buffer, source_size),
    {
        LoadState {
            action: LoadAction::AllocateRecord {
                request: allocate_pool(EfiConstant::BootServicesData.value(), IMAGE_INFO_SIZE, 0),
            },
            info: ImageInfo {
                signature: IMAGE_INFO_SIGNATURE,
                address: 0,
                source_buffer,
                source_size,
                image_address: 0,
                image_size: 0,
                entry_point: 0,
            },
            status: Status::Success,
            handle: Handle::null(),
        }
    }

    /// Takes the answer to the request of `state` and gives the state
    /// that follows.
    pub fn load_image_step(
        &mut self,
        db: &mut HandleDatabase,
        state: LoadState,
        answer: LoadAnswer,
    ) -> (next: LoadState)
        requires
            old(db).wf(),
        ensures
            (next, final(self)@, final(db)@) == load_next(old(self)@, old(db)@, state, answer),
            final(db).wf(),
    {
        let mut info = state.info;
        match (state.action, answer) {
            (LoadAction::AllocateRecord { .. }, LoadAnswer::Allocated { status, address }) => {
                if status != Status::Success {
                    return LoadState {
                        action: LoadAction::Done,
                        info,
                        status,
                        handle: Handle::null(),
                    };
                }
                info.address = address;
                LoadState {
                    action: LoadAction::GetImageInfo {
                        source_buffer: info.source_buffer,
                        source_size: info.source_size,
                    },
                    info,
                    status: Status::Success,
                    handle: Handle::null(),
                }
            },
            (LoadAction::GetImageInfo { .. }, LoadAnswer::ImageSize { size }) => {
                info.image_size = size;
                if info.image_size == 0 {
                    return LoadState {
                        action: LoadAction::Done,
                        info,
                        status: Status::SecurityViolation,
                        handle: Handle::null(),
                    };
                }
                LoadState {
                    action: LoadAction::AllocateImage {
                        request: allocate_pool(EfiConstant::BootServicesData.value(), size, 0),
                    },
                    info,
                    status: Status::Success,
                    handle: Handle::null(),
                }
            },
            (LoadAction::AllocateImage { .. }, LoadAnswer::Allocated { status, address }) => {
                if status != Status::Success {
                    return LoadState {
                        action: LoadAction::Done,
                        info,
                        status: Status::OutOfResources,
                        handle: Handle::null(),
                    };
                }
                info.image_address = address;
                LoadState {
                    action: LoadAction::LoadImage {
                        image_address: address,
                        image_size: info.image_size,
                        source_buffer: info.source_buffer,
                        source_size: info.source_size,
                    },
                    info,
                    status: Status::Success,
                    handle: Handle::null(),
                }
            },
            (LoadAction::LoadImage { .. }, LoadAnswer::EntryPoint { address }) => {
                info.entry_point = address;
                if info.entry_point == 0 {
                    return LoadState {
                        action: LoadAction::Done,
                        info,
                        status: Status::SecurityViolation,
                        handle: Handle::null(),
                    };
                }
                let (status, image_handle) = db.install_protocol(
                    Handle::null(),
                    &image_info_guid(),
                    info.address,
                );
                if status == Status::Success {
                    self.images.push(info);
                }
                LoadState { action: LoadAction::Done, info, status, handle: image_handle }
            },
            _ => state,
        }
    }

    /// The entry point of the image of `image_handle`, for the caller to
    /// transfer control to.
    pub fn start_image(&self, db: &HandleDatabase, image_handle: Handle) -> (r: Result<usize, Status>)
        requires
            db.wf(),
        ensures
            r == start_outcome(self@, db@, image_handle),
    {
        let (status, handle_address) = db.handle_protocol(image_handle, &image_info_guid());
        if status != Status::Success {
            return Err(Status::InvalidParameter);
        }
        let mut index: usize = 0;
        while index < self.images.len()
            invariant
                index <= self.images@.len(),
                lookup_outcome(db@, image_handle, spec_image_info_guid()) == (
                    Status::Success,
                    handle_address,
                ),
                record_from(self@, handle_address, 0) == record_from(
                    self@,
                    handle_address,
                    index as int,
                ),
            decreases self.images.len() - index,
        {
            if self.images[index].address == handle_address {
                let info = self.images[index];
                if info.signature != IMAGE_INFO_SIGNATURE {
                    return Err(Status::InvalidParameter);
                }
                return Ok(info.entry_point);
            }
            index += 1;
        }
        Err(Status::InvalidParameter)
    }
}

/// Once the last step of a load has ended with `Success`, starting the
/// image of the handle returned gives the entry point that the loader
/// reported, as long as no image loaded before has its record at the same
/// address.
pub proof fn lemma_start_after_load(
    images: Seq<ImageInfo>,
    db: Seq<Records>,
    state: LoadState,
    entry_point: usize,
)
    requires
        crate::handle_database::well_formed(db),
        state.action is LoadImage,
        state.info.signature == IMAGE_INFO_SIGNATURE,
        record_from(images, state.info.address, 0) is None,
        load_next(images, db, state, LoadAnswer::EntryPoint { address: entry_point }).0.status
            == Status::Success,
    ensures
        ({
            let next = load_next(images, db, state, LoadAnswer::EntryPoint { address: entry_point });
            &&& next.0.action == LoadAction::Done
            &&& entry_point != 0
            &&& start_outcome(next.1, next.2, next.0.handle) == Ok::<usize, Status>(entry_point)
        }),
{
    let next = load_next(images, db, state, LoadAnswer::EntryPoint { address: entry_point });
    crate::handle_database_laws::lemma_lookup_after_install(
        db,
        null_handle(),
        spec_image_info_guid(),
        state.info.address,
        0,
    );
    lemma_record_appended(
        images,
        ImageInfo { entry_point, ..state.info },
        0,
    );
}

/// A record that is appended is found at its address if none before it
/// lies there.
proof fn lemma_record_appended(images: Seq<ImageInfo>, info: ImageInfo, from: int)
    requires
        0 <= from <= images.len(),
        record_from(images, info.address, from) is None,
    ensures
        record_from(images.push(info), info.address, from) == Some(info),
    decreases images.len() - from,
{
    if from < images.len() {
        assert(images.push(info)[from] == images[from]);
        lemma_record_appended(images, info, from + 1);
    }
}

} // verus!
