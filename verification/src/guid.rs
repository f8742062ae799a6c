//! Protocol identifiers: 128-bit GUIDs in their canonical field decomposition.

use vstd::prelude::*;

verus! {

/// A 128-bit identifier, held as the fields of its canonical decomposition.
/// Two identifiers are the same when all their fields are.
#[derive(Clone, Copy, Debug)]
pub struct Guid {
    pub time_low: u32,
    pub time_mid: u16,
    pub time_hi_and_version: u16,
    pub clk_seq_hi_res: u8,
    pub clk_seq_low: u8,
    pub node: [u8; 6],
}

impl Guid {
    /// The identifier with the given fields.
    pub fn from_fields(
        time_low: u32,
        time_mid: u16,
        time_hi_and_version: u16,
        clk_seq_hi_res: u8,
        clk_seq_low: u8,
        node: &[u8; 6],
    ) -> (guid: Guid)
        ensures
            guid == (Guid {
                time_low,
                time_mid,
                time_hi_and_version,
                clk_seq_hi_res,
                clk_seq_low,
                node: *node,
            }),
    {
        Guid { time_low, time_mid, time_hi_and_version, clk_seq_hi_res, clk_seq_low, node: *node }
    }

    /// The fields of the identifier, in the order in which `from_fields` takes them.
    pub fn as_fields(&self) -> (fields: (u32, u16, u16, u8, u8, &[u8; 6]))
        ensures
            fields.0 == self.time_low,
            fields.1 == self.time_mid,
            fields.2 == self.time_hi_and_version,
            fields.3 == self.clk_seq_hi_res,
            fields.4 == self.clk_seq_low,
            *fields.5 == self.node,
    {
        (
            self.time_low,
            self.time_mid,
            self.time_hi_and_version,
            self.clk_seq_hi_res,
            self.clk_seq_low,
            &self.node,
        )
    }

    /// Field-by-field comparison of two identifiers.
    pub fn same(&self, other: &Guid) -> (r: bool)
        ensures
            r == (*self == *other),
    {
        let mut nodes_equal = true;
        let mut i: usize = 0;
        while i < 6
            invariant
                i <= 6,
                nodes_equal == (forall|j: int| 0 <= j < i ==> self.node[j] == other.node[j]),
            decreases 6 - i,
        {
            if self.node[i] != other.node[i] {
                nodes_equal = false;
            }
            i += 1;
        }
        proof {
            if nodes_equal {
                assert(self.node =~= other.node);
            }
        }
        self.time_low == other.time_low && self.time_mid == other.time_mid
            && self.time_hi_and_version == other.time_hi_and_version && self.clk_seq_hi_res
            == other.clk_seq_hi_res && self.clk_seq_low == other.clk_seq_low && nodes_equal
    }
}

/// The identifiers that the firmware takes from `r_efi`.
#[derive(Clone, Copy, Debug, PartialEq, Eq, Structural)]
pub enum ProtocolId {
    BlockIo,
    DevicePath,
    SimpleFileSystem,
    SimpleTextInput,
    SimpleTextInputEx,
    SimpleTextOutput,
    /// Not a protocol: the identifier under which file metadata is asked for.
    FileInfo,
}

/// The fields of the identifiers of `r_efi::protocols`.
pub open spec fn protocol_fields(id: ProtocolId) -> (u32, u16, u16, u8, u8, [u8; 6]) {
    match id {
        ProtocolId::BlockIo => (
            0x964e5b21,
            0x6459,
            0x11d2,
            0x8e,
            0x39,
            [0x00u8, 0xa0u8, 0xc9u8, 0x69u8, 0x72u8, 0x3bu8],
        ),
        ProtocolId::DevicePath => (
            0x09576e91,
            0x6d3f,
            0x11d2,
            0x8e,
            0x39,
            [0x00u8, 0xa0u8, 0xc9u8, 0x69u8, 0x72u8, 0x3bu8],
        ),
        ProtocolId::SimpleFileSystem => (
            0x964e5b22,
            0x6459,
            0x11d2,
            0x8e,
            0x39,
            [0x00u8, 0xa0u8, 0xc9u8, 0x69u8, 0x72u8, 0x3bu8],
        ),
        ProtocolId::SimpleTextInput => (
            0x387477c1,
            0x69c7,
            0x11d2,
            0x8e,
            0x39,
            [0x00u8, 0xa0u8, 0xc9u8, 0x69u8, 0x72u8, 0x3bu8],
        ),
        ProtocolId::SimpleTextInputEx => (
            0xdd9e7534,
            0x7762,
            0x4698,
            0x8c,
            0x14,
            [0xf5u8, 0x85u8, 0x17u8, 0xa6u8, 0x25u8, 0xaau8],
        ),
        ProtocolId::SimpleTextOutput => (
            0x387477c2,
            0x69c7,
            0x11d2,
            0x8e,
            0x39,
            [0x00u8, 0xa0u8, 0xc9u8, 0x69u8, 0x72u8, 0x3bu8],
        ),
        ProtocolId::FileInfo => (
            0x09576e92,
            0x6d3f,
            0x11d2,
            0x8e,
            0x39,
            [0x00u8, 0xa0u8, 0xc9u8, 0x69u8, 0x72u8, 0x3bu8],
        ),
    }
}

/// The identifier `id`.
pub open spec fn protocol_guid(id: ProtocolId) -> Guid {
    Guid {
        time_low: protocol_fields(id).0,
        time_mid: protocol_fields(id).1,
        time_hi_and_version: protocol_fields(id).2,
        clk_seq_hi_res: protocol_fields(id).3,
        clk_seq_low: protocol_fields(id).4,
        node: protocol_fields(id).5,
    }
}

/// The identifier under which file metadata is asked for.
pub open spec fn file_info_id() -> Guid {
    protocol_guid(ProtocolId::FileInfo)
}

impl ProtocolId {
    /// The identifier as a value.
    pub fn guid(self) -> (guid: Guid)
        ensures
            guid == protocol_guid(self),
    {
        let fields = efi_protocol_fields(self);
        Guid::from_fields(fields.0, fields.1, fields.2, fields.3, fields.4, &fields.5)
    }
}

/// `r_efi::efi::Guid::as_fields` on the constant of `r_efi::protocols` that
/// `id` names: the `PROTOCOL_GUID` of the modules `block_io`, `device_path`,
/// `simple_file_system`, `simple_text_input`, `simple_text_input_ex` and
/// `simple_text_output`, and `file::INFO_ID`. Each is made by
/// `Guid::from_fields`, and `as_fields` gives back the fields it was made of.
#[verifier::external_body]
fn efi_protocol_fields(id: ProtocolId) -> (fields: (u32, u16, u16, u8, u8, [u8; 6]))
    ensures
        fields == protocol_fields(id),
{
    let guid = match id {
        ProtocolId::BlockIo => r_efi::protocols::block_io::PROTOCOL_GUID,
        ProtocolId::DevicePath => r_efi::protocols::device_path::PROTOCOL_GUID,
        ProtocolId::SimpleFileSystem => r_efi::protocols::simple_file_system::PROTOCOL_GUID,
        ProtocolId::SimpleTextInput => r_efi::protocols::simple_text_input::PROTOCOL_GUID,
        ProtocolId::SimpleTextInputEx => r_efi::protocols::simple_text_input_ex::PROTOCOL_GUID,
        ProtocolId::SimpleTextOutput => r_efi::protocols::simple_text_output::PROTOCOL_GUID,
        ProtocolId::FileInfo => r_efi::protocols::file::INFO_ID,
    };
    let f = guid.as_fields();
    (f.0, f.1, f.2, f.3, f.4, *f.5)
}

} // verus!
