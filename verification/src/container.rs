//! The firmware container: detection of its two wire shapes and the location
//! of the action array inside the raw bytes.
//!
//! A legacy container starts with a zero magic word and a header that names
//! the byte offset and the number of the action words; the whole buffer sums
//! to zero modulo 256. A modern container is nothing but action words.

use vstd::prelude::*;

verus! {

/// Size of one action word in bytes.
pub const FW_OPCODE_SIZE: usize = 4;

/// Capacity of the version string.
pub const RTL_VER_SIZE: usize = 32;

/// Size of the legacy header: magic, version, start, length, checksum.
pub const FW_INFO_SIZE: usize = 45;

/// Longest firmware name that fits the version string beside its terminator.
pub const RTL_VER_NAME_MAX: usize = 31;

/// Why a buffer is not a firmware container.
#[derive(Clone, Copy, Debug, PartialEq, Eq, Structural)]
pub enum FormatError {
    /// Fewer bytes than one action word: the magic cannot be read.
    TooShort,
    /// Legacy shape whose bytes do not sum to zero modulo 256.
    BadChecksum,
    /// Legacy shape that ends inside its header.
    HeaderTruncated,
    /// Legacy shape whose action array starts behind the end of the buffer.
    StartOutOfRange,
    /// Legacy shape that declares more action words than follow the start.
    LengthOutOfRange,
    /// Modern shape whose length is no multiple of the action-word size.
    SizeNotMultiple,
}

/// Where the action array lies in the buffer: the byte offset of its first
/// word and the number of its words.
#[derive(Clone, Copy, Debug, PartialEq, Eq, Structural)]
pub struct RtlFwPhyAction {
    pub start: usize,
    pub size: usize,
}

/// The header of a legacy container, in host order.
#[derive(Clone, Copy, Debug)]
pub struct FwInfo {
    pub magic: u32,
    pub version: [u8; 32],
    pub fw_start: u32,
    pub fw_len: u32,
    pub chksum: u8,
}

/// What a well-formed container yields: the action array and the version.
#[derive(Clone, Copy, Debug)]
pub struct FwLayout {
    pub phy_action: RtlFwPhyAction,
    pub version: [u8; 32],
}

/// The little-endian 32-bit word whose first byte is `bytes[at]`.
pub open spec fn spec_le_u32(bytes: Seq<u8>, at: int) -> u32
    recommends
        0 <= at,
        at + 4 <= bytes.len(),
{
    (bytes[at] as int + bytes[at + 1] as int * 0x100 + bytes[at + 2] as int * 0x1_0000 + bytes[at
        + 3] as int * 0x100_0000) as u32
}

/// The sum of all bytes, as a mathematical integer.
pub open spec fn spec_byte_sum(bytes: Seq<u8>) -> int
    decreases bytes.len(),
{
    if bytes.len() == 0 {
        0
    } else {
        spec_byte_sum(bytes.drop_last()) + bytes.last() as int
    }
}

/// The checksum of a buffer: its byte sum modulo 256.
pub open spec fn spec_checksum(bytes: Seq<u8>) -> u8 {
    (spec_byte_sum(bytes) % 256) as u8
}

/// Whether the buffer announces the legacy shape.
pub open spec fn spec_is_legacy(bytes: Seq<u8>) -> bool {
    bytes.len() >= FW_OPCODE_SIZE && spec_le_u32(bytes, 0) == 0
}

/// The start field of a legacy header.
pub open spec fn spec_fw_start(bytes: Seq<u8>) -> u32 {
    spec_le_u32(bytes, 36)
}

/// The length field of a legacy header.
pub open spec fn spec_fw_len(bytes: Seq<u8>) -> u32 {
    spec_le_u32(bytes, 40)
}

/// The first reason, in the order of the checks, for which the buffer is
/// refused; `None` for a well-formed container.
pub open spec fn spec_format_error(bytes: Seq<u8>) -> Option<FormatError> {
    if bytes.len() < FW_OPCODE_SIZE {
        Some(FormatError::TooShort)
    } else if spec_le_u32(bytes, 0) == 0 {
        if spec_checksum(bytes) != 0 {
            Some(FormatError::BadChecksum)
        } else if bytes.len() < FW_INFO_SIZE {
            Some(FormatError::HeaderTruncated)
        } else if spec_fw_start(bytes) > bytes.len() {
            Some(FormatError::StartOutOfRange)
        } else if spec_fw_len(bytes) > (bytes.len() - spec_fw_start(bytes)) / (FW_OPCODE_SIZE as int) {
            Some(FormatError::LengthOutOfRange)
        } else {
            None
        }
    } else if bytes.len() % (FW_OPCODE_SIZE as nat) != 0 {
        Some(FormatError::SizeNotMultiple)
    } else {
        None
    }
}

/// Whether the buffer is a well-formed container of either shape.
pub open spec fn spec_format_ok(bytes: Seq<u8>) -> bool {
    spec_format_error(bytes) is None
}

/// Byte offset of the action array of a well-formed container.
pub open spec fn spec_action_start(bytes: Seq<u8>) -> int {
    if spec_is_legacy(bytes) {
        spec_fw_start(bytes) as int
    } else {
        0
    }
}

/// Number of action words of a well-formed container.
pub open spec fn spec_action_size(bytes: Seq<u8>) -> int {
    if spec_is_legacy(bytes) {
        spec_fw_len(bytes) as int
    } else {
        (bytes.len() / 4) as int
    }
}

/// The action words of a well-formed container, in host order.
pub open spec fn spec_actions(bytes: Seq<u8>) -> Seq<u32> {
    Seq::new(
        spec_action_size(bytes) as nat,
        |i: int| spec_le_u32(bytes, spec_action_start(bytes) + 4 * i),
    )
}

/// The firmware name as a version string: cut to 31 bytes and filled up with
/// zero bytes, so that at least one terminator follows.
pub open spec fn spec_name_version(fw_name: Seq<u8>) -> Seq<u8> {
    Seq::new(
        RTL_VER_SIZE as nat,
        |i: int|
            if i < fw_name.len() && i < RTL_VER_NAME_MAX {
                fw_name[i]
            } else {
                0u8
            },
    )
}

/// The version of a well-formed container: the header's version field for
/// the legacy shape, the firmware name for the modern one.
pub open spec fn spec_version(bytes: Seq<u8>, fw_name: Seq<u8>) -> Seq<u8> {
    if spec_is_legacy(bytes) {
        bytes.subrange(4, 36)
    } else {
        spec_name_version(fw_name)
    }
}

impl RtlFwPhyAction {
    /// Whether every word of the array lies inside a buffer of `len` bytes.
    pub open spec fn spec_fits(self, len: nat) -> bool {
        self.start <= len && self.size <= (len - self.start) / 4
    }

    /// The action words that the array holds in `bytes`, in host order.
    pub open spec fn spec_words(self, bytes: Seq<u8>) -> Seq<u32> {
        Seq::new(self.size as nat, |i: int| spec_le_u32(bytes, self.start + 4 * i))
    }

    /// Whether every word of the array lies inside a buffer of `len` bytes.
    pub fn fits(&self, len: usize) -> (b: bool)
        ensures
            b == self.spec_fits(len as nat),
    {
        self.start <= len && self.size <= (len - self.start) / 4
    }

    /// Reads the action word at `index`.
    pub fn action_at(&self, data: &[u8], index: usize) -> (action: u32)
        requires
            self.spec_fits(data@.len()),
            index < self.size,
        ensures
            action == self.spec_words(data@)[index as int],
    {
        let len: usize = data.len();
        read_le_u32(data, self.start + 4 * index)
    }
}

/// Reads the little-endian 32-bit word that starts at byte `at`.
pub fn read_le_u32(bytes: &[u8], at: usize) -> (v: u32)
    requires
        at + 4 <= bytes@.len(),
    ensures
        v == spec_le_u32(bytes@, at as int),
{
    let b0: u32 = bytes[at] as u32;
    let b1: u32 = bytes[at + 1] as u32;
    let b2: u32 = bytes[at + 2] as u32;
    let b3: u32 = bytes[at + 3] as u32;
    b0 + b1 * 0x100 + b2 * 0x1_0000 + b3 * 0x100_0000
}

/// Sums all bytes of the buffer modulo 256.
pub fn checksum(bytes: &[u8]) -> (sum: u8)
    ensures
        sum == spec_checksum(bytes@),
{
    let mut sum: u8 = 0;
    let mut i: usize = 0;
    while i < bytes.len()
        invariant
            i <= bytes@.len(),
            sum as int == spec_byte_sum(bytes@.take(i as int)) % 256,
        decreases bytes@.len() - i,
    {
        proof {
            assert(bytes@.take(i + 1).drop_last() =~= bytes@.take(i as int));
        }
        sum = sum.wrapping_add(bytes[i]);
        i += 1;
    }
    proof {
        assert(bytes@.take(i as int) =~= bytes@);
    }
    sum
}

/// Copies the 32 bytes that start at byte `at`.
fn copy_version(bytes: &[u8], at: usize) -> (version: [u8; 32])
    requires
        at + 32 <= bytes@.len(),
    ensures
        version@ == bytes@.subrange(at as int, at + 32),
{
    let len: usize = bytes.len();
    let mut version: [u8; 32] = [0u8;32];
    let mut i: usize = 0;
    while i < 32
        invariant
            i <= 32,
            at + 32 <= bytes@.len(),
            bytes@.len() <= usize::MAX,
            forall|j: int| 0 <= j < i ==> version@[j] == bytes@[at + j],
        decreases 32 - i,
    {
        version[i] = bytes[at + i];
        i += 1;
    }
    proof {
        assert(version@ =~= bytes@.subrange(at as int, at + 32));
    }
    version
}

/// Writes a firmware name into a version string.
pub fn name_version(fw_name: &[u8]) -> (version: [u8; 32])
    ensures
        version@ == spec_name_version(fw_name@),
{
    let mut version: [u8; 32] = [0u8;32];
    let mut i: usize = 0;
    while i < RTL_VER_NAME_MAX && i < fw_name.len()
        invariant
            i <= RTL_VER_NAME_MAX,
            i <= fw_name@.len(),
            forall|j: int| 0 <= j < i ==> version@[j] == fw_name@[j],
            forall|j: int| i <= j < 32 ==> version@[j] == 0,
        decreases RTL_VER_NAME_MAX - i,
    {
        version[i] = fw_name[i];
        i += 1;
    }
    proof {
        assert(version@ =~= spec_name_version(fw_name@));
    }
    version
}

impl FwInfo {
    /// The header that `bytes` spell out, field by field.
    pub open spec fn spec_matches(self, bytes: Seq<u8>) -> bool {
        &&& self.magic == spec_le_u32(bytes, 0)
        &&& self.version@ == bytes.subrange(4, 36)
        &&& self.fw_start == spec_fw_start(bytes)
        &&& self.fw_len == spec_fw_len(bytes)
        &&& self.chksum == bytes[44]
    }

    /// Reads a legacy header from the front of the buffer; `None` where the
    /// buffer ends inside it.
    pub fn from_bytes(bytes: &[u8]) -> (info: Option<FwInfo>)
        ensures
            info is Some <==> bytes@.len() >= FW_INFO_SIZE,
            info is Some ==> info.unwrap().spec_matches(bytes@),
    {
        if bytes.len() < FW_INFO_SIZE {
            return None;
        }
        Some(
            FwInfo {
                magic: read_le_u32(bytes, 0),
                version: copy_version(bytes, 4),
                fw_start: read_le_u32(bytes, 36),
                fw_len: read_le_u32(bytes, 40),
                chksum: bytes[44],
            },
        )
    }
}

impl FwLayout {
    /// What a well-formed container with these bytes and this name yields.
    pub open spec fn spec_matches(self, bytes: Seq<u8>, fw_name: Seq<u8>) -> bool {
        &&& self.phy_action.start == spec_action_start(bytes)
        &&& self.phy_action.size == spec_action_size(bytes)
        &&& self.version@ == spec_version(bytes, fw_name)
        &&& self.phy_action.spec_fits(bytes.len())
        &&& self.phy_action.spec_words(bytes) == spec_actions(bytes)
    }
}

/// Detects the shape of a firmware container and locates its action array.
///
/// A buffer is refused with the first reason that applies, in the order of
/// [`spec_format_error`]; otherwise the layout names the array and the
/// version, and the array lies inside the buffer. No action word is read.
pub fn rtl_fw_format_ok(data: &[u8], fw_name: &[u8]) -> (r: Result<FwLayout, FormatError>)
    ensures
        match spec_format_error(data@) {
            Some(e) => r == Err::<FwLayout, FormatError>(e),
            None => r is Ok && r.unwrap().spec_matches(data@, fw_name@),
        },
{
    let size: usize = data.len();
    if size < FW_OPCODE_SIZE {
        return Err(FormatError::TooShort);
    }
    let magic: u32 = read_le_u32(data, 0);
    if magic == 0 {
        if checksum(data) != 0 {
            return Err(FormatError::BadChecksum);
        }
        let fw_info = match FwInfo::from_bytes(data) {
            Some(info) => info,
            None => {
                return Err(FormatError::HeaderTruncated);
            },
        };
        let start: usize = fw_info.fw_start as usize;
        if start > size {
            return Err(FormatError::StartOutOfRange);
        }
        let len: usize = fw_info.fw_len as usize;
        if len > (size - start) / FW_OPCODE_SIZE {
            return Err(FormatError::LengthOutOfRange);
        }
        Ok(
            FwLayout {
                phy_action: RtlFwPhyAction { start: start, size: len },
                version: fw_info.version,
            },
        )
    } else {
        if size % FW_OPCODE_SIZE != 0 {
            return Err(FormatError::SizeNotMultiple);
        }
        Ok(
            FwLayout {
                phy_action: RtlFwPhyAction { start: 0, size: size / FW_OPCODE_SIZE },
                version: name_version(fw_name),
            },
        )
    }
}

/// A buffer too short to hold the magic word is refused as too short,
/// whatever its bytes.
pub proof fn lemma_short_buffer_refused(bytes: Seq<u8>)
    requires
        bytes.len() < FW_OPCODE_SIZE,
    ensures
        spec_format_error(bytes) == Some(FormatError::TooShort),
        !spec_format_ok(bytes),
{
}

/// A legacy-shaped buffer whose bytes do not sum to zero modulo 256 is
/// refused for its checksum, whatever its header fields say.
pub proof fn lemma_bad_checksum_refused(bytes: Seq<u8>)
    requires
        spec_is_legacy(bytes),
        spec_checksum(bytes) != 0,
    ensures
        spec_format_error(bytes) == Some(FormatError::BadChecksum),
        !spec_format_ok(bytes),
{
}

/// A legacy-shaped buffer is refused if its action array starts behind the
/// end of the buffer, or if the declared words need more bytes than follow
/// the start.
pub proof fn lemma_legacy_out_of_bounds_refused(bytes: Seq<u8>)
    requires
        spec_is_legacy(bytes),
        spec_fw_start(bytes) > bytes.len() || spec_fw_len(bytes) * 4 > bytes.len() - spec_fw_start(
            bytes,
        ),
    ensures
        !spec_format_ok(bytes),
        spec_checksum(bytes) == 0 && bytes.len() >= FW_INFO_SIZE ==> spec_format_error(bytes) == Some(
            if spec_fw_start(bytes) > bytes.len() {
                FormatError::StartOutOfRange
            } else {
                FormatError::LengthOutOfRange
            },
        ),
{
}

/// The action array of a well-formed container, of either shape, lies inside
/// the buffer: every byte of every action word is a byte of the buffer.
pub proof fn lemma_accepted_array_in_bounds(bytes: Seq<u8>)
    requires
        spec_format_ok(bytes),
    ensures
        0 <= spec_action_start(bytes) <= bytes.len(),
        0 <= spec_action_size(bytes),
        spec_action_start(bytes) + 4 * spec_action_size(bytes) <= bytes.len(),
        spec_actions(bytes).len() == spec_action_size(bytes),
{
}

/// A modern-shaped buffer whose length is no multiple of four is refused.
pub proof fn lemma_modern_ragged_refused(bytes: Seq<u8>)
    requires
        bytes.len() >= FW_OPCODE_SIZE,
        !spec_is_legacy(bytes),
        bytes.len() % 4 != 0,
    ensures
        spec_format_error(bytes) == Some(FormatError::SizeNotMultiple),
        !spec_format_ok(bytes),
{
}

} // verus!
