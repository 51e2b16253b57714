//! The payload of the cache and its form on disk.
//!
//! A [`ModuleCacheData`] carries the five parts of a compiled module. The cache never looks
//! into them: each part is the bytes that its owner made of it. On disk a payload is the
//! five parts serialized as one record by `bincode`, then compressed by `zstd`.

use vstd::prelude::*;

verus! {

/// The five parts of a payload, as plain values and in this order: compilation,
/// relocations, address transforms, value ranges, stack slots.
pub type Parts = (Seq<u8>, Seq<u8>, Seq<u8>, Seq<u8>, Seq<u8>);

/// The output of one compilation of a module.
#[derive(Debug, PartialEq, Eq)]
pub struct ModuleCacheData {
    compilation: Vec<u8>,
    relocations: Vec<u8>,
    address_transforms: Vec<u8>,
    value_ranges: Vec<u8>,
    stack_slots: Vec<u8>,
}

impl View for ModuleCacheData {
    type V = Parts;

    closed spec fn view(&self) -> Parts {
        (
            self.compilation@,
            self.relocations@,
            self.address_transforms@,
            self.value_ranges@,
            self.stack_slots@,
        )
    }
}

impl ModuleCacheData {
    pub fn from_tuple(data: (Vec<u8>, Vec<u8>, Vec<u8>, Vec<u8>, Vec<u8>)) -> (payload: Self)
        ensures
            payload@ == (data.0@, data.1@, data.2@, data.3@, data.4@),
    {
        Self {
            compilation: data.0,
            relocations: data.1,
            address_transforms: data.2,
            value_ranges: data.3,
            stack_slots: data.4,
        }
    }

    pub fn to_tuple(self) -> (data: (Vec<u8>, Vec<u8>, Vec<u8>, Vec<u8>, Vec<u8>))
        ensures
            (data.0@, data.1@, data.2@, data.3@, data.4@) == self@,
    {
        (
            self.compilation,
            self.relocations,
            self.address_transforms,
            self.value_ranges,
            self.stack_slots,
        )
    }
}

/// What `bincode::serialize` makes of the five parts taken as one tuple of byte vectors,
/// or `None` where it gives an error.
pub uninterp spec fn bincode_encoded(
    compilation: Seq<u8>,
    relocations: Seq<u8>,
    address_transforms: Seq<u8>,
    value_ranges: Seq<u8>,
    stack_slots: Seq<u8>,
) -> Option<Seq<u8>>;

/// The tuple of five byte vectors that `bincode::deserialize` reads from `bytes`, or
/// `None` where it gives an error.
pub uninterp spec fn bincode_decoded(bytes: Seq<u8>) -> Option<Parts>;

/// What `zstd::encode_all` makes of `data` at `level`, or `None` where it gives an error.
pub uninterp spec fn zstd_encoded(data: Seq<u8>, level: i32) -> Option<Seq<u8>>;

/// What `zstd::decode_all` makes of `data`, or `None` where it gives an error.
pub uninterp spec fn zstd_decoded(data: Seq<u8>) -> Option<Seq<u8>>;

/// The bytes of a vector that may be absent.
pub open spec fn bytes_of(v: Option<Vec<u8>>) -> Option<Seq<u8>> {
    match v {
        Some(v) => Some(v@),
        None => None,
    }
}

/// Calls `bincode::serialize` on the five parts as one tuple. Claimed of it: the outcome
/// depends on the parts alone, and what it wrote, `bincode::deserialize` reads back as the
/// same five parts.
#[verifier::external_body]
fn serialize(data: &ModuleCacheData) -> (out: Option<Vec<u8>>)
    ensures
        bytes_of(out) == bincode_encoded(data@.0, data@.1, data@.2, data@.3, data@.4),
        out matches Some(raw) ==> bincode_decoded(raw@) == Some(data@),
{
    bincode::serialize(
        &(
            &data.compilation,
            &data.relocations,
            &data.address_transforms,
            &data.value_ranges,
            &data.stack_slots,
        ),
    ).ok()
}

/// The five parts of a tuple of byte vectors that may be absent.
pub open spec fn parts_of(t: Option<(Vec<u8>, Vec<u8>, Vec<u8>, Vec<u8>, Vec<u8>)>) -> Option<
    Parts,
> {
    match t {
        Some(t) => Some((t.0@, t.1@, t.2@, t.3@, t.4@)),
        None => None,
    }
}

/// Calls `bincode::deserialize` for a tuple of five byte vectors. Claimed of it: the
/// outcome depends on the bytes alone.
#[verifier::external_body]
fn deserialize(raw: &[u8]) -> (out: Option<(Vec<u8>, Vec<u8>, Vec<u8>, Vec<u8>, Vec<u8>)>)
    ensures
        parts_of(out) == bincode_decoded(raw@),
{
    bincode::deserialize(raw).ok()
}

/// Calls `zstd::encode_all`. Claimed of it: the outcome depends on the data and the level
/// alone, and what it wrote, `zstd::decode_all` expands to the same data.
#[verifier::external_body]
fn compress(data: &[u8], level: i32) -> (out: Option<Vec<u8>>)
    ensures
        bytes_of(out) == zstd_encoded(data@, level),
        out matches Some(packed) ==> zstd_decoded(packed@) == Some(data@),
{
    zstd::encode_all(data, level).ok()
}

/// Calls `zstd::decode_all`. Claimed of it: the outcome depends on the data alone.
#[verifier::external_body]
fn decompress(data: &[u8]) -> (out: Option<Vec<u8>>)
    ensures
        bytes_of(out) == zstd_decoded(data@),
{
    zstd::decode_all(data).ok()
}

/// The file that holds `data` compressed at `level`, or `None` where serializing or
/// compressing fails.
pub open spec fn packed(data: Parts, level: i32) -> Option<Seq<u8>> {
    match bincode_encoded(data.0, data.1, data.2, data.3, data.4) {
        Some(raw) => zstd_encoded(raw, level),
        None => None,
    }
}

/// The payload that a file holds, or `None` where expanding or deserializing it fails.
pub open spec fn unpacked(file: Seq<u8>) -> Option<Parts> {
    match zstd_decoded(file) {
        Some(raw) => bincode_decoded(raw),
        None => None,
    }
}

/// Why a payload could not be made into a file.
#[derive(Debug, Clone, Copy, PartialEq, Eq, Structural)]
pub enum PackError {
    /// The payload could not be serialized.
    Serialize,
    /// The serialized payload could not be compressed.
    Compress,
}

/// Why a file did not give a payload.
#[derive(Debug, Clone, Copy, PartialEq, Eq, Structural)]
pub enum UnpackError {
    /// The file is no compressed stream.
    Decompress,
    /// What the file expands to is no payload.
    Deserialize,
}

/// Why `packed` gives nothing for a payload, if it does.
pub open spec fn pack_error(data: Parts, level: i32) -> Option<PackError> {
    match bincode_encoded(data.0, data.1, data.2, data.3, data.4) {
        None => Some(PackError::Serialize),
        Some(raw) => if zstd_encoded(raw, level) is None {
            Some(PackError::Compress)
        } else {
            None
        },
    }
}

/// Why `unpacked` gives nothing for a file, if it does.
pub open spec fn unpack_error(file: Seq<u8>) -> Option<UnpackError> {
    match zstd_decoded(file) {
        None => Some(UnpackError::Decompress),
        Some(raw) => if bincode_decoded(raw) is None {
            Some(UnpackError::Deserialize)
        } else {
            None
        },
    }
}

impl ModuleCacheData {
    /// Serializes the payload and compresses it at `level`. What comes out is what
    /// [`ModuleCacheData::unpack`] turns back into this payload.
    pub fn pack(&self, level: i32) -> (out: Result<Vec<u8>, PackError>)
        ensures
            match out {
                Ok(file) => packed(self@, level) == Some(file@) && unpacked(file@) == Some(
                    self@,
                ),
                Err(e) => packed(self@, level) is None && pack_error(self@, level) == Some(e),
            },
    {
        match serialize(self) {
            None => Err(PackError::Serialize),
            Some(raw) => match compress(raw.as_slice(), level) {
                None => Err(PackError::Compress),
                Some(file) => Ok(file),
            },
        }
    }

    /// Expands a file and reads the payload from it.
    pub fn unpack(file: &[u8]) -> (out: Result<ModuleCacheData, UnpackError>)
        ensures
            match out {
                Ok(data) => unpacked(file@) == Some(data@),
                Err(e) => unpacked(file@) is None && unpack_error(file@) == Some(e),
            },
    {
        match decompress(file) {
            None => Err(UnpackError::Decompress),
            Some(raw) => match deserialize(raw.as_slice()) {
                None => Err(UnpackError::Deserialize),
                Some(parts) => Ok(ModuleCacheData::from_tuple(parts)),
            },
        }
    }
}

} // verus!
