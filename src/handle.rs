//! Resource handles: a 32-bit id that packs a pool slot index (low 16 bits)
//! and a uniqueness tag (high 16 bits).
use vstd::prelude::*;

verus! {

/// Number of bits the uniqueness tag is shifted up by.
pub const SLOT_SHIFT: u32 = 16;

/// Mask selecting the slot index of a resource id.
pub const SLOT_MASK: u32 = 0xFFFF;

/// A pool holds at most this many slots, the reserved slot 0 included.
pub const MAX_POOL_SIZE: usize = 0x10000;

/// The reserved id meaning "no resource".
pub const INVALID_ID: u32 = 0;

/// The slot index that an id addresses.
pub open spec fn index_of(id: u32) -> u32 {
    (id % 0x10000) as u32
}

/// The uniqueness tag carried by an id.
pub open spec fn unique_of(id: u32) -> u32 {
    (id / 0x10000) as u32
}

/// The id made of a slot index and a uniqueness tag.
pub open spec fn encode_spec(index: u16, unique: u16) -> u32 {
    (unique as int * 0x10000 + index as int) as u32
}

/// The (index, unique) pair that an id decodes to.
pub open spec fn decode_spec(id: u32) -> (u16, u16) {
    (index_of(id) as u16, unique_of(id) as u16)
}

/// Packs a slot index and a uniqueness tag into one id.
pub fn encode(index: u16, unique: u16) -> (r: u32)
    ensures
        r == encode_spec(index, unique),
        r as int == unique as int * 0x10000 + index as int,
{
    let r = ((unique as u32) << SLOT_SHIFT) | (index as u32);
    assert(((unique as u32) << 16u32) | (index as u32) == (unique as u32) * 0x10000u32
        + (index as u32)) by (bit_vector);
    r
}

/// Splits an id into its slot index and its uniqueness tag.
pub fn decode(id: u32) -> (r: (u16, u16))
    ensures
        r == decode_spec(id),
        r.0 as int == id % 0x10000,
        r.1 as int == id / 0x10000,
{
    assert(id & 0xFFFFu32 == id % 0x10000) by (bit_vector);
    assert(id >> 16u32 == id / 0x10000) by (bit_vector);
    ((id & SLOT_MASK) as u16, (id >> SLOT_SHIFT) as u16)
}

/// Whether an id may name a resource: every id but the reserved 0 may.
pub fn is_valid(id: u32) -> (r: bool)
    ensures
        r == (id != INVALID_ID),
{
    id != INVALID_ID
}

/// Decoding an encoded pair gives the pair back, for every index and tag.
pub proof fn lemma_round_trip(index: u16, unique: u16)
    ensures
        decode_spec(encode_spec(index, unique)) == (index, unique),
{
    let id = encode_spec(index, unique);
    assert(id as int == unique as int * 0x10000 + index as int);
    assert(id % 0x10000 == index as int);
    assert(id / 0x10000 == unique as int);
}

/// Encoding the pair that an id decodes to gives the id back.
pub proof fn lemma_decode_encode(id: u32)
    ensures
        encode_spec(decode_spec(id).0, decode_spec(id).1) == id,
{
    assert(id as int == (id / 0x10000) * 0x10000 + id % 0x10000);
}

/// A typed resource handle: a thin wrapper around a resource id.
pub trait ResourceHandle: Sized + Copy {
    /// The id this handle carries.
    spec fn spec_id(&self) -> u32;

    /// The handle that carries `id`.
    fn with(id: u32) -> (r: Self)
        ensures
            r.spec_id() == id,
    ;

    /// The id this handle carries.
    fn id(&self) -> (r: u32)
        ensures
            r == self.spec_id(),
    ;
}

/// A buffer resource handle. Buffers hold vertex and index data.
#[derive(Debug, Clone, Copy, PartialEq, Eq, Structural)]
pub struct Buffer {
    id: u32,
}

/// An image resource handle. Images are textures and render targets.
#[derive(Debug, Clone, Copy, PartialEq, Eq, Structural)]
pub struct Image {
    id: u32,
}

/// A shader resource handle.
#[derive(Debug, Clone, Copy, PartialEq, Eq, Structural)]
pub struct Shader {
    id: u32,
}

/// A pipeline resource handle: vertex layouts, shader and render states.
#[derive(Debug, Clone, Copy, PartialEq, Eq, Structural)]
pub struct Pipeline {
    id: u32,
}

/// A pass resource handle: a render pass and the actions on its targets.
#[derive(Debug, Clone, Copy, PartialEq, Eq, Structural)]
pub struct Pass {
    id: u32,
}

impl Default for Buffer {
    /// The invalid handle.
    fn default() -> (r: Self)
        ensures
            r.spec_id() == INVALID_ID,
    {
        Buffer { id: INVALID_ID }
    }
}

impl ResourceHandle for Buffer {
    closed spec fn spec_id(&self) -> u32 {
        self.id
    }

    fn with(id: u32) -> (r: Self) {
        Buffer { id }
    }

    fn id(&self) -> (r: u32) {
        self.id
    }
}

impl Default for Image {
    /// The invalid handle.
    fn default() -> (r: Self)
        ensures
            r.spec_id() == INVALID_ID,
    {
        Image { id: INVALID_ID }
    }
}

impl ResourceHandle for Image {
    closed spec fn spec_id(&self) -> u32 {
        self.id
    }

    fn with(id: u32) -> (r: Self) {
        Image { id }
    }

    fn id(&self) -> (r: u32) {
        self.id
    }
}

impl Default for Shader {
    /// The invalid handle.
    fn default() -> (r: Self)
        ensures
            r.spec_id() == INVALID_ID,
    {
        Shader { id: INVALID_ID }
    }
}

impl ResourceHandle for Shader {
    closed spec fn spec_id(&self) -> u32 {
        self.id
    }

    fn with(id: u32) -> (r: Self) {
        Shader { id }
    }

    fn id(&self) -> (r: u32) {
        self.id
    }
}

impl Default for Pipeline {
    /// The invalid handle.
    fn default() -> (r: Self)
        ensures
            r.spec_id() == INVALID_ID,
    {
        Pipeline { id: INVALID_ID }
    }
}

impl ResourceHandle for Pipeline {
    closed spec fn spec_id(&self) -> u32 {
        self.id
    }

    fn with(id: u32) -> (r: Self) {
        Pipeline { id }
    }

    fn id(&self) -> (r: u32) {
        self.id
    }
}

impl Default for Pass {
    /// The invalid handle.
    fn default() -> (r: Self)
        ensures
            r.spec_id() == INVALID_ID,
    {
        Pass { id: INVALID_ID }
    }
}

impl ResourceHandle for Pass {
    closed spec fn spec_id(&self) -> u32 {
        self.id
    }

    fn with(id: u32) -> (r: Self) {
        Pass { id }
    }

    fn id(&self) -> (r: u32) {
        self.id
    }
}

} // verus!
