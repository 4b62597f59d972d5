use vstd::prelude::*;
use vstd::bytes::{
    lemma_auto_spec_u64_to_from_le_bytes, spec_u64_from_le_bytes, spec_u64_to_le_bytes,
    u64_from_le_bytes,
};
use vstd::slice::slice_subrange;

verus! {

/// Size in bytes of the buffer into which the firmware writes its memory map.
pub const MEMORY_MAP_BUFFER_SIZE: usize = 0x10000;

/// Size in bytes of one memory descriptor as laid out in the buffer:
/// the type (8 bytes), then physical start, virtual start, page count and
/// attributes (8 bytes each), all little endian.
pub const DESCRIPTOR_LEN: usize = 40;

/// What a region of memory is used for, by its firmware code `0..=14`.
#[derive(Debug, Clone, Copy, PartialEq, Eq, Structural)]
#[allow(non_camel_case_types)]
pub enum EfiMemoryType {
    RESERVED,
    LOADER_CODE,
    LOADER_DATA,
    BOOT_SERVICES_CODE,
    BOOT_SERVICES_DATA,
    RUNTIME_SERVICES_CODE,
    RUNTIME_SERVICES_DATA,
    /// Ordinary memory that the operating system may use freely.
    CONVENTIONAL_MEMORY,
    UNUSABLE_MEMORY,
    ACPI_RECLAIM_MEMORY,
    ACPI_MEMORY_NVS,
    MEMORY_MAPPED_IO,
    MEMORY_MAPPED_IO_PORT_SPACE,
    PAL_CODE,
    PERSISTENT_MEMORY,
}

impl EfiMemoryType {
    /// The firmware code of this memory type.
    pub open spec fn spec_code(self) -> u64 {
        match self {
            EfiMemoryType::RESERVED => 0,
            EfiMemoryType::LOADER_CODE => 1,
            EfiMemoryType::LOADER_DATA => 2,
            EfiMemoryType::BOOT_SERVICES_CODE => 3,
            EfiMemoryType::BOOT_SERVICES_DATA => 4,
            EfiMemoryType::RUNTIME_SERVICES_CODE => 5,
            EfiMemoryType::RUNTIME_SERVICES_DATA => 6,
            EfiMemoryType::CONVENTIONAL_MEMORY => 7,
            EfiMemoryType::UNUSABLE_MEMORY => 8,
            EfiMemoryType::ACPI_RECLAIM_MEMORY => 9,
            EfiMemoryType::ACPI_MEMORY_NVS => 10,
            EfiMemoryType::MEMORY_MAPPED_IO => 11,
            EfiMemoryType::MEMORY_MAPPED_IO_PORT_SPACE => 12,
            EfiMemoryType::PAL_CODE => 13,
            EfiMemoryType::PERSISTENT_MEMORY => 14,
        }
    }

    /// The memory type whose code is `code`, if there is one.
    pub open spec fn spec_from_code(code: u64) -> Option<EfiMemoryType> {
        if code == 0 {
            Some(EfiMemoryType::RESERVED)
        } else if code == 1 {
            Some(EfiMemoryType::LOADER_CODE)
        } else if code == 2 {
            Some(EfiMemoryType::LOADER_DATA)
        } else if code == 3 {
            Some(EfiMemoryType::BOOT_SERVICES_CODE)
        } else if code == 4 {
            Some(EfiMemoryType::BOOT_SERVICES_DATA)
        } else if code == 5 {
            Some(EfiMemoryType::RUNTIME_SERVICES_CODE)
        } else if code == 6 {
            Some(EfiMemoryType::RUNTIME_SERVICES_DATA)
        } else if code == 7 {
            Some(EfiMemoryType::CONVENTIONAL_MEMORY)
        } else if code == 8 {
            Some(EfiMemoryType::UNUSABLE_MEMORY)
        } else if code == 9 {
            Some(EfiMemoryType::ACPI_RECLAIM_MEMORY)
        } else if code == 10 {
            Some(EfiMemoryType::ACPI_MEMORY_NVS)
        } else if code == 11 {
            Some(EfiMemoryType::MEMORY_MAPPED_IO)
        } else if code == 12 {
            Some(EfiMemoryType::MEMORY_MAPPED_IO_PORT_SPACE)
        } else if code == 13 {
            Some(EfiMemoryType::PAL_CODE)
        } else if code == 14 {
            Some(EfiMemoryType::PERSISTENT_MEMORY)
        } else {
            None
        }
    }

    /// Reads a firmware code: `Some` exactly for the codes `0..=14`.
    pub fn from_code(code: u64) -> (r: Option<EfiMemoryType>)
        ensures
            r == Self::spec_from_code(code),
            r is Some <==> code <= 14,
            r matches Some(t) ==> t.spec_code() == code,
    {
        if code == 0 {
            Some(EfiMemoryType::RESERVED)
        } else if code == 1 {
            Some(EfiMemoryType::LOADER_CODE)
        } else if code == 2 {
            Some(EfiMemoryType::LOADER_DATA)
        } else if code == 3 {
            Some(EfiMemoryType::BOOT_SERVICES_CODE)
        } else if code == 4 {
            Some(EfiMemoryType::BOOT_SERVICES_DATA)
        } else if code == 5 {
            Some(EfiMemoryType::RUNTIME_SERVICES_CODE)
        } else if code == 6 {
            Some(EfiMemoryType::RUNTIME_SERVICES_DATA)
        } else if code == 7 {
            Some(EfiMemoryType::CONVENTIONAL_MEMORY)
        } else if code == 8 {
            Some(EfiMemoryType::UNUSABLE_MEMORY)
        } else if code == 9 {
            Some(EfiMemoryType::ACPI_RECLAIM_MEMORY)
        } else if code == 10 {
            Some(EfiMemoryType::ACPI_MEMORY_NVS)
        } else if code == 11 {
            Some(EfiMemoryType::MEMORY_MAPPED_IO)
        } else if code == 12 {
            Some(EfiMemoryType::MEMORY_MAPPED_IO_PORT_SPACE)
        } else if code == 13 {
            Some(EfiMemoryType::PAL_CODE)
        } else if code == 14 {
            Some(EfiMemoryType::PERSISTENT_MEMORY)
        } else {
            None
        }
    }
}

/// Codes and memory types correspond one to one: reading back the code of
/// a memory type gives that memory type.
pub proof fn lemma_memory_type_code_roundtrip(t: EfiMemoryType)
    ensures
        EfiMemoryType::spec_from_code(t.spec_code()) == Some(t),
        t.spec_code() <= 14,
{
}

/// One contiguous region of memory as the firmware describes it.
#[derive(Clone, Copy, PartialEq, Eq, Debug, Structural)]
pub struct EfiMemoryDescriptor {
    /// What the region is used for.
    pub memory_type: EfiMemoryType,
    /// Physical address of the first byte.
    pub physical_start: u64,
    /// Virtual address of the first byte.
    pub virtual_start: u64,
    /// Length of the region in pages of 4096 bytes.
    pub number_of_pages: u64,
    /// Attribute bits of the region.
    pub attribute: u64,
}

impl EfiMemoryDescriptor {
    pub fn memory_type(&self) -> (r: EfiMemoryType)
        ensures
            r == self.memory_type,
    {
        self.memory_type
    }

    pub fn number_of_pages(&self) -> (r: u64)
        ensures
            r == self.number_of_pages,
    {
        self.number_of_pages
    }

    pub fn physical_start(&self) -> (r: u64)
        ensures
            r == self.physical_start,
    {
        self.physical_start
    }
}

/// The little-endian `u64` stored in `buffer` at byte `at`.
pub open spec fn spec_u64_at(buffer: Seq<u8>, at: int) -> u64 {
    spec_u64_from_le_bytes(buffer.subrange(at, at + 8))
}

/// The descriptor stored in `buffer` at byte offset `ofs`: `None` when the
/// descriptor's bytes do not lie wholly inside the buffer, or when its type
/// field holds no known memory type.
pub open spec fn spec_descriptor_at(buffer: Seq<u8>, ofs: int) -> Option<EfiMemoryDescriptor> {
    if 0 <= ofs && ofs + DESCRIPTOR_LEN <= buffer.len() {
        match EfiMemoryType::spec_from_code(spec_u64_at(buffer, ofs)) {
            Some(t) => Some(
                EfiMemoryDescriptor {
                    memory_type: t,
                    physical_start: spec_u64_at(buffer, ofs + 8),
                    virtual_start: spec_u64_at(buffer, ofs + 16),
                    number_of_pages: spec_u64_at(buffer, ofs + 24),
                    attribute: spec_u64_at(buffer, ofs + 32),
                },
            ),
            None => None,
        }
    } else {
        None
    }
}

fn read_u64_at(buffer: &[u8], at: usize) -> (r: u64)
    requires
        at + 8 <= buffer@.len(),
    ensures
        r == spec_u64_at(buffer@, at as int),
{
    let len = buffer.len();
    assert(at + 8 <= len);
    u64_from_le_bytes(slice_subrange(buffer, at, at + 8))
}

/// Reads the descriptor stored in `buffer` at byte offset `ofs`.
pub fn descriptor_at(buffer: &[u8], ofs: usize) -> (r: Option<EfiMemoryDescriptor>)
    ensures
        r == spec_descriptor_at(buffer@, ofs as int),
{
    if ofs > buffer.len() || buffer.len() - ofs < DESCRIPTOR_LEN {
        return None;
    }
    match EfiMemoryType::from_code(read_u64_at(buffer, ofs)) {
        Some(t) => Some(
            EfiMemoryDescriptor {
                memory_type: t,
                physical_start: read_u64_at(buffer, ofs + 8),
                virtual_start: read_u64_at(buffer, ofs + 16),
                number_of_pages: read_u64_at(buffer, ofs + 24),
                attribute: read_u64_at(buffer, ofs + 32),
            },
        ),
        None => None,
    }
}

/// The 40 bytes by which `d` is laid out in a memory map.
pub open spec fn spec_descriptor_bytes(d: EfiMemoryDescriptor) -> Seq<u8> {
    spec_u64_to_le_bytes(d.memory_type.spec_code()) + spec_u64_to_le_bytes(d.physical_start)
        + spec_u64_to_le_bytes(d.virtual_start) + spec_u64_to_le_bytes(d.number_of_pages)
        + spec_u64_to_le_bytes(d.attribute)
}

proof fn lemma_subrange_of_subrange(buffer: Seq<u8>, ofs: int, bytes: Seq<u8>, k: int)
    requires
        0 <= ofs,
        ofs + DESCRIPTOR_LEN <= buffer.len(),
        buffer.subrange(ofs, ofs + DESCRIPTOR_LEN) == bytes,
        0 <= k < 5,
    ensures
        buffer.subrange(ofs + 8 * k, ofs + 8 * k + 8) == bytes.subrange(8 * k, 8 * k + 8),
{
    assert forall|i: int| 0 <= i < 8 implies #[trigger] buffer.subrange(ofs + 8 * k, ofs + 8 * k + 8)[i]
        == bytes.subrange(8 * k, 8 * k + 8)[i] by {
        assert(buffer.subrange(ofs, ofs + DESCRIPTOR_LEN)[8 * k + i] == buffer[ofs + 8 * k + i]);
    }
    assert(buffer.subrange(ofs + 8 * k, ofs + 8 * k + 8) =~= bytes.subrange(8 * k, 8 * k + 8));
}

/// A descriptor laid out in the buffer at any offset is read back from that
/// offset exactly as it was written.
pub proof fn lemma_descriptor_read_back(buffer: Seq<u8>, ofs: int, d: EfiMemoryDescriptor)
    requires
        0 <= ofs,
        ofs + DESCRIPTOR_LEN <= buffer.len(),
        buffer.subrange(ofs, ofs + DESCRIPTOR_LEN) == spec_descriptor_bytes(d),
    ensures
        spec_descriptor_at(buffer, ofs) == Some(d),
{
    lemma_auto_spec_u64_to_from_le_bytes();
    lemma_memory_type_code_roundtrip(d.memory_type);
    let b0 = spec_u64_to_le_bytes(d.memory_type.spec_code());
    let b1 = spec_u64_to_le_bytes(d.physical_start);
    let b2 = spec_u64_to_le_bytes(d.virtual_start);
    let b3 = spec_u64_to_le_bytes(d.number_of_pages);
    let b4 = spec_u64_to_le_bytes(d.attribute);
    let bytes = spec_descriptor_bytes(d);
    assert(b0.len() == 8 && b1.len() == 8 && b2.len() == 8 && b3.len() == 8 && b4.len() == 8);
    assert(bytes.subrange(0, 8) =~= b0);
    assert(bytes.subrange(8, 16) =~= b1);
    assert(bytes.subrange(16, 24) =~= b2);
    assert(bytes.subrange(24, 32) =~= b3);
    assert(bytes.subrange(32, 40) =~= b4);
    lemma_subrange_of_subrange(buffer, ofs, bytes, 0);
    lemma_subrange_of_subrange(buffer, ofs, bytes, 1);
    lemma_subrange_of_subrange(buffer, ofs, bytes, 2);
    lemma_subrange_of_subrange(buffer, ofs, bytes, 3);
    lemma_subrange_of_subrange(buffer, ofs, bytes, 4);
    assert(spec_u64_at(buffer, ofs) == d.memory_type.spec_code());
    assert(spec_u64_at(buffer, ofs + 8) == d.physical_start);
    assert(spec_u64_at(buffer, ofs + 16) == d.virtual_start);
    assert(spec_u64_at(buffer, ofs + 24) == d.number_of_pages);
    assert(spec_u64_at(buffer, ofs + 32) == d.attribute);
}

/// What a memory map holder holds: the bytes of the map and what the
/// firmware reported along with them.
pub struct MemoryMapView {
    /// The whole buffer; its first `memory_map_size` bytes are the map.
    pub buffer: Seq<u8>,
    /// Size in bytes of the map in the buffer.
    pub memory_map_size: usize,
    /// Key that identifies this version of the map to the firmware.
    pub map_key: usize,
    /// Distance in bytes from one descriptor to the next.
    pub descriptor_size: usize,
    /// Version of the descriptor layout.
    pub descriptor_version: u32,
}

/// A buffer of fixed size that receives the firmware's memory map, with the
/// values that the firmware reports beside it.
pub struct MemoryMapHolder {
    memory_map_buffer: Vec<u8>,
    memory_map_size: usize,
    map_key: usize,
    descriptor_size: usize,
    descriptor_version: u32,
}

impl View for MemoryMapHolder {
    type V = MemoryMapView;

    closed spec fn view(&self) -> MemoryMapView {
        MemoryMapView {
            buffer: self.memory_map_buffer@,
            memory_map_size: self.memory_map_size,
            map_key: self.map_key,
            descriptor_size: self.descriptor_size,
            descriptor_version: self.descriptor_version,
        }
    }
}

impl MemoryMapHolder {
    /// The buffer always has exactly `MEMORY_MAP_BUFFER_SIZE` bytes.
    #[verifier::type_invariant]
    spec fn buffer_has_fixed_size(self) -> bool {
        self.memory_map_buffer@.len() == MEMORY_MAP_BUFFER_SIZE
    }

    /// An empty holder: a zeroed buffer whose whole size is offered to the
    /// firmware, and zero for the key, the descriptor size and the version.
    pub fn new() -> (r: MemoryMapHolder)
        ensures
            r@.buffer == Seq::new(MEMORY_MAP_BUFFER_SIZE as nat, |i: int| 0u8),
            r@.memory_map_size == MEMORY_MAP_BUFFER_SIZE,
            r@.map_key == 0,
            r@.descriptor_size == 0,
            r@.descriptor_version == 0,
    {
        let buffer: Vec<u8> = vec![0u8; MEMORY_MAP_BUFFER_SIZE];
        assert(buffer@ =~= Seq::new(MEMORY_MAP_BUFFER_SIZE as nat, |i: int| 0u8));
        MemoryMapHolder {
            memory_map_buffer: buffer,
            memory_map_size: MEMORY_MAP_BUFFER_SIZE,
            map_key: 0,
            descriptor_size: 0,
            descriptor_version: 0,
        }
    }

    /// An iterator over the descriptors of the map, from its first byte.
    pub fn iter(&self) -> (r: MemoryMapIterator<'_>)
        ensures
            r@.map == self@,
            r@.ofs == 0,
            r@.map.buffer.len() == MEMORY_MAP_BUFFER_SIZE,
    {
        proof {
            use_type_invariant(self);
        }
        MemoryMapIterator { map: self, ofs: 0 }
    }

    /// The bytes of the buffer.
    pub fn buffer(&self) -> (r: &[u8])
        ensures
            r@ == self@.buffer,
            r@.len() == MEMORY_MAP_BUFFER_SIZE,
    {
        proof {
            use_type_invariant(self);
        }
        self.memory_map_buffer.as_slice()
    }

    /// Size in bytes of the map in the buffer.
    pub fn memory_map_size(&self) -> (r: usize)
        ensures
            r == self@.memory_map_size,
    {
        self.memory_map_size
    }

    /// Key that identifies this version of the map to the firmware.
    pub fn map_key(&self) -> (r: usize)
        ensures
            r == self@.map_key,
    {
        self.map_key
    }

    /// Distance in bytes from one descriptor to the next.
    pub fn descriptor_size(&self) -> (r: usize)
        ensures
            r == self@.descriptor_size,
    {
        self.descriptor_size
    }

    /// Version of the descriptor layout.
    pub fn descriptor_version(&self) -> (r: u32)
        ensures
            r == self@.descriptor_version,
    {
        self.descriptor_version
    }

    /// Takes in what the firmware's memory map service wrote: the buffer's
    /// new bytes and the values it reported beside them.
    pub fn store(
        &mut self,
        buffer: &[u8],
        memory_map_size: usize,
        map_key: usize,
        descriptor_size: usize,
        descriptor_version: u32,
    )
        requires
            buffer@.len() == MEMORY_MAP_BUFFER_SIZE,
        ensures
            final(self)@ == (MemoryMapView {
                buffer: buffer@,
                memory_map_size,
                map_key,
                descriptor_size,
                descriptor_version,
            }),
    {
        let mut copy: Vec<u8> = Vec::new();
        let mut i: usize = 0;
        while i < buffer.len()
            invariant
                i <= buffer@.len(),
                copy@ == buffer@.subrange(0, i as int),
            decreases buffer@.len() - i,
        {
            copy.push(buffer[i]);
            i = i + 1;
            assert(copy@ =~= buffer@.subrange(0, i as int));
        }
        assert(copy@ =~= buffer@);
        self.memory_map_buffer = copy;
        self.memory_map_size = memory_map_size;
        self.map_key = map_key;
        self.descriptor_size = descriptor_size;
        self.descriptor_version = descriptor_version;
    }
}

impl Default for MemoryMapHolder {
    fn default() -> (r: MemoryMapHolder)
        ensures
            r@.buffer == Seq::new(MEMORY_MAP_BUFFER_SIZE as nat, |i: int| 0u8),
            r@.memory_map_size == MEMORY_MAP_BUFFER_SIZE,
            r@.map_key == 0,
            r@.descriptor_size == 0,
            r@.descriptor_version == 0,
    {
        Self::new()
    }
}

/// Where an iteration over a memory map stands.
pub struct MemoryMapIteratorView {
    /// The map being walked.
    pub map: MemoryMapView,
    /// Byte offset of the next descriptor.
    pub ofs: usize,
}

/// Walks the descriptors of a memory map, one descriptor size at a time,
/// while the offset stays below the map's size.
pub struct MemoryMapIterator<'a> {
    map: &'a MemoryMapHolder,
    ofs: usize,
}

impl<'a> View for MemoryMapIterator<'a> {
    type V = MemoryMapIteratorView;

    closed spec fn view(&self) -> MemoryMapIteratorView {
        MemoryMapIteratorView { map: self.map@, ofs: self.ofs }
    }
}

/// The descriptor that the next step of an iteration standing at `it` reads:
/// `None` once the offset has reached the map's size, and also where no
/// descriptor can be read at the offset.
pub open spec fn spec_next_descriptor(it: MemoryMapIteratorView) -> Option<EfiMemoryDescriptor> {
    if it.ofs >= it.map.memory_map_size {
        None
    } else {
        spec_descriptor_at(it.map.buffer, it.ofs as int)
    }
}

/// Where an iteration standing at `it` stands after one step: one descriptor
/// size further when a descriptor was read, where it was otherwise.
pub open spec fn spec_advance(it: MemoryMapIteratorView) -> MemoryMapIteratorView {
    if spec_next_descriptor(it) is Some {
        MemoryMapIteratorView { map: it.map, ofs: (it.ofs + it.map.descriptor_size) as usize }
    } else {
        it
    }
}

/// The iteration never ends early: while its offset is below the map's size
/// and the bytes there hold a descriptor of a known type wholly inside the
/// buffer, the step yields that descriptor, field by field as stored little
/// endian, whatever its addresses and size, and moves one descriptor size on.
pub proof fn lemma_next_yields_stored_descriptor(it: MemoryMapIteratorView)
    requires
        it.ofs < it.map.memory_map_size,
        it.ofs + 40 <= it.map.buffer.len(),
        spec_u64_at(it.map.buffer, it.ofs as int) <= 14,
    ensures
        spec_next_descriptor(it) == Some(
            EfiMemoryDescriptor {
                memory_type: EfiMemoryType::spec_from_code(
                    spec_u64_at(it.map.buffer, it.ofs as int),
                )->0,
                physical_start: spec_u64_at(it.map.buffer, it.ofs + 8),
                virtual_start: spec_u64_at(it.map.buffer, it.ofs + 16),
                number_of_pages: spec_u64_at(it.map.buffer, it.ofs + 24),
                attribute: spec_u64_at(it.map.buffer, it.ofs + 32),
            },
        ),
        it.ofs + it.map.descriptor_size <= usize::MAX ==> spec_advance(it) == (
        MemoryMapIteratorView { map: it.map, ofs: (it.ofs + it.map.descriptor_size) as usize }),
{
}

/// A descriptor that the firmware laid out at the current offset, below the
/// map's size, is exactly what the next step yields.
pub proof fn lemma_next_yields_laid_out_descriptor(
    it: MemoryMapIteratorView,
    d: EfiMemoryDescriptor,
)
    requires
        it.ofs < it.map.memory_map_size,
        it.ofs + 40 <= it.map.buffer.len(),
        it.map.buffer.subrange(it.ofs as int, it.ofs + 40) == spec_descriptor_bytes(d),
    ensures
        spec_next_descriptor(it) == Some(d),
{
    lemma_descriptor_read_back(it.map.buffer, it.ofs as int, d);
}

/// Where an iteration over `map` from its first byte stands after `k` steps.
pub open spec fn spec_walk(map: MemoryMapView, k: nat) -> MemoryMapIteratorView
    decreases k,
{
    if k == 0 {
        MemoryMapIteratorView { map, ofs: 0 }
    } else {
        spec_advance(spec_walk(map, (k - 1) as nat))
    }
}

/// Walking a map from its first byte, as long as every step yields a
/// descriptor, the `j`-th step yields the descriptor stored at byte
/// `j * descriptor_size`, which lies below the map's size.
pub proof fn lemma_walk_strides(map: MemoryMapView, k: nat)
    requires
        k * map.descriptor_size <= usize::MAX,
        forall|j: nat| j < k ==> (#[trigger] spec_next_descriptor(spec_walk(map, j))) is Some,
    ensures
        spec_walk(map, k).map == map,
        spec_walk(map, k).ofs == k * map.descriptor_size,
        forall|j: nat|
            j < k ==> {
                &&& #[trigger] spec_next_descriptor(spec_walk(map, j)) == spec_descriptor_at(
                    map.buffer,
                    j * map.descriptor_size,
                )
                &&& j * map.descriptor_size < map.memory_map_size
            },
    decreases k,
{
    if k > 0 {
        let k1 = (k - 1) as nat;
        assert(k1 * map.descriptor_size <= k * map.descriptor_size) by (nonlinear_arith)
            requires
                k1 == k - 1,
                k > 0,
        ;
        assert(k * map.descriptor_size == k1 * map.descriptor_size + map.descriptor_size)
            by (nonlinear_arith)
            requires
                k1 == k - 1,
        ;
        lemma_walk_strides(map, k1);
        let w = spec_walk(map, k1);
        assert(spec_next_descriptor(w) is Some);
        assert(spec_walk(map, k) == spec_advance(w));
        assert(w.ofs + map.descriptor_size == k * map.descriptor_size);
        assert(spec_walk(map, k).ofs == k * map.descriptor_size);
    } else {
        assert(0 * map.descriptor_size == 0) by (nonlinear_arith);
    }
}

impl<'a> MemoryMapIterator<'a> {
    /// Yields the descriptor at the current offset and moves on by one
    /// descriptor size. Stops (returns `None` and stays where it is) once the
    /// offset reaches the map's size, or where no descriptor can be read.
    pub fn next(&mut self) -> (r: Option<EfiMemoryDescriptor>)
        requires
            spec_next_descriptor(old(self)@) is Some ==> old(self)@.ofs
                + old(self)@.map.descriptor_size <= usize::MAX,
        ensures
            r == spec_next_descriptor(old(self)@),
            final(self)@ == spec_advance(old(self)@),
    {
        if self.ofs >= self.map.memory_map_size {
            return None;
        }
        let d = descriptor_at(self.map.memory_map_buffer.as_slice(), self.ofs);
        if d.is_some() {
            self.ofs = self.ofs + self.map.descriptor_size;
        }
        d
    }
}

} // verus!
