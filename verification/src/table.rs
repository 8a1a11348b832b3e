//! The interrupt descriptor table: 256 gate descriptors indexed by vector
//! number, and the operand that tells the processor where the table lies.

use vstd::prelude::*;
use crate::descriptor::{DescriptorView, InterruptDescriptor};

verus! {

/// Number of vectors, and so of descriptors in the table.
pub const MAX_IDT_ENTRY: usize = 256;

/// Size of one descriptor in bytes.
pub const DESCRIPTOR_BYTES: usize = 16;

/// Size of the whole table in bytes.
pub const TABLE_BYTES: usize = 4096;

/// Vectors below this number are reserved for CPU exceptions.
pub const RESERVED_VECTORS: usize = 32;

/// The table of gate descriptors, one per vector.
pub struct InterruptDescriptorTable {
    entries: [InterruptDescriptor; MAX_IDT_ENTRY],
}

impl View for InterruptDescriptorTable {
    type V = Seq<InterruptDescriptor>;

    closed spec fn view(&self) -> Seq<InterruptDescriptor> {
        self.entries@
    }
}

/// The bytes of a table, descriptor after descriptor, lowest address first.
pub open spec fn table_bytes(entries: Seq<InterruptDescriptor>) -> Seq<u8> {
    Seq::new(
        entries.len() * 16,
        |i: int| entries[i / 16]@.bytes()[i % 16],
    )
}

impl InterruptDescriptorTable {
    /// Every descriptor of the table is well formed.
    #[verifier::type_invariant]
    pub closed spec fn well_formed(self) -> bool {
        forall|vector: int|
            0 <= vector < MAX_IDT_ENTRY ==> (#[trigger] self.entries@[vector]).well_formed()
    }

    /// A table in which every descriptor is empty, so no vector is present.
    pub fn new() -> (table: Self)
        ensures
            table.well_formed(),
            table@.len() == MAX_IDT_ENTRY,
            forall|vector: int|
                0 <= vector < MAX_IDT_ENTRY ==> (#[trigger] table@[vector])@
                    == DescriptorView::empty(),
    {
        Self { entries: [InterruptDescriptor::new();MAX_IDT_ENTRY] }
    }

    /// The descriptor of vector `idx`.
    #[inline(always)]
    pub fn get(&self, idx: usize) -> (descriptor: InterruptDescriptor)
        requires
            idx < MAX_IDT_ENTRY,
        ensures
            descriptor == self@[idx as int],
            descriptor.well_formed(),
    {
        proof {
            use_type_invariant(self);
        }
        self.entries[idx]
    }

    /// Replaces the descriptor of vector `idx`; every other vector keeps its
    /// descriptor.
    #[inline(always)]
    pub fn set(&mut self, idx: usize, desc: InterruptDescriptor)
        requires
            idx < MAX_IDT_ENTRY,
        ensures
            final(self)@ == old(self)@.update(idx as int, desc),
            final(self).well_formed(),
    {
        proof {
            use_type_invariant(&*self);
            use_type_invariant(&desc);
        }
        self.entries[idx] = desc;
    }

    /// The table as the processor reads it: the sixteen bytes of each
    /// descriptor, vector 0 first.
    pub fn to_bytes(&self) -> (image: [u8; TABLE_BYTES])
        ensures
            image@ == table_bytes(self@),
    {
        let mut image: [u8; TABLE_BYTES] = [0u8;TABLE_BYTES];
        let mut vector: usize = 0;
        while vector < MAX_IDT_ENTRY
            invariant
                vector <= MAX_IDT_ENTRY,
                forall|i: int|
                    0 <= i < vector * 16 ==> #[trigger] image@[i] == self@[i / 16]@.bytes()[i % 16],
            decreases MAX_IDT_ENTRY - vector,
        {
            let bytes: [u8; DESCRIPTOR_BYTES] = self.entries[vector].to_bytes();
            let mut offset: usize = 0;
            while offset < DESCRIPTOR_BYTES
                invariant
                    offset <= DESCRIPTOR_BYTES,
                    vector < MAX_IDT_ENTRY,
                    bytes@ == self@[vector as int]@.bytes(),
                    forall|i: int|
                        0 <= i < vector * 16 + offset ==> #[trigger] image@[i] == self@[i
                            / 16]@.bytes()[i % 16],
                decreases DESCRIPTOR_BYTES - offset,
            {
                image[vector * DESCRIPTOR_BYTES + offset] = bytes[offset];
                offset += 1;
            }
            vector += 1;
        }
        assert(image@ =~= table_bytes(self@));
        image
    }

    /// The operand that installs this table, for a table image that lies at
    /// address `base`: its limit is the table's size in bytes minus one.
    pub fn pointer(&self, base: u64) -> (pointer: DescriptorTablePointer)
        ensures
            pointer.base == base,
            pointer.limit == TABLE_BYTES - 1,
    {
        DescriptorTablePointer { limit: (TABLE_BYTES - 1) as u16, base }
    }

    /// A table holds one descriptor for each of the 256 vectors, and in a
    /// well-formed table each of them is well formed.
    pub proof fn lemma_entries(self)
        ensures
            self@.len() == MAX_IDT_ENTRY,
            self.well_formed() ==> forall|vector: int|
                0 <= vector < MAX_IDT_ENTRY ==> (#[trigger] self@[vector]).well_formed(),
    {
    }
}

/// The vector that was written reads back as the descriptor that was
/// written, and every other vector reads back as before.
pub proof fn lemma_get_after_set(
    before: InterruptDescriptorTable,
    after: InterruptDescriptorTable,
    vector: usize,
    descriptor: InterruptDescriptor,
)
    requires
        vector < MAX_IDT_ENTRY,
        after@ == before@.update(vector as int, descriptor),
    ensures
        after@[vector as int] == descriptor,
        forall|other: int|
            0 <= other < MAX_IDT_ENTRY && other != vector ==> after@[other] == before@[other],
{
    before.lemma_entries();
}

/// The operand of the instruction that loads the descriptor-table register.
#[derive(Clone, Copy, Debug, PartialEq, Eq, Structural)]
pub struct DescriptorTablePointer {
    /// Size of the table in bytes, minus one.
    pub limit: u16,
    /// Address of the table's first byte.
    pub base: u64,
}

impl DescriptorTablePointer {
    /// The ten bytes of the operand: the limit, then the base, each lowest
    /// byte first.
    pub open spec fn spec_bytes(self) -> Seq<u8> {
        seq![
            (self.limit & 0xFF) as u8,
            (self.limit >> 8) as u8,
            (self.base & 0xFF) as u8,
            ((self.base >> 8) & 0xFF) as u8,
            ((self.base >> 16) & 0xFF) as u8,
            ((self.base >> 24) & 0xFF) as u8,
            ((self.base >> 32) & 0xFF) as u8,
            ((self.base >> 40) & 0xFF) as u8,
            ((self.base >> 48) & 0xFF) as u8,
            ((self.base >> 56) & 0xFF) as u8,
        ]
    }

    /// The operand as the processor reads it.
    pub fn to_bytes(&self) -> (bytes: [u8; 10])
        ensures
            bytes@ == self.spec_bytes(),
    {
        let limit: u16 = self.limit;
        let base: u64 = self.base;
        let bytes: [u8; 10] = [
            (limit & 0xFF) as u8,
            (limit >> 8) as u8,
            (base & 0xFF) as u8,
            ((base >> 8) & 0xFF) as u8,
            ((base >> 16) & 0xFF) as u8,
            ((base >> 24) & 0xFF) as u8,
            ((base >> 32) & 0xFF) as u8,
            ((base >> 40) & 0xFF) as u8,
            ((base >> 48) & 0xFF) as u8,
            ((base >> 56) & 0xFF) as u8,
        ];
        assert(bytes@ =~= self.spec_bytes());
        bytes
    }
}

} // verus!
