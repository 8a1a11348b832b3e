//! The handler registry: which entry point serves which vector, and the
//! table that results from it.

use vstd::prelude::*;
use crate::descriptor::{DescriptorView, InterruptDescriptor};
use crate::exception::{
    DOUBLE_FAULT_VECTOR,
    gate_type_for,
    spec_gate_type_for,
    spec_stack_index_for,
    stack_index_for,
};
use crate::table::{InterruptDescriptorTable, MAX_IDT_ENTRY, RESERVED_VECTORS};

verus! {

/// Privilege level of every exception gate: raised by the processor or by
/// the kernel itself, never by less privileged code.
pub const GATE_PRIVILEGE_LEVEL: u8 = 0;

/// Entry points by vector. A vector starts unregistered, served by its
/// default stub; once registered it stays registered. Each vector has a
/// default stub of its own, since nothing but the entry point tells a stub
/// which vector trapped.
pub struct HandlerRegistry {
    handlers: [Option<u64>; MAX_IDT_ENTRY],
    default_stubs: [u64; MAX_IDT_ENTRY],
}

impl View for HandlerRegistry {
    type V = Seq<Option<u64>>;

    /// For each vector, the registered entry point, if there is one.
    closed spec fn view(&self) -> Seq<Option<u64>> {
        self.handlers@
    }
}

impl HandlerRegistry {
    /// Entry points of the default stubs, by vector.
    pub closed spec fn spec_default_stubs(&self) -> Seq<u64> {
        self.default_stubs@
    }

    /// Entry point of a vector's default stub.
    pub open spec fn spec_default_stub(&self, vector: u8) -> u64 {
        self.spec_default_stubs()[vector as int]
    }

    /// Whether a handler was registered for the vector.
    pub open spec fn spec_is_registered(&self, vector: u8) -> bool {
        self@[vector as int] is Some
    }

    /// The entry point that serves a vector: its registered handler, else
    /// the default stub.
    pub open spec fn spec_resolve(&self, vector: u8) -> u64 {
        match self@[vector as int] {
            Some(handler) => handler,
            None => self.spec_default_stub(vector),
        }
    }

    /// The descriptor that the registry gives a vector: present, at the
    /// resolved entry point, with the vector's gate type and stack-table
    /// index.
    pub open spec fn spec_descriptor(&self, vector: u8, selector: u16) -> DescriptorView {
        DescriptorView {
            handler_address: self.spec_resolve(vector),
            segment_selector: selector,
            stack_table_index: spec_stack_index_for(vector),
            gate_type: Some(spec_gate_type_for(vector)),
            privilege_level: GATE_PRIVILEGE_LEVEL,
            present: true,
        }
    }

    /// A registry holds one slot and one default stub for each of the 256
    /// vectors.
    pub proof fn lemma_len(self)
        ensures
            self@.len() == MAX_IDT_ENTRY,
            self.spec_default_stubs().len() == MAX_IDT_ENTRY,
    {
    }

    /// A registry in which no vector is registered: each vector is served
    /// by its default stub, whose entry point `default_stubs` gives.
    pub fn new(default_stubs: [u64; MAX_IDT_ENTRY]) -> (registry: Self)
        ensures
            registry@ == Seq::new(MAX_IDT_ENTRY as nat, |vector: int| None::<u64>),
            registry.spec_default_stubs() == default_stubs@,
    {
        let registry = Self { handlers: [None;MAX_IDT_ENTRY], default_stubs };
        assert(registry@ =~= Seq::new(MAX_IDT_ENTRY as nat, |vector: int| None::<u64>));
        registry
    }

    /// Registers `handler` as the entry point of `vector`. Every other
    /// vector keeps what it had, and the default stubs stay.
    pub fn register(&mut self, vector: u8, handler: u64)
        ensures
            final(self)@ == old(self)@.update(vector as int, Some(handler)),
            final(self).spec_default_stubs() == old(self).spec_default_stubs(),
            final(self).spec_is_registered(vector),
            final(self).spec_resolve(vector) == handler,
    {
        self.handlers[vector as usize] = Some(handler);
    }

    /// Whether a handler was registered for the vector.
    pub fn is_registered(&self, vector: u8) -> (registered: bool)
        ensures
            registered == self.spec_is_registered(vector),
    {
        self.handlers[vector as usize].is_some()
    }

    /// Entry point of a vector's default stub.
    pub fn default_stub(&self, vector: u8) -> (stub: u64)
        ensures
            stub == self.spec_default_stub(vector),
    {
        self.default_stubs[vector as usize]
    }

    /// The entry point that serves a vector.
    pub fn resolve(&self, vector: u8) -> (entry: u64)
        ensures
            entry == self.spec_resolve(vector),
    {
        match self.handlers[vector as usize] {
            Some(handler) => handler,
            None => self.default_stubs[vector as usize],
        }
    }

    /// The descriptor that the registry gives a vector.
    pub fn descriptor(&self, vector: u8, selector: u16) -> (descriptor: InterruptDescriptor)
        ensures
            descriptor@ == self.spec_descriptor(vector, selector),
    {
        InterruptDescriptor::encode(
            vector,
            self.resolve(vector),
            selector,
            gate_type_for(vector),
            stack_index_for(vector),
            GATE_PRIVILEGE_LEVEL,
        )
    }

    /// Writes the descriptors of the vectors reserved for CPU exceptions,
    /// 0 to 31, into `table`. The other vectors keep their descriptors.
    pub fn populate(&self, table: &mut InterruptDescriptorTable, selector: u16)
        ensures
            final(table).well_formed(),
            final(table)@.len() == MAX_IDT_ENTRY,
            forall|vector: u8|
                vector < RESERVED_VECTORS ==> (#[trigger] final(table)@[vector as int])@
                    == self.spec_descriptor(vector, selector),
            forall|vector: int|
                RESERVED_VECTORS <= vector < MAX_IDT_ENTRY ==> final(table)@[vector] == old(
                    table,
                )@[vector],
    {
        proof {
            use_type_invariant(&*table);
            table.lemma_entries();
        }
        let mut vector: u8 = 0;
        while vector < RESERVED_VECTORS as u8
            invariant
                vector <= RESERVED_VECTORS,
                table.well_formed(),
                table@.len() == MAX_IDT_ENTRY,
                forall|done: u8|
                    done < vector ==> (#[trigger] table@[done as int])@ == self.spec_descriptor(
                        done,
                        selector,
                    ),
                forall|other: int|
                    vector <= other < MAX_IDT_ENTRY ==> table@[other] == old(table)@[other],
            decreases RESERVED_VECTORS - vector,
        {
            let descriptor = self.descriptor(vector, selector);
            table.set(vector as usize, descriptor);
            vector += 1;
        }
    }
}

/// Registration goes one way: a registered vector stays registered, with
/// its handler, whatever is registered for another vector afterwards.
pub proof fn lemma_registration_is_kept(
    before: HandlerRegistry,
    after: HandlerRegistry,
    vector: u8,
    other: u8,
    handler: u64,
)
    requires
        after@ == before@.update(other as int, Some(handler)),
        after.spec_default_stubs() == before.spec_default_stubs(),
        before.spec_is_registered(vector),
    ensures
        after.spec_is_registered(vector),
        other != vector ==> after.spec_resolve(vector) == before.spec_resolve(vector),
{
    before.lemma_len();
}

/// The double fault's descriptor selects a stack-table slot that the
/// descriptor of no other vector selects.
pub proof fn lemma_double_fault_descriptor_has_own_stack(
    registry: HandlerRegistry,
    vector: u8,
    selector: u16,
)
    requires
        vector != DOUBLE_FAULT_VECTOR,
    ensures
        registry.spec_descriptor(vector, selector).stack_table_index != registry.spec_descriptor(
            DOUBLE_FAULT_VECTOR,
            selector,
        ).stack_table_index,
{
}

} // verus!
