//! One gate descriptor of the interrupt descriptor table, in the layout the
//! processor reads.

use vstd::prelude::*;

verus! {

/// Highest stack-table slot a descriptor can select.
pub const MAX_STACK_TABLE_INDEX: u8 = 7;

/// Highest privilege-level number.
pub const MAX_PRIVILEGE_LEVEL: u8 = 3;

/// Whether the processor masks further interrupts when it enters the handler.
#[derive(Clone, Copy, Debug, PartialEq, Eq, Structural)]
pub enum GateType {
    /// Interrupts are masked on entry.
    Interrupt,
    /// Interrupts stay as they were.
    Trap,
}

impl GateType {
    /// The four type bits of the attribute byte.
    pub open spec fn spec_type_bits(self) -> u8 {
        match self {
            GateType::Interrupt => 0xE,
            GateType::Trap => 0xF,
        }
    }

    /// The four type bits of the attribute byte.
    pub fn type_bits(self) -> (bits: u8)
        ensures
            bits == self.spec_type_bits(),
    {
        match self {
            GateType::Interrupt => 0xE,
            GateType::Trap => 0xF,
        }
    }
}

/// Which gate type four type bits stand for, if any.
pub open spec fn gate_of_type_bits(bits: u8) -> Option<GateType> {
    if bits == 0xE {
        Some(GateType::Interrupt)
    } else if bits == 0xF {
        Some(GateType::Trap)
    } else {
        None
    }
}

/// The attribute byte: type in bits 0-3, bit 4 clear, privilege level in
/// bits 5-6, present flag in bit 7.
pub open spec fn pack_attributes(type_bits: u8, privilege_level: u8, present: bool) -> u8 {
    (type_bits & 0x0F) | ((privilege_level & 0x03) << 5) | (if present {
        0x80u8
    } else {
        0u8
    })
}

/// The attribute byte of a descriptor.
#[derive(Clone, Copy, Debug, PartialEq, Eq, Structural)]
pub struct InterruptDescriptorOptions(u8);

impl InterruptDescriptorOptions {
    /// The raw attribute byte.
    pub closed spec fn bits(self) -> u8 {
        self.0
    }

    /// A byte is a valid attribute byte when bit 4 is clear and the type bits
    /// are all clear or name a gate type.
    pub open spec fn valid_bits(bits: u8) -> bool {
        &&& bits & 0x10 == 0
        &&& (bits & 0x0F == 0 || bits & 0x0F == 0xE || bits & 0x0F == 0xF)
    }

    /// The attribute byte is a valid one.
    #[verifier::type_invariant]
    pub closed spec fn well_formed(self) -> bool {
        Self::valid_bits(self.0)
    }

    /// Its gate type, read from bits 0-3.
    pub open spec fn spec_gate_type(self) -> Option<GateType> {
        gate_of_type_bits(self.bits() & 0x0F)
    }

    /// The privilege level, read from bits 5-6.
    pub open spec fn spec_privilege_level(self) -> u8 {
        (self.bits() >> 5) & 0x03
    }

    /// The present flag, read from bit 7.
    pub open spec fn spec_present(self) -> bool {
        self.bits() & 0x80 != 0
    }

    /// Options with every bit clear: no gate type, not present.
    pub fn new() -> (options: Self)
        ensures
            options.bits() == 0,
            options.well_formed(),
    {
        assert(Self::valid_bits(0u8)) by (bit_vector);
        InterruptDescriptorOptions(0)
    }

    /// Options with the given gate type, privilege level and present flag.
    pub fn from_parts(gate_type: GateType, dpl: u8, present: bool) -> (options: Self)
        requires
            dpl <= MAX_PRIVILEGE_LEVEL,
        ensures
            options.bits() == pack_attributes(gate_type.spec_type_bits(), dpl, present),
            options.spec_gate_type() == Some(gate_type),
            options.spec_privilege_level() == dpl,
            options.spec_present() == present,
            options.well_formed(),
    {
        let type_bits: u8 = gate_type.type_bits();
        let flag: u8 = if present { 0x80 } else { 0 };
        assert((type_bits == 0xE || type_bits == 0xF) && dpl <= 3 && (flag == 0x80 || flag == 0)
            ==> {
            let n = (type_bits & 0x0F) | ((dpl & 0x03) << 5) | flag;
            &&& n == type_bits | (dpl << 5) | flag
            &&& n & 0x10 == 0
            &&& n & 0x0F == type_bits
            &&& (n >> 5) & 0x03 == dpl
            &&& (n & 0x80 != 0) == (flag == 0x80)
        }) by (bit_vector);
        InterruptDescriptorOptions(type_bits | (dpl << 5) | flag)
    }

    /// The attribute byte as the processor reads it.
    pub fn raw(&self) -> (bits: u8)
        ensures
            bits == self.bits(),
            Self::valid_bits(bits),
    {
        proof {
            use_type_invariant(self);
        }
        self.0
    }

    /// Its gate type, `None` while the type bits are clear.
    pub fn gate_type(&self) -> (gate_type: Option<GateType>)
        ensures
            gate_type == self.spec_gate_type(),
    {
        let type_bits: u8 = self.0 & 0x0F;
        if type_bits == 0xE {
            Some(GateType::Interrupt)
        } else if type_bits == 0xF {
            Some(GateType::Trap)
        } else {
            None
        }
    }

    /// The privilege level in bits 5-6.
    pub fn privilege_level(&self) -> (level: u8)
        ensures
            level == self.spec_privilege_level(),
            level <= MAX_PRIVILEGE_LEVEL,
    {
        let bits: u8 = self.0;
        assert((bits >> 5) & 0x03 <= 3) by (bit_vector);
        (bits >> 5) & 0x03
    }

    /// The present flag in bit 7.
    pub fn is_present(&self) -> (present: bool)
        ensures
            present == self.spec_present(),
    {
        self.0 & 0x80 != 0
    }

    /// Replaces the type bits and leaves the other bits as they were.
    pub fn set_gate_type(&mut self, gate_type: GateType)
        ensures
            final(self).bits() == (old(self).bits() & 0xF0) | gate_type.spec_type_bits(),
            final(self).spec_gate_type() == Some(gate_type),
            final(self).spec_privilege_level() == old(self).spec_privilege_level(),
            final(self).spec_present() == old(self).spec_present(),
            final(self).well_formed(),
    {
        proof {
            use_type_invariant(&*self);
        }
        let kept: u8 = self.0 & 0xF0;
        let bits: u8 = gate_type.type_bits();
        let old_bits: u8 = self.0;
        assert(bits == 0xE || bits == 0xF);
        assert(old_bits & 0x10 == 0 && (bits == 0xE || bits == 0xF) ==> {
            let n = (old_bits & 0xF0) | bits;
            &&& n & 0x10 == 0
            &&& n & 0x0F == bits
            &&& (n >> 5) & 0x03 == (old_bits >> 5) & 0x03
            &&& (n & 0x80 != 0) == (old_bits & 0x80 != 0)
        }) by (bit_vector);
        self.0 = kept | bits;
    }
}

/// Bits 0-15 of a handler address.
pub open spec fn address_low(address: u64) -> u16 {
    (address & 0xFFFF) as u16
}

/// Bits 16-31 of a handler address.
pub open spec fn address_mid(address: u64) -> u16 {
    ((address >> 16) & 0xFFFF) as u16
}

/// Bits 32-63 of a handler address.
pub open spec fn address_high(address: u64) -> u32 {
    (address >> 32) as u32
}

/// The handler address whose three parts are given.
pub open spec fn join_address(low: u16, mid: u16, high: u32) -> u64 {
    (low as u64) | ((mid as u64) << 16) | ((high as u64) << 32)
}

/// Splitting an address into its three parts and joining them gives the
/// address back.
pub proof fn lemma_split_then_join(address: u64)
    ensures
        join_address(address_low(address), address_mid(address), address_high(address))
            == address,
{
    assert(((address & 0xFFFF) as u16 as u64) | ((((address >> 16) & 0xFFFF) as u16 as u64) << 16)
        | (((address >> 32) as u32 as u64) << 32) == address) by (bit_vector);
}

/// Joining three parts into an address and splitting it gives the parts back.
pub proof fn lemma_join_then_split(low: u16, mid: u16, high: u32)
    ensures
        address_low(join_address(low, mid, high)) == low,
        address_mid(join_address(low, mid, high)) == mid,
        address_high(join_address(low, mid, high)) == high,
{
    assert({
        let a = (low as u64) | ((mid as u64) << 16) | ((high as u64) << 32);
        &&& (a & 0xFFFF) as u16 == low
        &&& ((a >> 16) & 0xFFFF) as u16 == mid
        &&& (a >> 32) as u32 == high
    }) by (bit_vector);
}

/// What a descriptor says, field by field.
pub struct DescriptorView {
    /// Entry point of the handler.
    pub handler_address: u64,
    /// Code segment the handler runs in.
    pub segment_selector: u16,
    /// Stack-table slot to switch to on entry; 0 keeps the current stack.
    pub stack_table_index: u8,
    /// Gate type; `None` while the type bits are clear.
    pub gate_type: Option<GateType>,
    /// Lowest privilege that may raise the vector by software.
    pub privilege_level: u8,
    /// Whether the processor may use the descriptor.
    pub present: bool,
}

impl DescriptorView {
    /// The descriptor with every bit clear.
    pub open spec fn empty() -> DescriptorView {
        DescriptorView {
            handler_address: 0,
            segment_selector: 0,
            stack_table_index: 0,
            gate_type: None,
            privilege_level: 0,
            present: false,
        }
    }

    /// The four type bits.
    pub open spec fn type_bits(self) -> u8 {
        match self.gate_type {
            Some(gate_type) => gate_type.spec_type_bits(),
            None => 0,
        }
    }

    /// The attribute byte.
    pub open spec fn attribute_byte(self) -> u8 {
        pack_attributes(self.type_bits(), self.privilege_level, self.present)
    }

    /// The sixteen bytes the processor reads, lowest address first.
    pub open spec fn bytes(self) -> Seq<u8> {
        seq![
            (self.handler_address & 0xFF) as u8,
            ((self.handler_address >> 8) & 0xFF) as u8,
            (self.segment_selector & 0xFF) as u8,
            (self.segment_selector >> 8) as u8,
            self.stack_table_index,
            self.attribute_byte(),
            ((self.handler_address >> 16) & 0xFF) as u8,
            ((self.handler_address >> 24) & 0xFF) as u8,
            ((self.handler_address >> 32) & 0xFF) as u8,
            ((self.handler_address >> 40) & 0xFF) as u8,
            ((self.handler_address >> 48) & 0xFF) as u8,
            ((self.handler_address >> 56) & 0xFF) as u8,
            0u8,
            0u8,
            0u8,
            0u8,
        ]
    }
}

/// One sixteen-byte gate descriptor.
#[derive(Clone, Copy, Debug, PartialEq, Eq, Structural)]
pub struct InterruptDescriptor {
    offset1: u16,
    seg_selector: u16,
    ist: u8,
    type_attributes: InterruptDescriptorOptions,
    offset2: u16,
    offset3: u32,
    zero: u32,
}

impl View for InterruptDescriptor {
    type V = DescriptorView;

    closed spec fn view(&self) -> DescriptorView {
        DescriptorView {
            handler_address: join_address(self.offset1, self.offset2, self.offset3),
            segment_selector: self.seg_selector,
            stack_table_index: self.ist,
            gate_type: self.type_attributes.spec_gate_type(),
            privilege_level: self.type_attributes.spec_privilege_level(),
            present: self.type_attributes.spec_present(),
        }
    }
}

impl InterruptDescriptor {
    /// The reserved bits are clear, the stack-table index fits in its three
    /// bits and the attribute byte is valid.
    #[verifier::type_invariant]
    pub closed spec fn well_formed(self) -> bool {
        &&& self.ist <= MAX_STACK_TABLE_INDEX
        &&& self.zero == 0
        &&& self.type_attributes.well_formed()
    }

    /// Create an empty interrupt descriptor: every bit clear, not present.
    pub fn new() -> (descriptor: Self)
        ensures
            descriptor@ == DescriptorView::empty(),
            descriptor.well_formed(),
    {
        let descriptor = Self {
            offset1: 0,
            seg_selector: 0,
            ist: 0,
            type_attributes: InterruptDescriptorOptions::new(),
            offset2: 0,
            offset3: 0,
            zero: 0,
        };
        proof {
            assert(join_address(0, 0, 0) == 0) by (bit_vector);
            assert(0u8 & 0x0F == 0 && (0u8 >> 5) & 0x03 == 0 && 0u8 & 0x80 == 0) by (bit_vector);
        }
        descriptor
    }

    /// Stores the handler's entry point, split over the three address fields.
    /// Everything else stays as it was.
    pub fn set_address(&mut self, addr: u64)
        ensures
            final(self)@ == (DescriptorView { handler_address: addr, ..old(self)@ }),
            final(self).well_formed(),
    {
        proof {
            use_type_invariant(&*self);
            lemma_split_then_join(addr);
        }
        self.offset1 = (addr & 0xFFFF) as u16;
        self.offset2 = ((addr >> 16) & 0xFFFF) as u16;
        self.offset3 = (addr >> 32) as u32;
    }

    /// Stores the selector of the code segment the handler runs in.
    /// Everything else stays as it was.
    pub fn set_selector(&mut self, selector: u16)
        ensures
            final(self)@ == (DescriptorView { segment_selector: selector, ..old(self)@ }),
            final(self).well_formed(),
    {
        proof {
            use_type_invariant(&*self);
        }
        self.seg_selector = selector;
    }

    /// Stores gate type, stack-table index and privilege level, and marks the
    /// descriptor present. Address and selector stay as they were.
    pub fn set_options(&mut self, gate_type: GateType, ist_index: u8, dpl: u8)
        requires
            ist_index <= MAX_STACK_TABLE_INDEX,
            dpl <= MAX_PRIVILEGE_LEVEL,
        ensures
            final(self)@ == (DescriptorView {
                stack_table_index: ist_index,
                gate_type: Some(gate_type),
                privilege_level: dpl,
                present: true,
                ..old(self)@
            }),
            final(self).well_formed(),
    {
        proof {
            use_type_invariant(&*self);
        }
        self.ist = ist_index;
        self.type_attributes = InterruptDescriptorOptions::from_parts(gate_type, dpl, true);
    }

    /// Builds the present descriptor of one gate. `vector` names which gate the
    /// descriptor is meant for; its contents do not depend on it.
    pub fn encode(
        vector: u8,
        handler_addr: u64,
        selector: u16,
        gate_type: GateType,
        ist_index: u8,
        dpl: u8,
    ) -> (descriptor: Self)
        requires
            ist_index <= MAX_STACK_TABLE_INDEX,
            dpl <= MAX_PRIVILEGE_LEVEL,
        ensures
            descriptor@ == (DescriptorView {
                handler_address: handler_addr,
                segment_selector: selector,
                stack_table_index: ist_index,
                gate_type: Some(gate_type),
                privilege_level: dpl,
                present: true,
            }),
            descriptor.well_formed(),
    {
        let mut descriptor = Self::new();
        descriptor.set_address(handler_addr);
        descriptor.set_selector(selector);
        descriptor.set_options(gate_type, ist_index, dpl);
        descriptor
    }

    /// The handler's entry point.
    pub fn handler_address(&self) -> (address: u64)
        ensures
            address == self@.handler_address,
    {
        (self.offset1 as u64) | ((self.offset2 as u64) << 16) | ((self.offset3 as u64) << 32)
    }

    /// The selector of the handler's code segment.
    pub fn segment_selector(&self) -> (selector: u16)
        ensures
            selector == self@.segment_selector,
    {
        self.seg_selector
    }

    /// The stack-table slot the processor switches to on entry.
    pub fn stack_table_index(&self) -> (index: u8)
        ensures
            index == self@.stack_table_index,
            index <= MAX_STACK_TABLE_INDEX,
    {
        proof {
            use_type_invariant(self);
        }
        self.ist
    }

    /// Its gate type, `None` while the type bits are clear.
    pub fn gate_type(&self) -> (gate_type: Option<GateType>)
        ensures
            gate_type == self@.gate_type,
    {
        self.type_attributes.gate_type()
    }

    /// The lowest privilege that may raise the vector by software.
    pub fn privilege_level(&self) -> (level: u8)
        ensures
            level == self@.privilege_level,
            level <= MAX_PRIVILEGE_LEVEL,
    {
        self.type_attributes.privilege_level()
    }

    /// Whether the processor may use the descriptor.
    pub fn is_present(&self) -> (present: bool)
        ensures
            present == self@.present,
    {
        self.type_attributes.is_present()
    }

    /// The descriptor as the processor reads it: sixteen bytes, lowest
    /// address first.
    pub fn to_bytes(&self) -> (bytes: [u8; 16])
        ensures
            bytes@ == self@.bytes(),
    {
        let low: u16 = self.offset1;
        let mid: u16 = self.offset2;
        let high: u32 = self.offset3;
        let selector: u16 = self.seg_selector;
        let attributes: u8 = self.type_attributes.raw();
        proof {
            use_type_invariant(self);
            lemma_address_bytes(low, mid, high);
            lemma_attribute_byte(attributes);
        }
        let bytes: [u8; 16] = [
            (low & 0xFF) as u8,
            (low >> 8) as u8,
            (selector & 0xFF) as u8,
            (selector >> 8) as u8,
            self.ist,
            attributes,
            (mid & 0xFF) as u8,
            (mid >> 8) as u8,
            (high & 0xFF) as u8,
            ((high >> 8) & 0xFF) as u8,
            ((high >> 16) & 0xFF) as u8,
            (high >> 24) as u8,
            0,
            0,
            0,
            0,
        ];
        assert(bytes@ =~= self@.bytes());
        bytes
    }
}

/// Two well-formed descriptors that say the same are the same: no bit of a
/// well-formed descriptor is left open by what it says.
pub proof fn lemma_view_determines_descriptor(first: InterruptDescriptor, second: InterruptDescriptor)
    requires
        first.well_formed(),
        second.well_formed(),
        first@ == second@,
    ensures
        first == second,
{
    lemma_join_then_split(first.offset1, first.offset2, first.offset3);
    lemma_join_then_split(second.offset1, second.offset2, second.offset3);
    lemma_attribute_byte(first.type_attributes.0);
    lemma_attribute_byte(second.type_attributes.0);
}

/// The eight bytes of a joined address, read from its three parts.
proof fn lemma_address_bytes(low: u16, mid: u16, high: u32)
    ensures
        ({
            let address = join_address(low, mid, high);
            &&& (address & 0xFF) as u8 == (low & 0xFF) as u8
            &&& ((address >> 8) & 0xFF) as u8 == (low >> 8) as u8
            &&& ((address >> 16) & 0xFF) as u8 == (mid & 0xFF) as u8
            &&& ((address >> 24) & 0xFF) as u8 == (mid >> 8) as u8
            &&& ((address >> 32) & 0xFF) as u8 == (high & 0xFF) as u8
            &&& ((address >> 40) & 0xFF) as u8 == ((high >> 8) & 0xFF) as u8
            &&& ((address >> 48) & 0xFF) as u8 == ((high >> 16) & 0xFF) as u8
            &&& ((address >> 56) & 0xFF) as u8 == (high >> 24) as u8
        }),
{
    assert({
        let address = (low as u64) | ((mid as u64) << 16) | ((high as u64) << 32);
        &&& (address & 0xFF) as u8 == (low & 0xFF) as u8
        &&& ((address >> 8) & 0xFF) as u8 == (low >> 8) as u8
        &&& ((address >> 16) & 0xFF) as u8 == (mid & 0xFF) as u8
        &&& ((address >> 24) & 0xFF) as u8 == (mid >> 8) as u8
        &&& ((address >> 32) & 0xFF) as u8 == (high & 0xFF) as u8
        &&& ((address >> 40) & 0xFF) as u8 == ((high >> 8) & 0xFF) as u8
        &&& ((address >> 48) & 0xFF) as u8 == ((high >> 16) & 0xFF) as u8
        &&& ((address >> 56) & 0xFF) as u8 == (high >> 24) as u8
    }) by (bit_vector);
}

/// A valid attribute byte is the packing of the three fields read from it.
proof fn lemma_attribute_byte(bits: u8)
    requires
        InterruptDescriptorOptions::valid_bits(bits),
    ensures
        bits == pack_attributes(
            match gate_of_type_bits(bits & 0x0F) {
                Some(gate_type) => gate_type.spec_type_bits(),
                None => 0,
            },
            (bits >> 5) & 0x03,
            bits & 0x80 != 0,
        ),
{
    assert(bits & 0x10 == 0 ==> bits == ((bits & 0x0F) & 0x0F) | ((((bits >> 5) & 0x03) & 0x03)
        << 5) | (if bits & 0x80 != 0 {
        0x80u8
    } else {
        0u8
    })) by (bit_vector);
    assert(bits & 0x0F == 0 ==> bits & 0x10 == 0 ==> bits == (0u8 & 0x0F) | ((((bits >> 5) & 0x03)
        & 0x03) << 5) | (if bits & 0x80 != 0 {
        0x80u8
    } else {
        0u8
    })) by (bit_vector);
}

} // verus!
