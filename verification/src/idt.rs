//! The interrupt descriptor table: gate descriptors, the table register
//! image, and the rule that assigns a handler to each of the 256 vectors.

use vstd::prelude::*;

verus! {

/// Number of vectors the processor dispatches through the table.
pub const IDT_ENTRIES: usize = 256;

/// Size in bytes of one long-mode gate descriptor.
pub const IDT_ENTRY_SIZE: usize = 16;

/// Selector of the kernel code segment every gate runs in.
pub const KERNEL_CODE_SELECTOR: u16 = 8;

/// First vector past the architecturally reserved exceptions.
pub const FIRST_INTERRUPT_VECTOR: usize = 32;

/// Vector of the general-protection fault.
pub const PROTECTION_FAULT_VECTOR: usize = 13;

/// Vector of the page fault.
pub const PAGE_FAULT_VECTOR: usize = 14;

/// Vector of the software interrupt that enters the kernel for a system call.
pub const SYSCALL_VECTOR: usize = 0x80;

/// The type/attribute byte of a gate descriptor.
#[derive(Clone, Copy, Debug, PartialEq, Eq, Structural)]
pub struct IdtFlags {
    pub bits: u8,
}

/// Attribute bit: present.
pub const IDT_PRESENT: u8 = 0x80;

/// Attribute bits: descriptor privilege level 0 (kernel).
pub const IDT_RING_0: u8 = 0x00;

/// Attribute bits: descriptor privilege level 1.
pub const IDT_RING_1: u8 = 0x20;

/// Attribute bits: descriptor privilege level 2.
pub const IDT_RING_2: u8 = 0x40;

/// Attribute bits: descriptor privilege level 3 (user).
pub const IDT_RING_3: u8 = 0x60;

/// Attribute bit: storage segment.
pub const IDT_SS: u8 = 0x10;

/// Attribute bits: interrupt gate.
pub const IDT_INTERRUPT: u8 = 0x0E;

/// Attribute bits: trap gate.
pub const IDT_TRAP: u8 = 0x0F;

impl IdtFlags {
    /// The flag set with no bit set.
    pub fn empty() -> (flags: IdtFlags)
        ensures
            flags.bits == 0,
    {
        IdtFlags { bits: 0 }
    }

    /// The flag set that holds exactly the bits of `bits`; every bit of the
    /// attribute byte has a meaning, so none is dropped.
    pub fn from_bits(bits: u8) -> (flags: IdtFlags)
        ensures
            flags.bits == bits,
    {
        IdtFlags { bits }
    }

    /// The raw attribute byte.
    pub fn bits(&self) -> (bits: u8)
        ensures
            bits == self.bits,
    {
        self.bits
    }

    /// The flags set in either operand.
    pub fn union(self, other: IdtFlags) -> (flags: IdtFlags)
        ensures
            flags.bits == self.bits | other.bits,
    {
        IdtFlags { bits: self.bits | other.bits }
    }

    /// Whether every bit of `other` is set in `self`.
    pub fn contains(&self, other: IdtFlags) -> (found: bool)
        ensures
            found == (self.bits & other.bits == other.bits),
    {
        self.bits & other.bits == other.bits
    }

    /// Whether the present bit is set.
    pub fn present(&self) -> (present: bool)
        ensures
            present == self.is_present(),
    {
        let bits: u8 = self.bits;
        assert((bits & 0x80 != 0) == (bits / 0x80 == 1)) by (bit_vector);
        bits & 0x80 != 0
    }

    /// The descriptor privilege level, 0 (kernel) to 3 (user).
    pub fn ring(&self) -> (ring: u8)
        ensures
            ring == self.privilege_level(),
    {
        let bits: u8 = self.bits;
        assert((bits >> 5) & 3 == (bits / 0x20) % 4) by (bit_vector);
        (bits >> 5) & 3
    }

    /// The type nibble: 0xE for an interrupt gate, 0xF for a trap gate.
    pub fn kind(&self) -> (kind: u8)
        ensures
            kind == self.gate_type(),
    {
        let bits: u8 = self.bits;
        assert(bits & 0xf == bits % 0x10) by (bit_vector);
        bits & 0xf
    }

    /// Whether the present bit is set.
    pub open spec fn is_present(&self) -> bool {
        self.bits / 0x80 == 1
    }

    /// The descriptor privilege level, 0 (kernel) to 3 (user).
    pub open spec fn privilege_level(&self) -> int {
        (self.bits as int / 0x20) % 4
    }

    /// The type nibble: 0xE for an interrupt gate, 0xF for a trap gate.
    pub open spec fn gate_type(&self) -> int {
        self.bits as int % 0x10
    }
}

/// The attribute every gate of the table carries: present, kernel
/// privilege, interrupt gate.
pub open spec fn kernel_interrupt_gate() -> IdtFlags {
    IdtFlags { bits: 0x8E }
}

/// Bits 0 to 15 of a handler address.
pub open spec fn offset_low(base: u64) -> u16 {
    (base % 0x1_0000) as u16
}

/// Bits 16 to 31 of a handler address.
pub open spec fn offset_middle(base: u64) -> u16 {
    ((base / 0x1_0000) % 0x1_0000) as u16
}

/// Bits 32 to 63 of a handler address.
pub open spec fn offset_high(base: u64) -> u32 {
    (base / 0x1_0000_0000) as u32
}

/// The handler address that three split offset fields stand for.
pub open spec fn join_offset(low: u16, middle: u16, high: u32) -> u64 {
    (low as int + middle as int * 0x1_0000 + high as int * 0x1_0000_0000) as u64
}

/// Splitting a handler address into its three offset fields and joining
/// them again gives the address back, for every 64-bit address.
pub proof fn lemma_offset_round_trip(base: u64)
    ensures
        join_offset(offset_low(base), offset_middle(base), offset_high(base)) == base,
{
}

/// Joining three offset fields and splitting the address again gives the
/// fields back: no two field triples stand for the same address.
pub proof fn lemma_offset_fields_unique(low: u16, middle: u16, high: u32)
    ensures
        offset_low(join_offset(low, middle, high)) == low,
        offset_middle(join_offset(low, middle, high)) == middle,
        offset_high(join_offset(low, middle, high)) == high,
{
}

/// Byte `index` of `value`, the least significant byte at index 0.
pub open spec fn le_byte(value: u64, index: u64) -> u8 {
    ((value >> (8 * index)) & 0xff) as u8
}

/// Byte `index` of `value`, the least significant byte at index 0.
fn byte_at(value: u64, index: u64) -> (byte: u8)
    requires
        index < 8,
    ensures
        byte == le_byte(value, index),
{
    let shift: u64 = 8 * index;
    assert((value >> shift) & 0xff <= 0xff) by (bit_vector);
    ((value >> shift) & 0xff) as u8
}

/// One 16-byte long-mode gate descriptor. Its two reserved fields hold zero
/// in every value of the type.
#[derive(Clone, Copy, Debug)]
pub struct IdtEntry {
    offsetl: u16,
    selector: u16,
    zero: u8,
    attribute: u8,
    offsetm: u16,
    offseth: u32,
    zero2: u32,
}

impl IdtEntry {
    #[verifier::type_invariant]
    spec fn reserved_fields_zero(&self) -> bool {
        self.zero == 0 && self.zero2 == 0
    }

    /// Bits 0 to 15 of the handler address, as stored.
    pub closed spec fn offset_low(&self) -> u16 {
        self.offsetl
    }

    /// Bits 16 to 31 of the handler address, as stored.
    pub closed spec fn offset_middle(&self) -> u16 {
        self.offsetm
    }

    /// Bits 32 to 63 of the handler address, as stored.
    pub closed spec fn offset_high(&self) -> u32 {
        self.offseth
    }

    /// The code-segment selector the handler runs in.
    pub closed spec fn code_selector(&self) -> u16 {
        self.selector
    }

    /// The type/attribute byte.
    pub closed spec fn attributes(&self) -> IdtFlags {
        IdtFlags { bits: self.attribute }
    }

    /// The handler address that the three offset fields stand for.
    pub open spec fn handler_address(&self) -> u64 {
        join_offset(self.offset_low(), self.offset_middle(), self.offset_high())
    }

    /// Every field holds zero.
    pub open spec fn is_zero(&self) -> bool {
        &&& self.offset_low() == 0
        &&& self.offset_middle() == 0
        &&& self.offset_high() == 0
        &&& self.code_selector() == 0
        &&& self.attributes().bits == 0
    }

    /// The all-zero descriptor: not present, no handler.
    pub fn new() -> (entry: IdtEntry)
        ensures
            entry.is_zero(),
            entry.handler_address() == 0,
    {
        IdtEntry {
            offsetl: 0,
            selector: 0,
            zero: 0,
            attribute: 0,
            offsetm: 0,
            offseth: 0,
            zero2: 0,
        }
    }

    /// Replaces the type/attribute byte and nothing else.
    pub fn set_flags(&mut self, flags: IdtFlags)
        ensures
            final(self).attributes() == flags,
            final(self).offset_low() == old(self).offset_low(),
            final(self).offset_middle() == old(self).offset_middle(),
            final(self).offset_high() == old(self).offset_high(),
            final(self).code_selector() == old(self).code_selector(),
    {
        proof {
            use_type_invariant(&*self);
        }
        self.attribute = flags.bits;
    }

    /// Stores the code selector and the handler address, the address split
    /// over the three offset fields; the attribute byte stays.
    pub fn set_offset(&mut self, selector: u16, base: usize)
        ensures
            final(self).code_selector() == selector,
            final(self).offset_low() == offset_low(base as u64),
            final(self).offset_middle() == offset_middle(base as u64),
            final(self).offset_high() == offset_high(base as u64),
            final(self).handler_address() == base,
            final(self).attributes() == old(self).attributes(),
    {
        let wide: u64 = base as u64;
        assert(wide & 0xffff == wide % 0x1_0000) by (bit_vector);
        assert((wide >> 16) & 0xffff == (wide / 0x1_0000) % 0x1_0000) by (bit_vector);
        assert(wide >> 32 == wide / 0x1_0000_0000) by (bit_vector);
        assert((wide >> 32) <= 0xffff_ffff) by (bit_vector);
        proof {
            use_type_invariant(&*self);
        }
        self.selector = selector;
        self.offsetl = (wide & 0xffff) as u16;
        self.offsetm = ((wide >> 16) & 0xffff) as u16;
        self.offseth = (wide >> 32) as u32;
        proof {
            lemma_offset_round_trip(wide);
        }
    }

    /// The handler address, decoded from the three offset fields.
    pub fn offset(&self) -> (base: u64)
        ensures
            base == self.handler_address(),
    {
        let low: u64 = self.offsetl as u64;
        let middle: u64 = self.offsetm as u64;
        let high: u64 = self.offseth as u64;
        assert(low | (middle << 16) | (high << 32) == low + middle * 0x1_0000 + high
            * 0x1_0000_0000) by (bit_vector)
            requires
                low <= 0xffff,
                middle <= 0xffff,
                high <= 0xffff_ffff,
        ;
        low | (middle << 16) | (high << 32)
    }

    /// The descriptor as the processor reads it: 16 bytes, each field in
    /// little-endian order, the reserved bytes zero.
    pub open spec fn encoding(&self) -> Seq<u8> {
        let low = self.offset_low() as u64;
        let selector = self.code_selector() as u64;
        let middle = self.offset_middle() as u64;
        let high = self.offset_high() as u64;
        seq![
            le_byte(low, 0),
            le_byte(low, 1),
            le_byte(selector, 0),
            le_byte(selector, 1),
            0u8,
            self.attributes().bits,
            le_byte(middle, 0),
            le_byte(middle, 1),
            le_byte(high, 0),
            le_byte(high, 1),
            le_byte(high, 2),
            le_byte(high, 3),
            0u8,
            0u8,
            0u8,
            0u8,
        ]
    }

    /// The descriptor as the processor reads it.
    pub fn to_bytes(&self) -> (bytes: [u8; 16])
        ensures
            bytes@ == self.encoding(),
    {
        proof {
            use_type_invariant(self);
        }
        let low: u64 = self.offsetl as u64;
        let selector: u64 = self.selector as u64;
        let middle: u64 = self.offsetm as u64;
        let high: u64 = self.offseth as u64;
        let reserved: u64 = self.zero2 as u64;
        assert(le_byte(0, 0) == 0 && le_byte(0, 1) == 0 && le_byte(0, 2) == 0 && le_byte(0, 3)
            == 0) by (bit_vector);
        let bytes: [u8; 16] = [
            byte_at(low, 0),
            byte_at(low, 1),
            byte_at(selector, 0),
            byte_at(selector, 1),
            self.zero,
            self.attribute,
            byte_at(middle, 0),
            byte_at(middle, 1),
            byte_at(high, 0),
            byte_at(high, 1),
            byte_at(high, 2),
            byte_at(high, 3),
            byte_at(reserved, 0),
            byte_at(reserved, 1),
            byte_at(reserved, 2),
            byte_at(reserved, 3),
        ];
        assert(bytes@ =~= self.encoding());
        bytes
    }

    /// The code-segment selector.
    pub fn selector(&self) -> (selector: u16)
        ensures
            selector == self.code_selector(),
    {
        self.selector
    }

    /// The type/attribute byte.
    pub fn flags(&self) -> (flags: IdtFlags)
        ensures
            flags == self.attributes(),
    {
        IdtFlags { bits: self.attribute }
    }
}

/// The image of the table register: the table's byte length minus one and
/// its linear address.
#[derive(Clone, Copy, Debug)]
pub struct IdtDescriptor {
    size: u16,
    offset: u64,
}

impl IdtDescriptor {
    /// The limit field: the table's byte length minus one.
    pub closed spec fn limit(&self) -> u16 {
        self.size
    }

    /// The linear address of the table's first entry.
    pub closed spec fn base(&self) -> u64 {
        self.offset
    }

    /// The image that describes no table: limit 0 at address 0.
    pub fn new() -> (descriptor: IdtDescriptor)
        ensures
            descriptor.limit() == 0,
            descriptor.base() == 0,
    {
        IdtDescriptor { size: 0, offset: 0 }
    }

    /// Describes the table `slice` that lies at linear address `base`. The
    /// limit is the byte length minus one, cut to the 16 bits of the field;
    /// up to 4096 entries nothing is cut off.
    pub fn set_slice(&mut self, slice: &[IdtEntry], base: u64)
        requires
            slice@.len() > 0,
        ensures
            final(self).limit() as int == (slice@.len() * IDT_ENTRY_SIZE - 1) % 0x1_0000,
            slice@.len() <= 4096 ==> final(self).limit() as int == slice@.len() * IDT_ENTRY_SIZE
                - 1,
            final(self).base() == base,
    {
        let low: usize = slice.len() % 4096;
        assert((slice@.len() * 16 - 1) % 0x1_0000 == (if low == 0 {
            0xffff
        } else {
            low * 16 - 1
        })) by (nonlinear_arith)
            requires
                slice@.len() > 0,
                low == slice@.len() % 4096,
        ;
        self.size = if low == 0 {
            0xffff
        } else {
            (low * IDT_ENTRY_SIZE - 1) as u16
        };
        self.offset = base;
    }

    /// The image as the load instruction reads it: 10 bytes, the limit and
    /// then the base, each in little-endian order.
    pub open spec fn encoding(&self) -> Seq<u8> {
        let limit = self.limit() as u64;
        let base = self.base();
        seq![
            le_byte(limit, 0),
            le_byte(limit, 1),
            le_byte(base, 0),
            le_byte(base, 1),
            le_byte(base, 2),
            le_byte(base, 3),
            le_byte(base, 4),
            le_byte(base, 5),
            le_byte(base, 6),
            le_byte(base, 7),
        ]
    }

    /// The image as the load instruction reads it.
    pub fn to_bytes(&self) -> (bytes: [u8; 10])
        ensures
            bytes@ == self.encoding(),
    {
        let limit: u64 = self.size as u64;
        let base: u64 = self.offset;
        let bytes: [u8; 10] = [
            byte_at(limit, 0),
            byte_at(limit, 1),
            byte_at(base, 0),
            byte_at(base, 1),
            byte_at(base, 2),
            byte_at(base, 3),
            byte_at(base, 4),
            byte_at(base, 5),
            byte_at(base, 6),
            byte_at(base, 7),
        ];
        assert(bytes@ =~= self.encoding());
        bytes
    }

    /// The limit field.
    pub fn size(&self) -> (size: u16)
        ensures
            size == self.limit(),
    {
        self.size
    }

    /// The linear address of the table.
    pub fn offset(&self) -> (base: u64)
        ensures
            base == self.base(),
    {
        self.offset
    }
}

/// The entry points a vector can be routed to.
#[derive(Clone, Copy, Debug, PartialEq, Eq, Structural)]
pub enum Handler {
    /// The fatal handler shared by the reserved exceptions.
    Exception,
    /// The general-protection fault handler, entered with an error code.
    ProtectionFault,
    /// The page fault handler, entered with an error code.
    PageFault,
    /// The handler that only returns.
    Blank,
    /// The system-call gate.
    Syscall,
}

/// The handler that serves `vector`.
pub open spec fn vector_handler(vector: int) -> Handler {
    if vector == PROTECTION_FAULT_VECTOR {
        Handler::ProtectionFault
    } else if vector == PAGE_FAULT_VECTOR {
        Handler::PageFault
    } else if vector < FIRST_INTERRUPT_VECTOR {
        Handler::Exception
    } else if vector == SYSCALL_VECTOR {
        Handler::Syscall
    } else {
        Handler::Blank
    }
}

/// The handler that serves `vector`.
pub fn handler_for(vector: u8) -> (handler: Handler)
    ensures
        handler == vector_handler(vector as int),
{
    if vector == 13 {
        Handler::ProtectionFault
    } else if vector == 14 {
        Handler::PageFault
    } else if vector < 32 {
        Handler::Exception
    } else if vector == 0x80 {
        Handler::Syscall
    } else {
        Handler::Blank
    }
}

/// The addresses of the five entry trampolines.
#[derive(Clone, Copy, Debug)]
pub struct HandlerTable {
    pub exception: usize,
    pub protection_fault: usize,
    pub page_fault: usize,
    pub blank: usize,
    pub syscall: usize,
}

impl HandlerTable {
    /// The entry address of `handler`.
    pub open spec fn entry_point(&self, handler: Handler) -> usize {
        match handler {
            Handler::Exception => self.exception,
            Handler::ProtectionFault => self.protection_fault,
            Handler::PageFault => self.page_fault,
            Handler::Blank => self.blank,
            Handler::Syscall => self.syscall,
        }
    }

    /// The entry address of `handler`.
    pub fn address(&self, handler: Handler) -> (address: usize)
        ensures
            address == self.entry_point(handler),
    {
        match handler {
            Handler::Exception => self.exception,
            Handler::ProtectionFault => self.protection_fault,
            Handler::PageFault => self.page_fault,
            Handler::Blank => self.blank,
            Handler::Syscall => self.syscall,
        }
    }
}

/// `entry` is a present kernel interrupt gate in the kernel code segment
/// whose handler lies at `address`.
pub open spec fn gate_installed(entry: IdtEntry, address: usize) -> bool {
    &&& entry.attributes() == kernel_interrupt_gate()
    &&& entry.code_selector() == KERNEL_CODE_SELECTOR
    &&& entry.handler_address() == address
    &&& entry.offset_low() == offset_low(address as u64)
    &&& entry.offset_middle() == offset_middle(address as u64)
    &&& entry.offset_high() == offset_high(address as u64)
}

/// Every vector below `end` that lies in `start..` carries a gate to its
/// handler.
pub open spec fn gates_installed(
    table: Seq<IdtEntry>,
    handlers: HandlerTable,
    start: int,
    end: int,
) -> bool {
    forall|vector: int|
        start <= vector < end ==> gate_installed(
            #[trigger] table[vector],
            handlers.entry_point(vector_handler(vector)),
        )
}

/// In a table that carries a gate to its handler at every vector, each
/// gate is present, of kernel privilege and of interrupt type, lies in the
/// kernel code segment and leads to the one handler of its vector: the
/// system-call gate at 0x80 and nowhere else, the two fault handlers at 13
/// and 14, the fatal exception handler at the other vectors below 32, and
/// the handler that only returns at the rest.
pub proof fn lemma_built_table(table: Seq<IdtEntry>, handlers: HandlerTable, vector: int)
    requires
        gates_installed(table, handlers, 0, 256),
        0 <= vector < 256,
    ensures
        table[vector].attributes().is_present(),
        table[vector].attributes().privilege_level() == 0,
        table[vector].attributes().gate_type() == IDT_INTERRUPT,
        table[vector].code_selector() == KERNEL_CODE_SELECTOR,
        table[vector].handler_address() == handlers.entry_point(vector_handler(vector)),
        vector == SYSCALL_VECTOR ==> table[vector].handler_address() == handlers.syscall,
        vector_handler(vector) is Syscall <==> vector == SYSCALL_VECTOR,
        vector_handler(vector) is ProtectionFault <==> vector == PROTECTION_FAULT_VECTOR,
        vector_handler(vector) is PageFault <==> vector == PAGE_FAULT_VECTOR,
        vector_handler(vector) is Exception <==> vector < FIRST_INTERRUPT_VECTOR && vector
            != PROTECTION_FAULT_VECTOR && vector != PAGE_FAULT_VECTOR,
        vector_handler(vector) is Blank <==> FIRST_INTERRUPT_VECTOR <= vector && vector
            != SYSCALL_VECTOR,
{
    assert(gate_installed(table[vector], handlers.entry_point(vector_handler(vector))));
}

/// Installs `address` as a kernel interrupt gate at `vector`.
fn install(idt: &mut [IdtEntry; 256], vector: usize, flags: Option<IdtFlags>, address: usize)
    requires
        vector < 256,
        flags is None ==> old(idt)@[vector as int].attributes() == kernel_interrupt_gate(),
        flags is Some ==> flags->0 == kernel_interrupt_gate(),
    ensures
        final(idt)@ =~= old(idt)@.update(vector as int, final(idt)@[vector as int]),
        gate_installed(final(idt)@[vector as int], address),
{
    let mut entry: IdtEntry = idt[vector];
    if let Some(flags) = flags {
        entry.set_flags(flags);
    }
    entry.set_offset(KERNEL_CODE_SELECTOR, address);
    idt[vector] = entry;
}

/// Builds the whole table and the register image that points at it.
///
/// Vectors 0 to 31 go to the fatal exception handler, but for 13 and 14,
/// which have handlers of their own; vectors 32 to 255 go to the handler
/// that only returns, but for 0x80, the system-call gate. Every gate is
/// present, of kernel privilege and of interrupt type, in the kernel code
/// segment. `base` is the linear address at which `idt` lies; the image is
/// ready to be loaded into the table register.
pub fn init(
    idt: &mut [IdtEntry; 256],
    idtr: &mut IdtDescriptor,
    base: u64,
    handlers: &HandlerTable,
)
    ensures
        gates_installed(final(idt)@, *handlers, 0, 256),
        final(idtr).limit() == IDT_ENTRIES * IDT_ENTRY_SIZE - 1,
        final(idtr).base() == base,
{
    idtr.set_slice(idt.as_slice(), base);

    assert(IDT_PRESENT | IDT_RING_0 | IDT_INTERRUPT == 0x8E) by (bit_vector);
    let flags = IdtFlags::from_bits(IDT_PRESENT | IDT_RING_0 | IDT_INTERRUPT);

    let mut vector: usize = 0;
    while vector < 32
        invariant
            vector <= 32,
            flags == kernel_interrupt_gate(),
            forall|v: int|
                0 <= v < vector ==> gate_installed(#[trigger] idt@[v], handlers.exception),
        decreases 32 - vector,
    {
        install(idt, vector, Some(flags), handlers.exception);
        vector += 1;
    }
    install(idt, PROTECTION_FAULT_VECTOR, None, handlers.protection_fault);
    install(idt, PAGE_FAULT_VECTOR, None, handlers.page_fault);
    assert(gates_installed(idt@, *handlers, 0, 32));
    while vector < 256
        invariant
            32 <= vector <= 256,
            flags == kernel_interrupt_gate(),
            gates_installed(idt@, *handlers, 0, 32),
            forall|v: int| 32 <= v < vector ==> gate_installed(#[trigger] idt@[v], handlers.blank),
        decreases 256 - vector,
    {
        install(idt, vector, Some(flags), handlers.blank);
        vector += 1;
    }
    install(idt, SYSCALL_VECTOR, None, handlers.syscall);
}

/// Where a table stands in its life: it is built once and then activated,
/// and not rebuilt after that.
#[derive(Clone, Copy, Debug, PartialEq, Eq, Structural)]
pub enum TableState {
    /// No gate is installed.
    Empty,
    /// Every gate is installed; the processor does not use the table yet.
    Built,
    /// The table register points at the table.
    Active,
}

/// The one table of a processor together with its register image.
#[derive(Debug)]
pub struct InterruptTable {
    entries: [IdtEntry; 256],
    register: IdtDescriptor,
    handlers: HandlerTable,
    state: TableState,
}

impl InterruptTable {
    /// The 256 descriptors, by vector.
    pub closed spec fn entries(&self) -> Seq<IdtEntry> {
        self.entries@
    }

    /// The register image.
    pub closed spec fn register(&self) -> IdtDescriptor {
        self.register
    }

    /// The entry points the table was built for.
    pub closed spec fn handlers(&self) -> HandlerTable {
        self.handlers
    }

    /// Where the table stands in its life.
    pub closed spec fn state(&self) -> TableState {
        self.state
    }

    /// A table that is not empty carries a gate to its handler at every
    /// vector, and its register image covers all 256 descriptors.
    pub open spec fn well_formed(&self) -> bool {
        &&& self.entries().len() == IDT_ENTRIES
        &&& self.state() != TableState::Empty ==> {
            &&& gates_installed(self.entries(), self.handlers(), 0, 256)
            &&& self.register().limit() == IDT_ENTRIES * IDT_ENTRY_SIZE - 1
        }
    }

    /// The empty table: every descriptor all zero, the register image zero.
    pub fn new() -> (table: InterruptTable)
        ensures
            table.well_formed(),
            table.state() == TableState::Empty,
            table.register().limit() == 0,
            table.register().base() == 0,
            forall|vector: int|
                0 <= vector < 256 ==> (#[trigger] table.entries()[vector]).is_zero(),
    {
        InterruptTable {
            entries: [IdtEntry::new();256],
            register: IdtDescriptor::new(),
            handlers: HandlerTable { exception: 0, protection_fault: 0, page_fault: 0, blank: 0, syscall: 0 },
            state: TableState::Empty,
        }
    }

    /// Installs every gate and prepares the register image for a table that
    /// lies at linear address `base`. A table that is active is not rebuilt.
    pub fn build(&mut self, base: u64, handlers: &HandlerTable)
        requires
            old(self).well_formed(),
            old(self).state() != TableState::Active,
        ensures
            final(self).well_formed(),
            final(self).state() == TableState::Built,
            final(self).handlers() == *handlers,
            gates_installed(final(self).entries(), *handlers, 0, 256),
            final(self).register().limit() == IDT_ENTRIES * IDT_ENTRY_SIZE - 1,
            final(self).register().base() == base,
    {
        init(&mut self.entries, &mut self.register, base, handlers);
        self.handlers = *handlers;
        self.state = TableState::Built;
    }

    /// Marks the table active and hands out the register image to load.
    /// Nothing in the table changes; activating once more gives the same
    /// image again.
    pub fn activate(&mut self) -> (image: IdtDescriptor)
        requires
            old(self).well_formed(),
            old(self).state() != TableState::Empty,
        ensures
            final(self).well_formed(),
            final(self).state() == TableState::Active,
            final(self).entries() == old(self).entries(),
            final(self).handlers() == old(self).handlers(),
            final(self).register() == old(self).register(),
            image == old(self).register(),
    {
        self.state = TableState::Active;
        self.register
    }

    /// The descriptor of `vector`.
    pub fn entry(&self, vector: u8) -> (entry: IdtEntry)
        ensures
            entry == self.entries()[vector as int],
    {
        self.entries[vector as usize]
    }

    /// Where the table stands in its life.
    pub fn phase(&self) -> (state: TableState)
        ensures
            state == self.state(),
    {
        self.state
    }
}

} // verus!
