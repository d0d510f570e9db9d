//! The boot translation table: one first-level table of 4096 section
//! descriptors that maps the whole 32-bit physical address space onto itself.

use page_table_entry::MappingFlags;
use vstd::prelude::*;

verus! {

/// Number of first-level slots: one per MiB of a 4 GiB address space.
pub const ENTRY_COUNT: usize = 4096;

/// Bytes covered by one section descriptor.
pub const SECTION_SIZE: usize = 0x10_0000;

/// First slot of the device region, which starts at `0xC000_0000`.
pub const DEVICE_START: usize = 0xc00;

/// Bit of the generic mapping flags that marks readable memory.
pub open spec fn flag_read() -> usize {
    0x01
}

/// Bit of the generic mapping flags that marks writable memory.
pub open spec fn flag_write() -> usize {
    0x02
}

/// Bit of the generic mapping flags that marks executable memory.
pub open spec fn flag_execute() -> usize {
    0x04
}

/// Bit of the generic mapping flags that marks device memory.
pub open spec fn flag_device() -> usize {
    0x10
}

/// Calls `bits` on `MappingFlags::READ` of `page_table_entry`. Taken on trust:
/// the result is `0x01`, since the crate declares the flag as `1 << 0`.
#[verifier::external_body]
fn read_bits() -> (bits: usize)
    ensures
        bits == flag_read(),
{
    MappingFlags::READ.bits()
}

/// Calls `bits` on `MappingFlags::WRITE` of `page_table_entry`. Taken on trust:
/// the result is `0x02`, since the crate declares the flag as `1 << 1`.
#[verifier::external_body]
fn write_bits() -> (bits: usize)
    ensures
        bits == flag_write(),
{
    MappingFlags::WRITE.bits()
}

/// Calls `bits` on `MappingFlags::EXECUTE` of `page_table_entry`. Taken on trust:
/// the result is `0x04`, since the crate declares the flag as `1 << 2`.
#[verifier::external_body]
fn execute_bits() -> (bits: usize)
    ensures
        bits == flag_execute(),
{
    MappingFlags::EXECUTE.bits()
}

/// Calls `bits` on `MappingFlags::DEVICE` of `page_table_entry`. Taken on trust:
/// the result is `0x10`, since the crate declares the flag as `1 << 4`.
#[verifier::external_body]
fn device_bits() -> (bits: usize)
    ensures
        bits == flag_device(),
{
    MappingFlags::DEVICE.bits()
}

/// Joins two flag sets with the `|` of `MappingFlags`, between
/// `from_bits_retain` and `bits`, which keep every bit as it is. Taken on
/// trust: the result has exactly the bits that are set in either operand.
#[verifier::external_body]
fn union_bits(a: usize, b: usize) -> (bits: usize)
    ensures
        bits == a | b,
{
    (MappingFlags::from_bits_retain(a) | MappingFlags::from_bits_retain(b)).bits()
}

/// Flags of normal memory: readable, writable and executable.
pub open spec fn normal_flags() -> usize {
    flag_read() | flag_write() | flag_execute()
}

/// Flags of device memory: readable and writable, never executable.
pub open spec fn device_flags() -> usize {
    flag_read() | flag_write() | flag_device()
}

/// The two flag sets as numbers: normal memory is `0x07`, device memory is
/// `0x13`. Normal memory is executable and not device memory; device memory
/// is the reverse.
pub proof fn lemma_flag_values()
    ensures
        normal_flags() == 0x07,
        device_flags() == 0x13,
        normal_flags() & flag_execute() == flag_execute(),
        normal_flags() & flag_device() == 0,
        device_flags() & flag_device() == flag_device(),
        device_flags() & flag_execute() == 0,
{
    assert(0x01usize | 0x02usize | 0x04usize == 0x07usize) by (bit_vector);
    assert(0x01usize | 0x02usize | 0x10usize == 0x13usize) by (bit_vector);
    assert(0x07usize & 0x04usize == 0x04usize) by (bit_vector);
    assert(0x07usize & 0x10usize == 0usize) by (bit_vector);
    assert(0x13usize & 0x10usize == 0x10usize) by (bit_vector);
    assert(0x13usize & 0x04usize == 0usize) by (bit_vector);
}

/// Computes the flags of normal memory from the generic flag set.
pub fn normal_memory_flags() -> (bits: usize)
    ensures
        bits == normal_flags(),
{
    let rw: usize = union_bits(read_bits(), write_bits());
    let rwx: usize = union_bits(rw, execute_bits());
    rwx
}

/// Computes the flags of device memory from the generic flag set.
pub fn device_memory_flags() -> (bits: usize)
    ensures
        bits == device_flags(),
{
    let rw: usize = union_bits(read_bits(), write_bits());
    let rwd: usize = union_bits(rw, device_bits());
    rwd
}

/// What one descriptor is made from: the physical base address, the generic
/// mapping flags as raw bits, and whether it maps a whole section rather than
/// a small page.
#[derive(Clone, Copy, Debug, PartialEq, Eq, Structural)]
pub struct PageMapping {
    pub paddr: usize,
    pub flags: usize,
    pub is_huge: bool,
}

/// The mapping that slot `index` of the boot table holds: the section that
/// starts at `index` MiB, mapped onto itself, normal below the device region
/// and device memory from there on.
pub open spec fn boot_mapping(index: int) -> PageMapping {
    PageMapping {
        paddr: (index * SECTION_SIZE) as usize,
        flags: if index < DEVICE_START {
            normal_flags()
        } else {
            device_flags()
        },
        is_huge: true,
    }
}

/// The first-level translation table. A slot is `None` until it is populated.
pub struct BootPageTable {
    slots: [Option<PageMapping>; 4096],
}

impl View for BootPageTable {
    type V = Seq<Option<PageMapping>>;

    closed spec fn view(&self) -> Seq<Option<PageMapping>> {
        self.slots@
    }
}

impl BootPageTable {
    /// A table with every slot unpopulated.
    pub fn new() -> (table: Self)
        ensures
            table@.len() == ENTRY_COUNT,
            forall|i: int| 0 <= i < ENTRY_COUNT ==> table@[i] == None::<PageMapping>,
    {
        let empty: Option<PageMapping> = None;
        BootPageTable { slots: [empty; 4096] }
    }

    /// The content of slot `index`.
    pub fn entry(&self, index: usize) -> (slot: Option<PageMapping>)
        requires
            index < ENTRY_COUNT,
        ensures
            slot == self@[index as int],
    {
        self.slots[index]
    }

    /// Every slot holds the identity section mapping of its own MiB.
    pub open spec fn is_boot_map(&self) -> bool {
        &&& self@.len() == ENTRY_COUNT
        &&& forall|i: int| 0 <= i < ENTRY_COUNT ==> self@[i] == Some(boot_mapping(i))
    }
}

/// Populates every slot of `table`, whatever it held before, so that the whole
/// 4 GiB address space is mapped onto itself in 1 MiB sections: normal memory
/// below `0xC000_0000`, device memory from there to the top.
pub fn init_boot_page_table(table: &mut BootPageTable)
    ensures
        final(table)@.len() == ENTRY_COUNT,
        forall|i: int|
            0 <= i < DEVICE_START ==> final(table)@[i] == Some(
                (PageMapping { paddr: (i * 0x10_0000) as usize, flags: normal_flags(), is_huge: true }),
            ),
        forall|i: int|
            DEVICE_START <= i < ENTRY_COUNT ==> final(table)@[i] == Some(
                (PageMapping { paddr: (i * 0x10_0000) as usize, flags: device_flags(), is_huge: true }),
            ),
        forall|i: int|
            0 <= i < ENTRY_COUNT ==> final(table)@[i] is Some && final(table)@[i]->0.is_huge,
        final(table).is_boot_map(),
{
    let normal: usize = normal_memory_flags();
    let device: usize = device_memory_flags();
    let mut i: usize = 0;
    while i < DEVICE_START
        invariant
            i <= DEVICE_START,
            normal == normal_flags(),
            table@.len() == ENTRY_COUNT,
            forall|k: int| 0 <= k < i ==> table@[k] == Some(boot_mapping(k)),
        decreases DEVICE_START - i,
    {
        table.slots[i] = Some(PageMapping { paddr: i * SECTION_SIZE, flags: normal, is_huge: true });
        i = i + 1;
    }
    while i < ENTRY_COUNT
        invariant
            DEVICE_START <= i <= ENTRY_COUNT,
            device == device_flags(),
            table@.len() == ENTRY_COUNT,
            forall|k: int| 0 <= k < i ==> table@[k] == Some(boot_mapping(k)),
        decreases ENTRY_COUNT - i,
    {
        table.slots[i] = Some(PageMapping { paddr: i * SECTION_SIZE, flags: device, is_huge: true });
        i = i + 1;
    }
}

/// The physical address that `table` gives for the virtual address `vaddr`:
/// the base of the section that covers it plus the offset in the section, or
/// `None` where no slot covers the address, or the slot is unpopulated or
/// does not map a section.
pub open spec fn translate(table: Seq<Option<PageMapping>>, vaddr: int) -> Option<int> {
    let slot = vaddr / (SECTION_SIZE as int);
    if 0 <= slot < table.len() {
        match table[slot] {
            Some(mapping) => if mapping.is_huge {
                Some(mapping.paddr + vaddr % (SECTION_SIZE as int))
            } else {
                None
            },
            None => None,
        }
    } else {
        None
    }
}

/// Once the boot table is built, every address of the 32-bit address space
/// translates to itself.
pub proof fn lemma_identity_map(table: BootPageTable, vaddr: int)
    requires
        table.is_boot_map(),
        0 <= vaddr < 0x1_0000_0000,
    ensures
        translate(table@, vaddr) == Some(vaddr),
{
    let slot = vaddr / (SECTION_SIZE as int);
    assert(0 <= slot < ENTRY_COUNT);
    assert(table@[slot] == Some(boot_mapping(slot)));
    assert(slot * 0x10_0000 + vaddr % 0x10_0000 == vaddr);
}

/// Size of the stack that the boot core runs on until the kernel has its own.
pub const BOOT_STACK_SIZE: usize = 0x4_0000;

/// The first stack pointer: the address just above a stack region that starts
/// at `base` and is `size` bytes long.
pub fn boot_stack_top(base: usize, size: usize) -> (top: usize)
    requires
        base + size <= usize::MAX,
    ensures
        top == base + size,
{
    base + size
}

/// Where the boot core stands on its way from reset into the kernel.
#[derive(Clone, Copy, Debug, PartialEq, Eq, Structural)]
pub enum BootStage {
    /// Nothing has run; there is no stack yet.
    Reset,
    /// The stack pointer is set.
    StackReady,
    /// The translation table is populated.
    TableReady,
    /// Control is in the kernel, which is not meant to come back.
    InKernel,
    /// The kernel came back: the core spins for ever.
    Halted,
}

/// What the boot core does next.
#[derive(Clone, Copy, Debug, PartialEq, Eq, Structural)]
pub enum BootAction {
    SetStackPointer { top: usize },
    BuildPageTable,
    EnterKernel,
    Spin,
}

/// Position of a stage in the boot order.
pub open spec fn stage_rank(stage: BootStage) -> int {
    match stage {
        BootStage::Reset => 0,
        BootStage::StackReady => 1,
        BootStage::TableReady => 2,
        BootStage::InKernel => 3,
        BootStage::Halted => 4,
    }
}

/// The action taken in `stage` and the stage that follows it.
pub open spec fn boot_transition(stage: BootStage, stack_base: usize, stack_size: usize) -> (
    BootAction,
    BootStage,
) {
    match stage {
        BootStage::Reset => (
            BootAction::SetStackPointer { top: (stack_base + stack_size) as usize },
            BootStage::StackReady,
        ),
        BootStage::StackReady => (BootAction::BuildPageTable, BootStage::TableReady),
        BootStage::TableReady => (BootAction::EnterKernel, BootStage::InKernel),
        BootStage::InKernel => (BootAction::Spin, BootStage::Halted),
        BootStage::Halted => (BootAction::Spin, BootStage::Halted),
    }
}

/// One step of the boot trampoline: set the stack pointer to the top of the
/// boot stack, build the translation table, enter the kernel, and spin if the
/// kernel ever returns.
pub fn boot_step(stage: BootStage, stack_base: usize, stack_size: usize) -> (step: (
    BootAction,
    BootStage,
))
    requires
        stack_base + stack_size <= usize::MAX,
    ensures
        step == boot_transition(stage, stack_base, stack_size),
{
    match stage {
        BootStage::Reset => (
            BootAction::SetStackPointer { top: boot_stack_top(stack_base, stack_size) },
            BootStage::StackReady,
        ),
        BootStage::StackReady => (BootAction::BuildPageTable, BootStage::TableReady),
        BootStage::TableReady => (BootAction::EnterKernel, BootStage::InKernel),
        BootStage::InKernel => (BootAction::Spin, BootStage::Halted),
        BootStage::Halted => (BootAction::Spin, BootStage::Halted),
    }
}

/// The trampoline never goes back: each step leads to the next stage in
/// order, and the halted stage leads only to itself.
pub proof fn lemma_boot_order(stage: BootStage, stack_base: usize, stack_size: usize)
    ensures
        stage != BootStage::Halted ==> stage_rank(
            boot_transition(stage, stack_base, stack_size).1,
        ) == stage_rank(stage) + 1,
        stage == BootStage::Halted ==> boot_transition(stage, stack_base, stack_size) == (
            BootAction::Spin,
            BootStage::Halted,
        ),
        boot_transition(stage, stack_base, stack_size).0 == BootAction::BuildPageTable ==> stage
            == BootStage::StackReady,
        boot_transition(stage, stack_base, stack_size).0 == BootAction::EnterKernel ==> stage
            == BootStage::TableReady,
{
}

} // verus!
