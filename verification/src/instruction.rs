//! What the formatter reads of a decoded instruction, and the operand
//! information that says how the NASM formatter shows it.

use vstd::prelude::*;
use crate::memory_size::MEMORY_SIZE_COUNT;
use crate::register::{Register, REGISTER_COUNT, is_gpr32, is_gpr64};
use crate::text::FormatterString;

verus! {

/// The default operand and address size of the code that holds an instruction.
#[derive(Clone, Copy, Debug, PartialEq, Eq, Structural)]
pub enum CodeSize {
    Unknown,
    Code16,
    Code32,
    Code64,
}

/// A decoded instruction, as far as the formatter reads it.
pub struct Instruction {
    pub code_size: CodeSize,
    /// The number of operands of the instruction itself.
    pub op_count: u32,
    /// The segment override prefix, `Register::NONE` if there is none.
    pub segment_prefix: u32,
    /// The segment register of the memory operand.
    pub memory_segment: u32,
    pub has_xacquire_prefix: bool,
    pub has_xrelease_prefix: bool,
    pub has_lock_prefix: bool,
    pub has_repe_prefix: bool,
    pub has_repne_prefix: bool,
    /// Whether the instruction is a branch that a `ds` prefix turns into `notrack`.
    pub is_notrack_prefix_branch: bool,
    /// Whether the instruction compares, so that `rep` is written `repe`.
    pub is_repe_or_repne_instruction: bool,
    /// Whether the instruction is a call.
    pub is_call: bool,
    pub near_branch64: u64,
    pub far_branch32: u32,
    pub far_branch_selector: u16,
    pub immediate8: u8,
    pub immediate8_2nd: u8,
    pub immediate16: u16,
    pub immediate32: u32,
    pub immediate64: u64,
    /// The values of `db`, `dw`, `dd` and `dq`, one per operand.
    pub declare_values: Vec<u64>,
    pub memory_displ_size: u32,
    pub memory_base: u32,
    pub memory_index: u32,
    /// The scale as a shift: 0 to 3 for `*1` to `*8`.
    pub memory_index_scale: u32,
    pub memory_displacement64: u64,
    pub next_ip: u64,
    /// The opmask register, `Register::NONE` if there is none.
    pub op_mask: u32,
    pub zeroing_masking: bool,
}

impl Instruction {
    /// Register fields name registers, and the scale is one of the four.
    pub open spec fn wf(&self) -> bool {
        &&& self.segment_prefix < REGISTER_COUNT
        &&& self.memory_segment < REGISTER_COUNT
        &&& self.memory_base < REGISTER_COUNT
        &&& self.memory_index < REGISTER_COUNT
        &&& self.op_mask < REGISTER_COUNT
        &&& self.memory_index_scale <= 3
        &&& self.memory_displ_size <= 8
    }

    /// The 16-bit near branch target.
    pub fn near_branch16(&self) -> (r: u16)
        ensures
            r == self.near_branch64 as u16,
    {
        self.near_branch64 as u16
    }

    /// The 32-bit near branch target.
    pub fn near_branch32(&self) -> (r: u32)
        ensures
            r == self.near_branch64 as u32,
    {
        self.near_branch64 as u32
    }

    /// The 16-bit far branch offset.
    pub fn far_branch16(&self) -> (r: u16)
        ensures
            r == self.far_branch32 as u16,
    {
        self.far_branch32 as u16
    }

    /// The 8-bit immediate sign extended to 16 bits.
    pub fn immediate8to16(&self) -> (r: i16)
        ensures
            r == self.immediate8 as i8 as i16,
    {
        self.immediate8 as i8 as i16
    }

    /// The 8-bit immediate sign extended to 32 bits.
    pub fn immediate8to32(&self) -> (r: i32)
        ensures
            r == self.immediate8 as i8 as i32,
    {
        self.immediate8 as i8 as i32
    }

    /// The 8-bit immediate sign extended to 64 bits.
    pub fn immediate8to64(&self) -> (r: i64)
        ensures
            r == self.immediate8 as i8 as i64,
    {
        self.immediate8 as i8 as i64
    }

    /// The 32-bit immediate sign extended to 64 bits.
    pub fn immediate32to64(&self) -> (r: i64)
        ensures
            r == self.immediate32 as i32 as i64,
    {
        self.immediate32 as i32 as i64
    }

    /// Whether an opmask register is used.
    pub fn has_op_mask(&self) -> (r: bool)
        ensures
            r == (self.op_mask != Register::NONE),
    {
        self.op_mask != Register::NONE
    }

    /// The 32-bit displacement.
    pub fn memory_displacement32(&self) -> (r: u32)
        ensures
            r == self.memory_displacement64 as u32,
    {
        self.memory_displacement64 as u32
    }

    /// The address after the instruction, as a 32-bit value.
    pub fn next_ip32(&self) -> (r: u32)
        ensures
            r == self.next_ip as u32,
    {
        self.next_ip as u32
    }
}

/// The size in bytes of a memory operand's address, as its registers, its
/// displacement and the code size give it.
pub open spec fn address_size_in_bytes(base: u32, index: u32, displ_size: u32, code_size: CodeSize) -> u32 {
    if is_gpr64(base) || is_gpr64(index) || base == Register::RIP {
        8
    } else if is_gpr32(base) || is_gpr32(index) || base == Register::EIP {
        4
    } else if base == Register::BX || base == Register::BP || base == Register::SI || base == Register::DI
        || index == Register::SI || index == Register::DI {
        2
    } else if displ_size == 2 || displ_size == 4 || displ_size == 8 {
        displ_size
    } else {
        match code_size {
            CodeSize::Code64 => 8,
            CodeSize::Code32 => 4,
            CodeSize::Code16 => 2,
            CodeSize::Unknown => 8,
        }
    }
}

/// Computes `address_size_in_bytes`.
pub fn get_address_size_in_bytes(base: u32, index: u32, displ_size: u32, code_size: CodeSize) -> (r: u32)
    ensures
        r == address_size_in_bytes(base, index, displ_size, code_size),
{
    if (Register::RAX <= base && base <= Register::R15) || (Register::RAX <= index && index <= Register::R15)
        || base == Register::RIP {
        8
    } else if (Register::EAX <= base && base <= Register::R15D) || (Register::EAX <= index && index
        <= Register::R15D) || base == Register::EIP {
        4
    } else if base == Register::BX || base == Register::BP || base == Register::SI || base == Register::DI
        || index == Register::SI || index == Register::DI {
        2
    } else if displ_size == 2 || displ_size == 4 || displ_size == 8 {
        displ_size
    } else {
        match code_size {
            CodeSize::Code64 => 8,
            CodeSize::Code32 => 4,
            CodeSize::Code16 => 2,
            CodeSize::Unknown => 8,
        }
    }
}

/// The kind of an operand as the NASM formatter shows it.
#[derive(Clone, Copy, Debug, PartialEq, Eq, Structural)]
pub enum InstrOpKind {
    Register,
    NearBranch16,
    NearBranch32,
    NearBranch64,
    FarBranch16,
    FarBranch32,
    Immediate8,
    Immediate8_2nd,
    Immediate16,
    Immediate32,
    Immediate64,
    Immediate8to16,
    Immediate8to32,
    Immediate8to64,
    Immediate32to64,
    MemorySegSI,
    MemorySegESI,
    MemorySegRSI,
    MemorySegDI,
    MemorySegEDI,
    MemorySegRDI,
    MemoryESDI,
    MemoryESEDI,
    MemoryESRDI,
    Memory64,
    Memory,
    Sae,
    RnSae,
    RdSae,
    RuSae,
    RzSae,
    DeclareByte,
    DeclareWord,
    DeclareDword,
    DeclareQword,
}

/// The bits of `InstrOpInfo::flags`.
pub struct InstrOpInfoFlags;

impl InstrOpInfoFlags {
    pub const NONE: u32 = 0x0000_0000;
    /// A `MemorySizeInfo` value: the size keyword written inside the brackets.
    pub const MEMORY_SIZE_INFO_MASK: u32 = 0x0000_0003;
    pub const MEMORY_SIZE_INFO_SHIFT: u32 = 0x0000_0000;
    /// A `FarMemorySizeInfo` value: the keyword written before a far memory size.
    pub const FAR_MEMORY_SIZE_INFO_MASK: u32 = 0x0000_0003;
    pub const FAR_MEMORY_SIZE_INFO_SHIFT: u32 = 0x0000_0002;
    /// A register operand is written after `to`.
    pub const REGISTER_TO: u32 = 0x0000_0010;
    /// A `BranchSizeInfo` value.
    pub const BRANCH_SIZE_INFO_MASK: u32 = 0x0000_0001;
    pub const BRANCH_SIZE_INFO_SHIFT: u32 = 0x0000_0005;
    /// A `SignExtendInfo` value.
    pub const SIGN_EXTEND_INFO_MASK: u32 = 0x0000_0007;
    pub const SIGN_EXTEND_INFO_SHIFT: u32 = 0x0000_0006;
    /// The operand size and address size prefixes: 0 none, 1 to 3 for 16, 32, 64 bits.
    pub const SIZE_OVERRIDE_MASK: u32 = 0x0000_0003;
    pub const OP_SIZE_SHIFT: u32 = 0x0000_0009;
    pub const ADDR_SIZE_SHIFT: u32 = 0x0000_000B;
    pub const MEM_SIZE_NOTHING: u32 = 0x0000_2000;
    pub const SHOW_NO_MEM_SIZE_FORCE_SIZE: u32 = 0x0000_4000;
    pub const SHOW_MIN_MEM_SIZE_FORCE_SIZE: u32 = 0x0000_8000;
    pub const BND_PREFIX: u32 = 0x0001_0000;
    pub const MNEMONIC_IS_DIRECTIVE: u32 = 0x0002_0000;
}

/// The field of `flags` at `shift` under `mask`.
pub open spec fn flag_field(flags: u32, shift: u32, mask: u32) -> u32 {
    (flags >> shift) & mask
}

/// A field is at most its mask.
pub proof fn lemma_flag_field_bound(flags: u32, shift: u32, mask: u32)
    requires
        shift < 32,
    ensures
        flag_field(flags, shift, mask) <= mask,
{
    assert((flags >> shift) & mask <= mask) by (bit_vector);
}

/// The values of the `MemorySizeInfo` field.
pub struct MemorySizeInfo;

impl MemorySizeInfo {
    pub const NONE: u32 = 0;
    pub const WORD: u32 = 1;
    pub const DWORD: u32 = 2;
    pub const QWORD: u32 = 3;
}

/// The number of `FarMemorySizeInfo` values: none, `word`, `dword`.
pub const FAR_MEMORY_SIZE_INFO_COUNT: u32 = 3;

/// The values of the `SignExtendInfo` field.
pub struct SignExtendInfo;

impl SignExtendInfo {
    pub const NONE: u32 = 0;
    pub const SEX1TO2: u32 = 1;
    pub const SEX1TO4: u32 = 2;
    pub const SEX1TO8: u32 = 3;
    pub const SEX2: u32 = 4;
    pub const SEX4: u32 = 5;
    pub const SEX4TO8: u32 = 6;
    pub const SEX4TO8QWORD: u32 = 7;
}

/// How an operand is accessed.
#[derive(Clone, Copy, Debug, PartialEq, Eq, Structural)]
pub enum OpAccess {
    /// Not accessed.
    NoAccess,
    Read,
    /// Read if a condition holds.
    CondRead,
    Write,
    /// Written if a condition holds.
    CondWrite,
    ReadWrite,
    /// Read, and written if a condition holds.
    ReadCondWrite,
    /// A memory operand whose memory is not accessed.
    NoMemAccess,
}

/// The `OpAccess` with number `n`, in the order of its variants.
pub open spec fn op_access_numbered(n: int) -> Option<OpAccess> {
    if n == 0 {
        Some(OpAccess::NoAccess)
    } else if n == 1 {
        Some(OpAccess::Read)
    } else if n == 2 {
        Some(OpAccess::CondRead)
    } else if n == 3 {
        Some(OpAccess::Write)
    } else if n == 4 {
        Some(OpAccess::CondWrite)
    } else if n == 5 {
        Some(OpAccess::ReadWrite)
    } else if n == 6 {
        Some(OpAccess::ReadCondWrite)
    } else if n == 7 {
        Some(OpAccess::NoMemAccess)
    } else {
        None
    }
}

/// How the NASM formatter shows one instruction: its mnemonic, its flags and
/// its operands.
pub struct InstrOpInfo {
    pub mnemonic: FormatterString,
    pub flags: u32,
    /// The kind of each formatter operand; their number is the operand count.
    pub op_kinds: Vec<InstrOpKind>,
    /// The register of each `Register` operand.
    pub op_registers: Vec<u32>,
    /// The instruction operand of each formatter operand, negative if none.
    /// A formatter operand that is no instruction operand holds
    /// `OP_ACCESS_INVALID`, or one of the other `OP_ACCESS_` values, which
    /// says how it is accessed.
    pub op_indexes: Vec<i8>,
    /// The memory size of the memory operand.
    pub memory_size: u32,
}

impl InstrOpInfo {
    /// An operand that the formatter added, whose access is not known.
    pub const OP_ACCESS_INVALID: i8 = -1;
    pub const OP_ACCESS_NONE: i8 = -2;
    pub const OP_ACCESS_READ: i8 = -3;
    pub const OP_ACCESS_COND_READ: i8 = -4;
    pub const OP_ACCESS_WRITE: i8 = -5;
    pub const OP_ACCESS_COND_WRITE: i8 = -6;
    pub const OP_ACCESS_READ_WRITE: i8 = -7;
    pub const OP_ACCESS_READ_COND_WRITE: i8 = -8;
    pub const OP_ACCESS_NO_MEM_ACCESS: i8 = -9;

    /// The mnemonic is well formed and short, the operand lists agree in
    /// length, registers name registers, and each flag field names an entry.
    pub open spec fn wf(&self) -> bool {
        &&& self.mnemonic.wf()
        &&& self.mnemonic.lower_view().len() <= 64
        &&& self.op_kinds@.len() <= 16
        &&& self.op_registers@.len() == self.op_kinds@.len()
        &&& self.op_indexes@.len() == self.op_kinds@.len()
        &&& forall|i: int| 0 <= i < self.op_registers@.len() ==> self.op_registers@[i] < REGISTER_COUNT
        &&& self.memory_size < MEMORY_SIZE_COUNT
        &&& flag_field(
            self.flags,
            InstrOpInfoFlags::FAR_MEMORY_SIZE_INFO_SHIFT,
            InstrOpInfoFlags::FAR_MEMORY_SIZE_INFO_MASK,
        ) < FAR_MEMORY_SIZE_INFO_COUNT
    }

    /// The number of formatter operands.
    pub open spec fn op_count(&self) -> nat {
        self.op_kinds@.len()
    }

    /// The instruction operand of formatter operand `i`, if any.
    pub open spec fn instruction_index_spec(&self, i: int) -> Option<u32> {
        if self.op_indexes@[i] < 0 {
            None
        } else {
            Some(self.op_indexes@[i] as u32)
        }
    }

    /// The access of formatter operand `i` where the formatter added it:
    /// the `OpAccess` numbered `-2` minus its index.
    pub open spec fn op_access_spec(&self, i: int) -> Option<OpAccess> {
        if self.op_indexes@[i] < 0 {
            op_access_numbered(-2 - self.op_indexes@[i])
        } else {
            None
        }
    }

    /// Computes `op_access_spec`.
    pub fn op_access(&self, i: u32) -> (r: Option<OpAccess>)
        requires
            i < self.op_indexes@.len(),
        ensures
            r == self.op_access_spec(i as int),
    {
        let v = self.op_indexes[i as usize];
        if v >= -1 {
            return None;
        }
        let n: i8 = -2 - v;
        match n {
            0 => Some(OpAccess::NoAccess),
            1 => Some(OpAccess::Read),
            2 => Some(OpAccess::CondRead),
            3 => Some(OpAccess::Write),
            4 => Some(OpAccess::CondWrite),
            5 => Some(OpAccess::ReadWrite),
            6 => Some(OpAccess::ReadCondWrite),
            7 => Some(OpAccess::NoMemAccess),
            _ => None,
        }
    }

    /// Computes `instruction_index_spec`.
    pub fn instruction_index(&self, i: u32) -> (r: Option<u32>)
        requires
            i < self.op_indexes@.len(),
        ensures
            r == self.instruction_index_spec(i as int),
    {
        let v = self.op_indexes[i as usize];
        if v < 0 {
            None
        } else {
            Some(v as u32)
        }
    }
}

} // verus!
