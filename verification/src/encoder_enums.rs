//! The small enums and flag sets of the encoder.

use vstd::prelude::*;

verus! {

/// The size of an encoded displacement.
#[derive(Copy, Clone, Debug, PartialEq, Eq, Structural)]
#[allow(non_camel_case_types)]
pub enum DisplSize {
    NoDispl,
    Size1,
    Size2,
    Size4,
    Size8,
    RipRelSize4_Target32,
    RipRelSize4_Target64,
}

impl Default for DisplSize {
    fn default() -> (r: DisplSize)
        ensures
            r == DisplSize::NoDispl,
    {
        DisplSize::NoDispl
    }
}

/// The size of an encoded immediate.
#[derive(Copy, Clone, Debug, PartialEq, Eq, Structural)]
#[allow(non_camel_case_types)]
pub enum ImmSize {
    NoImm,
    Size1,
    Size2,
    Size4,
    Size8,
    /// `ENTER xxxx,yy`
    Size2_1,
    /// `EXTRQ/INSERTQ xx,yy`
    Size1_1,
    /// `CALL16 FAR x:y`
    Size2_2,
    /// `CALL32 FAR x:y`
    Size4_2,
    RipRelSize1_Target16,
    RipRelSize1_Target32,
    RipRelSize1_Target64,
    RipRelSize2_Target16,
    RipRelSize2_Target32,
    RipRelSize2_Target64,
    RipRelSize4_Target32,
    RipRelSize4_Target64,
    SizeIbReg,
    Size1OpCode,
}

impl Default for ImmSize {
    fn default() -> (r: ImmSize)
        ensures
            r == ImmSize::NoImm,
    {
        ImmSize::NoImm
    }
}

/// The opcode table of a legacy encoded instruction.
#[derive(Copy, Clone, Debug, PartialEq, Eq, Structural)]
#[allow(non_camel_case_types)]
pub enum LegacyOpCodeTable {
    MAP0,
    MAP0F,
    MAP0F38,
    MAP0F3A,
}

impl Default for LegacyOpCodeTable {
    fn default() -> (r: LegacyOpCodeTable)
        ensures
            r == LegacyOpCodeTable::MAP0,
    {
        LegacyOpCodeTable::MAP0
    }
}

/// The opcode table of a VEX encoded instruction.
#[derive(Copy, Clone, Debug, PartialEq, Eq, Structural)]
#[allow(non_camel_case_types)]
pub enum VexOpCodeTable {
    MAP0,
    MAP0F,
    MAP0F38,
    MAP0F3A,
}

impl Default for VexOpCodeTable {
    fn default() -> (r: VexOpCodeTable)
        ensures
            r == VexOpCodeTable::MAP0,
    {
        VexOpCodeTable::MAP0
    }
}

/// The opcode table of an XOP encoded instruction.
#[derive(Copy, Clone, Debug, PartialEq, Eq, Structural)]
#[allow(non_camel_case_types)]
pub enum XopOpCodeTable {
    MAP8,
    MAP9,
    MAP10,
}

impl Default for XopOpCodeTable {
    fn default() -> (r: XopOpCodeTable)
        ensures
            r == XopOpCodeTable::MAP8,
    {
        XopOpCodeTable::MAP8
    }
}

/// The opcode table of an EVEX encoded instruction.
#[derive(Copy, Clone, Debug, PartialEq, Eq, Structural)]
#[allow(non_camel_case_types)]
pub enum EvexOpCodeTable {
    MAP0F,
    MAP0F38,
    MAP0F3A,
    MAP5,
    MAP6,
}

impl Default for EvexOpCodeTable {
    fn default() -> (r: EvexOpCodeTable)
        ensures
            r == EvexOpCodeTable::MAP0F,
    {
        EvexOpCodeTable::MAP0F
    }
}

/// The opcode table of an MVEX encoded instruction.
#[derive(Copy, Clone, Debug, PartialEq, Eq, Structural)]
#[allow(non_camel_case_types)]
pub enum MvexOpCodeTable {
    MAP0F,
    MAP0F38,
    MAP0F3A,
}

impl Default for MvexOpCodeTable {
    fn default() -> (r: MvexOpCodeTable)
        ensures
            r == MvexOpCodeTable::MAP0F,
    {
        MvexOpCodeTable::MAP0F
    }
}

/// The decoder option that an instruction needs.
#[derive(Copy, Clone, Debug, PartialEq, Eq, Structural)]
#[allow(non_camel_case_types)]
pub enum DecOptionValue {
    NoOption,
    ALTINST,
    Cl1invmb,
    Cmpxchg486A,
    Cyrix,
    Cyrix_DMI,
    Cyrix_SMINT_0F7E,
    Jmpe,
    Loadall286,
    Loadall386,
    MovTr,
    MPX,
    OldFpu,
    Pcommit,
    Umov,
    Xbts,
    Udbg,
    KNC,
}

impl Default for DecOptionValue {
    fn default() -> (r: DecOptionValue)
        ensures
            r == DecOptionValue::NoOption,
    {
        DecOptionValue::NoOption
    }
}

/// How the instruction string of an opcode is formatted.
#[derive(Copy, Clone, Debug, PartialEq, Eq, Structural)]
#[allow(non_camel_case_types)]
pub enum InstrStrFmtOption {
    NoOption,
    OpMaskIsK1_or_NoGprSuffix,
    IncVecIndex,
    NoVecIndex,
    SwapVecIndex12,
    SkipOp0,
    VecIndexSameAsOpIndex,
}

impl Default for InstrStrFmtOption {
    fn default() -> (r: InstrStrFmtOption)
        ensures
            r == InstrStrFmtOption::NoOption,
    {
        InstrStrFmtOption::NoOption
    }
}

/// The `W` bit of an encoding.
#[derive(Copy, Clone, Debug, PartialEq, Eq, Structural)]
#[allow(non_camel_case_types)]
pub enum WBit {
    W0,
    W1,
    WIG,
    WIG32,
}

impl Default for WBit {
    fn default() -> (r: WBit)
        ensures
            r == WBit::W0,
    {
        WBit::W0
    }
}

/// The `L` bits of an encoding.
#[derive(Copy, Clone, Debug, PartialEq, Eq, Structural)]
#[allow(non_camel_case_types)]
pub enum LBit {
    L0,
    L1,
    LIG,
    LZ,
    L128,
    L256,
    L512,
}

impl Default for LBit {
    fn default() -> (r: LBit)
        ensures
            r == LBit::L0,
    {
        LBit::L0
    }
}

/// The bits of the `EncoderFlags` flags.
pub struct EncoderFlags;

impl EncoderFlags {
    pub const NONE: u32 = 0x0000_0000;
    pub const B: u32 = 0x0000_0001;
    pub const X: u32 = 0x0000_0002;
    pub const R: u32 = 0x0000_0004;
    pub const W: u32 = 0x0000_0008;
    pub const MOD_RM: u32 = 0x0000_0010;
    pub const SIB: u32 = 0x0000_0020;
    pub const REX: u32 = 0x0000_0040;
    pub const P66: u32 = 0x0000_0080;
    pub const P67: u32 = 0x0000_0100;
    /// `EVEX.R'`
    pub const R2: u32 = 0x0000_0200;
    pub const BROADCAST: u32 = 0x0000_0400;
    pub const HIGH_LEGACY_8_BIT_REGS: u32 = 0x0000_0800;
    pub const DISPL: u32 = 0x0000_1000;
    pub const PF0: u32 = 0x0000_2000;
    pub const REG_IS_MEMORY: u32 = 0x0000_4000;
    pub const MUST_USE_SIB: u32 = 0x0000_8000;
    pub const VVVVV_SHIFT: u32 = 0x0000_001B;
    pub const VVVVV_MASK: u32 = 0x0000_001F;
}

/// The bits of the `EncFlags1` flags.
pub struct EncFlags1;

impl EncFlags1 {
    pub const NONE: u32 = 0x0000_0000;
    pub const LEGACY_OP_MASK: u32 = 0x0000_007F;
    pub const LEGACY_OP0_SHIFT: u32 = 0x0000_0000;
    pub const LEGACY_OP1_SHIFT: u32 = 0x0000_0007;
    pub const LEGACY_OP2_SHIFT: u32 = 0x0000_000E;
    pub const LEGACY_OP3_SHIFT: u32 = 0x0000_0015;
    pub const VEX_OP_MASK: u32 = 0x0000_003F;
    pub const VEX_OP0_SHIFT: u32 = 0x0000_0000;
    pub const VEX_OP1_SHIFT: u32 = 0x0000_0006;
    pub const VEX_OP2_SHIFT: u32 = 0x0000_000C;
    pub const VEX_OP3_SHIFT: u32 = 0x0000_0012;
    pub const VEX_OP4_SHIFT: u32 = 0x0000_0018;
    pub const XOP_OP_MASK: u32 = 0x0000_001F;
    pub const XOP_OP0_SHIFT: u32 = 0x0000_0000;
    pub const XOP_OP1_SHIFT: u32 = 0x0000_0005;
    pub const XOP_OP2_SHIFT: u32 = 0x0000_000A;
    pub const XOP_OP3_SHIFT: u32 = 0x0000_000F;
    pub const EVEX_OP_MASK: u32 = 0x0000_001F;
    pub const EVEX_OP0_SHIFT: u32 = 0x0000_0000;
    pub const EVEX_OP1_SHIFT: u32 = 0x0000_0005;
    pub const EVEX_OP2_SHIFT: u32 = 0x0000_000A;
    pub const EVEX_OP3_SHIFT: u32 = 0x0000_000F;
    pub const MVEX_OP_MASK: u32 = 0x0000_000F;
    pub const MVEX_OP0_SHIFT: u32 = 0x0000_0000;
    pub const MVEX_OP1_SHIFT: u32 = 0x0000_0004;
    pub const MVEX_OP2_SHIFT: u32 = 0x0000_0008;
    pub const MVEX_OP3_SHIFT: u32 = 0x0000_000C;
    pub const IGNORES_ROUNDING_CONTROL: u32 = 0x4000_0000;
    pub const AMD_LOCK_REG_BIT: u32 = 0x8000_0000;
}

/// The bits of the `EncFlags2` flags.
pub struct EncFlags2;

impl EncFlags2 {
    pub const NONE: u32 = 0x0000_0000;
    pub const OP_CODE_SHIFT: u32 = 0x0000_0000;
    pub const OP_CODE_IS2_BYTES: u32 = 0x0001_0000;
    pub const TABLE_SHIFT: u32 = 0x0000_0011;
    pub const TABLE_MASK: u32 = 0x0000_0007;
    pub const MANDATORY_PREFIX_SHIFT: u32 = 0x0000_0014;
    pub const MANDATORY_PREFIX_MASK: u32 = 0x0000_0003;
    pub const WBIT_SHIFT: u32 = 0x0000_0016;
    pub const WBIT_MASK: u32 = 0x0000_0003;
    pub const LBIT_SHIFT: u32 = 0x0000_0018;
    pub const LBIT_MASK: u32 = 0x0000_0007;
    pub const GROUP_INDEX_SHIFT: u32 = 0x0000_001B;
    pub const GROUP_INDEX_MASK: u32 = 0x0000_0007;
    pub const HAS_MANDATORY_PREFIX: u32 = 0x4000_0000;
    pub const HAS_GROUP_INDEX: u32 = 0x8000_0000;
}

/// The bits of the `EncFlags3` flags.
pub struct EncFlags3;

impl EncFlags3 {
    pub const NONE: u32 = 0x0000_0000;
    pub const ENCODING_SHIFT: u32 = 0x0000_0000;
    pub const ENCODING_MASK: u32 = 0x0000_0007;
    pub const OPERAND_SIZE_SHIFT: u32 = 0x0000_0003;
    pub const OPERAND_SIZE_MASK: u32 = 0x0000_0003;
    pub const ADDRESS_SIZE_SHIFT: u32 = 0x0000_0005;
    pub const ADDRESS_SIZE_MASK: u32 = 0x0000_0003;
    pub const TUPLE_TYPE_SHIFT: u32 = 0x0000_0007;
    pub const TUPLE_TYPE_MASK: u32 = 0x0000_001F;
    pub const DEFAULT_OP_SIZE64: u32 = 0x0000_1000;
    pub const HAS_RM_GROUP_INDEX: u32 = 0x0000_2000;
    pub const INTEL_FORCE_OP_SIZE64: u32 = 0x0000_4000;
    pub const FWAIT: u32 = 0x0000_8000;
    pub const BIT16OR32: u32 = 0x0001_0000;
    pub const BIT64: u32 = 0x0002_0000;
    pub const LOCK: u32 = 0x0004_0000;
    pub const XACQUIRE: u32 = 0x0008_0000;
    pub const XRELEASE: u32 = 0x0010_0000;
    pub const REP: u32 = 0x0020_0000;
    pub const REPNE: u32 = 0x0040_0000;
    pub const BND: u32 = 0x0080_0000;
    pub const HINT_TAKEN: u32 = 0x0100_0000;
    pub const NOTRACK: u32 = 0x0200_0000;
    pub const BROADCAST: u32 = 0x0400_0000;
    pub const ROUNDING_CONTROL: u32 = 0x0800_0000;
    pub const SUPPRESS_ALL_EXCEPTIONS: u32 = 0x1000_0000;
    pub const OP_MASK_REGISTER: u32 = 0x2000_0000;
    pub const ZEROING_MASKING: u32 = 0x4000_0000;
    pub const REQUIRE_OP_MASK_REGISTER: u32 = 0x8000_0000;
}

/// The bits of the `OpCodeInfoFlags1` flags.
pub struct OpCodeInfoFlags1;

impl OpCodeInfoFlags1 {
    pub const NONE: u32 = 0x0000_0000;
    pub const CPL0_ONLY: u32 = 0x0000_0001;
    pub const CPL3_ONLY: u32 = 0x0000_0002;
    pub const INPUT_OUTPUT: u32 = 0x0000_0004;
    pub const NOP: u32 = 0x0000_0008;
    pub const RESERVED_NOP: u32 = 0x0000_0010;
    pub const SERIALIZING_INTEL: u32 = 0x0000_0020;
    pub const SERIALIZING_AMD: u32 = 0x0000_0040;
    pub const MAY_REQUIRE_CPL0: u32 = 0x0000_0080;
    pub const CET_TRACKED: u32 = 0x0000_0100;
    pub const NON_TEMPORAL: u32 = 0x0000_0200;
    pub const FPU_NO_WAIT: u32 = 0x0000_0400;
    pub const IGNORES_MOD_BITS: u32 = 0x0000_0800;
    pub const NO66: u32 = 0x0000_1000;
    pub const NFX: u32 = 0x0000_2000;
    pub const REQUIRES_UNIQUE_REG_NUMS: u32 = 0x0000_4000;
    pub const PRIVILEGED: u32 = 0x0000_8000;
    pub const SAVE_RESTORE: u32 = 0x0001_0000;
    pub const STACK_INSTRUCTION: u32 = 0x0002_0000;
    pub const IGNORES_SEGMENT: u32 = 0x0004_0000;
    pub const OP_MASK_READ_WRITE: u32 = 0x0008_0000;
    pub const MOD_REG_RM_STRING: u32 = 0x0010_0000;
    pub const DEC_OPTION_VALUE_MASK: u32 = 0x0000_001F;
    pub const DEC_OPTION_VALUE_SHIFT: u32 = 0x0000_0015;
    pub const FORCE_OP_SIZE64: u32 = 0x4000_0000;
    pub const REQUIRES_UNIQUE_DEST_REG_NUM: u32 = 0x8000_0000;
}

/// The bits of the `OpCodeInfoFlags2` flags.
pub struct OpCodeInfoFlags2;

impl OpCodeInfoFlags2 {
    pub const NONE: u32 = 0x0000_0000;
    pub const REAL_MODE: u32 = 0x0000_0001;
    pub const PROTECTED_MODE: u32 = 0x0000_0002;
    pub const VIRTUAL8086_MODE: u32 = 0x0000_0004;
    pub const COMPATIBILITY_MODE: u32 = 0x0000_0008;
    pub const USE_OUTSIDE_SMM: u32 = 0x0000_0010;
    pub const USE_IN_SMM: u32 = 0x0000_0020;
    pub const USE_OUTSIDE_ENCLAVE_SGX: u32 = 0x0000_0040;
    pub const USE_IN_ENCLAVE_SGX1: u32 = 0x0000_0080;
    pub const USE_IN_ENCLAVE_SGX2: u32 = 0x0000_0100;
    pub const USE_OUTSIDE_VMX_OP: u32 = 0x0000_0200;
    pub const USE_IN_VMX_ROOT_OP: u32 = 0x0000_0400;
    pub const USE_IN_VMX_NON_ROOT_OP: u32 = 0x0000_0800;
    pub const USE_OUTSIDE_SEAM: u32 = 0x0000_1000;
    pub const USE_IN_SEAM: u32 = 0x0000_2000;
    pub const TDX_NON_ROOT_GEN_UD: u32 = 0x0000_4000;
    pub const TDX_NON_ROOT_GEN_VE: u32 = 0x0000_8000;
    pub const TDX_NON_ROOT_MAY_GEN_EX: u32 = 0x0001_0000;
    pub const INTEL_VM_EXIT: u32 = 0x0002_0000;
    pub const INTEL_MAY_VM_EXIT: u32 = 0x0004_0000;
    pub const INTEL_SMM_VM_EXIT: u32 = 0x0008_0000;
    pub const AMD_VM_EXIT: u32 = 0x0010_0000;
    pub const AMD_MAY_VM_EXIT: u32 = 0x0020_0000;
    pub const TSX_ABORT: u32 = 0x0040_0000;
    pub const TSX_IMPL_ABORT: u32 = 0x0080_0000;
    pub const TSX_MAY_ABORT: u32 = 0x0100_0000;
    pub const INTEL_DECODER16OR32: u32 = 0x0200_0000;
    pub const INTEL_DECODER64: u32 = 0x0400_0000;
    pub const AMD_DECODER16OR32: u32 = 0x0800_0000;
    pub const AMD_DECODER64: u32 = 0x1000_0000;
    pub const INSTR_STR_FMT_OPTION_MASK: u32 = 0x0000_0007;
    pub const INSTR_STR_FMT_OPTION_SHIFT: u32 = 0x0000_001D;
}

/// The number of values of the enums.
pub struct IcedConstants;

impl IcedConstants {
    pub const REP_PREFIX_KIND_ENUM_COUNT: usize = 3;
}

/// An error of the library, with its message.
#[derive(Clone, Copy, Debug, PartialEq, Eq)]
pub struct IcedError {
    pub error: &'static str,
}

impl IcedError {
    /// An error with the given message.
    pub fn new(error: &'static str) -> (r: IcedError)
        ensures
            r.message() == error,
    {
        IcedError { error }
    }

    /// The message of the error.
    pub closed spec fn message(&self) -> &'static str {
        self.error
    }

    /// The message of the error.
    pub fn to_message(&self) -> (r: &'static str)
        ensures
            r == self.message(),
    {
        self.error
    }
}

/// `REP`/`REPE`/`REPNE` prefix
#[derive(Copy, Clone, Debug, PartialEq, Eq, Structural, Ord, PartialOrd, Hash)]
pub enum RepPrefixKind {
    /// No `REP`/`REPE`/`REPNE` prefix
    NoPrefix,
    /// `REP`/`REPE` prefix
    Repe,
    /// `REPNE` prefix
    Repne,
}

/// The value of a `RepPrefixKind`.
pub open spec fn rep_prefix_kind_value(k: RepPrefixKind) -> nat {
    match k {
        RepPrefixKind::NoPrefix => 0,
        RepPrefixKind::Repe => 1,
        RepPrefixKind::Repne => 2,
    }
}

/// The `RepPrefixKind` of value `v`, which is below the count.
pub open spec fn rep_prefix_kind_of(v: nat) -> RepPrefixKind {
    if v == 0 {
        RepPrefixKind::NoPrefix
    } else if v == 1 {
        RepPrefixKind::Repe
    } else {
        RepPrefixKind::Repne
    }
}

impl Default for RepPrefixKind {
    fn default() -> (r: RepPrefixKind)
        ensures
            r == RepPrefixKind::NoPrefix,
    {
        RepPrefixKind::NoPrefix
    }
}

impl RepPrefixKind {
    /// All `RepPrefixKind` values, in the order of their values.
    pub fn values() -> (r: Vec<RepPrefixKind>)
        ensures
            r@.len() == IcedConstants::REP_PREFIX_KIND_ENUM_COUNT,
            forall|i: int| 0 <= i < r@.len() ==> #[trigger] rep_prefix_kind_value(r@[i]) == i,
    {
        let mut r: Vec<RepPrefixKind> = Vec::new();
        let mut i: usize = 0;
        while i < IcedConstants::REP_PREFIX_KIND_ENUM_COUNT
            invariant
                i <= IcedConstants::REP_PREFIX_KIND_ENUM_COUNT,
                r@.len() == i,
                forall|j: int| 0 <= j < i ==> #[trigger] rep_prefix_kind_value(r@[j]) == j,
            decreases IcedConstants::REP_PREFIX_KIND_ENUM_COUNT - i,
        {
            let k = if i == 0 {
                RepPrefixKind::NoPrefix
            } else if i == 1 {
                RepPrefixKind::Repe
            } else {
                RepPrefixKind::Repne
            };
            r.push(k);
            i = i + 1;
        }
        r
    }
}

impl TryFrom<usize> for RepPrefixKind {
    type Error = IcedError;

    fn try_from(value: usize) -> (r: Result<RepPrefixKind, IcedError>) {
        if value < IcedConstants::REP_PREFIX_KIND_ENUM_COUNT {
            Ok(
                if value == 0 {
                    RepPrefixKind::NoPrefix
                } else if value == 1 {
                    RepPrefixKind::Repe
                } else {
                    RepPrefixKind::Repne
                },
            )
        } else {
            Err(IcedError::new("Invalid RepPrefixKind value"))
        }
    }
}

impl vstd::std_specs::convert::TryFromSpecImpl<usize> for RepPrefixKind {
    open spec fn obeys_try_from_spec() -> bool {
        true
    }

    open spec fn try_from_spec(v: usize) -> Result<RepPrefixKind, IcedError> {
        if v < IcedConstants::REP_PREFIX_KIND_ENUM_COUNT {
            Ok(rep_prefix_kind_of(v as nat))
        } else {
            Err(IcedError { error: "Invalid RepPrefixKind value" })
        }
    }
}


/// Converting the value of a `RepPrefixKind` back gives the same kind, and
/// exactly the values below the count convert.
pub proof fn lemma_rep_prefix_kind_try_from_value(k: RepPrefixKind, v: usize)
    ensures
        <RepPrefixKind as vstd::std_specs::convert::TryFromSpec<usize>>::try_from_spec(
            rep_prefix_kind_value(k) as usize,
        ) == Ok::<RepPrefixKind, IcedError>(k),
        <RepPrefixKind as vstd::std_specs::convert::TryFromSpec<usize>>::try_from_spec(v) is Ok <==> v
            < IcedConstants::REP_PREFIX_KIND_ENUM_COUNT,
{
}

} // verus!
