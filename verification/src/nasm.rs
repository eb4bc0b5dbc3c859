//! The NASM formatter.

use vstd::prelude::*;
use crate::instruction::{
    CodeSize, FAR_MEMORY_SIZE_INFO_COUNT, InstrOpInfo, InstrOpInfoFlags, InstrOpKind, Instruction,
    MemorySizeInfo, OpAccess, SignExtendInfo, address_size_in_bytes, flag_field, get_address_size_in_bytes,
    lemma_flag_field_bound,
};
use crate::memory_size::{MEMORY_SIZE_COUNT, memory_size_broadcast, memory_size_keyword};
use crate::number::{
    format_i16, format_i32, format_i64, format_i8, format_u16, format_u16_zeroes, format_u32,
    format_u32_zeroes, format_u64, format_u64_zeroes, format_u8, format_unsigned, signed_text,
    unsigned_text,
};
use crate::options::{
    FormatterOperandOptions, FormatterOptions, MemorySizeOptions, NumberFormat,
    NumberFormattingOptions, number_format,
};
use crate::register::{REGISTER_COUNT, Register, lemma_register_names_nonempty, register_name};
use crate::symbol::{
    FormatterOptionsProvider, SymbolFlags, SymbolResolver, SymbolResult, symbol_pieces, write_symbol,
};
use crate::tables::{
    ADDR_SIZE_STRINGS, ArrayConstants, FAR_MEM_SIZE_INFO_STRINGS, FormatterConstants,
    MEM_SIZE_INFO_STRINGS, OP_SIZE_STRINGS, branch_info_keywords,
};
use crate::text::{
    DecoratorKind, FormatterOutput, FormatterString, FormatterTextKind, NumberKind, Piece, PrefixKind, TextInfo, cased,
    info_piece, lemma_text_of_append, lemma_text_of_info_piece, lemma_text_of_piece, piece, text_of,
};

verus! {

/// The options and the tables of a formatter.
struct SelfData {
    options: FormatterOptions,
    str_: FormatterConstants,
    vec_: ArrayConstants,
}

impl SelfData {
    spec fn wf(&self) -> bool {
        self.str_.wf() && self.vec_.wf()
    }
}

/// Formats instructions in NASM syntax.
pub struct NasmFormatter<'a> {
    d: SelfData,
    symbol_resolver: Option<&'a mut dyn SymbolResolver>,
    options_provider: Option<&'a mut dyn FormatterOptionsProvider>,
}

// ---------------------------------------------------------------------------
// What each part of the output is.

/// A keyword in the case that the options ask for.
pub open spec fn keyword_text(o: FormatterOptions, s: Seq<char>) -> Seq<char> {
    cased(s, o.upper_case_keywords || o.upper_case_all)
}

/// A keyword.
pub open spec fn keyword_pieces(o: FormatterOptions, s: Seq<char>) -> Seq<Piece> {
    piece(keyword_text(o, s), FormatterTextKind::Keyword)
}

/// Decorator `s`, which is decorator `kind`, in braces, such as `{z}`.
pub open spec fn decorator_pieces(o: FormatterOptions, s: Seq<char>, kind: DecoratorKind) -> Seq<Piece> {
    piece("{"@, FormatterTextKind::Punctuation) + info_piece(
        cased(s, o.upper_case_decorators || o.upper_case_all),
        FormatterTextKind::Decorator,
        TextInfo::Decorator(kind),
    ) + piece("}"@, FormatterTextKind::Punctuation)
}

/// The name of register `r` in the case that the options ask for.
pub open spec fn register_text(o: FormatterOptions, r: int) -> Seq<char> {
    cased(register_name(r), o.upper_case_registers || o.upper_case_all)
}

/// Register `r`.
pub open spec fn register_pieces(o: FormatterOptions, r: int) -> Seq<Piece> {
    info_piece(register_text(o, r), FormatterTextKind::Register, TextInfo::Register(r as u32))
}

/// A keyword and a space.
pub open spec fn keyword_space_pieces(o: FormatterOptions, s: Seq<char>) -> Seq<Piece> {
    keyword_pieces(o, s) + piece(" "@, FormatterTextKind::Text)
}

/// Each keyword of `ks` followed by a space.
pub open spec fn keywords_pieces(o: FormatterOptions, ks: Seq<Seq<char>>) -> Seq<Piece>
    decreases ks.len(),
{
    if ks.len() == 0 {
        Seq::empty()
    } else {
        keywords_pieces(o, ks.drop_last()) + keyword_space_pieces(o, ks.last())
    }
}

/// The size keyword that shows how an immediate is sign extended, and a
/// space, where the options ask for it and the flags give one.
#[verifier::opaque]
pub open spec fn sign_extend_pieces(o: FormatterOptions, flags: u32) -> Seq<Piece> {
    let sex = flag_field(flags, InstrOpInfoFlags::SIGN_EXTEND_INFO_SHIFT, InstrOpInfoFlags::SIGN_EXTEND_INFO_MASK);
    if !o.nasm_show_sign_extended_immediate_size || sex == SignExtendInfo::NONE {
        Seq::empty()
    } else if sex <= SignExtendInfo::SEX1TO8 {
        keyword_space_pieces(o, "byte"@)
    } else if sex == SignExtendInfo::SEX2 {
        keyword_space_pieces(o, "word"@)
    } else if sex == SignExtendInfo::SEX4 {
        keyword_space_pieces(o, "dword"@)
    } else {
        keyword_space_pieces(o, "qword"@)
    }
}

/// The branch size keywords that the flags give, each with a space, unless
/// the operand options leave out the branch size.
#[verifier::opaque]
pub open spec fn flow_control_pieces(o: FormatterOptions, flags: u32, op: FormatterOperandOptions) -> Seq<Piece> {
    if op.no_branch_size {
        Seq::empty()
    } else {
        keywords_pieces(
            o,
            branch_info_keywords(
                flag_field(
                    flags,
                    InstrOpInfoFlags::BRANCH_SIZE_INFO_SHIFT,
                    InstrOpInfoFlags::BRANCH_SIZE_INFO_MASK,
                ) as int,
            ),
        )
    }
}

/// Whether the size of a memory operand is written: the operand options do
/// not say never, the flags do not say nothing, the size has a keyword, and
/// the options always show it or the flags force it at their level.
pub open spec fn shows_memory_size(mem_size: u32, flags: u32, op: FormatterOperandOptions) -> bool {
    &&& op.memory_size_options != MemorySizeOptions::Never
    &&& flags & InstrOpInfoFlags::MEM_SIZE_NOTHING == 0
    &&& memory_size_keyword(mem_size as int).len() != 0
    &&& (op.memory_size_options == MemorySizeOptions::Default ==> flags & InstrOpInfoFlags::SHOW_NO_MEM_SIZE_FORCE_SIZE != 0)
    &&& (op.memory_size_options == MemorySizeOptions::Minimum ==> flags & InstrOpInfoFlags::SHOW_MIN_MEM_SIZE_FORCE_SIZE != 0)
}

/// The size of a memory operand where it is shown: the far keyword that the
/// flags give, if any, then the size keyword, each with a space.
#[verifier::opaque]
pub open spec fn memory_size_pieces(o: FormatterOptions, mem_size: u32, flags: u32, op: FormatterOperandOptions) -> Seq<
    Piece,
> {
    if shows_memory_size(mem_size, flags, op) {
        let far = FAR_MEM_SIZE_INFO_STRINGS@[flag_field(
            flags,
            InstrOpInfoFlags::FAR_MEMORY_SIZE_INFO_SHIFT,
            InstrOpInfoFlags::FAR_MEMORY_SIZE_INFO_MASK,
        ) as int]@;
        (if far.len() != 0 {
            keyword_space_pieces(o, far)
        } else {
            Seq::empty()
        }) + keyword_space_pieces(o, memory_size_keyword(mem_size as int))
    } else {
        Seq::empty()
    }
}


/// The options of `format_mnemonic_options`.
pub struct FormatMnemonicOptions;

impl FormatMnemonicOptions {
    pub const NONE: u32 = 0x0000_0000;
    /// Leave out the prefixes.
    pub const NO_PREFIXES: u32 = 0x0000_0001;
    /// Leave out the mnemonic.
    pub const NO_MNEMONIC: u32 = 0x0000_0002;
}

/// A prefix as it is written: its text in lower case and which prefix it is.
pub type PrefixText = (Seq<char>, PrefixKind);

/// Which segment prefix a segment register is.
pub open spec fn segment_prefix_kind(seg: u32) -> PrefixKind {
    if seg == Register::ES {
        PrefixKind::ES
    } else if seg == Register::CS {
        PrefixKind::CS
    } else if seg == Register::SS {
        PrefixKind::SS
    } else if seg == Register::DS {
        PrefixKind::DS
    } else if seg == Register::FS {
        PrefixKind::FS
    } else {
        PrefixKind::GS
    }
}

/// A prefix in the case that the options ask for, which says which prefix it is.
pub open spec fn prefix_piece(o: FormatterOptions, t: PrefixText) -> Seq<Piece> {
    info_piece(cased(t.0, o.upper_case_prefixes || o.upper_case_all), FormatterTextKind::Prefix, TextInfo::Prefix(t.1))
}

/// `seq![s]` if `b` holds, else nothing.
pub open spec fn seq_if(b: bool, s: Seq<char>, kind: PrefixKind) -> Seq<PrefixText> {
    if b {
        seq![(s, kind)]
    } else {
        Seq::empty()
    }
}

/// Whether an operand kind is a memory operand with a segment register.
pub open spec fn is_segment_memory(k: InstrOpKind) -> bool {
    match k {
        InstrOpKind::MemorySegSI | InstrOpKind::MemorySegESI | InstrOpKind::MemorySegRSI
        | InstrOpKind::MemorySegDI | InstrOpKind::MemorySegEDI | InstrOpKind::MemorySegRDI
        | InstrOpKind::Memory64 | InstrOpKind::Memory => true,
        _ => false,
    }
}

/// A segment override is written as a prefix only where no operand is a
/// memory operand that shows it.
pub open spec fn shows_segment_prefix(op_info: InstrOpInfo) -> bool {
    forall|i: int| 0 <= i < op_info.op_kinds@.len() ==> !is_segment_memory(#[trigger] op_info.op_kinds@[i])
}

/// The prefixes of an instruction up to `lock`, in the order they are
/// written: operand size, address size, segment (unless it is shown in a
/// memory operand or is a `notrack`), `xacquire`, `xrelease`, `lock`.
pub open spec fn prefix_texts_first(instruction: Instruction, op_info: InstrOpInfo) -> Seq<PrefixText> {
    let flags = op_info.flags;
    let op = OP_SIZE_STRINGS@[flag_field(flags, InstrOpInfoFlags::OP_SIZE_SHIFT, InstrOpInfoFlags::SIZE_OVERRIDE_MASK) as int]@;
    let ad = ADDR_SIZE_STRINGS@[flag_field(flags, InstrOpInfoFlags::ADDR_SIZE_SHIFT, InstrOpInfoFlags::SIZE_OVERRIDE_MASK) as int]@;
    let seg = instruction.segment_prefix;
    let has_notrack = seg == Register::DS && instruction.is_notrack_prefix_branch;
    seq_if(op.len() != 0, op, PrefixKind::OperandSize) + seq_if(ad.len() != 0, ad, PrefixKind::AddressSize) + seq_if(
        !has_notrack && seg != Register::NONE && shows_segment_prefix(op_info),
        register_name(seg as int),
        segment_prefix_kind(seg),
    ) + seq_if(instruction.has_xacquire_prefix, "xacquire"@, PrefixKind::Xacquire) + seq_if(
        instruction.has_xrelease_prefix,
        "xrelease"@,
        PrefixKind::Xrelease,
    ) + seq_if(instruction.has_lock_prefix, "lock"@, PrefixKind::Lock)
}

/// The prefixes of an instruction from `rep` on: `rep` or `repe`, `repne`
/// (unless it is `bnd`), `notrack`, `bnd`.
pub open spec fn prefix_texts_last(instruction: Instruction, op_info: InstrOpInfo) -> Seq<PrefixText> {
    let has_bnd = op_info.flags & InstrOpInfoFlags::BND_PREFIX != 0;
    let has_notrack = instruction.segment_prefix == Register::DS && instruction.is_notrack_prefix_branch;
    (if instruction.is_repe_or_repne_instruction {
        seq_if(instruction.has_repe_prefix, "repe"@, PrefixKind::Repe)
    } else {
        seq_if(instruction.has_repe_prefix, "rep"@, PrefixKind::Rep)
    }) + seq_if(instruction.has_repne_prefix && !has_bnd, "repne"@, PrefixKind::Repne) + seq_if(
        has_notrack,
        "notrack"@,
        PrefixKind::Notrack,
    ) + seq_if(has_bnd, "bnd"@, PrefixKind::Bnd)
}

/// The prefixes of an instruction, in the order they are written.
pub open spec fn prefix_texts(instruction: Instruction, op_info: InstrOpInfo) -> Seq<PrefixText> {
    prefix_texts_first(instruction, op_info) + prefix_texts_last(instruction, op_info)
}

/// Prefixes separated by spaces.
pub open spec fn prefix_pieces(o: FormatterOptions, texts: Seq<PrefixText>) -> Seq<Piece>
    decreases texts.len(),
{
    if texts.len() == 0 {
        Seq::empty()
    } else {
        prefix_pieces(o, texts.drop_last()) + (if texts.len() > 1 {
            piece(" "@, FormatterTextKind::Text)
        } else {
            Seq::empty()
        }) + prefix_piece(o, texts.last())
    }
}

/// The column after prefixes written from column `c`, counted as a `u32`
/// that wraps around.
pub open spec fn prefix_column(c: u32, texts: Seq<PrefixText>) -> u32
    decreases texts.len(),
{
    if texts.len() == 0 {
        c
    } else {
        let c1 = prefix_column(c, texts.drop_last());
        let c2 = if texts.len() > 1 {
            c1.wrapping_add(1)
        } else {
            c1
        };
        c2.wrapping_add(texts.last().0.len() as u32)
    }
}

/// The prefixes that `format_mnemonic` writes with these mnemonic options.
pub open spec fn written_prefix_texts(instruction: Instruction, op_info: InstrOpInfo, mnemonic_options: u32) -> Seq<
    PrefixText,
> {
    if mnemonic_options & FormatMnemonicOptions::NO_PREFIXES == 0 && op_info.flags
        & InstrOpInfoFlags::MNEMONIC_IS_DIRECTIVE == 0 {
        prefix_texts(instruction, op_info)
    } else {
        Seq::empty()
    }
}

/// The mnemonic, as a directive or as a mnemonic, in the case the options ask for.
pub open spec fn mnemonic_text_pieces(o: FormatterOptions, op_info: InstrOpInfo) -> Seq<Piece> {
    if op_info.flags & InstrOpInfoFlags::MNEMONIC_IS_DIRECTIVE != 0 {
        piece(cased(op_info.mnemonic.lower_view(), o.upper_case_keywords || o.upper_case_all), FormatterTextKind::Directive)
    } else {
        piece(cased(op_info.mnemonic.lower_view(), o.upper_case_mnemonics || o.upper_case_all), FormatterTextKind::Mnemonic)
    }
}

/// The prefixes and the mnemonic: the prefixes separated by spaces (unless
/// left out or the mnemonic is a directive), then, unless left out, a space
/// after any prefix and the mnemonic.
pub open spec fn mnemonic_pieces(
    o: FormatterOptions,
    instruction: Instruction,
    op_info: InstrOpInfo,
    mnemonic_options: u32,
) -> Seq<Piece> {
    let texts = written_prefix_texts(instruction, op_info, mnemonic_options);
    prefix_pieces(o, texts) + if mnemonic_options & FormatMnemonicOptions::NO_MNEMONIC == 0 {
        (if texts.len() > 0 {
            piece(" "@, FormatterTextKind::Text)
        } else {
            Seq::empty()
        }) + mnemonic_text_pieces(o, op_info)
    } else {
        Seq::empty()
    }
}

/// The column after `mnemonic_pieces` written from column `c`.
pub open spec fn mnemonic_column(c: u32, instruction: Instruction, op_info: InstrOpInfo, mnemonic_options: u32) -> u32 {
    let texts = written_prefix_texts(instruction, op_info, mnemonic_options);
    let c1 = prefix_column(c, texts);
    if mnemonic_options & FormatMnemonicOptions::NO_MNEMONIC == 0 {
        let c2 = if texts.len() > 0 {
            c1.wrapping_add(1)
        } else {
            c1
        };
        c2.wrapping_add(op_info.mnemonic.lower_view().len() as u32)
    } else {
        c1
    }
}


/// The value of `value` read as a signed number of `bits` bits.
pub open spec fn signed_value(value: u64, bits: u32) -> i64 {
    if bits == 8 {
        value as u8 as i8 as i64
    } else if bits == 16 {
        value as u16 as i16 as i64
    } else if bits == 32 {
        value as u32 as i32 as i64
    } else {
        value as i64
    }
}

/// `value` fits in `bits` bits, one of 8, 16, 32 and 64.
pub open spec fn fits_bits(value: u64, bits: u32) -> bool {
    ||| bits == 8 && value <= 0xFF
    ||| bits == 16 && value <= 0xFFFF
    ||| bits == 32 && value <= 0xFFFF_FFFF
    ||| bits == 64
}

/// The signed number kind of a size in bits (8, 16, 32 or 64).
pub open spec fn signed_number_kind(bits: u32) -> NumberKind {
    if bits == 8 {
        NumberKind::Int8
    } else if bits == 16 {
        NumberKind::Int16
    } else if bits == 32 {
        NumberKind::Int32
    } else {
        NumberKind::Int64
    }
}

/// The unsigned number kind of a size in bits (8, 16, 32 or 64).
pub open spec fn unsigned_number_kind(bits: u32) -> NumberKind {
    if bits == 8 {
        NumberKind::UInt8
    } else if bits == 16 {
        NumberKind::UInt16
    } else if bits == 32 {
        NumberKind::UInt32
    } else {
        NumberKind::UInt64
    }
}

/// What an immediate's number says: where the options ask for signed
/// numbers, its value sign extended to 64 bits, read as signed; else its
/// value, read as unsigned.
pub open spec fn immediate_number_info(n: NumberFormat, value: u64, bits: u32) -> TextInfo {
    if n.signed_number {
        TextInfo::Number(signed_value(value, bits) as u64, signed_number_kind(bits))
    } else {
        TextInfo::Number(value, unsigned_number_kind(bits))
    }
}

/// An immediate without symbol: where the options ask for signed numbers and
/// it is negative, a minus sign and its magnitude, else its value.
pub open spec fn immediate_number_pieces(n: NumberFormat, value: u64, bits: u32) -> Seq<Piece> {
    let sv = signed_value(value, bits);
    if n.signed_number && sv < 0 {
        piece("-"@, FormatterTextKind::Operator) + info_piece(
            unsigned_text(n, (-(sv as int)) as nat, bits as nat, n.leading_zeroes),
            FormatterTextKind::Number,
            immediate_number_info(n, value, bits),
        )
    } else {
        info_piece(
            unsigned_text(n, value as nat, bits as nat, n.leading_zeroes),
            FormatterTextKind::Number,
            immediate_number_info(n, value, bits),
        )
    }
}

/// An immediate: its symbol where one was found, else its number.
#[verifier::opaque]
pub open spec fn immediate_pieces(
    o: FormatterOptions,
    n: NumberFormat,
    value: u64,
    bits: u32,
    symbol: Option<SymbolResult>,
) -> Seq<Piece> {
    match symbol {
        Some(sym) => symbol_pieces(n, value, sym, o.show_symbol_address, true, false),
        None => immediate_number_pieces(n, value, bits),
    }
}

/// Whether the kind is an immediate of 8, 16, 32 or 64 bits, and which.
pub open spec fn immediate_bits(k: InstrOpKind) -> u32 {
    match k {
        InstrOpKind::Immediate8 | InstrOpKind::Immediate8_2nd | InstrOpKind::DeclareByte => 8,
        InstrOpKind::Immediate16 | InstrOpKind::Immediate8to16 | InstrOpKind::DeclareWord => 16,
        InstrOpKind::Immediate32 | InstrOpKind::Immediate8to32 | InstrOpKind::DeclareDword => 32,
        InstrOpKind::Immediate64 | InstrOpKind::Immediate8to64 | InstrOpKind::Immediate32to64
        | InstrOpKind::DeclareQword => 64,
        _ => 0,
    }
}

/// The value of an immediate operand, zero extended from its size.
pub open spec fn immediate_value(instruction: Instruction, k: InstrOpKind, operand: int) -> u64 {
    match k {
        InstrOpKind::Immediate8 => instruction.immediate8 as u64,
        InstrOpKind::Immediate8_2nd => instruction.immediate8_2nd as u64,
        InstrOpKind::DeclareByte => instruction.declare_values@[operand] as u8 as u64,
        InstrOpKind::Immediate16 => instruction.immediate16 as u64,
        InstrOpKind::Immediate8to16 => instruction.immediate8 as i8 as i16 as u16 as u64,
        InstrOpKind::DeclareWord => instruction.declare_values@[operand] as u16 as u64,
        InstrOpKind::Immediate32 => instruction.immediate32 as u64,
        InstrOpKind::Immediate8to32 => instruction.immediate8 as i8 as i32 as u32 as u64,
        InstrOpKind::DeclareDword => instruction.declare_values@[operand] as u32 as u64,
        InstrOpKind::Immediate64 => instruction.immediate64,
        InstrOpKind::Immediate8to64 => instruction.immediate8 as i8 as i64 as u64,
        InstrOpKind::Immediate32to64 => instruction.immediate32 as i32 as i64 as u64,
        _ => instruction.declare_values@[operand],
    }
}

/// The text kind of a branch target: a function for a call, else a label.
pub open spec fn branch_target_kind(instruction: Instruction) -> FormatterTextKind {
    if instruction.is_call {
        FormatterTextKind::FunctionAddress
    } else {
        FormatterTextKind::LabelAddress
    }
}

/// The target of a near branch and its size in bytes.
pub open spec fn near_branch_target(instruction: Instruction, k: InstrOpKind) -> (u64, u32) {
    if k == InstrOpKind::NearBranch64 {
        (instruction.near_branch64, 8)
    } else if k == InstrOpKind::NearBranch32 {
        (instruction.near_branch64 as u32 as u64, 4)
    } else {
        (instruction.near_branch64 as u16 as u64, 2)
    }
}

/// A near branch: the branch size keywords, then the target's symbol where
/// one was found, else the target with the leading zeroes of a branch.
#[verifier::opaque]
pub open spec fn near_branch_pieces(
    o: FormatterOptions,
    instruction: Instruction,
    k: InstrOpKind,
    flags: u32,
    op: FormatterOperandOptions,
    n: NumberFormat,
    symbol: Option<SymbolResult>,
) -> Seq<Piece> {
    let (target, size) = near_branch_target(instruction, k);
    flow_control_pieces(o, flags, op) + match symbol {
        Some(sym) => symbol_pieces(n, target, sym, o.show_symbol_address, true, false),
        None => info_piece(
            unsigned_text(n, target as nat, (size * 8) as nat, n.leading_zeroes),
            branch_target_kind(instruction),
            TextInfo::Number(target, unsigned_number_kind((size * 8) as u32)),
        ),
    }
}

/// The target offset of a far branch and its size in bytes.
pub open spec fn far_branch_target(instruction: Instruction, k: InstrOpKind) -> (u64, u32) {
    if k == InstrOpKind::FarBranch32 {
        (instruction.far_branch32 as u64, 4)
    } else {
        (instruction.far_branch32 as u16 as u64, 2)
    }
}

/// A far branch: the branch size keywords, the selector (its symbol where
/// one was found, else its number), a colon, and the offset (its symbol where
/// one was found, else its number). The selector is looked up only where the
/// offset has a symbol.
#[verifier::opaque]
pub open spec fn far_branch_pieces(
    o: FormatterOptions,
    instruction: Instruction,
    k: InstrOpKind,
    flags: u32,
    op: FormatterOperandOptions,
    n: NumberFormat,
    symbol: Option<SymbolResult>,
    selector_symbol: Option<SymbolResult>,
) -> Seq<Piece> {
    let (target, size) = far_branch_target(instruction, k);
    let selector = instruction.far_branch_selector;
    let selector_number = info_piece(
        unsigned_text(n, selector as nat, 16, n.leading_zeroes),
        FormatterTextKind::SelectorValue,
        TextInfo::Number(selector as u64, NumberKind::UInt16),
    );
    flow_control_pieces(o, flags, op) + match symbol {
        Some(sym) => (match selector_symbol {
            Some(ssym) => symbol_pieces(n, selector as u64, ssym, o.show_symbol_address, true, false),
            None => selector_number,
        }) + piece(":"@, FormatterTextKind::Punctuation) + symbol_pieces(
            n,
            target,
            sym,
            o.show_symbol_address,
            true,
            false,
        ),
        None => selector_number + piece(":"@, FormatterTextKind::Punctuation) + info_piece(
            unsigned_text(n, target as nat, (size * 8) as nat, n.leading_zeroes),
            branch_target_kind(instruction),
            TextInfo::Number(target, unsigned_number_kind((size * 8) as u32)),
        ),
    }
}

/// The text of a rounding or exception decorator.
pub open spec fn sae_text(k: InstrOpKind) -> Seq<char> {
    match k {
        InstrOpKind::Sae => "sae"@,
        InstrOpKind::RnSae => "rn-sae"@,
        InstrOpKind::RdSae => "rd-sae"@,
        InstrOpKind::RuSae => "ru-sae"@,
        _ => "rz-sae"@,
    }
}

/// Which decorator a rounding or exception decorator is.
pub open spec fn sae_kind(k: InstrOpKind) -> DecoratorKind {
    if k == InstrOpKind::Sae {
        DecoratorKind::SuppressAllExceptions
    } else {
        DecoratorKind::RoundingControl
    }
}

/// A register operand: `to` and a space where the flags ask for it, then the register.
pub open spec fn register_operand_pieces(o: FormatterOptions, op_info: InstrOpInfo, operand: int) -> Seq<Piece> {
    (if op_info.flags & InstrOpInfoFlags::REGISTER_TO != 0 {
        keyword_space_pieces(o, "to"@)
    } else {
        Seq::empty()
    }) + register_pieces(o, op_info.op_registers@[operand] as int)
}

/// The opmask of the first operand and `{z}` for zeroing, where there is one.
pub open spec fn op_mask_pieces(o: FormatterOptions, instruction: Instruction, operand: int) -> Seq<Piece> {
    if operand == 0 && instruction.op_mask != Register::NONE {
        piece("{"@, FormatterTextKind::Punctuation) + register_pieces(o, instruction.op_mask as int) + piece(
            "}"@,
            FormatterTextKind::Punctuation,
        ) + (if instruction.zeroing_masking {
            decorator_pieces(o, "z"@, DecoratorKind::ZeroingMasking)
        } else {
            Seq::empty()
        })
    } else {
        Seq::empty()
    }
}


/// The scale of an index as text, indexed by the scale's shift.
pub const SCALE_NUMBERS: [&'static str; 4] = ["1", "2", "4", "8"];

/// A memory operand as the formatter is asked to write it.
#[derive(Clone, Copy)]
pub struct MemoryOperand {
    pub mem_size: u32,
    /// The segment override prefix, `Register::NONE` if there is none.
    pub seg_override: u32,
    /// The segment register that is used.
    pub seg_reg: u32,
    pub base: u32,
    pub index: u32,
    pub scale: u32,
    pub displ_size: u32,
    pub displ: i64,
    pub addr_size: u32,
    pub flags: u32,
}

impl MemoryOperand {
    /// Registers name registers, the scale is one of the four, the sizes are
    /// those of a memory operand, and the flag fields name table entries.
    pub open spec fn wf(&self) -> bool {
        &&& self.mem_size < MEMORY_SIZE_COUNT
        &&& self.seg_override < REGISTER_COUNT
        &&& self.seg_reg < REGISTER_COUNT
        &&& self.base < REGISTER_COUNT
        &&& self.index < REGISTER_COUNT
        &&& self.scale <= 3
        &&& self.displ_size <= 8
        &&& (self.addr_size == 2 || self.addr_size == 4 || self.addr_size == 8)
        &&& flag_field(
            self.flags,
            InstrOpInfoFlags::FAR_MEMORY_SIZE_INFO_SHIFT,
            InstrOpInfoFlags::FAR_MEMORY_SIZE_INFO_MASK,
        ) < FAR_MEMORY_SIZE_INFO_COUNT
    }
}

/// A memory operand after a `rip` or `eip` relative address has been turned
/// into an absolute one where the options ask for it.
#[derive(Clone, Copy)]
pub struct AdjustedAddress {
    pub base: u32,
    pub displ_size: u32,
    pub displ: i64,
    pub flags: u32,
    /// The address that a symbol is looked up for.
    pub abs_addr: u64,
    /// Whether `rel` is written.
    pub add_rel: bool,
}

/// The memory operand with its `rip`/`eip` relative address resolved: the
/// absolute address is the next instruction's address plus the displacement;
/// unless `rip_relative` holds, the base is dropped, the absolute address
/// becomes the displacement (of 8 or 4 bytes), the size keyword inside the
/// brackets is cleared (`dword` for `eip`) and `rel` is written.
pub open spec fn adjusted_address(instruction: Instruction, m: MemoryOperand, rip_relative: bool) -> AdjustedAddress {
    let unchanged = |abs: u64|
        AdjustedAddress {
            base: m.base,
            displ_size: m.displ_size,
            displ: m.displ,
            flags: m.flags,
            abs_addr: abs,
            add_rel: false,
        };
    if m.base == Register::RIP {
        let abs = (instruction.next_ip as i64).wrapping_add(m.displ as i32 as i64) as u64;
        if !rip_relative {
            AdjustedAddress {
                base: Register::NONE,
                displ_size: 8,
                displ: abs as i64,
                flags: m.flags & !(InstrOpInfoFlags::MEMORY_SIZE_INFO_MASK << InstrOpInfoFlags::MEMORY_SIZE_INFO_SHIFT),
                abs_addr: abs,
                add_rel: true,
            }
        } else {
            unchanged(abs)
        }
    } else if m.base == Register::EIP {
        let abs = (instruction.next_ip as u32).wrapping_add(m.displ as u32) as u64;
        if !rip_relative {
            AdjustedAddress {
                base: Register::NONE,
                displ_size: 4,
                displ: abs as i64,
                flags: (m.flags & !(InstrOpInfoFlags::MEMORY_SIZE_INFO_MASK << InstrOpInfoFlags::MEMORY_SIZE_INFO_SHIFT))
                    | (MemorySizeInfo::DWORD << InstrOpInfoFlags::MEMORY_SIZE_INFO_SHIFT),
                abs_addr: abs,
                add_rel: true,
            }
        } else {
            unchanged(abs)
        }
    } else {
        unchanged(m.displ as u64)
    }
}

/// A space where `b` holds.
pub open spec fn space_if(b: bool) -> Seq<Piece> {
    if b {
        piece(" "@, FormatterTextKind::Text)
    } else {
        Seq::empty()
    }
}

/// The start of a memory operand: its size, `[`, the size keyword inside the
/// brackets that the flags give, and `rel`.
#[verifier::opaque]
pub open spec fn memory_head_pieces(
    o: FormatterOptions,
    m: MemoryOperand,
    a: AdjustedAddress,
    op: FormatterOperandOptions,
) -> Seq<Piece> {
    let name = MEM_SIZE_INFO_STRINGS@[flag_field(
        a.flags,
        InstrOpInfoFlags::MEMORY_SIZE_INFO_SHIFT,
        InstrOpInfoFlags::MEMORY_SIZE_INFO_MASK,
    ) as int]@;
    memory_size_pieces(o, m.mem_size, a.flags, op) + piece("["@, FormatterTextKind::Punctuation) + space_if(
        o.space_after_memory_bracket,
    ) + (if name.len() != 0 {
        keyword_space_pieces(o, name)
    } else {
        Seq::empty()
    }) + (if a.add_rel {
        keyword_space_pieces(o, "rel"@)
    } else {
        Seq::empty()
    })
}

/// Whether the segment register is written: where the options always show
/// it, or where there is a segment override that is not a `notrack` prefix.
pub open spec fn shows_segment(o: FormatterOptions, instruction: Instruction, m: MemoryOperand, a: AdjustedAddress) -> bool {
    let notrack = m.seg_override == Register::DS && instruction.is_notrack_prefix_branch && !((instruction.code_size
        == CodeSize::Code16 || instruction.code_size == CodeSize::Code32) && (a.base == Register::BP || a.base
        == Register::EBP || a.base == Register::ESP));
    o.always_show_segment_register || (m.seg_override != Register::NONE && !notrack)
}

/// Whether the scale of the index is written: where it is not `*1`, or the
/// options always show it, or there is no base; never with 16-bit addresses.
pub open spec fn uses_scale(o: FormatterOptions, m: MemoryOperand, a: AdjustedAddress) -> bool {
    m.addr_size != 2 && (m.scale != 0 || o.always_show_scale || a.base == Register::NONE)
}

/// An operator between the parts of an address, with the spaces that the options ask for.
pub open spec fn add_operator_pieces(o: FormatterOptions, op: Seq<char>) -> Seq<Piece> {
    space_if(o.space_between_memory_add_operators) + piece(op, FormatterTextKind::Operator) + space_if(
        o.space_between_memory_add_operators,
    )
}

/// The index register with its scale where it is written, in the order that
/// the options ask for.
pub open spec fn index_pieces(o: FormatterOptions, m: MemoryOperand, a: AdjustedAddress) -> Seq<Piece> {
    let mul = space_if(o.space_between_memory_mul_operators) + piece("*"@, FormatterTextKind::Operator) + space_if(
        o.space_between_memory_mul_operators,
    );
    let scale = info_piece(
        SCALE_NUMBERS@[m.scale as int]@,
        FormatterTextKind::Number,
        TextInfo::Number(scale_value(m.scale), NumberKind::Int32),
    );
    if !uses_scale(o, m, a) {
        register_pieces(o, m.index as int)
    } else if o.scale_before_index {
        scale + mul + register_pieces(o, m.index as int)
    } else {
        register_pieces(o, m.index as int) + mul + scale
    }
}

/// The factor that a scale shift stands for.
pub open spec fn scale_value(scale: u32) -> u64 {
    if scale == 0 {
        1
    } else if scale == 1 {
        2
    } else if scale == 2 {
        4
    } else {
        8
    }
}

/// The registers of a memory operand: the segment and a colon, the base,
/// and a plus and the index.
#[verifier::opaque]
pub open spec fn memory_regs_pieces(
    o: FormatterOptions,
    instruction: Instruction,
    m: MemoryOperand,
    a: AdjustedAddress,
) -> Seq<Piece> {
    (if shows_segment(o, instruction, m, a) {
        register_pieces(o, m.seg_reg as int) + piece(":"@, FormatterTextKind::Punctuation)
    } else {
        Seq::empty()
    }) + (if a.base != Register::NONE {
        register_pieces(o, a.base as int)
    } else {
        Seq::empty()
    }) + (if m.index != Register::NONE {
        (if a.base != Register::NONE {
            add_operator_pieces(o, "+"@)
        } else {
            Seq::empty()
        }) + index_pieces(o, m, a)
    } else {
        Seq::empty()
    })
}

/// The sign of a displacement after a register and its magnitude: a plus
/// for unsigned displacements, else the sign of the value as a number of the
/// address size, and the magnitude.
pub open spec fn displ_sign(n: NumberFormat, addr_size: u32, displ: i64) -> (Seq<char>, i64) {
    if !n.signed_number {
        ("+"@, displ)
    } else if addr_size == 4 {
        if (displ as i32) < 0 {
            ("-"@, 0i32.wrapping_sub(displ as i32) as u32 as i64)
        } else {
            ("+"@, displ)
        }
    } else if addr_size == 8 {
        if displ < 0 {
            ("-"@, 0i64.wrapping_sub(displ))
        } else {
            ("+"@, displ)
        }
    } else {
        if (displ as i16) < 0 {
            ("-"@, 0i16.wrapping_sub(displ as i16) as u16 as i64)
        } else {
            ("+"@, displ)
        }
    }
}

/// The text of a displacement: of the smallest size, at least the given
/// one, that holds it.
pub open spec fn displ_number_text(n: NumberFormat, displ: i64, displ_size: u32) -> Seq<char> {
    if displ_size <= 1 && displ as u64 <= 0xFF {
        unsigned_text(n, displ as u8 as nat, 8, n.leading_zeroes)
    } else if displ_size <= 2 && displ as u64 <= 0xFFFF {
        unsigned_text(n, displ as u16 as nat, 16, n.leading_zeroes)
    } else if displ_size <= 4 && displ as u64 <= 0xFFFF_FFFF {
        unsigned_text(n, displ as u32 as nat, 32, n.leading_zeroes)
    } else {
        unsigned_text(n, displ as u64 as nat, 64, n.leading_zeroes)
    }
}

/// How a displacement's number is read: by the size that `displ_number_text`
/// writes it with, signed where it follows a register and the options ask
/// for signed numbers.
pub open spec fn displ_number_kind(displ: i64, displ_size: u32, signed: bool) -> NumberKind {
    let bits: u32 = if displ_size <= 1 && displ as u64 <= 0xFF {
        8
    } else if displ_size <= 2 && displ as u64 <= 0xFFFF {
        16
    } else if displ_size <= 4 && displ as u64 <= 0xFFFF_FFFF {
        32
    } else {
        64
    };
    if signed {
        signed_number_kind(bits)
    } else {
        unsigned_number_kind(bits)
    }
}

/// The displacement of a memory operand: with a symbol, the symbol after
/// its sign; without one, where there is no register, or where it has a
/// size and is not zero or zeroes are shown, the displacement after its sign
/// (after a register), padded to the address size where the options ask for
/// leading zeroes of displacements.
#[verifier::opaque]
pub open spec fn memory_displ_pieces(
    o: FormatterOptions,
    n: NumberFormat,
    m: MemoryOperand,
    a: AdjustedAddress,
    symbol: Option<SymbolResult>,
) -> Seq<Piece> {
    let need_plus = a.base != Register::NONE || m.index != Register::NONE;
    match symbol {
        Some(sym) => {
            let signed = sym.flags & SymbolFlags::SIGNED != 0;
            (if need_plus {
                add_operator_pieces(
                    o,
                    if signed {
                        "-"@
                    } else {
                        "+"@
                    },
                )
            } else if signed {
                piece("-"@, FormatterTextKind::Operator)
            } else {
                Seq::empty()
            }) + symbol_pieces(n, a.abs_addr, sym, o.show_symbol_address, false, o.space_between_memory_add_operators)
        },
        None => {
            if !need_plus || (a.displ_size != 0 && (o.show_zero_displacements || a.displ != 0)) {
                if need_plus {
                    let (sign, displ) = displ_sign(n, m.addr_size, a.displ);
                    let size = if n.displacement_leading_zeroes {
                        m.addr_size
                    } else {
                        a.displ_size
                    };
                    add_operator_pieces(o, sign) + info_piece(
                        displ_number_text(n, displ, size),
                        FormatterTextKind::Number,
                        TextInfo::Number(a.displ as u64, displ_number_kind(displ, size, n.signed_number)),
                    )
                } else {
                    info_piece(
                        displ_number_text(n, a.displ, a.displ_size),
                        FormatterTextKind::Number,
                        TextInfo::Number(a.displ as u64, displ_number_kind(a.displ, a.displ_size, false)),
                    )
                }
            } else {
                Seq::empty()
            }
        },
    }
}

/// The end of a memory operand: `]` and its broadcast decorator, if any.
#[verifier::opaque]
pub open spec fn memory_tail_pieces(o: FormatterOptions, m: MemoryOperand) -> Seq<Piece> {
    space_if(o.space_after_memory_bracket) + piece("]"@, FormatterTextKind::Punctuation) + (if memory_size_broadcast(
        m.mem_size as int,
    ).len() != 0 {
        decorator_pieces(o, memory_size_broadcast(m.mem_size as int), DecoratorKind::Broadcast)
    } else {
        Seq::empty()
    })
}

/// A memory operand, with the operand options, number format and symbol
/// that apply to it.
#[verifier::opaque]
pub open spec fn memory_pieces(
    o: FormatterOptions,
    instruction: Instruction,
    m: MemoryOperand,
    op: FormatterOperandOptions,
    n: NumberFormat,
    symbol: Option<SymbolResult>,
) -> Seq<Piece> {
    let a = adjusted_address(instruction, m, op.rip_relative_addresses);
    memory_head_pieces(o, m, a, op) + memory_regs_pieces(o, instruction, m, a) + memory_displ_pieces(
        o,
        n,
        m,
        a,
        symbol,
    ) + memory_tail_pieces(o, m)
}



/// What the hooks of a formatter gave for one operand: its operand options,
/// its number format, the symbol of its value and that of a far branch's selector.
pub struct OperandHooks {
    pub op: FormatterOperandOptions,
    pub n: NumberFormat,
    pub symbol: Option<SymbolResult>,
    pub selector_symbol: Option<SymbolResult>,
}

/// Whether an operand kind is a near or far branch.
pub open spec fn is_branch(k: InstrOpKind) -> bool {
    match k {
        InstrOpKind::NearBranch16 | InstrOpKind::NearBranch32 | InstrOpKind::NearBranch64
        | InstrOpKind::FarBranch16 | InstrOpKind::FarBranch32 => true,
        _ => false,
    }
}

/// Whether an operand kind is a memory operand.
pub open spec fn is_memory(k: InstrOpKind) -> bool {
    is_segment_memory(k) || k == InstrOpKind::MemoryESDI || k == InstrOpKind::MemoryESEDI || k
        == InstrOpKind::MemoryESRDI
}

/// The operand options of an operand before any options provider changes them.
pub open spec fn default_operand_options(o: FormatterOptions, k: InstrOpKind) -> FormatterOperandOptions {
    if is_branch(k) {
        FormatterOperandOptions {
            no_branch_size: !o.show_branch_size,
            rip_relative_addresses: false,
            memory_size_options: MemorySizeOptions::Default,
        }
    } else if is_memory(k) {
        FormatterOperandOptions {
            no_branch_size: false,
            rip_relative_addresses: o.rip_relative_addresses,
            memory_size_options: o.memory_size_options,
        }
    } else {
        FormatterOperandOptions::new_spec()
    }
}

/// The number format of an operand before any options provider changes it:
/// that of branches, of displacements or of immediates.
pub open spec fn default_number_format(o: FormatterOptions, k: InstrOpKind) -> NumberFormat {
    if is_branch(k) {
        number_format(o, o.branch_leading_zeroes, false, false)
    } else if is_memory(k) {
        number_format(o, o.leading_zeroes, o.signed_memory_displacements, o.displacement_leading_zeroes)
    } else {
        number_format(o, o.leading_zeroes, o.signed_immediate_operands, false)
    }
}

/// What the hooks give where there are none.
pub open spec fn default_hooks(o: FormatterOptions, k: InstrOpKind) -> OperandHooks {
    OperandHooks {
        op: default_operand_options(o, k),
        n: default_number_format(o, k),
        symbol: None,
        selector_symbol: None,
    }
}

/// Hooks results that a formatter can get: no symbol without a symbol
/// resolver, and the default options without an options provider; the
/// branch size keywords of a branch never follow the options provider.
pub open spec fn hooks_allowed(
    has_symbol_resolver: bool,
    has_options_provider: bool,
    o: FormatterOptions,
    k: InstrOpKind,
    h: OperandHooks,
) -> bool {
    &&& (!has_symbol_resolver ==> h.symbol is None && h.selector_symbol is None)
    &&& (!has_options_provider ==> h.op == default_operand_options(o, k) && h.n == default_number_format(o, k))
    &&& (is_branch(k) ==> h.op == default_operand_options(o, k))
}

/// The memory operand that an operand kind stands for.
pub open spec fn memory_operand_of(instruction: Instruction, op_info: InstrOpInfo, k: InstrOpKind) -> MemoryOperand {
    let simple = |seg_reg: u32, base: u32, addr_size: u32|
        MemoryOperand {
            mem_size: op_info.memory_size,
            seg_override: instruction.segment_prefix,
            seg_reg,
            base,
            index: Register::NONE,
            scale: 0,
            displ_size: 0,
            displ: 0,
            addr_size,
            flags: op_info.flags,
        };
    match k {
        InstrOpKind::MemorySegSI => simple(instruction.memory_segment, Register::SI, 2),
        InstrOpKind::MemorySegESI => simple(instruction.memory_segment, Register::ESI, 4),
        InstrOpKind::MemorySegRSI => simple(instruction.memory_segment, Register::RSI, 8),
        InstrOpKind::MemorySegDI => simple(instruction.memory_segment, Register::DI, 2),
        InstrOpKind::MemorySegEDI => simple(instruction.memory_segment, Register::EDI, 4),
        InstrOpKind::MemorySegRDI => simple(instruction.memory_segment, Register::RDI, 8),
        InstrOpKind::MemoryESDI => simple(Register::ES, Register::DI, 2),
        InstrOpKind::MemoryESEDI => simple(Register::ES, Register::EDI, 4),
        InstrOpKind::MemoryESRDI => simple(Register::ES, Register::RDI, 8),
        InstrOpKind::Memory64 => MemoryOperand {
            mem_size: op_info.memory_size,
            seg_override: instruction.segment_prefix,
            seg_reg: instruction.memory_segment,
            base: Register::NONE,
            index: Register::NONE,
            scale: 0,
            displ_size: 8,
            displ: instruction.memory_displacement64 as i64,
            addr_size: 8,
            flags: op_info.flags,
        },
        _ => {
            let addr_size = address_size_in_bytes(
                instruction.memory_base,
                instruction.memory_index,
                instruction.memory_displ_size,
                instruction.code_size,
            );
            MemoryOperand {
                mem_size: op_info.memory_size,
                seg_override: instruction.segment_prefix,
                seg_reg: instruction.memory_segment,
                base: instruction.memory_base,
                index: instruction.memory_index,
                scale: instruction.memory_index_scale,
                displ_size: instruction.memory_displ_size,
                displ: if addr_size == 8 {
                    instruction.memory_displacement64 as i64
                } else {
                    instruction.memory_displacement64 as u32 as i64
                },
                addr_size,
                flags: op_info.flags,
            }
        },
    }
}

/// The operand itself, without the opmask, given what the hooks gave.
#[verifier::opaque]
pub open spec fn operand_body_pieces(
    o: FormatterOptions,
    instruction: Instruction,
    op_info: InstrOpInfo,
    operand: int,
    h: OperandHooks,
) -> Seq<Piece> {
    let k = op_info.op_kinds@[operand];
    let flags = op_info.flags;
    match k {
        InstrOpKind::Register => register_operand_pieces(o, op_info, operand),
        InstrOpKind::NearBranch16 | InstrOpKind::NearBranch32 | InstrOpKind::NearBranch64 => near_branch_pieces(
            o,
            instruction,
            k,
            flags,
            h.op,
            h.n,
            h.symbol,
        ),
        InstrOpKind::FarBranch16 | InstrOpKind::FarBranch32 => far_branch_pieces(
            o,
            instruction,
            k,
            flags,
            h.op,
            h.n,
            h.symbol,
            h.selector_symbol,
        ),
        InstrOpKind::Immediate8 | InstrOpKind::Immediate8_2nd | InstrOpKind::DeclareByte => immediate_pieces(
            o,
            h.n,
            immediate_value(instruction, k, operand),
            8,
            h.symbol,
        ),
        InstrOpKind::Immediate16 | InstrOpKind::Immediate8to16 | InstrOpKind::DeclareWord
        | InstrOpKind::Immediate32 | InstrOpKind::Immediate8to32 | InstrOpKind::DeclareDword
        | InstrOpKind::Immediate64 | InstrOpKind::Immediate8to64 | InstrOpKind::Immediate32to64
        | InstrOpKind::DeclareQword => sign_extend_pieces(o, flags) + immediate_pieces(
            o,
            h.n,
            immediate_value(instruction, k, operand),
            immediate_bits(k),
            h.symbol,
        ),
        InstrOpKind::Sae | InstrOpKind::RnSae | InstrOpKind::RdSae | InstrOpKind::RuSae
        | InstrOpKind::RzSae => decorator_pieces(o, sae_text(k), sae_kind(k)),
        _ => memory_pieces(o, instruction, memory_operand_of(instruction, op_info, k), h.op, h.n, h.symbol),
    }
}

/// An operand with what the hooks gave: the operand and, for the first
/// operand, the opmask.
#[verifier::opaque]
pub open spec fn operand_pieces_with(
    o: FormatterOptions,
    instruction: Instruction,
    op_info: InstrOpInfo,
    operand: int,
    h: OperandHooks,
) -> Seq<Piece> {
    operand_body_pieces(o, instruction, op_info, operand, h) + op_mask_pieces(o, instruction, operand)
}

/// An operand as a formatter without hooks writes it.
pub open spec fn operand_pieces(o: FormatterOptions, instruction: Instruction, op_info: InstrOpInfo, operand: int) -> Seq<
    Piece,
> {
    operand_pieces_with(o, instruction, op_info, operand, default_hooks(o, op_info.op_kinds@[operand]))
}

/// Whether the kind is `db`, `dw`, `dd` or `dq`.
pub open spec fn is_declare(k: InstrOpKind) -> bool {
    k == InstrOpKind::DeclareByte || k == InstrOpKind::DeclareWord || k == InstrOpKind::DeclareDword || k
        == InstrOpKind::DeclareQword
}

/// Formatter operand `operand` exists, and a data operand has its value.
pub open spec fn operand_valid(instruction: Instruction, op_info: InstrOpInfo, operand: int) -> bool {
    &&& 0 <= operand < op_info.op_kinds@.len()
    &&& (is_declare(op_info.op_kinds@[operand]) ==> operand < instruction.declare_values@.len())
}


/// An operand separator: a comma and the space that the options ask for.
pub open spec fn separator_pieces(o: FormatterOptions) -> Seq<Piece> {
    piece(","@, FormatterTextKind::Punctuation) + space_if(o.space_after_operand_separator)
}

/// The first `hs.len()` operands separated by commas, with what the hooks
/// gave for each.
pub open spec fn operands_pieces_with(
    o: FormatterOptions,
    instruction: Instruction,
    op_info: InstrOpInfo,
    hs: Seq<OperandHooks>,
) -> Seq<Piece>
    decreases hs.len(),
{
    if hs.len() == 0 {
        Seq::empty()
    } else {
        operands_pieces_with(o, instruction, op_info, hs.drop_last()) + (if hs.len() > 1 {
            separator_pieces(o)
        } else {
            Seq::empty()
        }) + operand_pieces_with(o, instruction, op_info, hs.len() - 1, hs.last())
    }
}

/// What the hooks give where there are none, for the first `count` operands.
pub open spec fn default_hooks_seq(o: FormatterOptions, op_info: InstrOpInfo, count: nat) -> Seq<OperandHooks> {
    Seq::new(count, |i: int| default_hooks(o, op_info.op_kinds@[i]))
}

/// The operands separated by commas, as a formatter without hooks writes them.
pub open spec fn operands_pieces(o: FormatterOptions, instruction: Instruction, op_info: InstrOpInfo) -> Seq<Piece> {
    operands_pieces_with(o, instruction, op_info, default_hooks_seq(o, op_info, op_info.op_kinds@.len()))
}

/// Every operand exists and each data operand has its value.
pub open spec fn operands_valid(instruction: Instruction, op_info: InstrOpInfo) -> bool {
    forall|i: int| 0 <= i < op_info.op_kinds@.len() ==> #[trigger] operand_valid(instruction, op_info, i)
}

/// Each operand's hooks results are such as the formatter can get.
pub open spec fn all_hooks_allowed(
    has_symbol_resolver: bool,
    has_options_provider: bool,
    o: FormatterOptions,
    op_info: InstrOpInfo,
    hs: Seq<OperandHooks>,
) -> bool {
    forall|i: int|
        0 <= i < hs.len() ==> hooks_allowed(
            has_symbol_resolver,
            has_options_provider,
            o,
            op_info.op_kinds@[i],
            #[trigger] hs[i],
        )
}

/// What the hooks of formatter `f` answered for formatter operand
/// `operand`, query by query, as the formatter asks them:
/// - a near branch: the resolver is asked for the target (2, 4 or 8 bytes),
///   and the provider for the number format (its operand options are not used);
/// - a far branch: the resolver is asked for the offset, and, only where that
///   found a symbol, for the selector (2 bytes) as operand `operand + 1`; the
///   provider for the number format;
/// - an immediate: the provider first, then the resolver for the value
///   (1, 2, 4 or 8 bytes);
/// - a memory operand: the provider for the operand options, the resolver
///   for the address (the absolute one of a `rip`/`eip` relative operand
///   unless it is shown relative), then the provider again, from those
///   operand options, for the number format;
/// - any other operand: no hook is asked.
pub open spec fn hooks_answered(
    f: NasmFormatter<'_>,
    instruction: Instruction,
    op_info: InstrOpInfo,
    operand: int,
    h: OperandHooks,
) -> bool {
    let o = f.options_view();
    let k = op_info.op_kinds@[operand];
    let op = operand as u32;
    let io = op_info.instruction_index_spec(operand);
    let op0 = default_operand_options(o, k);
    let n0 = default_number_format(o, k);
    if k == InstrOpKind::NearBranch16 || k == InstrOpKind::NearBranch32 || k == InstrOpKind::NearBranch64 {
        let (target, size) = near_branch_target(instruction, k);
        &&& f.resolver_answers(instruction, op, io, target, size, h.symbol)
        &&& exists|op1: FormatterOperandOptions| f.provider_gives(instruction, op, io, op0, n0, op1, h.n)
        &&& h.selector_symbol is None
    } else if k == InstrOpKind::FarBranch16 || k == InstrOpKind::FarBranch32 {
        let (target, size) = far_branch_target(instruction, k);
        &&& f.resolver_answers(instruction, op, io, target, size, h.symbol)
        &&& exists|op1: FormatterOperandOptions| f.provider_gives(instruction, op, io, op0, n0, op1, h.n)
        &&& (h.symbol is Some ==> f.resolver_answers(
            instruction,
            (op + 1) as u32,
            io,
            instruction.far_branch_selector as u64,
            2,
            h.selector_symbol,
        ))
        &&& (h.symbol is None ==> h.selector_symbol is None)
    } else if immediate_bits(k) != 0 {
        &&& f.provider_gives(instruction, op, io, op0, n0, h.op, h.n)
        &&& f.resolver_answers(
            instruction,
            op,
            io,
            immediate_value(instruction, k, operand),
            immediate_bits(k) / 8,
            h.symbol,
        )
        &&& h.selector_symbol is None
    } else if is_memory(k) {
        let m = memory_operand_of(instruction, op_info, k);
        &&& exists|n1: NumberFormat| f.provider_gives(instruction, op, io, op0, n0, h.op, n1)
        &&& f.resolver_answers(
            instruction,
            op,
            io,
            adjusted_address(instruction, m, h.op.rip_relative_addresses).abs_addr,
            m.addr_size,
            h.symbol,
        )
        &&& exists|op2: FormatterOperandOptions| f.provider_gives(instruction, op, io, h.op, n0, op2, h.n)
        &&& h.selector_symbol is None
    } else {
        h == default_hooks(o, k)
    }
}

/// `hooks_answered` for each operand.
pub open spec fn all_hooks_answered(
    f: NasmFormatter<'_>,
    instruction: Instruction,
    op_info: InstrOpInfo,
    hs: Seq<OperandHooks>,
) -> bool {
    forall|i: int| 0 <= i < hs.len() ==> hooks_answered(f, instruction, op_info, i, #[trigger] hs[i])
}

/// What the hooks answered holds of every formatter with the same setup.
pub proof fn lemma_hooks_answered_same_setup(
    a: NasmFormatter<'_>,
    b: NasmFormatter<'_>,
    instruction: Instruction,
    op_info: InstrOpInfo,
    operand: int,
    h: OperandHooks,
)
    requires
        a.same_setup(&b),
        hooks_answered(a, instruction, op_info, operand, h),
    ensures
        hooks_answered(b, instruction, op_info, operand, h),
{
    a.lemma_same_setup_relations(&b);
}

/// `count` pieces of text `s`.
pub open spec fn repeat_pieces(s: Seq<char>, count: nat) -> Seq<Piece> {
    Seq::new(count, |i: int| (s, FormatterTextKind::Text, TextInfo::Plain))
}

/// The spaces and tabs between the mnemonic, which ends at `column`, and the
/// first operand. Without tabs: spaces up to the first operand's column
/// (at most 256), or one space if the mnemonic reaches it. With tabs: tabs up
/// to the last tab stop before the operand's column, then spaces; a single tab
/// where neither is needed.
pub open spec fn tabs_pieces(column: u32, first_operand_char_index: u32, tab_size: u32) -> Seq<Piece> {
    let f = if first_operand_char_index > 256 {
        256
    } else {
        first_operand_char_index
    };
    if tab_size == 0 {
        repeat_pieces(
            " "@,
            if f <= column {
                1
            } else {
                (f - column) as nat
            },
        )
    } else {
        let end_col = if f <= column {
            column.wrapping_add(1)
        } else {
            f
        };
        let rounded = end_col / tab_size * tab_size;
        let added_tabs = rounded > column;
        let col2: int = if added_tabs {
            rounded
        } else {
            column as int
        };
        (if added_tabs {
            repeat_pieces("\t"@, ((rounded - column / tab_size * tab_size) / tab_size as int) as nat)
        } else {
            Seq::empty()
        }) + (if end_col > col2 {
            repeat_pieces(" "@, (end_col - col2) as nat)
        } else if !added_tabs {
            repeat_pieces("\t"@, 1)
        } else {
            Seq::empty()
        })
    }
}

/// A whole instruction as a formatter without hooks writes it: the prefixes
/// and mnemonic, then, if there are operands, the spaces or tabs up to the
/// first operand and the operands.
pub open spec fn instruction_pieces(o: FormatterOptions, instruction: Instruction, op_info: InstrOpInfo) -> Seq<Piece> {
    mnemonic_pieces(o, instruction, op_info, FormatMnemonicOptions::NONE) + if op_info.op_kinds@.len() != 0 {
        tabs_pieces(
            mnemonic_column(0, instruction, op_info, FormatMnemonicOptions::NONE),
            o.first_operand_char_index,
            o.tab_size,
        ) + operands_pieces(o, instruction, op_info)
    } else {
        Seq::empty()
    }
}

/// A whole instruction with what the hooks gave for each operand.
pub open spec fn instruction_pieces_with(
    o: FormatterOptions,
    instruction: Instruction,
    op_info: InstrOpInfo,
    hs: Seq<OperandHooks>,
) -> Seq<Piece> {
    mnemonic_pieces(o, instruction, op_info, FormatMnemonicOptions::NONE) + if op_info.op_kinds@.len() != 0 {
        tabs_pieces(
            mnemonic_column(0, instruction, op_info, FormatMnemonicOptions::NONE),
            o.first_operand_char_index,
            o.tab_size,
        ) + operands_pieces_with(o, instruction, op_info, hs)
    } else {
        Seq::empty()
    }
}

/// The first formatter operand that shows instruction operand `instruction_operand`.
pub open spec fn formatter_operand_of(op_info: InstrOpInfo, instruction_operand: u32) -> Option<u32> {
    if exists|i: int| 0 <= i < op_info.op_indexes@.len() && op_info.op_indexes@[i] == instruction_operand {
        let i = choose|i: int|
            0 <= i < op_info.op_indexes@.len() && op_info.op_indexes@[i] == instruction_operand && forall|j: int|
                0 <= j < i ==> op_info.op_indexes@[j] != instruction_operand;
        Some(i as u32)
    } else {
        None
    }
}

/// Clearing the size keyword field, or setting it to `dword`, keeps the far field.
proof fn lemma_adjusted_flags(flags: u32)
    ensures
        flag_field(
            flags & !(InstrOpInfoFlags::MEMORY_SIZE_INFO_MASK << InstrOpInfoFlags::MEMORY_SIZE_INFO_SHIFT),
            InstrOpInfoFlags::FAR_MEMORY_SIZE_INFO_SHIFT,
            InstrOpInfoFlags::FAR_MEMORY_SIZE_INFO_MASK,
        ) == flag_field(flags, InstrOpInfoFlags::FAR_MEMORY_SIZE_INFO_SHIFT, InstrOpInfoFlags::FAR_MEMORY_SIZE_INFO_MASK),
        flag_field(
            (flags & !(InstrOpInfoFlags::MEMORY_SIZE_INFO_MASK << InstrOpInfoFlags::MEMORY_SIZE_INFO_SHIFT)) | (
            MemorySizeInfo::DWORD << InstrOpInfoFlags::MEMORY_SIZE_INFO_SHIFT),
            InstrOpInfoFlags::FAR_MEMORY_SIZE_INFO_SHIFT,
            InstrOpInfoFlags::FAR_MEMORY_SIZE_INFO_MASK,
        ) == flag_field(flags, InstrOpInfoFlags::FAR_MEMORY_SIZE_INFO_SHIFT, InstrOpInfoFlags::FAR_MEMORY_SIZE_INFO_MASK),
{
    assert(((flags & !(3u32 << 0u32)) >> 2u32) & 3u32 == (flags >> 2u32) & 3u32) by (bit_vector);
    assert((((flags & !(3u32 << 0u32)) | (2u32 << 0u32)) >> 2u32) & 3u32 == (flags >> 2u32) & 3u32) by (bit_vector);
}

/// One more prefix: a space after any earlier one, then the prefix.
proof fn lemma_prefix_push(o: FormatterOptions, c: u32, texts: Seq<PrefixText>, t: PrefixText)
    ensures
        prefix_pieces(o, texts.push(t)) == prefix_pieces(o, texts) + (if texts.len() > 0 {
            piece(" "@, FormatterTextKind::Text)
        } else {
            Seq::empty()
        }) + prefix_piece(o, t),
        prefix_column(c, texts.push(t)) == (if texts.len() > 0 {
            prefix_column(c, texts).wrapping_add(1)
        } else {
            prefix_column(c, texts)
        }).wrapping_add(t.0.len() as u32),
{
    assert(texts.push(t).drop_last() =~= texts);
}

// ---------------------------------------------------------------------------

impl<'a> Default for NasmFormatter<'a> {
    /// A NASM formatter with the default NASM options and no hooks.
    fn default() -> (r: NasmFormatter<'a>)
        ensures
            r.wf(),
            r.options_view().is_default_except_suffixes(),
            r.options_view().hex_suffix@ == "h"@,
            r.options_view().octal_suffix@ == "o"@,
            r.options_view().binary_suffix@ == "b"@,
            !r.has_symbol_resolver(),
            !r.has_options_provider(),
    {
        NasmFormatter::new()
    }
}

impl<'a> NasmFormatter<'a> {
    /// The formatter's tables are those of NASM.
    pub closed spec fn wf(&self) -> bool {
        self.d.wf()
    }

    /// The options of the formatter.
    pub closed spec fn options_view(&self) -> FormatterOptions {
        self.d.options
    }

    /// Whether a symbol resolver was given.
    pub closed spec fn has_symbol_resolver(&self) -> bool {
        self.symbol_resolver is Some
    }

    /// Whether an options provider was given.
    pub closed spec fn has_options_provider(&self) -> bool {
        self.options_provider is Some
    }

    /// Creates a NASM formatter with the default NASM options, no symbol
    /// resolver and no options provider.
    pub fn new() -> (r: NasmFormatter<'a>)
        ensures
            r.wf(),
            r.options_view().is_default_except_suffixes(),
            r.options_view().hex_suffix@ == "h"@,
            r.options_view().octal_suffix@ == "o"@,
            r.options_view().binary_suffix@ == "b"@,
            !r.has_symbol_resolver(),
            !r.has_options_provider(),
            forall|i: Instruction, o: u32, io: Option<u32>, a: u64, s: u32, x: Option<SymbolResult>|
                #[trigger] r.resolver_answers(i, o, io, a, s, x) == (x is None),
            forall|
                i: Instruction,
                o: u32,
                io: Option<u32>,
                op0: FormatterOperandOptions,
                n0: NumberFormat,
                op1: FormatterOperandOptions,
                n1: NumberFormat,
            | #[trigger] r.provider_gives(i, o, io, op0, n0, op1, n1) == (op1 == op0 && n1 == n0),
    {
        NasmFormatter::with_options(None, None)
    }

    /// Creates a NASM formatter with the default NASM options and the given
    /// symbol resolver and options provider, where given.
    pub fn with_options(
        symbol_resolver: Option<&'a mut dyn SymbolResolver>,
        options_provider: Option<&'a mut dyn FormatterOptionsProvider>,
    ) -> (r: NasmFormatter<'a>)
        ensures
            r.wf(),
            r.options_view().is_default_except_suffixes(),
            r.options_view().hex_suffix@ == "h"@,
            r.options_view().octal_suffix@ == "o"@,
            r.options_view().binary_suffix@ == "b"@,
            r.has_symbol_resolver() == symbol_resolver is Some,
            r.has_options_provider() == options_provider is Some,
            symbol_resolver matches Some(res) ==> forall|
                i: Instruction,
                o: u32,
                io: Option<u32>,
                a: u64,
                s: u32,
                x: Option<SymbolResult>,
            | #[trigger] r.resolver_answers(i, o, io, a, s, x) == res.answers(i, o, io, a, s, x),
            symbol_resolver is None ==> forall|
                i: Instruction,
                o: u32,
                io: Option<u32>,
                a: u64,
                s: u32,
                x: Option<SymbolResult>,
            | #[trigger] r.resolver_answers(i, o, io, a, s, x) == (x is None),
            options_provider matches Some(p) ==> forall|
                i: Instruction,
                o: u32,
                io: Option<u32>,
                op0: FormatterOperandOptions,
                n0: NumberFormat,
                op1: FormatterOperandOptions,
                n1: NumberFormat,
            | #[trigger] r.provider_gives(i, o, io, op0, n0, op1, n1) == p.gives(i, o, io, op0, n0, op1, n1),
            options_provider is None ==> forall|
                i: Instruction,
                o: u32,
                io: Option<u32>,
                op0: FormatterOperandOptions,
                n0: NumberFormat,
                op1: FormatterOperandOptions,
                n1: NumberFormat,
            | #[trigger] r.provider_gives(i, o, io, op0, n0, op1, n1) == (op1 == op0 && n1 == n0),
    {
        NasmFormatter {
            d: SelfData {
                options: FormatterOptions::with_nasm(),
                str_: FormatterConstants::new(),
                vec_: ArrayConstants::new(),
            },
            symbol_resolver,
            options_provider,
        }
    }

    /// The options of the formatter.
    pub fn options(&self) -> (r: &FormatterOptions)
        ensures
            *r == self.options_view(),
    {
        &self.d.options
    }


    /// Whether no operand is a memory operand that shows the segment.
    fn show_segment_prefix(op_info: &InstrOpInfo) -> (r: bool)
        ensures
            r == shows_segment_prefix(*op_info),
    {
        let mut i: usize = 0;
        while i < op_info.op_kinds.len()
            invariant
                i <= op_info.op_kinds@.len(),
                forall|j: int| 0 <= j < i ==> !is_segment_memory(#[trigger] op_info.op_kinds@[j]),
            decreases op_info.op_kinds@.len() - i,
        {
            match op_info.op_kinds[i] {
                InstrOpKind::MemorySegSI | InstrOpKind::MemorySegESI | InstrOpKind::MemorySegRSI
                | InstrOpKind::MemorySegDI | InstrOpKind::MemorySegEDI | InstrOpKind::MemorySegRDI
                | InstrOpKind::Memory64 | InstrOpKind::Memory => {
                    return false;
                },
                _ => {},
            }
            i = i + 1;
        }
        true
    }

    /// Which segment prefix a segment register is (`segment_prefix_kind`).
    fn get_segment_register_prefix_kind(seg: u32) -> (k: PrefixKind)
        ensures
            k == segment_prefix_kind(seg),
    {
        if seg == Register::ES {
            PrefixKind::ES
        } else if seg == Register::CS {
            PrefixKind::CS
        } else if seg == Register::SS {
            PrefixKind::SS
        } else if seg == Register::DS {
            PrefixKind::DS
        } else if seg == Register::FS {
            PrefixKind::FS
        } else {
            PrefixKind::GS
        }
    }

    /// Writes prefix `prefix`, which is prefix `prefix_kind`, after a space
    /// if one was written before it.
    fn format_prefix(
        options: &FormatterOptions,
        output: &mut FormatterOutput,
        column: &mut u32,
        prefix: &FormatterString,
        prefix_kind: PrefixKind,
        need_space: &mut bool,
    )
        requires
            prefix.wf(),
        ensures
            final(output)@ == old(output)@ + (if *old(need_space) {
                piece(" "@, FormatterTextKind::Text)
            } else {
                Seq::empty()
            }) + prefix_piece(*options, (prefix.lower_view(), prefix_kind)),
            *final(column) == (if *old(need_space) {
                (*old(column)).wrapping_add(1)
            } else {
                *old(column)
            }).wrapping_add(prefix.lower_view().len() as u32),
            *final(need_space),
    {
        if *need_space {
            *column = column.wrapping_add(1);
            output.write(" ", FormatterTextKind::Text);
        }
        output.write_prefix(prefix.get(options.upper_case_prefixes || options.upper_case_all), prefix_kind);
        *column = column.wrapping_add(prefix.len() as u32);
        *need_space = true;
        assert(final(output)@ =~= old(output)@ + (if *old(need_space) {
            piece(" "@, FormatterTextKind::Text)
        } else {
            Seq::empty()
        }) + prefix_piece(*options, (prefix.lower_view(), prefix_kind)));
    }


    /// `format_prefix`, keeping account of the prefixes written so far.
    fn format_next_prefix(
        options: &FormatterOptions,
        output: &mut FormatterOutput,
        column: &mut u32,
        prefix: &FormatterString,
        prefix_kind: PrefixKind,
        need_space: &mut bool,
        Ghost(start): Ghost<Seq<Piece>>,
        Ghost(c0): Ghost<u32>,
        Ghost(texts): Ghost<Seq<PrefixText>>,
    )
        requires
            prefix.wf(),
            old(output)@ == start + prefix_pieces(*options, texts),
            *old(column) == prefix_column(c0, texts),
            *old(need_space) == (texts.len() > 0),
        ensures
            final(output)@ == start + prefix_pieces(*options, texts.push((prefix.lower_view(), prefix_kind))),
            *final(column) == prefix_column(c0, texts.push((prefix.lower_view(), prefix_kind))),
            *final(need_space),
    {
        proof {
            lemma_prefix_push(*options, c0, texts, (prefix.lower_view(), prefix_kind));
        }
        NasmFormatter::format_prefix(options, output, column, prefix, prefix_kind, need_space);
        assert(final(output)@ =~= start + prefix_pieces(*options, texts.push((prefix.lower_view(), prefix_kind))));
    }

    /// Writes the prefixes up to `lock`.
    #[verifier::rlimit(30)]
    fn format_prefixes_first(
        &self,
        instruction: &Instruction,
        output: &mut FormatterOutput,
        op_info: &InstrOpInfo,
        column: &mut u32,
        need_space: &mut bool,
    ) -> (texts: Ghost<Seq<PrefixText>>)
        requires
            self.wf(),
            instruction.wf(),
            op_info.wf(),
            !*old(need_space),
        ensures
            final(output)@ == old(output)@ + prefix_pieces(self.d.options, texts@),
            *final(column) == prefix_column(*old(column), texts@),
            *final(need_space) == (texts@.len() > 0),
            texts@ == prefix_texts_first(*instruction, *op_info),
    {
        let ghost start = output@;
        let ghost c0 = *column;
        let ghost mut texts: Seq<PrefixText> = Seq::empty();
        assert(output@ =~= start + prefix_pieces(self.d.options, texts));
        let opi = (op_info.flags >> InstrOpInfoFlags::OP_SIZE_SHIFT) & InstrOpInfoFlags::SIZE_OVERRIDE_MASK;
        let adi = (op_info.flags >> InstrOpInfoFlags::ADDR_SIZE_SHIFT) & InstrOpInfoFlags::SIZE_OVERRIDE_MASK;
        proof {
            lemma_flag_field_bound(op_info.flags, InstrOpInfoFlags::OP_SIZE_SHIFT, InstrOpInfoFlags::SIZE_OVERRIDE_MASK);
            lemma_flag_field_bound(op_info.flags, InstrOpInfoFlags::ADDR_SIZE_SHIFT, InstrOpInfoFlags::SIZE_OVERRIDE_MASK);
        }
        let prefix = &self.d.vec_.op_size_strings[opi as usize];
        if !prefix.is_default() {
            NasmFormatter::format_next_prefix(&self.d.options, output, column, prefix, PrefixKind::OperandSize, need_space, Ghost(start), Ghost(c0), Ghost(texts));
            proof { texts = texts.push((prefix.lower_view(), PrefixKind::OperandSize)); }
        }
        let prefix = &self.d.vec_.addr_size_strings[adi as usize];
        if !prefix.is_default() {
            NasmFormatter::format_next_prefix(&self.d.options, output, column, prefix, PrefixKind::AddressSize, need_space, Ghost(start), Ghost(c0), Ghost(texts));
            proof { texts = texts.push((prefix.lower_view(), PrefixKind::AddressSize)); }
        }
        let prefix_seg = instruction.segment_prefix;
        let has_notrack_prefix = prefix_seg == Register::DS && instruction.is_notrack_prefix_branch;
        if !has_notrack_prefix && prefix_seg != Register::NONE && NasmFormatter::show_segment_prefix(op_info) {
            let seg_kind = NasmFormatter::get_segment_register_prefix_kind(prefix_seg);
            NasmFormatter::format_next_prefix(&self.d.options, output, column, &self.d.vec_.registers[prefix_seg as usize], seg_kind, need_space, Ghost(start), Ghost(c0), Ghost(texts));
            proof { texts = texts.push((register_name(prefix_seg as int), segment_prefix_kind(prefix_seg))); }
        }
        if instruction.has_xacquire_prefix {
            NasmFormatter::format_next_prefix(&self.d.options, output, column, &self.d.str_.xacquire, PrefixKind::Xacquire, need_space, Ghost(start), Ghost(c0), Ghost(texts));
            proof { texts = texts.push(("xacquire"@, PrefixKind::Xacquire)); }
        }
        if instruction.has_xrelease_prefix {
            NasmFormatter::format_next_prefix(&self.d.options, output, column, &self.d.str_.xrelease, PrefixKind::Xrelease, need_space, Ghost(start), Ghost(c0), Ghost(texts));
            proof { texts = texts.push(("xrelease"@, PrefixKind::Xrelease)); }
        }
        if instruction.has_lock_prefix {
            NasmFormatter::format_next_prefix(&self.d.options, output, column, &self.d.str_.lock, PrefixKind::Lock, need_space, Ghost(start), Ghost(c0), Ghost(texts));
            proof { texts = texts.push(("lock"@, PrefixKind::Lock)); }
        }
        proof {
            let seg = instruction.segment_prefix;
            let op = OP_SIZE_STRINGS@[opi as int]@;
            let ad = ADDR_SIZE_STRINGS@[adi as int]@;
            assert(texts =~= seq_if(op.len() != 0, op, PrefixKind::OperandSize) + seq_if(
                ad.len() != 0,
                ad,
                PrefixKind::AddressSize,
            ) + seq_if(
                !has_notrack_prefix && seg != Register::NONE && shows_segment_prefix(*op_info),
                register_name(seg as int),
                segment_prefix_kind(seg),
            ) + seq_if(instruction.has_xacquire_prefix, "xacquire"@, PrefixKind::Xacquire) + seq_if(
                instruction.has_xrelease_prefix,
                "xrelease"@,
                PrefixKind::Xrelease,
            ) + seq_if(instruction.has_lock_prefix, "lock"@, PrefixKind::Lock));
        }
        Ghost(texts)
    }

    /// Writes the prefixes from `rep` on, after the prefixes `texts` written
    /// from `start` and column `c0`.
    fn format_prefixes_last(
        &self,
        instruction: &Instruction,
        output: &mut FormatterOutput,
        op_info: &InstrOpInfo,
        column: &mut u32,
        need_space: &mut bool,
        Ghost(start): Ghost<Seq<Piece>>,
        Ghost(c0): Ghost<u32>,
        Ghost(texts): Ghost<Seq<PrefixText>>,
    ) -> (all: Ghost<Seq<PrefixText>>)
        requires
            self.wf(),
            old(output)@ == start + prefix_pieces(self.d.options, texts),
            *old(column) == prefix_column(c0, texts),
            *old(need_space) == (texts.len() > 0),
        ensures
            final(output)@ == start + prefix_pieces(self.d.options, all@),
            *final(column) == prefix_column(c0, all@),
            *final(need_space) == (all@.len() > 0),
            all@ == texts + prefix_texts_last(*instruction, *op_info),
    {
        let ghost t0 = texts;
        let ghost mut texts = texts;
        let has_bnd = (op_info.flags & InstrOpInfoFlags::BND_PREFIX) != 0;
        let has_notrack_prefix = instruction.segment_prefix == Register::DS && instruction.is_notrack_prefix_branch;
        if instruction.has_repe_prefix {
            if instruction.is_repe_or_repne_instruction {
                NasmFormatter::format_next_prefix(&self.d.options, output, column, &self.d.str_.repe, PrefixKind::Repe, need_space, Ghost(start), Ghost(c0), Ghost(texts));
                proof { texts = texts.push(("repe"@, PrefixKind::Repe)); }
            } else {
                NasmFormatter::format_next_prefix(&self.d.options, output, column, &self.d.str_.rep, PrefixKind::Rep, need_space, Ghost(start), Ghost(c0), Ghost(texts));
                proof { texts = texts.push(("rep"@, PrefixKind::Rep)); }
            }
        }
        if instruction.has_repne_prefix && !has_bnd {
            NasmFormatter::format_next_prefix(&self.d.options, output, column, &self.d.str_.repne, PrefixKind::Repne, need_space, Ghost(start), Ghost(c0), Ghost(texts));
            proof { texts = texts.push(("repne"@, PrefixKind::Repne)); }
        }
        if has_notrack_prefix {
            NasmFormatter::format_next_prefix(&self.d.options, output, column, &self.d.str_.notrack, PrefixKind::Notrack, need_space, Ghost(start), Ghost(c0), Ghost(texts));
            proof { texts = texts.push(("notrack"@, PrefixKind::Notrack)); }
        }
        if has_bnd {
            NasmFormatter::format_next_prefix(&self.d.options, output, column, &self.d.str_.bnd, PrefixKind::Bnd, need_space, Ghost(start), Ghost(c0), Ghost(texts));
            proof { texts = texts.push(("bnd"@, PrefixKind::Bnd)); }
        }
        proof {
            assert(texts =~= t0 + prefix_texts_last(*instruction, *op_info));
        }
        Ghost(texts)
    }

    /// Writes the prefixes and the mnemonic (`mnemonic_pieces`) and advances
    /// the column by what was written (`mnemonic_column`).
    fn format_mnemonic(
        &self,
        instruction: &Instruction,
        output: &mut FormatterOutput,
        op_info: &InstrOpInfo,
        column: &mut u32,
        mnemonic_options: u32,
    )
        requires
            self.wf(),
            instruction.wf(),
            op_info.wf(),
        ensures
            final(output)@ == old(output)@ + mnemonic_pieces(self.d.options, *instruction, *op_info, mnemonic_options),
            *final(column) == mnemonic_column(*old(column), *instruction, *op_info, mnemonic_options),
    {
        let ghost start = output@;
        let ghost c0 = *column;
        let mut need_space = false;
        let ghost texts_done: Seq<PrefixText> = Seq::empty();
        if (mnemonic_options & FormatMnemonicOptions::NO_PREFIXES) == 0 && (op_info.flags
            & InstrOpInfoFlags::MNEMONIC_IS_DIRECTIVE) == 0 {
            let first = self.format_prefixes_first(instruction, output, op_info, column, &mut need_space);
            let all = self.format_prefixes_last(instruction, output, op_info, column, &mut need_space, Ghost(start), Ghost(c0), first);
            proof {
                texts_done = all@;

            }
        } else {
            assert(output@ =~= start + prefix_pieces(self.d.options, texts_done));
        }
        assert(texts_done == written_prefix_texts(*instruction, *op_info, mnemonic_options));
        assert(output@ == start + prefix_pieces(self.d.options, texts_done));
        assert(*column == prefix_column(c0, texts_done));
        assert(need_space == (texts_done.len() > 0));
        let ghost o1 = output@;
        if (mnemonic_options & FormatMnemonicOptions::NO_MNEMONIC) == 0 {
            if need_space {
                output.write(" ", FormatterTextKind::Text);
                *column = column.wrapping_add(1);
            }
            let mnemonic = &op_info.mnemonic;
            if (op_info.flags & InstrOpInfoFlags::MNEMONIC_IS_DIRECTIVE) != 0 {
                output.write(
                    mnemonic.get(self.d.options.upper_case_keywords || self.d.options.upper_case_all),
                    FormatterTextKind::Directive,
                );
            } else {
                output.write(
                    mnemonic.get(self.d.options.upper_case_mnemonics || self.d.options.upper_case_all),
                    FormatterTextKind::Mnemonic,
                );
            }
            *column = column.wrapping_add(mnemonic.len() as u32);
            assert(output@ =~= o1 + ((if texts_done.len() > 0 {
                piece(" "@, FormatterTextKind::Text)
            } else {
                Seq::empty()
            }) + mnemonic_text_pieces(self.d.options, *op_info)));
        } else {
            assert(output@ =~= o1 + Seq::<Piece>::empty());
        }
        assert(final(output)@ =~= old(output)@ + mnemonic_pieces(self.d.options, *instruction, *op_info, mnemonic_options));
    }


    /// Writes `immediate_pieces`.
    fn write_immediate(
        d: &SelfData,
        output: &mut FormatterOutput,
        n: &NumberFormattingOptions,
        value: u64,
        bits: u32,
        symbol: &Option<SymbolResult>,
    )
        requires
            fits_bits(value, bits),
        ensures
            final(output)@ == old(output)@ + immediate_pieces(d.options, n@, value, bits, *symbol),
    {
        reveal(immediate_pieces);
        match symbol {
            Some(sym) => {
                write_symbol(output, n, value, sym, d.options.show_symbol_address, true, false);
            },
            None => {
                let sv: i64 = if bits == 8 {
                    value as u8 as i8 as i64
                } else if bits == 16 {
                    value as u16 as i16 as i64
                } else if bits == 32 {
                    value as u32 as i32 as i64
                } else {
                    value as i64
                };
                let number_kind = if n.signed_number {
                    if bits == 8 {
                        NumberKind::Int8
                    } else if bits == 16 {
                        NumberKind::Int16
                    } else if bits == 32 {
                        NumberKind::Int32
                    } else {
                        NumberKind::Int64
                    }
                } else {
                    if bits == 8 {
                        NumberKind::UInt8
                    } else if bits == 16 {
                        NumberKind::UInt16
                    } else if bits == 32 {
                        NumberKind::UInt32
                    } else {
                        NumberKind::UInt64
                    }
                };
                let number_value: u64 = if n.signed_number {
                    sv as u64
                } else {
                    value
                };
                if n.signed_number && sv < 0 {
                    output.write("-", FormatterTextKind::Operator);
                    let m: u64 = (0i128 - (sv as i128)) as u64;
                    let s = format_unsigned(n, m, bits, n.leading_zeroes);
                    output.write_number(s.as_str(), number_value, number_kind, FormatterTextKind::Number);
                } else {
                    let s = format_unsigned(n, value, bits, n.leading_zeroes);
                    output.write_number(s.as_str(), number_value, number_kind, FormatterTextKind::Number);
                }
                assert(final(output)@ =~= old(output)@ + immediate_pieces(d.options, n@, value, bits, *symbol));
            },
        }
    }

    /// Writes `near_branch_pieces`.
    fn write_near_branch(
        d: &SelfData,
        output: &mut FormatterOutput,
        instruction: &Instruction,
        op_kind: InstrOpKind,
        flags: u32,
        operand_options: FormatterOperandOptions,
        n: &NumberFormattingOptions,
        symbol: &Option<SymbolResult>,
    )
        requires
            d.wf(),
        ensures
            final(output)@ == old(output)@ + near_branch_pieces(
                d.options,
                *instruction,
                op_kind,
                flags,
                operand_options,
                n@,
                *symbol,
            ),
    {
        reveal(near_branch_pieces);
        let ghost o0 = output@;
        NasmFormatter::format_flow_control(d, output, flags, operand_options);
        let ghost o1 = output@;
        let target: u64 = if op_kind == InstrOpKind::NearBranch64 {
            instruction.near_branch64
        } else if op_kind == InstrOpKind::NearBranch32 {
            instruction.near_branch32() as u64
        } else {
            instruction.near_branch16() as u64
        };
        match symbol {
            Some(sym) => {
                write_symbol(output, n, target, sym, d.options.show_symbol_address, true, false);
            },
            None => {
                let s = if op_kind == InstrOpKind::NearBranch32 {
                    format_u32_zeroes(n, instruction.near_branch32(), n.leading_zeroes)
                } else if op_kind == InstrOpKind::NearBranch64 {
                    format_u64_zeroes(n, instruction.near_branch64, n.leading_zeroes)
                } else {
                    format_u16_zeroes(n, instruction.near_branch16(), n.leading_zeroes)
                };
                let kind = if instruction.is_call {
                    FormatterTextKind::FunctionAddress
                } else {
                    FormatterTextKind::LabelAddress
                };
                let number_kind = if op_kind == InstrOpKind::NearBranch32 {
                    NumberKind::UInt32
                } else if op_kind == InstrOpKind::NearBranch64 {
                    NumberKind::UInt64
                } else {
                    NumberKind::UInt16
                };
                output.write_number(s.as_str(), target, number_kind, kind);
            },
        }
        assert(final(output)@ =~= old(output)@ + near_branch_pieces(
            d.options,
            *instruction,
            op_kind,
            flags,
            operand_options,
            n@,
            *symbol,
        ));
    }

    /// Writes the selector of a far branch: its symbol, else its number.
    fn write_far_selector(
        d: &SelfData,
        output: &mut FormatterOutput,
        n: &NumberFormattingOptions,
        selector: u16,
        selector_symbol: &Option<SymbolResult>,
    )
        ensures
            final(output)@ == old(output)@ + match *selector_symbol {
                Some(ssym) => symbol_pieces(n@, selector as u64, ssym, d.options.show_symbol_address, true, false),
                None => info_piece(
                    unsigned_text(n@, selector as nat, 16, n@.leading_zeroes),
                    FormatterTextKind::SelectorValue,
                    TextInfo::Number(selector as u64, NumberKind::UInt16),
                ),
            },
    {
        match selector_symbol {
            Some(ssym) => {
                write_symbol(output, n, selector as u64, ssym, d.options.show_symbol_address, true, false);
            },
            None => {
                let s = format_u16_zeroes(n, selector, n.leading_zeroes);
                output.write_number(s.as_str(), selector as u64, NumberKind::UInt16, FormatterTextKind::SelectorValue);
            },
        }
    }

    /// Writes `far_branch_pieces`.
    fn write_far_branch(
        d: &SelfData,
        output: &mut FormatterOutput,
        instruction: &Instruction,
        op_kind: InstrOpKind,
        flags: u32,
        operand_options: FormatterOperandOptions,
        n: &NumberFormattingOptions,
        symbol: &Option<SymbolResult>,
        selector_symbol: &Option<SymbolResult>,
    )
        requires
            d.wf(),
        ensures
            final(output)@ == old(output)@ + far_branch_pieces(
                d.options,
                *instruction,
                op_kind,
                flags,
                operand_options,
                n@,
                *symbol,
                *selector_symbol,
            ),
    {
        reveal(far_branch_pieces);
        NasmFormatter::format_flow_control(d, output, flags, operand_options);
        let ghost o1 = output@;
        let target: u64 = if op_kind == InstrOpKind::FarBranch32 {
            instruction.far_branch32 as u64
        } else {
            instruction.far_branch16() as u64
        };
        let ghost (t, size) = far_branch_target(*instruction, op_kind);
        assert(target == t);
        let selector = instruction.far_branch_selector;
        match symbol {
            Some(sym) => {
                NasmFormatter::write_far_selector(d, output, n, selector, selector_symbol);
                output.write(":", FormatterTextKind::Punctuation);
                write_symbol(output, n, target, sym, d.options.show_symbol_address, true, false);
            },
            None => {
                NasmFormatter::write_far_selector(d, output, n, selector, &None);
                output.write(":", FormatterTextKind::Punctuation);
                let s = if op_kind == InstrOpKind::FarBranch32 {
                    format_u32_zeroes(n, instruction.far_branch32, n.leading_zeroes)
                } else {
                    format_u16_zeroes(n, instruction.far_branch16(), n.leading_zeroes)
                };
                let kind = if instruction.is_call {
                    FormatterTextKind::FunctionAddress
                } else {
                    FormatterTextKind::LabelAddress
                };
                assert(s@ == unsigned_text(n@, target as nat, (size * 8) as nat, n@.leading_zeroes));
                let number_kind = if op_kind == InstrOpKind::FarBranch32 {
                    NumberKind::UInt32
                } else {
                    NumberKind::UInt16
                };
                output.write_number(s.as_str(), target, number_kind, kind);
            },
        }
        assert(final(output)@ =~= old(output)@ + far_branch_pieces(
            d.options,
            *instruction,
            op_kind,
            flags,
            operand_options,
            n@,
            *symbol,
            *selector_symbol,
        ));
    }


    /// Resolves a `rip` or `eip` relative address (`adjusted_address`).
    fn adjust_address(instruction: &Instruction, m: &MemoryOperand, rip_relative: bool) -> (a: AdjustedAddress)
        ensures
            a == adjusted_address(*instruction, *m, rip_relative),
    {
        if m.base == Register::RIP {
            let abs_addr = (instruction.next_ip as i64).wrapping_add(m.displ as i32 as i64) as u64;
            if !rip_relative {
                AdjustedAddress {
                    base: Register::NONE,
                    displ_size: 8,
                    displ: abs_addr as i64,
                    flags: m.flags & !(InstrOpInfoFlags::MEMORY_SIZE_INFO_MASK << InstrOpInfoFlags::MEMORY_SIZE_INFO_SHIFT),
                    abs_addr,
                    add_rel: true,
                }
            } else {
                AdjustedAddress { base: m.base, displ_size: m.displ_size, displ: m.displ, flags: m.flags, abs_addr, add_rel: false }
            }
        } else if m.base == Register::EIP {
            let abs_addr = instruction.next_ip32().wrapping_add(m.displ as u32) as u64;
            if !rip_relative {
                AdjustedAddress {
                    base: Register::NONE,
                    displ_size: 4,
                    displ: abs_addr as i64,
                    flags: (m.flags & !(InstrOpInfoFlags::MEMORY_SIZE_INFO_MASK << InstrOpInfoFlags::MEMORY_SIZE_INFO_SHIFT))
                        | (MemorySizeInfo::DWORD << InstrOpInfoFlags::MEMORY_SIZE_INFO_SHIFT),
                    abs_addr,
                    add_rel: true,
                }
            } else {
                AdjustedAddress { base: m.base, displ_size: m.displ_size, displ: m.displ, flags: m.flags, abs_addr, add_rel: false }
            }
        } else {
            AdjustedAddress {
                base: m.base,
                displ_size: m.displ_size,
                displ: m.displ,
                flags: m.flags,
                abs_addr: m.displ as u64,
                add_rel: false,
            }
        }
    }

    /// Writes `memory_head_pieces`.
    fn format_memory_head(
        d: &SelfData,
        output: &mut FormatterOutput,
        m: &MemoryOperand,
        a: &AdjustedAddress,
        operand_options: FormatterOperandOptions,
    )
        requires
            d.wf(),
            m.mem_size < MEMORY_SIZE_COUNT,
            flag_field(a.flags, InstrOpInfoFlags::FAR_MEMORY_SIZE_INFO_SHIFT, InstrOpInfoFlags::FAR_MEMORY_SIZE_INFO_MASK)
                < FAR_MEMORY_SIZE_INFO_COUNT,
        ensures
            final(output)@ == old(output)@ + memory_head_pieces(d.options, *m, *a, operand_options),
    {
        reveal(memory_head_pieces);
        NasmFormatter::format_memory_size(d, output, m.mem_size, a.flags, operand_options);
        let ghost o1 = output@;
        output.write("[", FormatterTextKind::Punctuation);
        if d.options.space_after_memory_bracket {
            output.write(" ", FormatterTextKind::Text);
        }
        let ghost o2 = output@;
        let idx = (a.flags >> InstrOpInfoFlags::MEMORY_SIZE_INFO_SHIFT) & InstrOpInfoFlags::MEMORY_SIZE_INFO_MASK;
        proof {
            lemma_flag_field_bound(a.flags, InstrOpInfoFlags::MEMORY_SIZE_INFO_SHIFT, InstrOpInfoFlags::MEMORY_SIZE_INFO_MASK);
        }
        let mem_size_name = &d.vec_.mem_size_infos[idx as usize];
        if !mem_size_name.is_default() {
            NasmFormatter::format_keyword(&d.options, output, mem_size_name);
            output.write(" ", FormatterTextKind::Text);
        }
        let ghost o3 = output@;
        if a.add_rel {
            NasmFormatter::format_keyword(&d.options, output, &d.str_.rel);
            output.write(" ", FormatterTextKind::Text);
        }
        proof {
            let name = MEM_SIZE_INFO_STRINGS@[idx as int]@;
            assert(o2 =~= o1 + piece("["@, FormatterTextKind::Punctuation) + space_if(d.options.space_after_memory_bracket));
            if name.len() != 0 {
                assert(o3 =~= o2 + keyword_space_pieces(d.options, name));
            } else {
                assert(o3 =~= o2 + Seq::<Piece>::empty());
            }
            if a.add_rel {
                assert(output@ =~= o3 + keyword_space_pieces(d.options, "rel"@));
            } else {
                assert(output@ =~= o3 + Seq::<Piece>::empty());
            }
        }
        assert(final(output)@ =~= old(output)@ + memory_head_pieces(d.options, *m, *a, operand_options));
    }

    /// Writes `index_pieces`.
    fn format_memory_index(d: &SelfData, output: &mut FormatterOutput, m: &MemoryOperand, a: &AdjustedAddress)
        requires
            d.wf(),
            m.index < REGISTER_COUNT,
            m.scale <= 3,
        ensures
            final(output)@ == old(output)@ + index_pieces(d.options, *m, *a),
    {
        let factor: u64 = if m.scale == 0 {
            1
        } else if m.scale == 1 {
            2
        } else if m.scale == 2 {
            4
        } else {
            8
        };
        let use_scale = m.addr_size != 2 && (m.scale != 0 || d.options.always_show_scale || a.base == Register::NONE);
        if !use_scale {
            NasmFormatter::format_register_internal(d, output, m.index);
        } else if d.options.scale_before_index {
            output.write_number(SCALE_NUMBERS[m.scale as usize], factor, NumberKind::Int32, FormatterTextKind::Number);
            if d.options.space_between_memory_mul_operators {
                output.write(" ", FormatterTextKind::Text);
            }
            output.write("*", FormatterTextKind::Operator);
            if d.options.space_between_memory_mul_operators {
                output.write(" ", FormatterTextKind::Text);
            }
            NasmFormatter::format_register_internal(d, output, m.index);
        } else {
            NasmFormatter::format_register_internal(d, output, m.index);
            if d.options.space_between_memory_mul_operators {
                output.write(" ", FormatterTextKind::Text);
            }
            output.write("*", FormatterTextKind::Operator);
            if d.options.space_between_memory_mul_operators {
                output.write(" ", FormatterTextKind::Text);
            }
            output.write_number(SCALE_NUMBERS[m.scale as usize], factor, NumberKind::Int32, FormatterTextKind::Number);
        }
        assert(final(output)@ =~= old(output)@ + index_pieces(d.options, *m, *a));
    }

    /// Writes the segment register and a colon where it is shown.
    fn format_memory_segment(
        d: &SelfData,
        output: &mut FormatterOutput,
        instruction: &Instruction,
        m: &MemoryOperand,
        a: &AdjustedAddress,
    )
        requires
            d.wf(),
            m.seg_reg < REGISTER_COUNT,
        ensures
            final(output)@ == old(output)@ + (if shows_segment(d.options, *instruction, *m, *a) {
                register_pieces(d.options, m.seg_reg as int) + piece(":"@, FormatterTextKind::Punctuation)
            } else {
                Seq::empty()
            }),
    {
        let code_size = instruction.code_size;
        let notrack_prefix = m.seg_override == Register::DS && instruction.is_notrack_prefix_branch && !((code_size
            == CodeSize::Code16 || code_size == CodeSize::Code32) && (a.base == Register::BP || a.base == Register::EBP
            || a.base == Register::ESP));
        if d.options.always_show_segment_register || (m.seg_override != Register::NONE && !notrack_prefix) {
            NasmFormatter::format_register_internal(d, output, m.seg_reg);
            output.write(":", FormatterTextKind::Punctuation);
            assert(output@ =~= old(output)@ + (register_pieces(d.options, m.seg_reg as int) + piece(":"@, FormatterTextKind::Punctuation)));
        } else {
            assert(output@ =~= old(output)@ + Seq::<Piece>::empty());
        }
    }

    /// Writes the base register and the index with its scale, where there are.
    fn format_memory_base_index(d: &SelfData, output: &mut FormatterOutput, m: &MemoryOperand, a: &AdjustedAddress)
        requires
            d.wf(),
            m.wf(),
            a.base < REGISTER_COUNT,
        ensures
            final(output)@ == old(output)@ + (if a.base != Register::NONE {
                register_pieces(d.options, a.base as int)
            } else {
                Seq::empty()
            }) + (if m.index != Register::NONE {
                (if a.base != Register::NONE {
                    add_operator_pieces(d.options, "+"@)
                } else {
                    Seq::empty()
                }) + index_pieces(d.options, *m, *a)
            } else {
                Seq::empty()
            }),
    {
        let need_plus = if a.base != Register::NONE {
            NasmFormatter::format_register_internal(d, output, a.base);
            true
        } else {
            false
        };
        let ghost o2 = output@;
        if m.index != Register::NONE {
            if need_plus {
                if d.options.space_between_memory_add_operators {
                    output.write(" ", FormatterTextKind::Text);
                }
                output.write("+", FormatterTextKind::Operator);
                if d.options.space_between_memory_add_operators {
                    output.write(" ", FormatterTextKind::Text);
                }
                assert(output@ =~= o2 + add_operator_pieces(d.options, "+"@));
            } else {
                assert(output@ =~= o2 + Seq::<Piece>::empty());
            }
            let ghost o3 = output@;
            NasmFormatter::format_memory_index(d, output, m, a);
            assert(output@ =~= o2 + ((if a.base != Register::NONE {
                add_operator_pieces(d.options, "+"@)
            } else {
                Seq::empty()
            }) + index_pieces(d.options, *m, *a)));
        } else {
            assert(output@ =~= o2 + Seq::<Piece>::empty());
        }
        proof {
            if a.base != Register::NONE {
                assert(o2 =~= old(output)@ + register_pieces(d.options, a.base as int));
            } else {
                assert(o2 =~= old(output)@ + Seq::<Piece>::empty());
            }
        }
    }

    /// Writes `memory_regs_pieces`.
    fn format_memory_regs(
        d: &SelfData,
        output: &mut FormatterOutput,
        instruction: &Instruction,
        m: &MemoryOperand,
        a: &AdjustedAddress,
    )
        requires
            d.wf(),
            m.wf(),
            a.base < REGISTER_COUNT,
        ensures
            final(output)@ == old(output)@ + memory_regs_pieces(d.options, *instruction, *m, *a),
    {
        reveal(memory_regs_pieces);
        NasmFormatter::format_memory_segment(d, output, instruction, m, a);
        NasmFormatter::format_memory_base_index(d, output, m, a);
        assert(final(output)@ =~= old(output)@ + memory_regs_pieces(d.options, *instruction, *m, *a));
    }

    /// Writes a displacement's number (`displ_number_text`).
    fn format_displ_number(
        output: &mut FormatterOutput,
        n: &NumberFormattingOptions,
        displ: i64,
        displ_size: u32,
        orig_displ: u64,
        signed: bool,
    )
        ensures
            final(output)@ == old(output)@ + info_piece(
                displ_number_text(n@, displ, displ_size),
                FormatterTextKind::Number,
                TextInfo::Number(orig_displ, displ_number_kind(displ, displ_size, signed)),
            ),
    {
        let (s, bits) = if displ_size <= 1 && displ as u64 <= 0xFF {
            (format_u8(n, displ as u8), 8u32)
        } else if displ_size <= 2 && displ as u64 <= 0xFFFF {
            (format_u16(n, displ as u16), 16u32)
        } else if displ_size <= 4 && displ as u64 <= 0xFFFF_FFFF {
            (format_u32(n, displ as u32), 32u32)
        } else {
            (format_u64(n, displ as u64), 64u32)
        };
        let number_kind = if signed {
            if bits == 8 {
                NumberKind::Int8
            } else if bits == 16 {
                NumberKind::Int16
            } else if bits == 32 {
                NumberKind::Int32
            } else {
                NumberKind::Int64
            }
        } else {
            if bits == 8 {
                NumberKind::UInt8
            } else if bits == 16 {
                NumberKind::UInt16
            } else if bits == 32 {
                NumberKind::UInt32
            } else {
                NumberKind::UInt64
            }
        };
        output.write_number(s.as_str(), orig_displ, number_kind, FormatterTextKind::Number);
    }

    /// Writes `memory_displ_pieces`.
    fn format_memory_displ(
        d: &SelfData,
        output: &mut FormatterOutput,
        n: &NumberFormattingOptions,
        m: &MemoryOperand,
        a: &AdjustedAddress,
        symbol: &Option<SymbolResult>,
    )
        ensures
            final(output)@ == old(output)@ + memory_displ_pieces(d.options, n@, *m, *a, *symbol),
    {
        reveal(memory_displ_pieces);
        let need_plus = a.base != Register::NONE || m.index != Register::NONE;
        match symbol {
            Some(sym) => {
                let signed = (sym.flags & SymbolFlags::SIGNED) != 0;
                if need_plus {
                    if d.options.space_between_memory_add_operators {
                        output.write(" ", FormatterTextKind::Text);
                    }
                    if signed {
                        output.write("-", FormatterTextKind::Operator);
                    } else {
                        output.write("+", FormatterTextKind::Operator);
                    }
                    if d.options.space_between_memory_add_operators {
                        output.write(" ", FormatterTextKind::Text);
                    }
                } else if signed {
                    output.write("-", FormatterTextKind::Operator);
                }
                let ghost o1 = output@;
                write_symbol(
                    output,
                    n,
                    a.abs_addr,
                    sym,
                    d.options.show_symbol_address,
                    false,
                    d.options.space_between_memory_add_operators,
                );
                proof {
                    if need_plus {
                        assert(o1 =~= old(output)@ + add_operator_pieces(d.options, if signed { "-"@ } else { "+"@ }));
                    } else if signed {
                        assert(o1 =~= old(output)@ + piece("-"@, FormatterTextKind::Operator));
                    } else {
                        assert(o1 =~= old(output)@ + Seq::<Piece>::empty());
                    }
                }
            },
            None => {
                if !need_plus || (a.displ_size != 0 && (d.options.show_zero_displacements || a.displ != 0)) {
                    let mut displ = a.displ;
                    let mut displ_size = a.displ_size;
                    if need_plus {
                        let ghost (sign, sdispl) = displ_sign(n@, m.addr_size, a.displ);
                        if d.options.space_between_memory_add_operators {
                            output.write(" ", FormatterTextKind::Text);
                        }
                        let ghost o1 = output@;
                        if !n.signed_number {
                            output.write("+", FormatterTextKind::Operator);
                        } else if m.addr_size == 4 {
                            if (displ as i32) < 0 {
                                output.write("-", FormatterTextKind::Operator);
                                displ = 0i32.wrapping_sub(displ as i32) as u32 as i64;
                            } else {
                                output.write("+", FormatterTextKind::Operator);
                            }
                        } else if m.addr_size == 8 {
                            if displ < 0 {
                                output.write("-", FormatterTextKind::Operator);
                                displ = 0i64.wrapping_sub(displ);
                            } else {
                                output.write("+", FormatterTextKind::Operator);
                            }
                        } else {
                            if (displ as i16) < 0 {
                                output.write("-", FormatterTextKind::Operator);
                                displ = 0i16.wrapping_sub(displ as i16) as u16 as i64;
                            } else {
                                output.write("+", FormatterTextKind::Operator);
                            }
                        }
                        if n.displacement_leading_zeroes {
                            displ_size = m.addr_size;
                        }
                        if d.options.space_between_memory_add_operators {
                            output.write(" ", FormatterTextKind::Text);
                        }
                        assert(displ == sdispl);
                        assert(output@ =~= old(output)@ + add_operator_pieces(d.options, sign));
                    }
                    let ghost o2 = output@;
                    let is_signed = need_plus && n.signed_number;
                    NasmFormatter::format_displ_number(output, n, displ, displ_size, a.displ as u64, is_signed);
                }
            },
        }
        assert(final(output)@ =~= old(output)@ + memory_displ_pieces(d.options, n@, *m, *a, *symbol));
    }

    /// Writes `memory_tail_pieces`.
    fn format_memory_tail(d: &SelfData, output: &mut FormatterOutput, m: &MemoryOperand)
        requires
            d.wf(),
            m.mem_size < MEMORY_SIZE_COUNT,
        ensures
            final(output)@ == old(output)@ + memory_tail_pieces(d.options, *m),
    {
        reveal(memory_tail_pieces);
        if d.options.space_after_memory_bracket {
            output.write(" ", FormatterTextKind::Text);
        }
        output.write("]", FormatterTextKind::Punctuation);
        let ghost o1 = output@;
        let bcst_to = &d.vec_.memory_sizes[m.mem_size as usize].bcst_to;
        if !bcst_to.is_default() {
            NasmFormatter::format_decorator(&d.options, output, bcst_to, DecoratorKind::Broadcast);
        }
        proof {
            if memory_size_broadcast(m.mem_size as int).len() != 0 {
                assert(output@ =~= o1 + decorator_pieces(
                    d.options,
                    memory_size_broadcast(m.mem_size as int),
                    DecoratorKind::Broadcast,
                ));
            } else {
                assert(output@ =~= o1 + Seq::<Piece>::empty());
            }
        }
        assert(final(output)@ =~= old(output)@ + memory_tail_pieces(d.options, *m));
    }

    /// Writes `memory_pieces`.
    fn write_memory(
        d: &SelfData,
        output: &mut FormatterOutput,
        instruction: &Instruction,
        m: &MemoryOperand,
        operand_options: FormatterOperandOptions,
        n: &NumberFormattingOptions,
        symbol: &Option<SymbolResult>,
    )
        requires
            d.wf(),
            m.wf(),
        ensures
            final(output)@ == old(output)@ + memory_pieces(d.options, *instruction, *m, operand_options, n@, *symbol),
    {
        reveal(memory_pieces);
        let a = NasmFormatter::adjust_address(instruction, m, operand_options.rip_relative_addresses);
        proof {
            lemma_adjusted_flags(m.flags);
        }
        let ghost o0 = output@;
        NasmFormatter::format_memory_head(d, output, m, &a, operand_options);
        let ghost o1 = output@;
        NasmFormatter::format_memory_regs(d, output, instruction, m, &a);
        let ghost o2 = output@;
        NasmFormatter::format_memory_displ(d, output, n, m, &a, symbol);
        let ghost o3 = output@;
        NasmFormatter::format_memory_tail(d, output, m);
        assert(final(output)@ =~= old(output)@ + memory_pieces(d.options, *instruction, *m, operand_options, n@, *symbol));
    }


    /// The answers that the symbol resolver may give to a query; none
    /// where there is no symbol resolver.
    pub closed spec fn resolver_answers(
        &self,
        instruction: Instruction,
        operand: u32,
        instruction_operand: Option<u32>,
        address: u64,
        address_size: u32,
        r: Option<SymbolResult>,
    ) -> bool {
        match self.symbol_resolver {
            Some(res) => res.answers(instruction, operand, instruction_operand, address, address_size, r),
            None => r is None,
        }
    }

    /// The changes that the options provider may make; none where there is
    /// no options provider.
    pub closed spec fn provider_gives(
        &self,
        instruction: Instruction,
        operand: u32,
        instruction_operand: Option<u32>,
        op0: FormatterOperandOptions,
        n0: NumberFormat,
        op1: FormatterOperandOptions,
        n1: NumberFormat,
    ) -> bool {
        match self.options_provider {
            Some(p) => p.gives(instruction, operand, instruction_operand, op0, n0, op1, n1),
            None => op1 == op0 && n1 == n0,
        }
    }

    /// Without a symbol resolver nothing is found, and without an options
    /// provider nothing is changed.
    pub proof fn lemma_absent_hooks(&self)
        ensures
            !self.has_symbol_resolver() ==> forall|
                i: Instruction,
                o: u32,
                io: Option<u32>,
                a: u64,
                s: u32,
                x: Option<SymbolResult>,
            | #[trigger] self.resolver_answers(i, o, io, a, s, x) ==> x is None,
            !self.has_options_provider() ==> forall|
                i: Instruction,
                o: u32,
                io: Option<u32>,
                op0: FormatterOperandOptions,
                n0: NumberFormat,
                op1: FormatterOperandOptions,
                n1: NumberFormat,
            | #[trigger] self.provider_gives(i, o, io, op0, n0, op1, n1) ==> op1 == op0 && n1 == n0,
    {
    }

    /// The tables, which hooks there are and what they may answer are the
    /// same; the options may differ.
    pub closed spec fn same_hooks_and_tables(&self, other: &Self) -> bool {
        &&& self.d.str_ == other.d.str_
        &&& self.d.vec_ == other.d.vec_
        &&& (self.symbol_resolver is Some) == (other.symbol_resolver is Some)
        &&& (self.options_provider is Some) == (other.options_provider is Some)
        &&& forall|i: Instruction, o: u32, io: Option<u32>, a: u64, s: u32, x: Option<SymbolResult>|
            #![trigger self.resolver_answers(i, o, io, a, s, x)]
            #![trigger other.resolver_answers(i, o, io, a, s, x)]
            self.resolver_answers(i, o, io, a, s, x) == other.resolver_answers(i, o, io, a, s, x)
        &&& forall|
            i: Instruction,
            o: u32,
            io: Option<u32>,
            op0: FormatterOperandOptions,
            n0: NumberFormat,
            op1: FormatterOperandOptions,
            n1: NumberFormat,
        |
            #![trigger self.provider_gives(i, o, io, op0, n0, op1, n1)]
            #![trigger other.provider_gives(i, o, io, op0, n0, op1, n1)]
            self.provider_gives(i, o, io, op0, n0, op1, n1) == other.provider_gives(i, o, io, op0, n0, op1, n1)
    }

    /// Formatters with the same hooks and tables have the same well-formedness
    /// and hooks that answer alike; with the same options too, they have the
    /// same setup.
    pub proof fn lemma_same_hooks_and_tables(&self, other: &Self)
        requires
            self.same_hooks_and_tables(other),
        ensures
            self.wf() == other.wf(),
            self.has_symbol_resolver() == other.has_symbol_resolver(),
            self.has_options_provider() == other.has_options_provider(),
            forall|i: Instruction, o: u32, io: Option<u32>, a: u64, s: u32, x: Option<SymbolResult>|
                #![trigger self.resolver_answers(i, o, io, a, s, x)]
                #![trigger other.resolver_answers(i, o, io, a, s, x)]
                self.resolver_answers(i, o, io, a, s, x) == other.resolver_answers(i, o, io, a, s, x),
            forall|
                i: Instruction,
                o: u32,
                io: Option<u32>,
                op0: FormatterOperandOptions,
                n0: NumberFormat,
                op1: FormatterOperandOptions,
                n1: NumberFormat,
            |
                #![trigger self.provider_gives(i, o, io, op0, n0, op1, n1)]
                #![trigger other.provider_gives(i, o, io, op0, n0, op1, n1)]
                self.provider_gives(i, o, io, op0, n0, op1, n1) == other.provider_gives(i, o, io, op0, n0, op1, n1),
            self.options_view() == other.options_view() ==> self.same_setup(other),
    {
    }

    /// The tables, the options, which hooks there are and what they may
    /// answer stay as they were.
    pub closed spec fn same_setup(&self, other: &Self) -> bool {
        &&& self.d == other.d
        &&& (self.symbol_resolver is Some) == (other.symbol_resolver is Some)
        &&& (self.options_provider is Some) == (other.options_provider is Some)
        &&& forall|i: Instruction, o: u32, io: Option<u32>, a: u64, s: u32, x: Option<SymbolResult>|
            #![trigger self.resolver_answers(i, o, io, a, s, x)]
            #![trigger other.resolver_answers(i, o, io, a, s, x)]
            self.resolver_answers(i, o, io, a, s, x) == other.resolver_answers(i, o, io, a, s, x)
        &&& forall|
            i: Instruction,
            o: u32,
            io: Option<u32>,
            op0: FormatterOperandOptions,
            n0: NumberFormat,
            op1: FormatterOperandOptions,
            n1: NumberFormat,
        |
            #![trigger self.provider_gives(i, o, io, op0, n0, op1, n1)]
            #![trigger other.provider_gives(i, o, io, op0, n0, op1, n1)]
            self.provider_gives(i, o, io, op0, n0, op1, n1) == other.provider_gives(i, o, io, op0, n0, op1, n1)
    }

    /// Formatters with the same setup have the same options and hooks that
    /// answer alike.
    pub proof fn lemma_same_setup_relations(&self, other: &Self)
        requires
            self.same_setup(other),
        ensures
            self.options_view() == other.options_view(),
            self.has_symbol_resolver() == other.has_symbol_resolver(),
            self.has_options_provider() == other.has_options_provider(),
            forall|i: Instruction, o: u32, io: Option<u32>, a: u64, s: u32, x: Option<SymbolResult>|
                #![trigger self.resolver_answers(i, o, io, a, s, x)]
                #![trigger other.resolver_answers(i, o, io, a, s, x)]
                self.resolver_answers(i, o, io, a, s, x) == other.resolver_answers(i, o, io, a, s, x),
            forall|
                i: Instruction,
                o: u32,
                io: Option<u32>,
                op0: FormatterOperandOptions,
                n0: NumberFormat,
                op1: FormatterOperandOptions,
                n1: NumberFormat,
            |
                #![trigger self.provider_gives(i, o, io, op0, n0, op1, n1)]
                #![trigger other.provider_gives(i, o, io, op0, n0, op1, n1)]
                self.provider_gives(i, o, io, op0, n0, op1, n1) == other.provider_gives(i, o, io, op0, n0, op1, n1),
    {
    }

    /// Asks the symbol resolver, if there is one, for a symbol.
    fn resolve_symbol(
        &mut self,
        instruction: &Instruction,
        operand: u32,
        instruction_operand: Option<u32>,
        address: u64,
        address_size: u32,
    ) -> (r: Option<SymbolResult>)
        ensures
            final(self).same_setup(old(self)),
            !old(self).has_symbol_resolver() ==> r is None,
            old(self).resolver_answers(*instruction, operand, instruction_operand, address, address_size, r),
    {
        if let Some(ref mut symbol_resolver) = self.symbol_resolver {
            symbol_resolver.symbol(instruction, operand, instruction_operand, address, address_size)
        } else {
            None
        }
    }

    /// Lets the options provider, if there is one, change the options.
    fn provide_options(
        &mut self,
        instruction: &Instruction,
        operand: u32,
        instruction_operand: Option<u32>,
        operand_options: &mut FormatterOperandOptions,
        number_options: &mut NumberFormattingOptions,
    )
        ensures
            final(self).same_setup(old(self)),
            !old(self).has_options_provider() ==> *final(operand_options) == *old(operand_options)
                && *final(number_options) == *old(number_options),
            old(self).provider_gives(
                *instruction,
                operand,
                instruction_operand,
                *old(operand_options),
                old(number_options)@,
                *final(operand_options),
                final(number_options)@,
            ),
    {
        if let Some(ref mut options_provider) = self.options_provider {
            options_provider.operand_options(instruction, operand, instruction_operand, operand_options, number_options);
        }
    }

    /// Writes a near branch operand after asking the hooks.
    fn format_near_branch_operand(
        &mut self,
        instruction: &Instruction,
        output: &mut FormatterOutput,
        op_info: &InstrOpInfo,
        operand: u32,
        instruction_operand: Option<u32>,
        op_kind: InstrOpKind,
    ) -> (h: Ghost<OperandHooks>)
        requires
            old(self).wf(),
            op_kind == InstrOpKind::NearBranch16 || op_kind == InstrOpKind::NearBranch32 || op_kind
                == InstrOpKind::NearBranch64,
        ensures
            final(self).same_setup(old(self)),
            hooks_allowed(old(self).has_symbol_resolver(), old(self).has_options_provider(), old(self).d.options, op_kind, h@),
            h@.op == default_operand_options(old(self).d.options, op_kind),
            old(self).resolver_answers(
                *instruction,
                operand,
                instruction_operand,
                near_branch_target(*instruction, op_kind).0,
                near_branch_target(*instruction, op_kind).1,
                h@.symbol,
            ),
            exists|op1: FormatterOperandOptions|
                old(self).provider_gives(
                    *instruction,
                    operand,
                    instruction_operand,
                    default_operand_options(old(self).d.options, op_kind),
                    default_number_format(old(self).d.options, op_kind),
                    op1,
                    h@.n,
                ),
            h@.selector_symbol is None,
            final(output)@ == old(output)@ + near_branch_pieces(
                old(self).d.options,
                *instruction,
                op_kind,
                op_info.flags,
                h@.op,
                h@.n,
                h@.symbol,
            ),
    {
        let (imm64, imm_size): (u64, u32) = if op_kind == InstrOpKind::NearBranch64 {
            (instruction.near_branch64, 8)
        } else if op_kind == InstrOpKind::NearBranch32 {
            (instruction.near_branch32() as u64, 4)
        } else {
            (instruction.near_branch16() as u64, 2)
        };
        let operand_options = FormatterOperandOptions::new(!self.d.options.show_branch_size);
        let symbol = self.resolve_symbol(instruction, operand, instruction_operand, imm64, imm_size);
        let mut provided_options = operand_options;
        let mut number_options = NumberFormattingOptions::with_branch(&self.d.options);
        self.provide_options(instruction, operand, instruction_operand, &mut provided_options, &mut number_options);
        NasmFormatter::write_near_branch(
            &self.d,
            output,
            instruction,
            op_kind,
            op_info.flags,
            operand_options,
            &number_options,
            &symbol,
        );
        assert(old(self).provider_gives(
            *instruction,
            operand,
            instruction_operand,
            default_operand_options(old(self).d.options, op_kind),
            default_number_format(old(self).d.options, op_kind),
            provided_options,
            number_options@,
        ));
        Ghost(OperandHooks { op: operand_options, n: number_options@, symbol, selector_symbol: None })
    }

    /// Writes a far branch operand after asking the hooks.
    fn format_far_branch_operand(
        &mut self,
        instruction: &Instruction,
        output: &mut FormatterOutput,
        op_info: &InstrOpInfo,
        operand: u32,
        instruction_operand: Option<u32>,
        op_kind: InstrOpKind,
    ) -> (h: Ghost<OperandHooks>)
        requires
            old(self).wf(),
            operand < 16,
            op_kind == InstrOpKind::FarBranch16 || op_kind == InstrOpKind::FarBranch32,
        ensures
            final(self).same_setup(old(self)),
            hooks_allowed(old(self).has_symbol_resolver(), old(self).has_options_provider(), old(self).d.options, op_kind, h@),
            h@.op == default_operand_options(old(self).d.options, op_kind),
            old(self).resolver_answers(
                *instruction,
                operand,
                instruction_operand,
                far_branch_target(*instruction, op_kind).0,
                far_branch_target(*instruction, op_kind).1,
                h@.symbol,
            ),
            exists|op1: FormatterOperandOptions|
                old(self).provider_gives(
                    *instruction,
                    operand,
                    instruction_operand,
                    default_operand_options(old(self).d.options, op_kind),
                    default_number_format(old(self).d.options, op_kind),
                    op1,
                    h@.n,
                ),
            h@.symbol is Some ==> old(self).resolver_answers(
                *instruction,
                (operand + 1) as u32,
                instruction_operand,
                instruction.far_branch_selector as u64,
                2,
                h@.selector_symbol,
            ),
            h@.symbol is None ==> h@.selector_symbol is None,
            final(output)@ == old(output)@ + far_branch_pieces(
                old(self).d.options,
                *instruction,
                op_kind,
                op_info.flags,
                h@.op,
                h@.n,
                h@.symbol,
                h@.selector_symbol,
            ),
    {
        let (imm64, imm_size): (u64, u32) = if op_kind == InstrOpKind::FarBranch32 {
            (instruction.far_branch32 as u64, 4)
        } else {
            (instruction.far_branch16() as u64, 2)
        };
        let operand_options = FormatterOperandOptions::new(!self.d.options.show_branch_size);
        let symbol = self.resolve_symbol(instruction, operand, instruction_operand, imm64 as u32 as u64, imm_size);
        let mut provided_options = operand_options;
        let mut number_options = NumberFormattingOptions::with_branch(&self.d.options);
        self.provide_options(instruction, operand, instruction_operand, &mut provided_options, &mut number_options);
        let selector_symbol = if symbol.is_some() {
            self.resolve_symbol(
                instruction,
                operand + 1,
                instruction_operand,
                instruction.far_branch_selector as u64,
                2,
            )
        } else {
            None
        };
        NasmFormatter::write_far_branch(
            &self.d,
            output,
            instruction,
            op_kind,
            op_info.flags,
            operand_options,
            &number_options,
            &symbol,
            &selector_symbol,
        );
        assert(old(self).provider_gives(
            *instruction,
            operand,
            instruction_operand,
            default_operand_options(old(self).d.options, op_kind),
            default_number_format(old(self).d.options, op_kind),
            provided_options,
            number_options@,
        ));
        Ghost(OperandHooks { op: operand_options, n: number_options@, symbol, selector_symbol })
    }

    /// The value and size in bits of an immediate operand.
    fn get_immediate(instruction: &Instruction, op_kind: InstrOpKind, operand: u32) -> (r: (u64, u32))
        requires
            immediate_bits(op_kind) != 0,
            is_declare(op_kind) ==> operand < instruction.declare_values@.len(),
        ensures
            r.0 == immediate_value(*instruction, op_kind, operand as int),
            r.1 == immediate_bits(op_kind),
            fits_bits(r.0, r.1),
    {
        match op_kind {
            InstrOpKind::Immediate8 => (instruction.immediate8 as u64, 8),
            InstrOpKind::Immediate8_2nd => (instruction.immediate8_2nd as u64, 8),
            InstrOpKind::DeclareByte => (instruction.declare_values[operand as usize] as u8 as u64, 8),
            InstrOpKind::Immediate16 => (instruction.immediate16 as u64, 16),
            InstrOpKind::Immediate8to16 => (instruction.immediate8to16() as u16 as u64, 16),
            InstrOpKind::DeclareWord => (instruction.declare_values[operand as usize] as u16 as u64, 16),
            InstrOpKind::Immediate32 => (instruction.immediate32 as u64, 32),
            InstrOpKind::Immediate8to32 => (instruction.immediate8to32() as u32 as u64, 32),
            InstrOpKind::DeclareDword => (instruction.declare_values[operand as usize] as u32 as u64, 32),
            InstrOpKind::Immediate64 => (instruction.immediate64, 64),
            InstrOpKind::Immediate8to64 => (instruction.immediate8to64() as u64, 64),
            InstrOpKind::Immediate32to64 => (instruction.immediate32to64() as u64, 64),
            _ => (instruction.declare_values[operand as usize], 64),
        }
    }

    /// Writes an immediate operand after asking the hooks; 16, 32 and 64-bit
    /// immediates get their sign extension keyword first.
    fn format_immediate_operand(
        &mut self,
        instruction: &Instruction,
        output: &mut FormatterOutput,
        op_info: &InstrOpInfo,
        operand: u32,
        instruction_operand: Option<u32>,
        op_kind: InstrOpKind,
    ) -> (h: Ghost<OperandHooks>)
        requires
            old(self).wf(),
            immediate_bits(op_kind) != 0,
            is_declare(op_kind) ==> operand < instruction.declare_values@.len(),
        ensures
            final(self).same_setup(old(self)),
            hooks_allowed(old(self).has_symbol_resolver(), old(self).has_options_provider(), old(self).d.options, op_kind, h@),
            old(self).provider_gives(
                *instruction,
                operand,
                instruction_operand,
                default_operand_options(old(self).d.options, op_kind),
                default_number_format(old(self).d.options, op_kind),
                h@.op,
                h@.n,
            ),
            old(self).resolver_answers(
                *instruction,
                operand,
                instruction_operand,
                immediate_value(*instruction, op_kind, operand as int),
                immediate_bits(op_kind) / 8,
                h@.symbol,
            ),
            h@.selector_symbol is None,
            final(output)@ == old(output)@ + (if immediate_bits(op_kind) == 8 {
                Seq::empty()
            } else {
                sign_extend_pieces(old(self).d.options, op_info.flags)
            }) + immediate_pieces(
                old(self).d.options,
                h@.n,
                immediate_value(*instruction, op_kind, operand as int),
                immediate_bits(op_kind),
                h@.symbol,
            ),
    {
        let (value, bits) = NasmFormatter::get_immediate(instruction, op_kind, operand);
        let ghost o0 = output@;
        if bits != 8 {
            NasmFormatter::show_sign_extend_info(&self.d, output, op_info.flags);
        } else {
            assert(output@ =~= o0 + Seq::<Piece>::empty());
        }
        let mut operand_options = FormatterOperandOptions::new(false);
        let mut number_options = NumberFormattingOptions::with_immediate(&self.d.options);
        self.provide_options(instruction, operand, instruction_operand, &mut operand_options, &mut number_options);
        let symbol = self.resolve_symbol(instruction, operand, instruction_operand, value, bits / 8);
        NasmFormatter::write_immediate(&self.d, output, &number_options, value, bits, &symbol);
        Ghost(OperandHooks { op: operand_options, n: number_options@, symbol, selector_symbol: None })
    }

    /// The memory operand that an operand kind stands for (`memory_operand_of`).
    fn get_memory_operand(instruction: &Instruction, op_info: &InstrOpInfo, op_kind: InstrOpKind) -> (m: MemoryOperand)
        requires
            instruction.wf(),
            op_info.wf(),
            is_memory(op_kind),
        ensures
            m == memory_operand_of(*instruction, *op_info, op_kind),
            m.wf(),
    {
        let seg = instruction.memory_segment;
        let (seg_reg, base, addr_size): (u32, u32, u32) = match op_kind {
            InstrOpKind::MemorySegSI => (seg, Register::SI, 2),
            InstrOpKind::MemorySegESI => (seg, Register::ESI, 4),
            InstrOpKind::MemorySegRSI => (seg, Register::RSI, 8),
            InstrOpKind::MemorySegDI => (seg, Register::DI, 2),
            InstrOpKind::MemorySegEDI => (seg, Register::EDI, 4),
            InstrOpKind::MemorySegRDI => (seg, Register::RDI, 8),
            InstrOpKind::MemoryESDI => (Register::ES, Register::DI, 2),
            InstrOpKind::MemoryESEDI => (Register::ES, Register::EDI, 4),
            InstrOpKind::MemoryESRDI => (Register::ES, Register::RDI, 8),
            InstrOpKind::Memory64 => {
                return MemoryOperand {
                    mem_size: op_info.memory_size,
                    seg_override: instruction.segment_prefix,
                    seg_reg: instruction.memory_segment,
                    base: Register::NONE,
                    index: Register::NONE,
                    scale: 0,
                    displ_size: 8,
                    displ: instruction.memory_displacement64 as i64,
                    addr_size: 8,
                    flags: op_info.flags,
                };
            },
            _ => {
                let displ_size = instruction.memory_displ_size;
                let base_reg = instruction.memory_base;
                let index_reg = instruction.memory_index;
                let addr_size = get_address_size_in_bytes(base_reg, index_reg, displ_size, instruction.code_size);
                let displ = if addr_size == 8 {
                    instruction.memory_displacement64 as i64
                } else {
                    instruction.memory_displacement32() as i64
                };
                return MemoryOperand {
                    mem_size: op_info.memory_size,
                    seg_override: instruction.segment_prefix,
                    seg_reg: instruction.memory_segment,
                    base: base_reg,
                    index: index_reg,
                    scale: instruction.memory_index_scale,
                    displ_size,
                    displ,
                    addr_size,
                    flags: op_info.flags,
                };
            },
        };
        MemoryOperand {
            mem_size: op_info.memory_size,
            seg_override: instruction.segment_prefix,
            seg_reg,
            base,
            index: Register::NONE,
            scale: 0,
            displ_size: 0,
            displ: 0,
            addr_size,
            flags: op_info.flags,
        }
    }

    /// Writes a memory operand after asking the hooks: the options provider
    /// before the `rip` relative address is resolved, the symbol resolver for
    /// the address, and the options provider again for the displacement.
    fn format_memory(
        &mut self,
        output: &mut FormatterOutput,
        instruction: &Instruction,
        operand: u32,
        instruction_operand: Option<u32>,
        m: &MemoryOperand,
        Ghost(op_kind): Ghost<InstrOpKind>,
    ) -> (h: Ghost<OperandHooks>)
        requires
            old(self).wf(),
            m.wf(),
            is_memory(op_kind),
        ensures
            final(self).same_setup(old(self)),
            hooks_allowed(old(self).has_symbol_resolver(), old(self).has_options_provider(), old(self).d.options, op_kind, h@),
            exists|n1: NumberFormat|
                old(self).provider_gives(
                    *instruction,
                    operand,
                    instruction_operand,
                    default_operand_options(old(self).d.options, op_kind),
                    default_number_format(old(self).d.options, op_kind),
                    h@.op,
                    n1,
                ),
            old(self).resolver_answers(
                *instruction,
                operand,
                instruction_operand,
                adjusted_address(*instruction, *m, h@.op.rip_relative_addresses).abs_addr,
                m.addr_size,
                h@.symbol,
            ),
            exists|op2: FormatterOperandOptions|
                old(self).provider_gives(
                    *instruction,
                    operand,
                    instruction_operand,
                    h@.op,
                    default_number_format(old(self).d.options, op_kind),
                    op2,
                    h@.n,
                ),
            h@.selector_symbol is None,
            final(output)@ == old(output)@ + memory_pieces(old(self).d.options, *instruction, *m, h@.op, h@.n, h@.symbol),
    {
        let mut operand_options = FormatterOperandOptions::with_memory_size_options(self.d.options.memory_size_options);
        operand_options.rip_relative_addresses = self.d.options.rip_relative_addresses;
        let mut first_number_options = NumberFormattingOptions::with_displacement(&self.d.options);
        self.provide_options(instruction, operand, instruction_operand, &mut operand_options, &mut first_number_options);
        let a = NasmFormatter::adjust_address(instruction, m, operand_options.rip_relative_addresses);
        let symbol = self.resolve_symbol(instruction, operand, instruction_operand, a.abs_addr, m.addr_size);
        let mut later_operand_options = operand_options;
        let mut number_options = NumberFormattingOptions::with_displacement(&self.d.options);
        self.provide_options(instruction, operand, instruction_operand, &mut later_operand_options, &mut number_options);
        NasmFormatter::write_memory(&self.d, output, instruction, m, operand_options, &number_options, &symbol);
        assert(old(self).provider_gives(
            *instruction,
            operand,
            instruction_operand,
            default_operand_options(old(self).d.options, op_kind),
            default_number_format(old(self).d.options, op_kind),
            operand_options,
            first_number_options@,
        ));
        assert(old(self).provider_gives(
            *instruction,
            operand,
            instruction_operand,
            operand_options,
            default_number_format(old(self).d.options, op_kind),
            later_operand_options,
            number_options@,
        ));
        Ghost(OperandHooks { op: operand_options, n: number_options@, symbol, selector_symbol: None })
    }


    /// Writes a register operand, after `to` where the flags ask for it.
    fn format_register_operand(d: &SelfData, output: &mut FormatterOutput, op_info: &InstrOpInfo, operand: u32)
        requires
            d.wf(),
            op_info.wf(),
            operand < op_info.op_kinds@.len(),
        ensures
            final(output)@ == old(output)@ + register_operand_pieces(d.options, *op_info, operand as int),
    {
        if (op_info.flags & InstrOpInfoFlags::REGISTER_TO) != 0 {
            NasmFormatter::format_keyword(&d.options, output, &d.str_.to);
            output.write(" ", FormatterTextKind::Text);
        }
        let ghost o1 = output@;
        NasmFormatter::format_register_internal(d, output, op_info.op_registers[operand as usize]);
        proof {
            if op_info.flags & InstrOpInfoFlags::REGISTER_TO != 0 {
                assert(o1 =~= old(output)@ + keyword_space_pieces(d.options, "to"@));
            } else {
                assert(o1 =~= old(output)@ + Seq::<Piece>::empty());
            }
        }
        assert(final(output)@ =~= old(output)@ + register_operand_pieces(d.options, *op_info, operand as int));
    }

    /// Writes the opmask of the first operand and `{z}`, where there is one.
    fn format_op_mask(d: &SelfData, output: &mut FormatterOutput, instruction: &Instruction, operand: u32)
        requires
            d.wf(),
            instruction.wf(),
        ensures
            final(output)@ == old(output)@ + op_mask_pieces(d.options, *instruction, operand as int),
    {
        if operand == 0 && instruction.has_op_mask() {
            output.write("{", FormatterTextKind::Punctuation);
            NasmFormatter::format_register_internal(d, output, instruction.op_mask);
            output.write("}", FormatterTextKind::Punctuation);
            let ghost o1 = output@;
            if instruction.zeroing_masking {
                NasmFormatter::format_decorator(&d.options, output, &d.str_.z, DecoratorKind::ZeroingMasking);
            } else {
                assert(output@ =~= o1 + Seq::<Piece>::empty());
            }
        }
        assert(final(output)@ =~= old(output)@ + op_mask_pieces(d.options, *instruction, operand as int));
    }

    /// Writes formatter operand `operand` (`operand_pieces_with`, with what
    /// the hooks gave; `operand_pieces` where there are no hooks).
    #[verifier::spinoff_prover]
    #[verifier::rlimit(60)]
    pub fn format_operand(
        &mut self,
        instruction: &Instruction,
        output: &mut FormatterOutput,
        op_info: &InstrOpInfo,
        operand: u32,
    )
        requires
            old(self).wf(),
            instruction.wf(),
            op_info.wf(),
            operand_valid(*instruction, *op_info, operand as int),
        ensures
            final(self).wf(),
            final(self).same_setup(old(self)),
            exists|h: OperandHooks|
                hooks_allowed(
                    old(self).has_symbol_resolver(),
                    old(self).has_options_provider(),
                    old(self).options_view(),
                    op_info.op_kinds@[operand as int],
                    h,
                ) && hooks_answered(*old(self), *instruction, *op_info, operand as int, h) && final(output)@ == old(
                    output,
                )@ + #[trigger] operand_pieces_with(old(self).options_view(), *instruction, *op_info, operand as int, h),
            !old(self).has_symbol_resolver() && !old(self).has_options_provider() ==> final(output)@ == old(output)@
                + operand_pieces(old(self).options_view(), *instruction, *op_info, operand as int),
    {
        reveal(operand_body_pieces);
        reveal(operand_pieces_with);
        let ghost o = self.d.options;
        let instruction_operand = op_info.instruction_index(operand);
        let op_kind = op_info.op_kinds[operand as usize];
        let ghost mut h = default_hooks(o, op_kind);
        let ghost start = output@;
        match op_kind {
            InstrOpKind::Register => {
                NasmFormatter::format_register_operand(&self.d, output, op_info, operand);
            },
            InstrOpKind::NearBranch16 | InstrOpKind::NearBranch32 | InstrOpKind::NearBranch64 => {
                let g = self.format_near_branch_operand(instruction, output, op_info, operand, instruction_operand, op_kind);
                proof {
                    h = g@;
                }
            },
            InstrOpKind::FarBranch16 | InstrOpKind::FarBranch32 => {
                let g = self.format_far_branch_operand(instruction, output, op_info, operand, instruction_operand, op_kind);
                proof {
                    h = g@;
                }
            },
            InstrOpKind::Immediate8 | InstrOpKind::Immediate8_2nd | InstrOpKind::DeclareByte
            | InstrOpKind::Immediate16 | InstrOpKind::Immediate8to16 | InstrOpKind::DeclareWord
            | InstrOpKind::Immediate32 | InstrOpKind::Immediate8to32 | InstrOpKind::DeclareDword
            | InstrOpKind::Immediate64 | InstrOpKind::Immediate8to64 | InstrOpKind::Immediate32to64
            | InstrOpKind::DeclareQword => {
                let g = self.format_immediate_operand(instruction, output, op_info, operand, instruction_operand, op_kind);
                proof {
                    h = g@;
                    if immediate_bits(op_kind) == 8 {
                        assert(output@ =~= start + immediate_pieces(o, h.n, immediate_value(*instruction, op_kind, operand as int), 8, h.symbol));
                    }
                }
            },
            InstrOpKind::Sae => {
                NasmFormatter::format_decorator(&self.d.options, output, &self.d.str_.sae, DecoratorKind::SuppressAllExceptions);
            },
            InstrOpKind::RnSae => {
                NasmFormatter::format_decorator(&self.d.options, output, &self.d.str_.rn_sae, DecoratorKind::RoundingControl);
            },
            InstrOpKind::RdSae => {
                NasmFormatter::format_decorator(&self.d.options, output, &self.d.str_.rd_sae, DecoratorKind::RoundingControl);
            },
            InstrOpKind::RuSae => {
                NasmFormatter::format_decorator(&self.d.options, output, &self.d.str_.ru_sae, DecoratorKind::RoundingControl);
            },
            InstrOpKind::RzSae => {
                NasmFormatter::format_decorator(&self.d.options, output, &self.d.str_.rz_sae, DecoratorKind::RoundingControl);
            },
            _ => {
                let m = NasmFormatter::get_memory_operand(instruction, op_info, op_kind);
                let g = self.format_memory(output, instruction, operand, instruction_operand, &m, Ghost(op_kind));
                proof {
                    h = g@;
                }
            },
        }
        assert(hooks_allowed(
            old(self).has_symbol_resolver(),
            old(self).has_options_provider(),
            o,
            op_kind,
            h,
        ));
        assert(output@ == start + operand_body_pieces(o, *instruction, *op_info, operand as int, h));
        assert(hooks_answered(*old(self), *instruction, *op_info, operand as int, h));
        let ghost o1 = output@;
        NasmFormatter::format_op_mask(&self.d, output, instruction, operand);
        assert(output@ =~= start + operand_pieces_with(o, *instruction, *op_info, operand as int, h));
        proof {
            if !old(self).has_symbol_resolver() && !old(self).has_options_provider() {
                assert(h == default_hooks(o, op_kind));
            }
        }
    }


    /// Writes `count` pieces of text `s`.
    fn add_strings(output: &mut FormatterOutput, s: &str, count: u32)
        ensures
            final(output)@ == old(output)@ + repeat_pieces(s@, count as nat),
    {
        let mut i: u32 = 0;
        while i < count
            invariant
                i <= count,
                output@ == old(output)@ + repeat_pieces(s@, i as nat),
            decreases count - i,
        {
            output.write(s, FormatterTextKind::Text);
            assert(output@ =~= old(output)@ + repeat_pieces(s@, (i + 1) as nat));
            i = i + 1;
        }
    }

    /// Writes `tabs_pieces`.
    fn add_tabs(output: &mut FormatterOutput, column: u32, first_operand_char_index: u32, tab_size: u32)
        ensures
            final(output)@ == old(output)@ + tabs_pieces(column, first_operand_char_index, tab_size),
    {
        let mut first_operand_char_index = first_operand_char_index;
        if first_operand_char_index > 256 {
            first_operand_char_index = 256;
        }
        if tab_size == 0 {
            let chars_left = if first_operand_char_index <= column {
                1
            } else {
                first_operand_char_index - column
            };
            NasmFormatter::add_strings(output, " ", chars_left);
        } else {
            let end_col = if first_operand_char_index <= column {
                column.wrapping_add(1)
            } else {
                first_operand_char_index
            };
            proof {
                assert(end_col / tab_size * tab_size <= end_col) by (nonlinear_arith)
                    requires
                        tab_size > 0,
                ;
                assert(column / tab_size * tab_size <= column) by (nonlinear_arith)
                    requires
                        tab_size > 0,
                ;
            }
            let end_col_rounded_down = end_col / tab_size * tab_size;
            let added_tabs = end_col_rounded_down > column;
            let mut col = column;
            let ghost o0 = output@;
            if added_tabs {
                let tabs = (end_col_rounded_down - (column / tab_size * tab_size)) / tab_size;
                NasmFormatter::add_strings(output, "\t", tabs);
                col = end_col_rounded_down;
            }
            let ghost o1 = output@;
            if end_col > col {
                NasmFormatter::add_strings(output, " ", end_col - col);
            } else if !added_tabs {
                NasmFormatter::add_strings(output, "\t", 1);
            }
            proof {
                if !added_tabs {
                    assert(o1 =~= o0 + Seq::<Piece>::empty());
                }
                if !(end_col > col) && added_tabs {
                    assert(output@ =~= o1 + Seq::<Piece>::empty());
                }
            }
        }
        assert(final(output)@ =~= old(output)@ + tabs_pieces(column, first_operand_char_index, tab_size));
    }

    /// Writes the operands separated by commas (`operands_pieces_with`, with
    /// what the hooks gave; `operands_pieces` where there are no hooks).
    fn format_operands(&mut self, instruction: &Instruction, output: &mut FormatterOutput, op_info: &InstrOpInfo) -> (hs:
        Ghost<Seq<OperandHooks>>)
        requires
            old(self).wf(),
            instruction.wf(),
            op_info.wf(),
            operands_valid(*instruction, *op_info),
        ensures
            final(self).wf(),
            final(self).same_setup(old(self)),
            hs@.len() == op_info.op_kinds@.len(),
            all_hooks_allowed(
                old(self).has_symbol_resolver(),
                old(self).has_options_provider(),
                old(self).options_view(),
                *op_info,
                hs@,
            ),
            all_hooks_answered(*old(self), *instruction, *op_info, hs@),
            final(output)@ == old(output)@ + operands_pieces_with(old(self).options_view(), *instruction, *op_info, hs@),
            !old(self).has_symbol_resolver() && !old(self).has_options_provider() ==> final(output)@ == old(output)@
                + operands_pieces(old(self).options_view(), *instruction, *op_info),
    {
        let ghost o = self.d.options;
        let ghost s0 = *self;
        let ghost mut hs: Seq<OperandHooks> = Seq::empty();
        let count = op_info.op_kinds.len();
        let mut i: usize = 0;
        assert(output@ =~= old(output)@ + operands_pieces_with(o, *instruction, *op_info, hs));
        while i < count
            invariant
                count == op_info.op_kinds@.len(),
                count <= 16,
                i <= count,
                self.wf(),
                self.same_setup(&s0),
                self.d.options == o,
                instruction.wf(),
                op_info.wf(),
                operands_valid(*instruction, *op_info),
                hs.len() == i,
                all_hooks_allowed(s0.has_symbol_resolver(), s0.has_options_provider(), o, *op_info, hs),
                all_hooks_answered(s0, *instruction, *op_info, hs),
                output@ == old(output)@ + operands_pieces_with(o, *instruction, *op_info, hs),
            decreases count - i,
        {
            let ghost before = output@;
            if i > 0 {
                output.write(",", FormatterTextKind::Punctuation);
                if self.d.options.space_after_operand_separator {
                    output.write(" ", FormatterTextKind::Text);
                }
                assert(output@ =~= before + separator_pieces(o));
            } else {
                assert(output@ =~= before + Seq::<Piece>::empty());
            }
            let ghost mid = output@;
            assert(operand_valid(*instruction, *op_info, i as int));
            let ghost si = *self;
            self.format_operand(instruction, output, op_info, i as u32);
            let ghost h = choose|h: OperandHooks|
                hooks_allowed(s0.has_symbol_resolver(), s0.has_options_provider(), o, op_info.op_kinds@[i as int], h)
                    && hooks_answered(si, *instruction, *op_info, i as int, h)
                    && output@ == mid + #[trigger] operand_pieces_with(o, *instruction, *op_info, i as int, h);
            proof {
                lemma_hooks_answered_same_setup(si, s0, *instruction, *op_info, i as int, h);
                assert forall|j: int| 0 <= j < hs.len() + 1 implies hooks_answered(
                    s0,
                    *instruction,
                    *op_info,
                    j,
                    #[trigger] hs.push(h)[j],
                ) by {
                    if j < hs.len() {
                        assert(hs.push(h)[j] == hs[j]);
                    }
                }
                let hs2 = hs.push(h);
                assert(hs2.drop_last() =~= hs);
                assert(output@ =~= old(output)@ + operands_pieces_with(o, *instruction, *op_info, hs2));
                hs = hs2;
            }
            i = i + 1;
        }
        proof {
            if !s0.has_symbol_resolver() && !s0.has_options_provider() {
                assert(hs =~= default_hooks_seq(o, *op_info, count as nat));
            }
        }
        Ghost(hs)
    }


    /// The options of the formatter, to change.
    pub fn options_mut(&mut self) -> (r: &mut FormatterOptions)
        ensures
            *r == old(self).options_view(),
            final(self).wf() == old(self).wf(),
            final(self).options_view() == *final(r),
            final(self).has_symbol_resolver() == old(self).has_symbol_resolver(),
            final(self).has_options_provider() == old(self).has_options_provider(),
            final(self).same_hooks_and_tables(old(self)),
    {
        &mut self.d.options
    }

    /// Writes the prefixes and the mnemonic (`mnemonic_pieces`); `options`
    /// (`FormatMnemonicOptions`) can leave out either.
    pub fn format_mnemonic_options(
        &mut self,
        instruction: &Instruction,
        output: &mut FormatterOutput,
        op_info: &InstrOpInfo,
        options: u32,
    )
        requires
            old(self).wf(),
            instruction.wf(),
            op_info.wf(),
        ensures
            *final(self) == *old(self),
            final(output)@ == old(output)@ + mnemonic_pieces(old(self).options_view(), *instruction, *op_info, options),
    {
        let mut column: u32 = 0;
        self.format_mnemonic(instruction, output, op_info, &mut column, options);
    }

    /// The number of formatter operands.
    pub fn operand_count(&mut self, op_info: &InstrOpInfo) -> (r: u32)
        requires
            op_info.wf(),
        ensures
            *final(self) == *old(self),
            r == op_info.op_count(),
    {
        op_info.op_kinds.len() as u32
    }

    /// How formatter operand `operand` is accessed, where the formatter added
    /// it; `None` for an operand of the instruction itself.
    pub fn op_access(&mut self, op_info: &InstrOpInfo, operand: u32) -> (r: Option<OpAccess>)
        requires
            op_info.wf(),
            operand < op_info.op_count(),
        ensures
            *final(self) == *old(self),
            r == op_info.op_access_spec(operand as int),
    {
        op_info.op_access(operand)
    }

    /// The instruction operand that formatter operand `operand` shows, if any.
    pub fn get_instruction_operand(&mut self, op_info: &InstrOpInfo, operand: u32) -> (r: Option<u32>)
        requires
            op_info.wf(),
            operand < op_info.op_count(),
        ensures
            *final(self) == *old(self),
            r == op_info.instruction_index_spec(operand as int),
    {
        op_info.instruction_index(operand)
    }

    /// The first formatter operand that shows instruction operand
    /// `instruction_operand`, if any.
    pub fn get_formatter_operand(
        &mut self,
        instruction: &Instruction,
        op_info: &InstrOpInfo,
        instruction_operand: u32,
    ) -> (r: Option<u32>)
        requires
            op_info.wf(),
            instruction_operand < instruction.op_count,
        ensures
            *final(self) == *old(self),
            r == formatter_operand_of(*op_info, instruction_operand),
    {
        let mut i: usize = 0;
        while i < op_info.op_indexes.len()
            invariant
                op_info.wf(),
                i <= op_info.op_indexes@.len(),
                forall|j: int| 0 <= j < i ==> op_info.op_indexes@[j] != instruction_operand,
            decreases op_info.op_indexes@.len() - i,
        {
            let v = op_info.op_indexes[i];
            if v >= 0 && v as u32 == instruction_operand {
                proof {
                    assert(op_info.op_indexes@[i as int] == instruction_operand);
                    let k = choose|k: int|
                        0 <= k < op_info.op_indexes@.len() && op_info.op_indexes@[k] == instruction_operand && forall|j: int|
                            0 <= j < k ==> op_info.op_indexes@[j] != instruction_operand;
                    assert(k == i) by {
                        if k < i {
                        } else if k > i {
                            assert(op_info.op_indexes@[i as int] != instruction_operand);
                        }
                    }
                }
                return Some(i as u32);
            }
            i = i + 1;
        }
        None
    }

    /// Writes an operand separator: a comma and the space that the options ask for.
    pub fn format_operand_separator(&mut self, output: &mut FormatterOutput)
        ensures
            *final(self) == *old(self),
            final(output)@ == old(output)@ + separator_pieces(old(self).options_view()),
    {
        output.write(",", FormatterTextKind::Punctuation);
        if self.d.options.space_after_operand_separator {
            output.write(" ", FormatterTextKind::Text);
        }
        assert(final(output)@ =~= old(output)@ + separator_pieces(old(self).options_view()));
    }

    /// Writes all operands separated by commas (`operands_pieces` where
    /// there are no hooks, `operands_pieces_with` in general).
    pub fn format_all_operands(&mut self, instruction: &Instruction, output: &mut FormatterOutput, op_info: &InstrOpInfo)
        requires
            old(self).wf(),
            instruction.wf(),
            op_info.wf(),
            operands_valid(*instruction, *op_info),
        ensures
            final(self).wf(),
            final(self).same_setup(old(self)),
            exists|hs: Seq<OperandHooks>|
                hs.len() == op_info.op_kinds@.len() && all_hooks_allowed(
                    old(self).has_symbol_resolver(),
                    old(self).has_options_provider(),
                    old(self).options_view(),
                    *op_info,
                    hs,
                ) && all_hooks_answered(*old(self), *instruction, *op_info, hs) && final(output)@ == old(output)@
                    + #[trigger] operands_pieces_with(
                    old(self).options_view(),
                    *instruction,
                    *op_info,
                    hs,
                ),
            !old(self).has_symbol_resolver() && !old(self).has_options_provider() ==> final(output)@ == old(output)@
                + operands_pieces(old(self).options_view(), *instruction, *op_info),
    {
        let hs = self.format_operands(instruction, output, op_info);
    }

    /// Writes a whole instruction: its prefixes and mnemonic, then, if it has
    /// operands, the spaces or tabs up to the first operand and the operands
    /// (`instruction_pieces` where there are no hooks, `instruction_pieces_with`
    /// in general).
    pub fn format(&mut self, instruction: &Instruction, output: &mut FormatterOutput, op_info: &InstrOpInfo)
        requires
            old(self).wf(),
            instruction.wf(),
            op_info.wf(),
            operands_valid(*instruction, *op_info),
        ensures
            final(self).wf(),
            final(self).same_setup(old(self)),
            exists|hs: Seq<OperandHooks>|
                hs.len() == op_info.op_kinds@.len() && all_hooks_allowed(
                    old(self).has_symbol_resolver(),
                    old(self).has_options_provider(),
                    old(self).options_view(),
                    *op_info,
                    hs,
                ) && all_hooks_answered(*old(self), *instruction, *op_info, hs) && final(output)@ == old(output)@
                    + #[trigger] instruction_pieces_with(
                    old(self).options_view(),
                    *instruction,
                    *op_info,
                    hs,
                ),
            !old(self).has_symbol_resolver() && !old(self).has_options_provider() ==> final(output)@ == old(output)@
                + instruction_pieces(old(self).options_view(), *instruction, *op_info),
    {
        let ghost o = self.d.options;
        let mut column: u32 = 0;
        self.format_mnemonic(instruction, output, op_info, &mut column, FormatMnemonicOptions::NONE);
        let ghost o1 = output@;
        if op_info.op_kinds.len() != 0 {
            NasmFormatter::add_tabs(output, column, self.d.options.first_operand_char_index, self.d.options.tab_size);
            let hs = self.format_operands(instruction, output, op_info);
            assert(final(output)@ =~= old(output)@ + instruction_pieces_with(o, *instruction, *op_info, hs@));
            assert(!old(self).has_symbol_resolver() && !old(self).has_options_provider() ==> final(output)@
                =~= old(output)@ + instruction_pieces(o, *instruction, *op_info));
        } else {
            let ghost hs: Seq<OperandHooks> = Seq::empty();
            assert(final(output)@ =~= old(output)@ + instruction_pieces_with(o, *instruction, *op_info, hs));
            assert(final(output)@ =~= old(output)@ + instruction_pieces(o, *instruction, *op_info));
        }
    }

    /// The name of a register, in the case that the options ask for.
    pub fn format_register(&mut self, register: u32) -> (r: &str)
        requires
            old(self).wf(),
            register < REGISTER_COUNT,
        ensures
            *final(self) == *old(self),
            r@ == register_text(old(self).options_view(), register as int),
    {
        NasmFormatter::get_reg_str(&self.d, register)
    }

    /// The text of an 8-bit signed number, as an immediate is written.
    pub fn format_i8(&mut self, value: i8) -> (r: String)
        ensures
            *final(self) == *old(self),
            r@ == signed_text(number_format(old(self).options_view(), old(self).options_view().leading_zeroes, old(self).options_view().signed_immediate_operands, false), value as int, 8),
    {
        let number_options = NumberFormattingOptions::with_immediate(&self.d.options);
        format_i8(&number_options, value)
    }

    /// The text of a 16-bit signed number, as an immediate is written.
    pub fn format_i16(&mut self, value: i16) -> (r: String)
        ensures
            *final(self) == *old(self),
            r@ == signed_text(number_format(old(self).options_view(), old(self).options_view().leading_zeroes, old(self).options_view().signed_immediate_operands, false), value as int, 16),
    {
        let number_options = NumberFormattingOptions::with_immediate(&self.d.options);
        format_i16(&number_options, value)
    }

    /// The text of a 32-bit signed number, as an immediate is written.
    pub fn format_i32(&mut self, value: i32) -> (r: String)
        ensures
            *final(self) == *old(self),
            r@ == signed_text(number_format(old(self).options_view(), old(self).options_view().leading_zeroes, old(self).options_view().signed_immediate_operands, false), value as int, 32),
    {
        let number_options = NumberFormattingOptions::with_immediate(&self.d.options);
        format_i32(&number_options, value)
    }

    /// The text of a 64-bit signed number, as an immediate is written.
    pub fn format_i64(&mut self, value: i64) -> (r: String)
        ensures
            *final(self) == *old(self),
            r@ == signed_text(number_format(old(self).options_view(), old(self).options_view().leading_zeroes, old(self).options_view().signed_immediate_operands, false), value as int, 64),
    {
        let number_options = NumberFormattingOptions::with_immediate(&self.d.options);
        format_i64(&number_options, value)
    }

    /// The text of an 8-bit unsigned number, as an immediate is written.
    pub fn format_u8(&mut self, value: u8) -> (r: String)
        ensures
            *final(self) == *old(self),
            r@ == unsigned_text(number_format(old(self).options_view(), old(self).options_view().leading_zeroes, old(self).options_view().signed_immediate_operands, false), value as nat, 8, old(self).options_view().leading_zeroes),
    {
        let number_options = NumberFormattingOptions::with_immediate(&self.d.options);
        format_u8(&number_options, value)
    }

    /// The text of a 16-bit unsigned number, as an immediate is written.
    pub fn format_u16(&mut self, value: u16) -> (r: String)
        ensures
            *final(self) == *old(self),
            r@ == unsigned_text(number_format(old(self).options_view(), old(self).options_view().leading_zeroes, old(self).options_view().signed_immediate_operands, false), value as nat, 16, old(self).options_view().leading_zeroes),
    {
        let number_options = NumberFormattingOptions::with_immediate(&self.d.options);
        format_u16(&number_options, value)
    }

    /// The text of a 32-bit unsigned number, as an immediate is written.
    pub fn format_u32(&mut self, value: u32) -> (r: String)
        ensures
            *final(self) == *old(self),
            r@ == unsigned_text(number_format(old(self).options_view(), old(self).options_view().leading_zeroes, old(self).options_view().signed_immediate_operands, false), value as nat, 32, old(self).options_view().leading_zeroes),
    {
        let number_options = NumberFormattingOptions::with_immediate(&self.d.options);
        format_u32(&number_options, value)
    }

    /// The text of a 64-bit unsigned number, as an immediate is written.
    pub fn format_u64(&mut self, value: u64) -> (r: String)
        ensures
            *final(self) == *old(self),
            r@ == unsigned_text(number_format(old(self).options_view(), old(self).options_view().leading_zeroes, old(self).options_view().signed_immediate_operands, false), value as nat, 64, old(self).options_view().leading_zeroes),
    {
        let number_options = NumberFormattingOptions::with_immediate(&self.d.options);
        format_u64(&number_options, value)
    }

    /// The text of an 8-bit signed number with the given options.
    pub fn format_i8_options(&mut self, value: i8, number_options: &NumberFormattingOptions) -> (r: String)
        ensures
            *final(self) == *old(self),
            r@ == signed_text(number_options@, value as int, 8),
    {
        format_i8(number_options, value)
    }

    /// The text of a 16-bit signed number with the given options.
    pub fn format_i16_options(&mut self, value: i16, number_options: &NumberFormattingOptions) -> (r: String)
        ensures
            *final(self) == *old(self),
            r@ == signed_text(number_options@, value as int, 16),
    {
        format_i16(number_options, value)
    }

    /// The text of a 32-bit signed number with the given options.
    pub fn format_i32_options(&mut self, value: i32, number_options: &NumberFormattingOptions) -> (r: String)
        ensures
            *final(self) == *old(self),
            r@ == signed_text(number_options@, value as int, 32),
    {
        format_i32(number_options, value)
    }

    /// The text of a 64-bit signed number with the given options.
    pub fn format_i64_options(&mut self, value: i64, number_options: &NumberFormattingOptions) -> (r: String)
        ensures
            *final(self) == *old(self),
            r@ == signed_text(number_options@, value as int, 64),
    {
        format_i64(number_options, value)
    }

    /// The text of an 8-bit unsigned number with the given options.
    pub fn format_u8_options(&mut self, value: u8, number_options: &NumberFormattingOptions) -> (r: String)
        ensures
            *final(self) == *old(self),
            r@ == unsigned_text(number_options@, value as nat, 8, number_options.leading_zeroes),
    {
        format_u8(number_options, value)
    }

    /// The text of a 16-bit unsigned number with the given options.
    pub fn format_u16_options(&mut self, value: u16, number_options: &NumberFormattingOptions) -> (r: String)
        ensures
            *final(self) == *old(self),
            r@ == unsigned_text(number_options@, value as nat, 16, number_options.leading_zeroes),
    {
        format_u16(number_options, value)
    }

    /// The text of a 32-bit unsigned number with the given options.
    pub fn format_u32_options(&mut self, value: u32, number_options: &NumberFormattingOptions) -> (r: String)
        ensures
            *final(self) == *old(self),
            r@ == unsigned_text(number_options@, value as nat, 32, number_options.leading_zeroes),
    {
        format_u32(number_options, value)
    }

    /// The text of a 64-bit unsigned number with the given options.
    pub fn format_u64_options(&mut self, value: u64, number_options: &NumberFormattingOptions) -> (r: String)
        ensures
            *final(self) == *old(self),
            r@ == unsigned_text(number_options@, value as nat, 64, number_options.leading_zeroes),
    {
        format_u64(number_options, value)
    }

    /// Writes a keyword.
    fn format_keyword(options: &FormatterOptions, output: &mut FormatterOutput, keyword: &FormatterString)
        requires
            keyword.wf(),
        ensures
            final(output)@ == old(output)@ + keyword_pieces(*options, keyword.lower_view()),
    {
        output.write(keyword.get(options.upper_case_keywords || options.upper_case_all), FormatterTextKind::Keyword);
    }

    /// Writes a decorator in braces.
    fn format_decorator(
        options: &FormatterOptions,
        output: &mut FormatterOutput,
        text: &FormatterString,
        decorator: DecoratorKind,
    )
        requires
            text.wf(),
        ensures
            final(output)@ == old(output)@ + decorator_pieces(*options, text.lower_view(), decorator),
    {
        output.write("{", FormatterTextKind::Punctuation);
        output.write_decorator(text.get(options.upper_case_decorators || options.upper_case_all), decorator);
        output.write("}", FormatterTextKind::Punctuation);
        assert(final(output)@ =~= old(output)@ + decorator_pieces(*options, text.lower_view(), decorator));
    }

    /// The name of register `reg_num`.
    fn get_reg_str(d: &SelfData, reg_num: u32) -> (r: &str)
        requires
            d.wf(),
            reg_num < REGISTER_COUNT,
        ensures
            r@ == register_text(d.options, reg_num as int),
    {
        let reg_str = &d.vec_.registers[reg_num as usize];
        reg_str.get(d.options.upper_case_registers || d.options.upper_case_all)
    }

    /// Writes register `reg_num`.
    fn format_register_internal(d: &SelfData, output: &mut FormatterOutput, reg_num: u32)
        requires
            d.wf(),
            reg_num < REGISTER_COUNT,
        ensures
            final(output)@ == old(output)@ + register_pieces(d.options, reg_num as int),
    {
        output.write_register(NasmFormatter::get_reg_str(d, reg_num), reg_num);
    }

    /// Writes `sign_extend_pieces`.
    fn show_sign_extend_info(d: &SelfData, output: &mut FormatterOutput, flags: u32)
        requires
            d.wf(),
        ensures
            final(output)@ == old(output)@ + sign_extend_pieces(d.options, flags),
    {
        reveal(sign_extend_pieces);
        if !d.options.nasm_show_sign_extended_immediate_size {
            return;
        }
        let sex_info = (flags >> InstrOpInfoFlags::SIGN_EXTEND_INFO_SHIFT) & InstrOpInfoFlags::SIGN_EXTEND_INFO_MASK;
        let keyword = if sex_info == SignExtendInfo::NONE {
            return;
        } else if sex_info <= SignExtendInfo::SEX1TO8 {
            &d.str_.byte
        } else if sex_info == SignExtendInfo::SEX2 {
            &d.str_.word
        } else if sex_info == SignExtendInfo::SEX4 {
            &d.str_.dword
        } else {
            &d.str_.qword
        };
        NasmFormatter::format_keyword(&d.options, output, keyword);
        output.write(" ", FormatterTextKind::Text);
        assert(final(output)@ =~= old(output)@ + sign_extend_pieces(d.options, flags));
    }

    /// Writes `flow_control_pieces`.
    fn format_flow_control(d: &SelfData, output: &mut FormatterOutput, flags: u32, operand_options: FormatterOperandOptions)
        requires
            d.wf(),
        ensures
            final(output)@ == old(output)@ + flow_control_pieces(d.options, flags, operand_options),
    {
        reveal(flow_control_pieces);
        if !operand_options.branch_size() {
            return;
        }
        let idx = (flags >> InstrOpInfoFlags::BRANCH_SIZE_INFO_SHIFT) & InstrOpInfoFlags::BRANCH_SIZE_INFO_MASK;
        proof {
            lemma_flag_field_bound(flags, InstrOpInfoFlags::BRANCH_SIZE_INFO_SHIFT, InstrOpInfoFlags::BRANCH_SIZE_INFO_MASK);
        }
        let keywords = &d.vec_.branch_infos[idx as usize];
        let ghost ks = branch_info_keywords(idx as int);
        let mut i: usize = 0;
        while i < keywords.len()
            invariant
                d.wf(),
                idx < 2,
                keywords == d.vec_.branch_infos@[idx as int],
                ks == branch_info_keywords(idx as int),
                keywords@.len() == ks.len(),
                i <= keywords@.len(),
                output@ == old(output)@ + keywords_pieces(d.options, ks.subrange(0, i as int)),
            decreases keywords@.len() - i,
        {
            NasmFormatter::format_keyword(&d.options, output, &keywords[i]);
            output.write(" ", FormatterTextKind::Text);
            proof {
                assert(ks.subrange(0, i + 1).drop_last() =~= ks.subrange(0, i as int));
            }
            i = i + 1;
        }
        assert(ks.subrange(0, i as int) =~= ks);
    }

    /// Writes `memory_size_pieces`.
    fn format_memory_size(
        d: &SelfData,
        output: &mut FormatterOutput,
        mem_size: u32,
        flags: u32,
        operand_options: FormatterOperandOptions,
    )
        requires
            d.wf(),
            mem_size < MEMORY_SIZE_COUNT,
            flag_field(flags, InstrOpInfoFlags::FAR_MEMORY_SIZE_INFO_SHIFT, InstrOpInfoFlags::FAR_MEMORY_SIZE_INFO_MASK)
                < FAR_MEMORY_SIZE_INFO_COUNT,
        ensures
            final(output)@ == old(output)@ + memory_size_pieces(d.options, mem_size, flags, operand_options),
    {
        reveal(memory_size_pieces);
        let mem_size_options = operand_options.memory_size_options;
        if mem_size_options == MemorySizeOptions::Never {
            return;
        }
        if (flags & InstrOpInfoFlags::MEM_SIZE_NOTHING) != 0 {
            return;
        }
        let mem_info = &d.vec_.memory_sizes[mem_size as usize];
        let keyword = &mem_info.keyword;
        if keyword.is_default() {
            return;
        }
        if mem_size_options == MemorySizeOptions::Default {
            if (flags & InstrOpInfoFlags::SHOW_NO_MEM_SIZE_FORCE_SIZE) == 0 {
                return;
            }
        } else if mem_size_options == MemorySizeOptions::Minimum {
            if (flags & InstrOpInfoFlags::SHOW_MIN_MEM_SIZE_FORCE_SIZE) == 0 {
                return;
            }
        }
        let idx = (flags >> InstrOpInfoFlags::FAR_MEMORY_SIZE_INFO_SHIFT) & InstrOpInfoFlags::FAR_MEMORY_SIZE_INFO_MASK;
        let far_kind = &d.vec_.far_mem_size_infos[idx as usize];
        let ghost o0 = output@;
        if !far_kind.is_default() {
            NasmFormatter::format_keyword(&d.options, output, far_kind);
            output.write(" ", FormatterTextKind::Text);
        }
        let ghost o1 = output@;
        NasmFormatter::format_keyword(&d.options, output, keyword);
        output.write(" ", FormatterTextKind::Text);
        proof {
            let far = FAR_MEM_SIZE_INFO_STRINGS@[idx as int]@;
            if far.len() != 0 {
                assert(o1 =~= o0 + keyword_space_pieces(d.options, far));
            } else {
                assert(o1 =~= o0);
            }
        }
        assert(final(output)@ =~= old(output)@ + memory_size_pieces(d.options, mem_size, flags, operand_options));
    }
}

/// The text of `n` pieces of `s` is `s` repeated `n` times: for a space, `n` spaces.
pub proof fn lemma_repeat_text(c: char, n: nat)
    ensures
        text_of(repeat_pieces(seq![c], n)) == Seq::new(n, |i: int| c),
    decreases n,
{
    if n > 0 {
        let r = repeat_pieces(seq![c], n);
        assert(r.drop_last() =~= repeat_pieces(seq![c], (n - 1) as nat));
        lemma_repeat_text(c, (n - 1) as nat);
        assert(text_of(r) =~= Seq::new(n, |i: int| c));
    } else {
        assert(text_of(repeat_pieces(seq![c], n)) =~= Seq::new(n, |i: int| c));
    }
}

/// The number of characters of prefixes written from column 0 is the column
/// they end at, while it fits a `u32`.
proof fn lemma_prefix_column_counts(o: FormatterOptions, texts: Seq<PrefixText>)
    requires
        text_of(prefix_pieces(o, texts)).len() <= u32::MAX,
    ensures
        prefix_column(0, texts) as int == text_of(prefix_pieces(o, texts)).len(),
    decreases texts.len(),
{
    if texts.len() > 0 {
        let prev = texts.drop_last();
        let t = texts.last();
        let sep = if prev.len() > 0 {
            piece(" "@, FormatterTextKind::Text)
        } else {
            Seq::empty()
        };
        let p = prefix_piece(o, t);
        assert(texts =~= prev.push(t));
        lemma_prefix_push(o, 0, prev, t);
        lemma_text_of_append(prefix_pieces(o, prev) + sep, p);
        lemma_text_of_append(prefix_pieces(o, prev), sep);
        lemma_text_of_info_piece(
            cased(t.0, o.upper_case_prefixes || o.upper_case_all),
            FormatterTextKind::Prefix,
            TextInfo::Prefix(t.1),
        );
        if prev.len() > 0 {
            lemma_text_of_piece(" "@, FormatterTextKind::Text);
        } else {
            assert(text_of(sep) =~= Seq::<char>::empty());
        }
        assert(cased(t.0, o.upper_case_prefixes || o.upper_case_all).len() == t.0.len());
        reveal_strlit(" ");
        let total = text_of(prefix_pieces(o, texts)).len();
        let before = text_of(prefix_pieces(o, prev)).len();
        assert(total == before + text_of(sep).len() + t.0.len());
        lemma_prefix_column_counts(o, prev);
        let c1 = prefix_column(0, prev);
        assert(c1 as int == before);
        let c2 = if prev.len() > 0 {
            c1.wrapping_add(1)
        } else {
            c1
        };
        assert(c2 as int == before + text_of(sep).len());
        assert((t.0.len() as u32) as int == t.0.len());
        assert(prefix_column(0, texts) == c2.wrapping_add(t.0.len() as u32));
    }
}

/// The column that `format_mnemonic` ends at, from column 0, is the number
/// of characters it wrote, while that fits a `u32`.
pub proof fn lemma_mnemonic_column_counts(
    o: FormatterOptions,
    instruction: Instruction,
    op_info: InstrOpInfo,
    mnemonic_options: u32,
)
    requires
        text_of(mnemonic_pieces(o, instruction, op_info, mnemonic_options)).len() <= u32::MAX,
    ensures
        mnemonic_column(0, instruction, op_info, mnemonic_options) as int == text_of(
            mnemonic_pieces(o, instruction, op_info, mnemonic_options),
        ).len(),
{
    let texts = written_prefix_texts(instruction, op_info, mnemonic_options);
    let pre = prefix_pieces(o, texts);
    let rest = if mnemonic_options & FormatMnemonicOptions::NO_MNEMONIC == 0 {
        (if texts.len() > 0 {
            piece(" "@, FormatterTextKind::Text)
        } else {
            Seq::empty()
        }) + mnemonic_text_pieces(o, op_info)
    } else {
        Seq::empty()
    };
    reveal_strlit(" ");
    lemma_text_of_append(pre, rest);
    lemma_prefix_column_counts(o, texts);
    if mnemonic_options & FormatMnemonicOptions::NO_MNEMONIC == 0 {
        let sp = if texts.len() > 0 {
            piece(" "@, FormatterTextKind::Text)
        } else {
            Seq::empty()
        };
        let mt = mnemonic_text_pieces(o, op_info);
        lemma_text_of_append(sp, mt);
        if op_info.flags & InstrOpInfoFlags::MNEMONIC_IS_DIRECTIVE != 0 {
            lemma_text_of_piece(cased(op_info.mnemonic.lower_view(), o.upper_case_keywords || o.upper_case_all), FormatterTextKind::Directive);
        } else {
            lemma_text_of_piece(cased(op_info.mnemonic.lower_view(), o.upper_case_mnemonics || o.upper_case_all), FormatterTextKind::Mnemonic);
        }
        assert(text_of(mt).len() == op_info.mnemonic.lower_view().len());
        if texts.len() > 0 {
            lemma_text_of_piece(" "@, FormatterTextKind::Text);
        } else {
            assert(text_of(sp) =~= Seq::<char>::empty());
        }
    } else {
        assert(text_of(rest) =~= Seq::<char>::empty());
    }
}

/// Without tabs, the first operand starts at the column that the options
/// give (at most 256) where the mnemonic ends before it, else one space after
/// the mnemonic; only spaces lie between the two.
pub proof fn lemma_first_operand_column(o: FormatterOptions, instruction: Instruction, op_info: InstrOpInfo)
    requires
        o.tab_size == 0,
        op_info.op_kinds@.len() != 0,
        text_of(mnemonic_pieces(o, instruction, op_info, FormatMnemonicOptions::NONE)).len() < u32::MAX,
    ensures
        ({
            let mnemonic = text_of(mnemonic_pieces(o, instruction, op_info, FormatMnemonicOptions::NONE));
            let f = if o.first_operand_char_index > 256 {
                256
            } else {
                o.first_operand_char_index as int
            };
            let start: int = if f <= mnemonic.len() {
                mnemonic.len() + 1int
            } else {
                f
            };
            &&& text_of(instruction_pieces(o, instruction, op_info)) == mnemonic + Seq::new(
                (start - mnemonic.len()) as nat,
                |i: int| ' ',
            ) + text_of(operands_pieces(o, instruction, op_info))
            &&& (mnemonic + Seq::new((start - mnemonic.len()) as nat, |i: int| ' ')).len() == start
        }),
{
    let m = mnemonic_pieces(o, instruction, op_info, FormatMnemonicOptions::NONE);
    let c = mnemonic_column(0, instruction, op_info, FormatMnemonicOptions::NONE);
    lemma_mnemonic_column_counts(o, instruction, op_info, FormatMnemonicOptions::NONE);
    let t = tabs_pieces(c, o.first_operand_char_index, o.tab_size);
    let ops = operands_pieces(o, instruction, op_info);
    lemma_text_of_append(m, t + ops);
    lemma_text_of_append(t, ops);
    assert(instruction_pieces(o, instruction, op_info) == m + (t + ops));
    let f = if o.first_operand_char_index > 256 {
        256u32
    } else {
        o.first_operand_char_index
    };
    let k: nat = if f <= c {
        1
    } else {
        (f - c) as nat
    };
    assert(t == repeat_pieces(" "@, k));
    assert(" "@ =~= seq![' ']) by {
        reveal_strlit(" ");
    }
    lemma_repeat_text(' ', k);
}

/// A symbol resolver that finds no symbol and an options provider that
/// changes nothing leave an operand as a formatter without them writes it.
pub proof fn lemma_silent_hooks(
    o: FormatterOptions,
    instruction: Instruction,
    op_info: InstrOpInfo,
    operand: int,
    h: OperandHooks,
)
    requires
        0 <= operand < op_info.op_kinds@.len(),
        h.symbol is None,
        h.selector_symbol is None,
        h.op == default_operand_options(o, op_info.op_kinds@[operand]),
        h.n == default_number_format(o, op_info.op_kinds@[operand]),
    ensures
        operand_pieces_with(o, instruction, op_info, operand, h) == operand_pieces(o, instruction, op_info, operand),
{
    assert(h == default_hooks(o, op_info.op_kinds@[operand]));
}

/// A formatter whose symbol resolver finds nothing and whose options
/// provider changes nothing.
pub open spec fn has_silent_hooks(f: NasmFormatter<'_>) -> bool {
    &&& forall|i: Instruction, o: u32, io: Option<u32>, a: u64, s: u32, x: Option<SymbolResult>|
        #[trigger] f.resolver_answers(i, o, io, a, s, x) ==> x is None
    &&& forall|
        i: Instruction,
        o: u32,
        io: Option<u32>,
        op0: FormatterOperandOptions,
        n0: NumberFormat,
        op1: FormatterOperandOptions,
        n1: NumberFormat,
    | #[trigger] f.provider_gives(i, o, io, op0, n0, op1, n1) ==> op1 == op0 && n1 == n0
}

/// Hooks that find nothing and change nothing answer, for any operand, what
/// a formatter without hooks uses.
pub proof fn lemma_silent_hooks_answer_defaults(
    f: NasmFormatter<'_>,
    instruction: Instruction,
    op_info: InstrOpInfo,
    operand: int,
    h: OperandHooks,
)
    requires
        has_silent_hooks(f),
        0 <= operand < op_info.op_kinds@.len(),
        hooks_allowed(
            f.has_symbol_resolver(),
            f.has_options_provider(),
            f.options_view(),
            op_info.op_kinds@[operand],
            h,
        ),
        hooks_answered(f, instruction, op_info, operand, h),
    ensures
        h == default_hooks(f.options_view(), op_info.op_kinds@[operand]),
{
    let o = f.options_view();
    let k = op_info.op_kinds@[operand];
    let op = operand as u32;
    let io = op_info.instruction_index_spec(operand);
    let op0 = default_operand_options(o, k);
    let n0 = default_number_format(o, k);
    if k == InstrOpKind::NearBranch16 || k == InstrOpKind::NearBranch32 || k == InstrOpKind::NearBranch64
        || k == InstrOpKind::FarBranch16 || k == InstrOpKind::FarBranch32 {
        let op1 = choose|op1: FormatterOperandOptions| f.provider_gives(instruction, op, io, op0, n0, op1, h.n);
        assert(f.provider_gives(instruction, op, io, op0, n0, op1, h.n));
    } else if immediate_bits(k) != 0 {
    } else if is_memory(k) {
        let n1 = choose|n1: NumberFormat| f.provider_gives(instruction, op, io, op0, n0, h.op, n1);
        assert(f.provider_gives(instruction, op, io, op0, n0, h.op, n1));
        let op2 = choose|op2: FormatterOperandOptions| f.provider_gives(instruction, op, io, h.op, n0, op2, h.n);
        assert(f.provider_gives(instruction, op, io, h.op, n0, op2, h.n));
    }
}

/// A symbol resolver that finds nothing and an options provider that
/// changes nothing leave the text of an instruction as a formatter without
/// hooks writes it: whatever `format` reports the hooks to have answered,
/// the text is `instruction_pieces`.
pub proof fn lemma_silent_hooks_format(
    f: NasmFormatter<'_>,
    instruction: Instruction,
    op_info: InstrOpInfo,
    hs: Seq<OperandHooks>,
)
    requires
        has_silent_hooks(f),
        hs.len() == op_info.op_kinds@.len(),
        all_hooks_allowed(f.has_symbol_resolver(), f.has_options_provider(), f.options_view(), op_info, hs),
        all_hooks_answered(f, instruction, op_info, hs),
    ensures
        instruction_pieces_with(f.options_view(), instruction, op_info, hs) == instruction_pieces(
            f.options_view(),
            instruction,
            op_info,
        ),
{
    let o = f.options_view();
    assert forall|i: int| 0 <= i < hs.len() implies #[trigger] hs[i] == default_hooks_seq(
        o,
        op_info,
        hs.len(),
    )[i] by {
        lemma_silent_hooks_answer_defaults(f, instruction, op_info, i, hs[i]);
    }
    assert(hs =~= default_hooks_seq(o, op_info, hs.len()));
}

/// The text of a whole instruction is the text of its prefixes and mnemonic
/// (as `format_mnemonic_options` writes them), the spaces or tabs, and the
/// text of its operands (as `format_all_operands` writes them).
pub proof fn lemma_format_is_mnemonic_then_operands(o: FormatterOptions, instruction: Instruction, op_info: InstrOpInfo)
    requires
        op_info.op_kinds@.len() != 0,
    ensures
        text_of(instruction_pieces(o, instruction, op_info)) == text_of(
            mnemonic_pieces(o, instruction, op_info, FormatMnemonicOptions::NONE),
        ) + text_of(
            tabs_pieces(
                mnemonic_column(0, instruction, op_info, FormatMnemonicOptions::NONE),
                o.first_operand_char_index,
                o.tab_size,
            ),
        ) + text_of(operands_pieces(o, instruction, op_info)),
{
    let m = mnemonic_pieces(o, instruction, op_info, FormatMnemonicOptions::NONE);
    let t = tabs_pieces(
        mnemonic_column(0, instruction, op_info, FormatMnemonicOptions::NONE),
        o.first_operand_char_index,
        o.tab_size,
    );
    let ops = operands_pieces(o, instruction, op_info);
    lemma_text_of_append(m, t + ops);
    lemma_text_of_append(t, ops);
}

/// A negative immediate is written as a minus sign and a magnitude that,
/// added to its unsigned value, gives two to the power of its size: the
/// written number is the immediate's value as a signed number.
pub proof fn lemma_negative_immediate_magnitude(value: u64, bits: u32)
    requires
        fits_bits(value, bits),
        signed_value(value, bits) < 0,
    ensures
        value as int + (-(signed_value(value, bits) as int)) == (if bits == 8 {
            0x100int
        } else if bits == 16 {
            0x1_0000int
        } else if bits == 32 {
            0x1_0000_0000int
        } else {
            0x1_0000_0000_0000_0000int
        }),
{
    if bits == 8 {
        assert(value <= 0xFF ==> (value as u8 as i8 as i64) < 0 ==> value as i64 == (value as u8 as i8 as i64) + 0x100) by (bit_vector);
    } else if bits == 16 {
        assert(value <= 0xFFFF ==> (value as u16 as i16 as i64) < 0 ==> value as i64 == (value as u16 as i16 as i64) + 0x1_0000) by (bit_vector);
    } else if bits == 32 {
        assert(value <= 0xFFFF_FFFF ==> (value as u32 as i32 as i64) < 0 ==> value as i64 == (value as u32 as i32 as i64) + 0x1_0000_0000) by (bit_vector);
    } else {
        assert((value as i64) < 0 ==> value as i128 == (value as i64 as i128) + 0x1_0000_0000_0000_0000i128) by (bit_vector);
    }
}


/// The text of spaces or tabs: `n` times the character.
proof fn lemma_repeat_str_text(s: Seq<char>, c: char, n: nat)
    requires
        s == seq![c],
    ensures
        text_of(repeat_pieces(s, n)) == Seq::new(n, |i: int| c),
{
    lemma_repeat_text(c, n);
}

/// The spaces or tabs between the mnemonic and the first operand are never
/// empty, and are made of spaces and tabs alone.
pub proof fn lemma_operand_padding_is_whitespace(column: u32, first_operand_char_index: u32, tab_size: u32)
    ensures
        text_of(tabs_pieces(column, first_operand_char_index, tab_size)).len() > 0,
        forall|i: int|
            0 <= i < text_of(tabs_pieces(column, first_operand_char_index, tab_size)).len() ==> {
                let c = #[trigger] text_of(tabs_pieces(column, first_operand_char_index, tab_size))[i];
                c == ' ' || c == '\t'
            },
{
    reveal_strlit(" ");
    reveal_strlit("\t");
    assert(" "@ =~= seq![' ']);
    assert("\t"@ =~= seq!['\t']);
    let f = if first_operand_char_index > 256 {
        256
    } else {
        first_operand_char_index
    };
    let t = tabs_pieces(column, first_operand_char_index, tab_size);
    if tab_size == 0 {
        let n: nat = if f <= column {
            1
        } else {
            (f - column) as nat
        };
        lemma_repeat_str_text(" "@, ' ', n);
        assert(text_of(t) == Seq::new(n, |i: int| ' '));
    } else {
        let end_col = if f <= column {
            column.wrapping_add(1)
        } else {
            f
        };
        let rounded = end_col / tab_size * tab_size;
        let added_tabs = rounded > column;
        let col2: int = if added_tabs {
            rounded
        } else {
            column as int
        };
        let ntabs: nat = ((rounded - column / tab_size * tab_size) / tab_size as int) as nat;
        let a = if added_tabs {
            repeat_pieces("\t"@, ntabs)
        } else {
            Seq::empty()
        };
        let b = if end_col > col2 {
            repeat_pieces(" "@, (end_col - col2) as nat)
        } else if !added_tabs {
            repeat_pieces("\t"@, 1)
        } else {
            Seq::empty()
        };
        assert(t == a + b);
        lemma_text_of_append(a, b);
        if added_tabs {
            assert(column / tab_size * tab_size <= column) by (nonlinear_arith)
                requires
                    tab_size > 0,
            ;
            assert(ntabs >= 1) by (nonlinear_arith)
                requires
                    tab_size > 0,
                    rounded == end_col / tab_size * tab_size,
                    rounded > column,
                    column >= column / tab_size * tab_size,
                    ntabs == (rounded - column / tab_size * tab_size) / tab_size as int,
            {
                let q1 = end_col / tab_size;
                let q2 = column / tab_size;
                assert(q1 * tab_size > q2 * tab_size);
                assert(q1 > q2);
                assert(q1 * tab_size - q2 * tab_size == (q1 - q2) * tab_size);
                assert((q1 - q2) * tab_size / tab_size as int == q1 - q2);
            }
            lemma_repeat_str_text("\t"@, '\t', ntabs);
        } else {
            assert(text_of(a) =~= Seq::<char>::empty());
        }
        if end_col > col2 {
            lemma_repeat_str_text(" "@, ' ', (end_col - col2) as nat);
        } else if !added_tabs {
            lemma_repeat_str_text("\t"@, '\t', 1);
        } else {
            assert(text_of(b) =~= Seq::<char>::empty());
        }
        assert forall|i: int| 0 <= i < text_of(t).len() implies {
            let c = #[trigger] text_of(t)[i];
            c == ' ' || c == '\t'
        } by {
            if i < text_of(a).len() {
                assert(text_of(t)[i] == text_of(a)[i]);
            } else {
                assert(text_of(t)[i] == text_of(b)[i - text_of(a).len()]);
            }
        }
    }
}

/// The prefixes and mnemonic are the prefixes alone (as with
/// `NO_MNEMONIC`), a space where there are prefixes, and the mnemonic alone
/// (as with `NO_PREFIXES`).
pub proof fn lemma_mnemonic_is_prefixes_space_mnemonic(o: FormatterOptions, instruction: Instruction, op_info: InstrOpInfo)
    ensures
        mnemonic_pieces(o, instruction, op_info, FormatMnemonicOptions::NONE) == mnemonic_pieces(
            o,
            instruction,
            op_info,
            FormatMnemonicOptions::NO_MNEMONIC,
        ) + (if mnemonic_pieces(o, instruction, op_info, FormatMnemonicOptions::NO_MNEMONIC).len() > 0 {
            piece(" "@, FormatterTextKind::Text)
        } else {
            Seq::empty()
        }) + mnemonic_pieces(o, instruction, op_info, FormatMnemonicOptions::NO_PREFIXES),
{
    assert(0u32 & 1u32 == 0 && 0u32 & 2u32 == 0 && 2u32 & 1u32 == 0 && 2u32 & 2u32 != 0 && 1u32 & 1u32 != 0
        && 1u32 & 2u32 == 0) by (bit_vector);
    let texts = written_prefix_texts(instruction, op_info, FormatMnemonicOptions::NONE);
    assert(written_prefix_texts(instruction, op_info, FormatMnemonicOptions::NO_MNEMONIC) == texts);
    assert(written_prefix_texts(instruction, op_info, FormatMnemonicOptions::NO_PREFIXES) =~= Seq::<PrefixText>::empty());
    assert(prefix_pieces(o, Seq::<PrefixText>::empty()) =~= Seq::<Piece>::empty());
    if texts.len() > 0 {
        assert(prefix_pieces(o, texts).len() > 0);
    }
    assert(mnemonic_pieces(o, instruction, op_info, FormatMnemonicOptions::NO_MNEMONIC) =~= prefix_pieces(o, texts));
    assert(mnemonic_pieces(o, instruction, op_info, FormatMnemonicOptions::NO_PREFIXES) =~= mnemonic_text_pieces(
        o,
        op_info,
    ));
}

/// The first index of `v` in `s` exists where `v` occurs in `s`, at or
/// before any index where it occurs.
proof fn lemma_first_index_exists(s: Seq<i8>, v: int, i: int)
    requires
        0 <= i < s.len(),
        s[i] == v,
    ensures
        exists|k: int| 0 <= k <= i && s[k] == v && forall|j: int| 0 <= j < k ==> s[j] != v,
    decreases i,
{
    if exists|j: int| 0 <= j < i && s[j] == v {
        let j = choose|j: int| 0 <= j < i && s[j] == v;
        lemma_first_index_exists(s, v, j);
    } else {
        assert(forall|j: int| 0 <= j < i ==> s[j] != v);
    }
}

/// Every instruction operand that a formatter operand shows is below
/// `op_count`, as with the operand information of an instruction with
/// `op_count` operands.
pub open spec fn indexes_below(op_info: InstrOpInfo, op_count: u32) -> bool {
    forall|i: int| 0 <= i < op_info.op_indexes@.len() ==> #[trigger] op_info.op_indexes@[i] < op_count
}

/// Going from a formatter operand to the instruction operand it shows and
/// back gives the first formatter operand that shows it, which shows the
/// same instruction operand; going from an instruction operand to a
/// formatter operand and back gives the instruction operand. Where the
/// operand information fits an instruction with `instruction_op_count`
/// operands, the instruction operand is one that `get_formatter_operand`
/// accepts.
pub proof fn lemma_operand_index_round_trip(
    op_info: InstrOpInfo,
    operand: int,
    instruction_operand: u32,
    instruction_op_count: u32,
)
    requires
        op_info.wf(),
        0 <= operand < op_info.op_indexes@.len(),
    ensures
        op_info.instruction_index_spec(operand) == Some(instruction_operand) && indexes_below(
            op_info,
            instruction_op_count,
        ) ==> instruction_operand < instruction_op_count,
        op_info.instruction_index_spec(operand) == Some(instruction_operand) ==> match formatter_operand_of(
            op_info,
            instruction_operand,
        ) {
            Some(k) => k <= operand && op_info.instruction_index_spec(k as int) == Some(instruction_operand),
            None => false,
        },
        formatter_operand_of(op_info, instruction_operand) matches Some(k) ==> op_info.instruction_index_spec(k as int)
            == Some(instruction_operand),
{
    let s = op_info.op_indexes@;
    if op_info.instruction_index_spec(operand) == Some(instruction_operand) {
        assert(s[operand] == instruction_operand);
    }
    if exists|i: int| 0 <= i < op_info.op_indexes@.len() && op_info.op_indexes@[i] == instruction_operand {
        let i = choose|i: int| 0 <= i < op_info.op_indexes@.len() && op_info.op_indexes@[i] == instruction_operand;
        lemma_first_index_exists(s, instruction_operand as int, i);
        let k = choose|i: int|
            0 <= i < op_info.op_indexes@.len() && op_info.op_indexes@[i] == instruction_operand && forall|j: int|
                0 <= j < i ==> op_info.op_indexes@[j] != instruction_operand;
        assert(0 <= k < s.len() && s[k] == instruction_operand);
        assert(formatter_operand_of(op_info, instruction_operand) == Some(k as u32));
        assert(k as u32 as int == k);
        assert(op_info.instruction_index_spec(k) == Some(instruction_operand));
        if op_info.instruction_index_spec(operand) == Some(instruction_operand) {
            if k > operand {
                assert(s[operand] != instruction_operand);
            }
        }
    } else {
        assert(formatter_operand_of(op_info, instruction_operand) is None);
    }
}


/// Every prefix text of `ts` has at least one character.
pub open spec fn prefix_texts_nonempty(ts: Seq<PrefixText>) -> bool {
    forall|i: int| 0 <= i < ts.len() ==> (#[trigger] ts[i]).0.len() > 0
}

/// Joining prefix texts that have characters gives prefix texts that have characters.
proof fn lemma_prefix_texts_nonempty_add(a: Seq<PrefixText>, b: Seq<PrefixText>)
    requires
        prefix_texts_nonempty(a),
        prefix_texts_nonempty(b),
    ensures
        prefix_texts_nonempty(a + b),
{
    assert forall|i: int| 0 <= i < (a + b).len() implies (#[trigger] (a + b)[i]).0.len() > 0 by {
        if i < a.len() {
            assert((a + b)[i] == a[i]);
        } else {
            assert((a + b)[i] == b[i - a.len()]);
        }
    }
}

/// One prefix where asked for, with at least one character, or none.
proof fn lemma_seq_if_nonempty(b: bool, t: Seq<char>, kind: PrefixKind)
    requires
        b ==> t.len() > 0,
    ensures
        prefix_texts_nonempty(seq_if(b, t, kind)),
{
}

/// The prefix texts up to `lock` each have at least one character.
proof fn lemma_prefix_texts_first_have_chars(instruction: Instruction, op_info: InstrOpInfo)
    requires
        instruction.segment_prefix < REGISTER_COUNT,
    ensures
        prefix_texts_nonempty(prefix_texts_first(instruction, op_info)),
{
    let flags = op_info.flags;
    let op = OP_SIZE_STRINGS@[flag_field(flags, InstrOpInfoFlags::OP_SIZE_SHIFT, InstrOpInfoFlags::SIZE_OVERRIDE_MASK) as int]@;
    let ad = ADDR_SIZE_STRINGS@[flag_field(flags, InstrOpInfoFlags::ADDR_SIZE_SHIFT, InstrOpInfoFlags::SIZE_OVERRIDE_MASK) as int]@;
    let seg = instruction.segment_prefix;
    let has_notrack = seg == Register::DS && instruction.is_notrack_prefix_branch;
    let shown = !has_notrack && seg != Register::NONE && shows_segment_prefix(op_info);
    assert(shown ==> register_name(seg as int).len() > 0) by {
        lemma_register_names_nonempty();
    }
    assert("xacquire"@.len() > 0) by {
        reveal_strlit("xacquire");
    }
    assert("xrelease"@.len() > 0) by {
        reveal_strlit("xrelease");
    }
    assert("lock"@.len() > 0) by {
        reveal_strlit("lock");
    }
    let p0 = seq_if(op.len() != 0, op, PrefixKind::OperandSize);
    let p1 = seq_if(ad.len() != 0, ad, PrefixKind::AddressSize);
    let p2 = seq_if(shown, register_name(seg as int), segment_prefix_kind(seg));
    let p3 = seq_if(instruction.has_xacquire_prefix, "xacquire"@, PrefixKind::Xacquire);
    let p4 = seq_if(instruction.has_xrelease_prefix, "xrelease"@, PrefixKind::Xrelease);
    let p5 = seq_if(instruction.has_lock_prefix, "lock"@, PrefixKind::Lock);
    lemma_seq_if_nonempty(op.len() != 0, op, PrefixKind::OperandSize);
    lemma_seq_if_nonempty(ad.len() != 0, ad, PrefixKind::AddressSize);
    lemma_seq_if_nonempty(shown, register_name(seg as int), segment_prefix_kind(seg));
    lemma_seq_if_nonempty(instruction.has_xacquire_prefix, "xacquire"@, PrefixKind::Xacquire);
    lemma_seq_if_nonempty(instruction.has_xrelease_prefix, "xrelease"@, PrefixKind::Xrelease);
    lemma_seq_if_nonempty(instruction.has_lock_prefix, "lock"@, PrefixKind::Lock);
    lemma_prefix_texts_nonempty_add(p0, p1);
    lemma_prefix_texts_nonempty_add(p0 + p1, p2);
    lemma_prefix_texts_nonempty_add(p0 + p1 + p2, p3);
    lemma_prefix_texts_nonempty_add(p0 + p1 + p2 + p3, p4);
    lemma_prefix_texts_nonempty_add(p0 + p1 + p2 + p3 + p4, p5);
    assert(prefix_texts_first(instruction, op_info) == p0 + p1 + p2 + p3 + p4 + p5);
}

/// The prefix texts from `rep` on each have at least one character.
proof fn lemma_prefix_texts_last_have_chars(instruction: Instruction, op_info: InstrOpInfo)
    ensures
        prefix_texts_nonempty(prefix_texts_last(instruction, op_info)),
{
    assert("repe"@.len() > 0) by {
        reveal_strlit("repe");
    }
    assert("rep"@.len() > 0) by {
        reveal_strlit("rep");
    }
    assert("repne"@.len() > 0) by {
        reveal_strlit("repne");
    }
    assert("notrack"@.len() > 0) by {
        reveal_strlit("notrack");
    }
    assert("bnd"@.len() > 0) by {
        reveal_strlit("bnd");
    }
    let has_bnd = op_info.flags & InstrOpInfoFlags::BND_PREFIX != 0;
    let has_notrack = instruction.segment_prefix == Register::DS && instruction.is_notrack_prefix_branch;
    let p6 = if instruction.is_repe_or_repne_instruction {
        seq_if(instruction.has_repe_prefix, "repe"@, PrefixKind::Repe)
    } else {
        seq_if(instruction.has_repe_prefix, "rep"@, PrefixKind::Rep)
    };
    let p7 = seq_if(instruction.has_repne_prefix && !has_bnd, "repne"@, PrefixKind::Repne);
    let p8 = seq_if(has_notrack, "notrack"@, PrefixKind::Notrack);
    let p9 = seq_if(has_bnd, "bnd"@, PrefixKind::Bnd);
    lemma_seq_if_nonempty(instruction.has_repe_prefix, "repe"@, PrefixKind::Repe);
    lemma_seq_if_nonempty(instruction.has_repe_prefix, "rep"@, PrefixKind::Rep);
    lemma_seq_if_nonempty(instruction.has_repne_prefix && !has_bnd, "repne"@, PrefixKind::Repne);
    lemma_seq_if_nonempty(has_notrack, "notrack"@, PrefixKind::Notrack);
    lemma_seq_if_nonempty(has_bnd, "bnd"@, PrefixKind::Bnd);
    lemma_prefix_texts_nonempty_add(p6, p7);
    lemma_prefix_texts_nonempty_add(p6 + p7, p8);
    lemma_prefix_texts_nonempty_add(p6 + p7 + p8, p9);
    assert(prefix_texts_last(instruction, op_info) == p6 + p7 + p8 + p9);
}

/// Each prefix that is written has at least one character.
proof fn lemma_prefix_texts_have_chars(instruction: Instruction, op_info: InstrOpInfo)
    requires
        instruction.wf(),
    ensures
        prefix_texts_nonempty(prefix_texts(instruction, op_info)),
{
    lemma_prefix_texts_first_have_chars(instruction, op_info);
    lemma_prefix_texts_last_have_chars(instruction, op_info);
    lemma_prefix_texts_nonempty_add(prefix_texts_first(instruction, op_info), prefix_texts_last(instruction, op_info));
}

/// The text of prefixes that have characters is empty exactly where there
/// are no prefixes.
proof fn lemma_prefix_pieces_text(o: FormatterOptions, texts: Seq<PrefixText>)
    requires
        prefix_texts_nonempty(texts),
    ensures
        (text_of(prefix_pieces(o, texts)).len() > 0) == (texts.len() > 0),
        (prefix_pieces(o, texts).len() > 0) == (texts.len() > 0),
{
    if texts.len() == 0 {
        assert(prefix_pieces(o, texts) =~= Seq::<Piece>::empty());
        assert(text_of(Seq::<Piece>::empty()) =~= Seq::<char>::empty());
    } else {
        let prev = prefix_pieces(o, texts.drop_last()) + (if texts.len() > 1 {
            piece(" "@, FormatterTextKind::Text)
        } else {
            Seq::empty()
        });
        let t = texts.last();
        lemma_text_of_append(prev, prefix_piece(o, t));
        lemma_text_of_info_piece(cased(t.0, o.upper_case_prefixes || o.upper_case_all), FormatterTextKind::Prefix, TextInfo::Prefix(t.1));
        assert(texts[texts.len() - 1].0.len() > 0);
        assert(cased(t.0, o.upper_case_prefixes || o.upper_case_all).len() == t.0.len());
    }
}

/// The text of the prefixes and mnemonic is the text of the prefixes alone
/// (as with `NO_MNEMONIC`), a space where that text is not empty, and the
/// text of the mnemonic alone (as with `NO_PREFIXES`); with both left out,
/// nothing is written.
pub proof fn lemma_mnemonic_text_is_prefixes_space_mnemonic(
    o: FormatterOptions,
    instruction: Instruction,
    op_info: InstrOpInfo,
)
    requires
        instruction.wf(),
    ensures
        text_of(mnemonic_pieces(o, instruction, op_info, FormatMnemonicOptions::NONE)) == text_of(
            mnemonic_pieces(o, instruction, op_info, FormatMnemonicOptions::NO_MNEMONIC),
        ) + (if text_of(mnemonic_pieces(o, instruction, op_info, FormatMnemonicOptions::NO_MNEMONIC)).len() > 0 {
            " "@
        } else {
            Seq::empty()
        }) + text_of(mnemonic_pieces(o, instruction, op_info, FormatMnemonicOptions::NO_PREFIXES)),
        mnemonic_pieces(
            o,
            instruction,
            op_info,
            FormatMnemonicOptions::NO_PREFIXES | FormatMnemonicOptions::NO_MNEMONIC,
        ) == Seq::<Piece>::empty(),
{
    lemma_mnemonic_is_prefixes_space_mnemonic(o, instruction, op_info);
    assert(3u32 & 1u32 != 0 && 3u32 & 2u32 != 0 && (1u32 | 2u32) == 3u32 && 0u32 & 1u32 == 0 && 2u32 & 1u32 == 0)
        by (bit_vector);
    assert(written_prefix_texts(instruction, op_info, 3) =~= Seq::<PrefixText>::empty());
    assert(prefix_pieces(o, Seq::<PrefixText>::empty()) =~= Seq::<Piece>::empty());
    assert(mnemonic_pieces(o, instruction, op_info, 3) =~= Seq::<Piece>::empty());
    let p = mnemonic_pieces(o, instruction, op_info, FormatMnemonicOptions::NO_MNEMONIC);
    let n = mnemonic_pieces(o, instruction, op_info, FormatMnemonicOptions::NO_PREFIXES);
    let texts = written_prefix_texts(instruction, op_info, FormatMnemonicOptions::NONE);
    assert(p =~= prefix_pieces(o, texts));
    if texts.len() > 0 {
        lemma_prefix_texts_have_chars(instruction, op_info);
        assert(texts == prefix_texts(instruction, op_info));
    } else {
        assert(prefix_texts_nonempty(texts));
    }
    lemma_prefix_pieces_text(o, texts);
    let sp = if p.len() > 0 {
        piece(" "@, FormatterTextKind::Text)
    } else {
        Seq::empty()
    };
    lemma_text_of_append(p + sp, n);
    lemma_text_of_append(p, sp);
    if p.len() > 0 {
        lemma_text_of_piece(" "@, FormatterTextKind::Text);
    } else {
        assert(text_of(sp) =~= Seq::<char>::empty());
    }
}

/// The text of a whole instruction: the text of its prefixes and mnemonic
/// (as `format_mnemonic_options` writes them), then, where there are
/// operands, padding of spaces and tabs that is never empty and the text of
/// the operands (as `format_all_operands` writes them); where there are no
/// operands, the operands' text is empty and nothing follows the mnemonic.
pub proof fn lemma_format_layout(o: FormatterOptions, instruction: Instruction, op_info: InstrOpInfo)
    ensures
        op_info.op_kinds@.len() == 0 ==> text_of(instruction_pieces(o, instruction, op_info)) == text_of(
            mnemonic_pieces(o, instruction, op_info, FormatMnemonicOptions::NONE),
        ) && text_of(operands_pieces(o, instruction, op_info)) == Seq::<char>::empty(),
        op_info.op_kinds@.len() != 0 ==> {
            let t = text_of(
                tabs_pieces(
                    mnemonic_column(0, instruction, op_info, FormatMnemonicOptions::NONE),
                    o.first_operand_char_index,
                    o.tab_size,
                ),
            );
            &&& text_of(instruction_pieces(o, instruction, op_info)) == text_of(
                mnemonic_pieces(o, instruction, op_info, FormatMnemonicOptions::NONE),
            ) + t + text_of(operands_pieces(o, instruction, op_info))
            &&& t.len() > 0
            &&& forall|i: int| 0 <= i < t.len() ==> (#[trigger] t[i] == ' ' || t[i] == '\t')
        },
{
    if op_info.op_kinds@.len() == 0 {
        let m = mnemonic_pieces(o, instruction, op_info, FormatMnemonicOptions::NONE);
        assert(instruction_pieces(o, instruction, op_info) =~= m);
        assert(default_hooks_seq(o, op_info, 0) =~= Seq::<OperandHooks>::empty());
        assert(operands_pieces(o, instruction, op_info) =~= Seq::<Piece>::empty());
        assert(text_of(Seq::<Piece>::empty()) =~= Seq::<char>::empty());
    } else {
        lemma_format_is_mnemonic_then_operands(o, instruction, op_info);
        lemma_operand_padding_is_whitespace(
            mnemonic_column(0, instruction, op_info, FormatMnemonicOptions::NONE),
            o.first_operand_char_index,
            o.tab_size,
        );
    }
}

} // verus!
