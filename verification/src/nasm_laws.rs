//! Laws of the NASM formatter that say what its output means: the numbers
//! it writes read back as the values of the instruction, and each prefix and
//! decorator is written by its own name.

use vstd::prelude::*;
use crate::instruction::{InstrOpInfo, InstrOpInfoFlags, InstrOpKind, Instruction};
use crate::nasm::{
    FormatMnemonicOptions, PrefixText, mnemonic_pieces, prefix_piece, prefix_pieces, prefix_texts, prefix_texts_first,
    prefix_texts_last, written_prefix_texts, add_operator_pieces, branch_target_kind, displ_number_text, flow_control_pieces, immediate_pieces,
    memory_displ_pieces, near_branch_pieces, far_branch_pieces, adjusted_address, memory_operand_of, operand_body_pieces, sign_extend_pieces, AdjustedAddress, MemoryOperand,
    OperandHooks,
};
use crate::register::Register;
use crate::number::{lemma_unsigned_text_reads_back, number_reads_as};
use crate::options::{FormatterOperandOptions, FormatterOptions, NumberFormat};
use crate::text::{cased, info_piece, piece, DecoratorKind, FormatterTextKind, NumberKind, Piece, PrefixKind, TextInfo};

verus! {

/// The target of a near branch, reduced to the size of the operand: 16, 32
/// or 64 bits of `near_branch64`.
pub open spec fn near_target_value(instruction: Instruction, k: InstrOpKind) -> nat {
    if k == InstrOpKind::NearBranch64 {
        instruction.near_branch64 as nat
    } else if k == InstrOpKind::NearBranch32 {
        (instruction.near_branch64 as nat) % 0x1_0000_0000
    } else {
        (instruction.near_branch64 as nat) % 0x1_0000
    }
}

/// A near branch without symbol is its branch size keywords and one number:
/// the target of the size of the operand, which the text reads back as, of
/// the kind of a function address for a call and of a label address
/// otherwise.
pub proof fn lemma_near_branch_target_written(
    o: FormatterOptions,
    instruction: Instruction,
    k: InstrOpKind,
    flags: u32,
    op: FormatterOperandOptions,
    n: NumberFormat,
)
    requires
        k == InstrOpKind::NearBranch16 || k == InstrOpKind::NearBranch32 || k == InstrOpKind::NearBranch64,
    ensures
        exists|t: Seq<char>|
            #![trigger number_reads_as(n, t, near_target_value(instruction, k))]
            near_branch_pieces(o, instruction, k, flags, op, n, None) == flow_control_pieces(o, flags, op) + info_piece(
                t,
                if instruction.is_call {
                    FormatterTextKind::FunctionAddress
                } else {
                    FormatterTextKind::LabelAddress
                },
                TextInfo::Number(
                    near_target_value(instruction, k) as u64,
                    if k == InstrOpKind::NearBranch64 {
                        NumberKind::UInt64
                    } else if k == InstrOpKind::NearBranch32 {
                        NumberKind::UInt32
                    } else {
                        NumberKind::UInt16
                    },
                ),
            ) && number_reads_as(n, t, near_target_value(instruction, k)),
{
    reveal(near_branch_pieces);
    let x = instruction.near_branch64;
    assert(x as u32 as u64 == x % 0x1_0000_0000) by (bit_vector);
    assert(x as u16 as u64 == x % 0x1_0000) by (bit_vector);
    let v = near_target_value(instruction, k);
    let bits: nat = if k == InstrOpKind::NearBranch64 {
        64
    } else if k == InstrOpKind::NearBranch32 {
        32
    } else {
        16
    };
    let t = crate::number::unsigned_text(n, v, bits, n.leading_zeroes);
    lemma_unsigned_text_reads_back(n, v, bits, n.leading_zeroes);
    assert(near_branch_pieces(o, instruction, k, flags, op, n, None) == flow_control_pieces(o, flags, op) + info_piece(
        t,
        branch_target_kind(instruction),
        TextInfo::Number(
            v as u64,
            if k == InstrOpKind::NearBranch64 {
                NumberKind::UInt64
            } else if k == InstrOpKind::NearBranch32 {
                NumberKind::UInt32
            } else {
                NumberKind::UInt16
            },
        ),
    ));
}

/// The rounding mode letter of a rounding-control operand kind.
pub open spec fn rounding_letter(k: InstrOpKind) -> char {
    if k == InstrOpKind::RnSae {
        'n'
    } else if k == InstrOpKind::RdSae {
        'd'
    } else if k == InstrOpKind::RuSae {
        'u'
    } else {
        'z'
    }
}

/// A rounding-control operand is the decorator `{r?-sae}` with the letter of
/// its own rounding mode (`n`, `d`, `u`, `z` for round to nearest, down, up,
/// toward zero), so that distinct modes give distinct texts; `{sae}` alone
/// suppresses all exceptions.
pub proof fn lemma_rounding_decorators(
    o: FormatterOptions,
    instruction: Instruction,
    op_info: InstrOpInfo,
    operand: int,
    h: OperandHooks,
)
    requires
        0 <= operand < op_info.op_kinds@.len(),
    ensures
        ({
            let k = op_info.op_kinds@[operand];
            (k == InstrOpKind::RnSae || k == InstrOpKind::RdSae || k == InstrOpKind::RuSae || k == InstrOpKind::RzSae)
                ==> operand_body_pieces(o, instruction, op_info, operand, h) == piece("{"@, FormatterTextKind::Punctuation)
                + info_piece(
                cased(seq!['r', rounding_letter(k), '-', 's', 'a', 'e'], o.upper_case_decorators || o.upper_case_all),
                FormatterTextKind::Decorator,
                TextInfo::Decorator(DecoratorKind::RoundingControl),
            ) + piece("}"@, FormatterTextKind::Punctuation)
        }),
        op_info.op_kinds@[operand] == InstrOpKind::Sae ==> operand_body_pieces(o, instruction, op_info, operand, h)
            == piece("{"@, FormatterTextKind::Punctuation) + info_piece(
            cased(seq!['s', 'a', 'e'], o.upper_case_decorators || o.upper_case_all),
            FormatterTextKind::Decorator,
            TextInfo::Decorator(DecoratorKind::SuppressAllExceptions),
        ) + piece("}"@, FormatterTextKind::Punctuation),
        forall|k1: InstrOpKind, k2: InstrOpKind|
            (k1 == InstrOpKind::RnSae || k1 == InstrOpKind::RdSae || k1 == InstrOpKind::RuSae || k1 == InstrOpKind::RzSae)
                && (k2 == InstrOpKind::RnSae || k2 == InstrOpKind::RdSae || k2 == InstrOpKind::RuSae || k2
                == InstrOpKind::RzSae) && k1 != k2 ==> #[trigger] rounding_letter(k1) != #[trigger] rounding_letter(k2),
{
    reveal(operand_body_pieces);
    reveal_strlit("rn-sae");
    reveal_strlit("rd-sae");
    reveal_strlit("ru-sae");
    reveal_strlit("rz-sae");
    reveal_strlit("sae");
    let k = op_info.op_kinds@[operand];
    assert("rn-sae"@ =~= seq!['r', 'n', '-', 's', 'a', 'e']);
    assert("rd-sae"@ =~= seq!['r', 'd', '-', 's', 'a', 'e']);
    assert("ru-sae"@ =~= seq!['r', 'u', '-', 's', 'a', 'e']);
    assert("rz-sae"@ =~= seq!['r', 'z', '-', 's', 'a', 'e']);
    assert("sae"@ =~= seq!['s', 'a', 'e']);
}


/// Whether an operand kind is an immediate or a data value.
pub open spec fn is_immediate_kind(k: InstrOpKind) -> bool {
    match k {
        InstrOpKind::Immediate8 | InstrOpKind::Immediate8_2nd | InstrOpKind::DeclareByte | InstrOpKind::Immediate16
        | InstrOpKind::Immediate8to16 | InstrOpKind::DeclareWord | InstrOpKind::Immediate32
        | InstrOpKind::Immediate8to32 | InstrOpKind::DeclareDword | InstrOpKind::Immediate64
        | InstrOpKind::Immediate8to64 | InstrOpKind::Immediate32to64 | InstrOpKind::DeclareQword => true,
        _ => false,
    }
}

/// The size in bits of an immediate or data operand.
pub open spec fn immediate_size(k: InstrOpKind) -> nat {
    match k {
        InstrOpKind::Immediate8 | InstrOpKind::Immediate8_2nd | InstrOpKind::DeclareByte => 8,
        InstrOpKind::Immediate16 | InstrOpKind::Immediate8to16 | InstrOpKind::DeclareWord => 16,
        InstrOpKind::Immediate32 | InstrOpKind::Immediate8to32 | InstrOpKind::DeclareDword => 32,
        _ => 64,
    }
}

/// `2` to the power of `bits`, for 8, 16, 32 and 64.
pub open spec fn two_to(bits: nat) -> nat {
    if bits == 8 {
        0x100
    } else if bits == 16 {
        0x1_0000
    } else if bits == 32 {
        0x1_0000_0000
    } else {
        0x1_0000_0000_0000_0000
    }
}

/// What an immediate or data operand stands for, as an unsigned number of
/// its size: a sign-extended immediate has its top byte (or top half)
/// filled with ones where the source is negative.
pub open spec fn immediate_meaning(instruction: Instruction, k: InstrOpKind, operand: int) -> nat {
    let b = instruction.immediate8 as nat;
    let w = instruction.immediate32 as nat;
    match k {
        InstrOpKind::Immediate8 => b,
        InstrOpKind::Immediate8_2nd => instruction.immediate8_2nd as nat,
        InstrOpKind::Immediate16 => instruction.immediate16 as nat,
        InstrOpKind::Immediate32 => w,
        InstrOpKind::Immediate64 => instruction.immediate64 as nat,
        InstrOpKind::Immediate8to16 => if b < 0x80 { b } else { b + 0xFF00 },
        InstrOpKind::Immediate8to32 => if b < 0x80 { b } else { b + 0xFFFF_FF00 },
        InstrOpKind::Immediate8to64 => if b < 0x80 { b } else { b + 0xFFFF_FFFF_FFFF_FF00 },
        InstrOpKind::Immediate32to64 => if w < 0x8000_0000 { w } else { w + 0xFFFF_FFFF_0000_0000 },
        InstrOpKind::DeclareByte => (instruction.declare_values@[operand] as nat) % 0x100,
        InstrOpKind::DeclareWord => (instruction.declare_values@[operand] as nat) % 0x1_0000,
        InstrOpKind::DeclareDword => (instruction.declare_values@[operand] as nat) % 0x1_0000_0000,
        _ => instruction.declare_values@[operand] as nat,
    }
}

/// The signed number kind of 8, 16, 32 or 64 bits.
pub open spec fn signed_kind_of(bits: nat) -> NumberKind {
    if bits == 8 {
        NumberKind::Int8
    } else if bits == 16 {
        NumberKind::Int16
    } else if bits == 32 {
        NumberKind::Int32
    } else {
        NumberKind::Int64
    }
}

/// The unsigned number kind of 8, 16, 32 or 64 bits.
pub open spec fn unsigned_kind_of(bits: nat) -> NumberKind {
    if bits == 8 {
        NumberKind::UInt8
    } else if bits == 16 {
        NumberKind::UInt16
    } else if bits == 32 {
        NumberKind::UInt32
    } else {
        NumberKind::UInt64
    }
}

/// The immediate value and its signed reading agree with what the operand
/// stands for.
proof fn lemma_immediate_value_meaning(instruction: Instruction, k: InstrOpKind, operand: int)
    requires
        is_immediate_kind(k),
    ensures
        crate::nasm::immediate_value(instruction, k, operand) as nat == immediate_meaning(instruction, k, operand),
        crate::nasm::immediate_bits(k) as nat == immediate_size(k),
        immediate_meaning(instruction, k, operand) < two_to(immediate_size(k)),
{
    let b = instruction.immediate8;
    let w = instruction.immediate32;
    assert((b < 0x80 ==> b as i8 as i16 as u16 as u64 == b as u64) && (b >= 0x80 ==> b as i8 as i16 as u16 as u64
        == b as u64 + 0xFF00)) by (bit_vector);
    assert((b < 0x80 ==> b as i8 as i32 as u32 as u64 == b as u64) && (b >= 0x80 ==> b as i8 as i32 as u32 as u64
        == b as u64 + 0xFFFF_FF00)) by (bit_vector);
    assert((b < 0x80 ==> b as i8 as i64 as u64 == b as u64) && (b >= 0x80 ==> b as i8 as i64 as u64 == b as u64
        + 0xFFFF_FFFF_FFFF_FF00)) by (bit_vector);
    assert((w < 0x8000_0000 ==> w as i32 as i64 as u64 == w as u64) && (w >= 0x8000_0000 ==> w as i32 as i64 as u64
        == w as u64 + 0xFFFF_FFFF_0000_0000)) by (bit_vector);
    let d = instruction.declare_values@[operand];
    assert(d as u8 as u64 == d % 0x100) by (bit_vector);
    assert(d as u16 as u64 == d % 0x1_0000) by (bit_vector);
    assert(d as u32 as u64 == d % 0x1_0000_0000) by (bit_vector);
}

/// The signed reading of a value of 8, 16, 32 or 64 bits.
proof fn lemma_signed_value_of(value: u64, bits: u32)
    requires
        crate::nasm::fits_bits(value, bits),
    ensures
        (value as nat) < two_to(bits as nat) / 2 ==> crate::nasm::signed_value(value, bits) == value as int,
        (value as nat) >= two_to(bits as nat) / 2 ==> crate::nasm::signed_value(value, bits) == value as int - two_to(
            bits as nat,
        ),
        (value as nat) >= two_to(bits as nat) / 2 ==> crate::nasm::signed_value(value, bits) as u64 as nat == value
            + 0x1_0000_0000_0000_0000 - two_to(bits as nat),
{
    if bits == 8 {
        assert((value < 0x80 ==> value as u8 as i8 as i64 == value) && (value <= 0xFF && value >= 0x80
            ==> value as u8 as i8 as i64 == value - 0x100)) by (bit_vector);
        assert(value <= 0xFF && value >= 0x80 ==> (value as u8 as i8 as i64) as u64 == value + 0xFFFF_FFFF_FFFF_FF00)
            by (bit_vector);
    } else if bits == 16 {
        assert((value < 0x8000 ==> value as u16 as i16 as i64 == value) && (value <= 0xFFFF && value >= 0x8000
            ==> value as u16 as i16 as i64 == value - 0x1_0000)) by (bit_vector);
        assert(value <= 0xFFFF && value >= 0x8000 ==> (value as u16 as i16 as i64) as u64 == value + 0xFFFF_FFFF_FFFF_0000)
            by (bit_vector);
    } else if bits == 32 {
        assert((value < 0x8000_0000 ==> value as u32 as i32 as i64 == value) && (value <= 0xFFFF_FFFF && value
            >= 0x8000_0000 ==> value as u32 as i32 as i64 == value - 0x1_0000_0000)) by (bit_vector);
        assert(value <= 0xFFFF_FFFF && value >= 0x8000_0000 ==> (value as u32 as i32 as i64) as u64 == value
            + 0xFFFF_FFFF_0000_0000) by (bit_vector);
    } else {
        assert(value < 0x8000_0000_0000_0000 ==> value as i64 == value) by (bit_vector);
        assert(value >= 0x8000_0000_0000_0000 ==> value as i64 as int == value as int - 0x1_0000_0000_0000_0000)
            by (bit_vector);
        assert((value as i64) as u64 == value) by (bit_vector);
    }
}

/// An immediate or data operand without symbol is written as the number it
/// stands for (`immediate_meaning`), after its sign extension keyword where
/// it has one: unsigned where the number format is unsigned or the number is
/// below half its range; else as a minus sign and its two's-complement
/// magnitude. What the number says is its value, sign extended to 64 bits
/// where read as signed, and its size and signedness.
pub proof fn lemma_immediate_written(
    o: FormatterOptions,
    instruction: Instruction,
    op_info: InstrOpInfo,
    operand: int,
    h: OperandHooks,
)
    requires
        0 <= operand < op_info.op_kinds@.len(),
        is_immediate_kind(op_info.op_kinds@[operand]),
        h.symbol is None,
    ensures
        ({
            let k = op_info.op_kinds@[operand];
            let v = immediate_meaning(instruction, k, operand);
            let bits = immediate_size(k);
            let lead = if bits == 8 {
                Seq::<Piece>::empty()
            } else {
                sign_extend_pieces(o, op_info.flags)
            };
            &&& (!h.n.signed_number || v < two_to(bits) / 2) ==> exists|t: Seq<char>|
                #![trigger number_reads_as(h.n, t, v)]
                operand_body_pieces(o, instruction, op_info, operand, h) == lead + info_piece(
                    t,
                    FormatterTextKind::Number,
                    TextInfo::Number(
                        v as u64,
                        if h.n.signed_number {
                            signed_kind_of(bits)
                        } else {
                            unsigned_kind_of(bits)
                        },
                    ),
                ) && number_reads_as(h.n, t, v)
            &&& (h.n.signed_number && v >= two_to(bits) / 2) ==> exists|t: Seq<char>|
                #![trigger number_reads_as(h.n, t, (two_to(bits) - v) as nat)]
                operand_body_pieces(o, instruction, op_info, operand, h) == lead + piece(
                    "-"@,
                    FormatterTextKind::Operator,
                ) + info_piece(
                    t,
                    FormatterTextKind::Number,
                    TextInfo::Number((v + 0x1_0000_0000_0000_0000 - two_to(bits)) as u64, signed_kind_of(bits)),
                ) && number_reads_as(h.n, t, (two_to(bits) - v) as nat)
        }),
{
    reveal(operand_body_pieces);
    reveal(immediate_pieces);
    let k = op_info.op_kinds@[operand];
    lemma_immediate_value_meaning(instruction, k, operand);
    let value = crate::nasm::immediate_value(instruction, k, operand);
    let b32 = crate::nasm::immediate_bits(k);
    let v = immediate_meaning(instruction, k, operand);
    let bits = immediate_size(k);
    assert(crate::nasm::fits_bits(value, b32));
    lemma_signed_value_of(value, b32);
    let sv = crate::nasm::signed_value(value, b32);
    let n = h.n;
    if n.signed_number && sv < 0 {
        let mag: nat = (-(sv as int)) as nat;
        lemma_unsigned_text_reads_back(n, mag, bits, n.leading_zeroes);
        assert(mag == two_to(bits) - v);
        let t = crate::number::unsigned_text(n, mag, bits, n.leading_zeroes);
        assert(crate::nasm::immediate_number_info(n, value, b32) == TextInfo::Number(
            (v + 0x1_0000_0000_0000_0000 - two_to(bits)) as u64,
            signed_kind_of(bits),
        ));
        assert(number_reads_as(n, t, (two_to(bits) - v) as nat));
    } else {
        lemma_unsigned_text_reads_back(n, v, bits, n.leading_zeroes);
        let t = crate::number::unsigned_text(n, v, bits, n.leading_zeroes);
        if n.signed_number {
            assert(sv as u64 == v as u64);
        }
        assert(number_reads_as(n, t, v));
    }
}


/// The text of a displacement, read back, gives its value as an unsigned
/// 64-bit number.
proof fn lemma_displ_number_reads(n: NumberFormat, x: i64, size: u32)
    ensures
        number_reads_as(n, displ_number_text(n, x, size), x as u64 as nat),
{
    assert(x as u64 <= 0xFF ==> x as u8 as u64 == x as u64) by (bit_vector);
    assert(x as u64 <= 0xFFFF ==> x as u16 as u64 == x as u64) by (bit_vector);
    assert(x as u64 <= 0xFFFF_FFFF ==> x as u32 as u64 == x as u64) by (bit_vector);
    if size <= 1 && x as u64 <= 0xFF {
        lemma_unsigned_text_reads_back(n, x as u8 as nat, 8, n.leading_zeroes);
    } else if size <= 2 && x as u64 <= 0xFFFF {
        lemma_unsigned_text_reads_back(n, x as u16 as nat, 16, n.leading_zeroes);
    } else if size <= 4 && x as u64 <= 0xFFFF_FFFF {
        lemma_unsigned_text_reads_back(n, x as u32 as nat, 32, n.leading_zeroes);
    } else {
        lemma_unsigned_text_reads_back(n, x as u64 as nat, 64, n.leading_zeroes);
    }
}

/// The displacement of a memory operand, as a number of the address size.
pub open spec fn displacement_meaning(m: MemoryOperand, a: AdjustedAddress) -> nat {
    a.displ as u64 as nat
}

/// A displacement after a register, without symbol, of a 16, 32 or 64-bit
/// address: with signed displacements, where it is negative as a signed
/// number of the address size, a minus sign and its two's-complement
/// magnitude (so `-8` for a 32-bit `0FFFFFFF8h`); else a plus sign and its
/// value. What the number says is the displacement as given.
pub proof fn lemma_displacement_sign(o: FormatterOptions, n: NumberFormat, m: MemoryOperand, a: AdjustedAddress)
    requires
        a.base != Register::NONE || m.index != Register::NONE,
        a.displ_size != 0,
        a.displ != 0,
        m.addr_size == 2 || m.addr_size == 4 || m.addr_size == 8,
        m.addr_size == 2 ==> 0 <= a.displ < 0x1_0000,
        m.addr_size == 4 ==> 0 <= a.displ < 0x1_0000_0000,
    ensures
        ({
            let bits = (m.addr_size * 8) as nat;
            let d = displacement_meaning(m, a);
            &&& (n.signed_number && d >= two_to(bits) / 2) ==> exists|t: Seq<char>, nk: NumberKind|
                #![trigger info_piece(t, FormatterTextKind::Number, TextInfo::Number(a.displ as u64, nk))]
                memory_displ_pieces(o, n, m, a, None) == add_operator_pieces(o, "-"@) + info_piece(
                    t,
                    FormatterTextKind::Number,
                    TextInfo::Number(a.displ as u64, nk),
                ) && number_reads_as(n, t, (two_to(bits) - d) as nat)
            &&& (!n.signed_number || d < two_to(bits) / 2) ==> exists|t: Seq<char>, nk: NumberKind|
                #![trigger info_piece(t, FormatterTextKind::Number, TextInfo::Number(a.displ as u64, nk))]
                memory_displ_pieces(o, n, m, a, None) == add_operator_pieces(o, "+"@) + info_piece(
                    t,
                    FormatterTextKind::Number,
                    TextInfo::Number(a.displ as u64, nk),
                ) && number_reads_as(n, t, d)
        }),
{
    reveal(memory_displ_pieces);
    let x = a.displ;
    let (sign, mag) = crate::nasm::displ_sign(n, m.addr_size, x);
    let size = if n.displacement_leading_zeroes {
        m.addr_size
    } else {
        a.displ_size
    };
    lemma_displ_number_reads(n, mag, size);
    let t = displ_number_text(n, mag, size);
    let nk = crate::nasm::displ_number_kind(mag, size, n.signed_number);
    assert(memory_displ_pieces(o, n, m, a, None) == add_operator_pieces(o, sign) + info_piece(
        t,
        FormatterTextKind::Number,
        TextInfo::Number(a.displ as u64, nk),
    ));
    assert(0 <= x < 0x1_0000_0000 ==> x as u64 == x) by (bit_vector);
    if m.addr_size == 4 {
        assert(0 <= x < 0x1_0000_0000 ==> (((x as i32) < 0) == (x >= 0x8000_0000))) by (bit_vector);
        assert(0x8000_0000 <= x < 0x1_0000_0000 ==> (0i32.wrapping_sub(x as i32) as u32 as i64) as u64 == 0x1_0000_0000 - x)
            by (bit_vector);
    } else if m.addr_size == 2 {
        assert(0 <= x < 0x1_0000 ==> (((x as i16) < 0) == (x >= 0x8000))) by (bit_vector);
        assert(0x8000 <= x < 0x1_0000 ==> (0i16.wrapping_sub(x as i16) as u16 as i64) as u64 == 0x1_0000 - x)
            by (bit_vector);
    } else {
        assert((x < 0) == (x as u64 >= 0x8000_0000_0000_0000)) by (bit_vector);
        assert(x < 0 ==> 0i64.wrapping_sub(x) as u64 as int == 0x1_0000_0000_0000_0000 - x as u64) by (bit_vector);
    }
}


/// The name of a prefix that has one name: `lock`, the `rep` forms,
/// `notrack`, `bnd`, `xacquire`, `xrelease` and the segment registers.
pub open spec fn prefix_kind_name(k: PrefixKind) -> Option<Seq<char>> {
    match k {
        PrefixKind::ES => Some(seq!['e', 's']),
        PrefixKind::CS => Some(seq!['c', 's']),
        PrefixKind::SS => Some(seq!['s', 's']),
        PrefixKind::DS => Some(seq!['d', 's']),
        PrefixKind::FS => Some(seq!['f', 's']),
        PrefixKind::GS => Some(seq!['g', 's']),
        PrefixKind::Lock => Some(seq!['l', 'o', 'c', 'k']),
        PrefixKind::Rep => Some(seq!['r', 'e', 'p']),
        PrefixKind::Repe => Some(seq!['r', 'e', 'p', 'e']),
        PrefixKind::Repne => Some(seq!['r', 'e', 'p', 'n', 'e']),
        PrefixKind::Bnd => Some(seq!['b', 'n', 'd']),
        PrefixKind::Notrack => Some(seq!['n', 'o', 't', 'r', 'a', 'c', 'k']),
        PrefixKind::Xacquire => Some(seq!['x', 'a', 'c', 'q', 'u', 'i', 'r', 'e']),
        PrefixKind::Xrelease => Some(seq!['x', 'r', 'e', 'l', 'e', 'a', 's', 'e']),
        _ => None,
    }
}

/// A segment override prefix is no register, or a segment register.
pub open spec fn segment_prefix_valid(instruction: Instruction) -> bool {
    instruction.segment_prefix == Register::NONE || Register::ES <= instruction.segment_prefix <= Register::GS
}

/// Each prefix is written by its own name.
pub open spec fn prefix_texts_named(ts: Seq<PrefixText>) -> bool {
    forall|i: int|
        0 <= i < ts.len() ==> (prefix_kind_name((#[trigger] ts[i]).1) matches Some(nm) ==> ts[i].0 == nm)
}

proof fn lemma_named_add(a: Seq<PrefixText>, b: Seq<PrefixText>)
    requires
        prefix_texts_named(a),
        prefix_texts_named(b),
    ensures
        prefix_texts_named(a + b),
{
    assert forall|i: int| 0 <= i < (a + b).len() implies (prefix_kind_name((#[trigger] (a + b)[i]).1) matches Some(nm)
        ==> (a + b)[i].0 == nm) by {
        if i < a.len() {
            assert((a + b)[i] == a[i]);
        } else {
            assert((a + b)[i] == b[i - a.len()]);
        }
    }
}

proof fn lemma_named_one(b: bool, t: Seq<char>, k: PrefixKind)
    requires
        b ==> (prefix_kind_name(k) matches Some(nm) ==> t == nm),
    ensures
        prefix_texts_named(crate::nasm::seq_if(b, t, k)),
{
}

/// The names of the segment registers are those of their prefixes.
proof fn lemma_segment_names(seg: u32)
    requires
        Register::ES <= seg <= Register::GS,
    ensures
        register_name_of_segment(seg),
{
    assert(crate::register::register_name(Register::ES as int) =~= seq!['e', 's']) by {
        reveal_strlit("es");
    }
    assert(crate::register::register_name(Register::CS as int) =~= seq!['c', 's']) by {
        reveal_strlit("cs");
    }
    assert(crate::register::register_name(Register::SS as int) =~= seq!['s', 's']) by {
        reveal_strlit("ss");
    }
    assert(crate::register::register_name(Register::DS as int) =~= seq!['d', 's']) by {
        reveal_strlit("ds");
    }
    assert(crate::register::register_name(Register::FS as int) =~= seq!['f', 's']) by {
        reveal_strlit("fs");
    }
    assert(crate::register::register_name(Register::GS as int) =~= seq!['g', 's']) by {
        reveal_strlit("gs");
    }
}

/// The prefixes up to `lock` are written by their names, `lock` among them
/// where the instruction has it.
proof fn lemma_prefix_texts_first_named(instruction: Instruction, op_info: InstrOpInfo)
    requires
        segment_prefix_valid(instruction),
    ensures
        prefix_texts_named(prefix_texts_first(instruction, op_info)),
        instruction.has_lock_prefix ==> exists|i: int|
            0 <= i < prefix_texts_first(instruction, op_info).len() && (#[trigger] prefix_texts_first(
                instruction,
                op_info,
            )[i]).1 == PrefixKind::Lock,
{
    assert("xacquire"@ =~= seq!['x', 'a', 'c', 'q', 'u', 'i', 'r', 'e']) by {
        reveal_strlit("xacquire");
    }
    assert("xrelease"@ =~= seq!['x', 'r', 'e', 'l', 'e', 'a', 's', 'e']) by {
        reveal_strlit("xrelease");
    }
    assert("lock"@ =~= seq!['l', 'o', 'c', 'k']) by {
        reveal_strlit("lock");
    }
    let flags = op_info.flags;
    let op = crate::tables::OP_SIZE_STRINGS@[crate::instruction::flag_field(
        flags,
        InstrOpInfoFlags::OP_SIZE_SHIFT,
        InstrOpInfoFlags::SIZE_OVERRIDE_MASK,
    ) as int]@;
    let ad = crate::tables::ADDR_SIZE_STRINGS@[crate::instruction::flag_field(
        flags,
        InstrOpInfoFlags::ADDR_SIZE_SHIFT,
        InstrOpInfoFlags::SIZE_OVERRIDE_MASK,
    ) as int]@;
    let seg = instruction.segment_prefix;
    let has_notrack = seg == Register::DS && instruction.is_notrack_prefix_branch;
    let shown = !has_notrack && seg != Register::NONE && crate::nasm::shows_segment_prefix(op_info);
    if shown {
        lemma_segment_names(seg);
    }
    let p0 = crate::nasm::seq_if(op.len() != 0, op, PrefixKind::OperandSize);
    let p1 = crate::nasm::seq_if(ad.len() != 0, ad, PrefixKind::AddressSize);
    let p2 = crate::nasm::seq_if(shown, crate::register::register_name(seg as int), crate::nasm::segment_prefix_kind(seg));
    let p3 = crate::nasm::seq_if(instruction.has_xacquire_prefix, "xacquire"@, PrefixKind::Xacquire);
    let p4 = crate::nasm::seq_if(instruction.has_xrelease_prefix, "xrelease"@, PrefixKind::Xrelease);
    let p5 = crate::nasm::seq_if(instruction.has_lock_prefix, "lock"@, PrefixKind::Lock);
    lemma_named_one(op.len() != 0, op, PrefixKind::OperandSize);
    lemma_named_one(ad.len() != 0, ad, PrefixKind::AddressSize);
    lemma_named_one(shown, crate::register::register_name(seg as int), crate::nasm::segment_prefix_kind(seg));
    lemma_named_one(instruction.has_xacquire_prefix, "xacquire"@, PrefixKind::Xacquire);
    lemma_named_one(instruction.has_xrelease_prefix, "xrelease"@, PrefixKind::Xrelease);
    lemma_named_one(instruction.has_lock_prefix, "lock"@, PrefixKind::Lock);
    lemma_named_add(p0, p1);
    lemma_named_add(p0 + p1, p2);
    lemma_named_add(p0 + p1 + p2, p3);
    lemma_named_add(p0 + p1 + p2 + p3, p4);
    lemma_named_add(p0 + p1 + p2 + p3 + p4, p5);
    let first = p0 + p1 + p2 + p3 + p4 + p5;
    assert(prefix_texts_first(instruction, op_info) == first);
    if instruction.has_lock_prefix {
        let i: int = (p0.len() + p1.len() + p2.len() + p3.len() + p4.len()) as int;
        assert(first[i] == p5[0]);
    }
}

/// The prefixes from `rep` on are written by their names, and the `rep`,
/// `repne` and `bnd` prefixes of the instruction are among them.
proof fn lemma_prefix_texts_last_named(instruction: Instruction, op_info: InstrOpInfo)
    ensures
        prefix_texts_named(prefix_texts_last(instruction, op_info)),
        instruction.has_repne_prefix && op_info.flags & InstrOpInfoFlags::BND_PREFIX == 0 ==> exists|i: int|
            0 <= i < prefix_texts_last(instruction, op_info).len() && (#[trigger] prefix_texts_last(
                instruction,
                op_info,
            )[i]).1 == PrefixKind::Repne,
        instruction.has_repe_prefix ==> exists|i: int|
            0 <= i < prefix_texts_last(instruction, op_info).len() && ((#[trigger] prefix_texts_last(
                instruction,
                op_info,
            )[i]).1 == (if instruction.is_repe_or_repne_instruction {
                PrefixKind::Repe
            } else {
                PrefixKind::Rep
            })),
        op_info.flags & InstrOpInfoFlags::BND_PREFIX != 0 ==> exists|i: int|
            0 <= i < prefix_texts_last(instruction, op_info).len() && (#[trigger] prefix_texts_last(
                instruction,
                op_info,
            )[i]).1 == PrefixKind::Bnd,
{
    assert("repe"@ =~= seq!['r', 'e', 'p', 'e']) by {
        reveal_strlit("repe");
    }
    assert("rep"@ =~= seq!['r', 'e', 'p']) by {
        reveal_strlit("rep");
    }
    assert("repne"@ =~= seq!['r', 'e', 'p', 'n', 'e']) by {
        reveal_strlit("repne");
    }
    assert("notrack"@ =~= seq!['n', 'o', 't', 'r', 'a', 'c', 'k']) by {
        reveal_strlit("notrack");
    }
    assert("bnd"@ =~= seq!['b', 'n', 'd']) by {
        reveal_strlit("bnd");
    }
    let has_notrack = instruction.segment_prefix == Register::DS && instruction.is_notrack_prefix_branch;
    let has_bnd = op_info.flags & InstrOpInfoFlags::BND_PREFIX != 0;
    let p6 = if instruction.is_repe_or_repne_instruction {
        crate::nasm::seq_if(instruction.has_repe_prefix, "repe"@, PrefixKind::Repe)
    } else {
        crate::nasm::seq_if(instruction.has_repe_prefix, "rep"@, PrefixKind::Rep)
    };
    let p7 = crate::nasm::seq_if(instruction.has_repne_prefix && !has_bnd, "repne"@, PrefixKind::Repne);
    let p8 = crate::nasm::seq_if(has_notrack, "notrack"@, PrefixKind::Notrack);
    let p9 = crate::nasm::seq_if(has_bnd, "bnd"@, PrefixKind::Bnd);
    lemma_named_one(instruction.has_repe_prefix, "repe"@, PrefixKind::Repe);
    lemma_named_one(instruction.has_repe_prefix, "rep"@, PrefixKind::Rep);
    lemma_named_one(instruction.has_repne_prefix && !has_bnd, "repne"@, PrefixKind::Repne);
    lemma_named_one(has_notrack, "notrack"@, PrefixKind::Notrack);
    lemma_named_one(has_bnd, "bnd"@, PrefixKind::Bnd);
    lemma_named_add(p6, p7);
    lemma_named_add(p6 + p7, p8);
    lemma_named_add(p6 + p7 + p8, p9);
    let last = p6 + p7 + p8 + p9;
    assert(prefix_texts_last(instruction, op_info) == last);
    if instruction.has_repne_prefix && !has_bnd {
        let i: int = p6.len() as int;
        assert(last[i] == p7[0]);
    }
    if instruction.has_repe_prefix {
        assert(last[0] == p6[0]);
    }
    if has_bnd {
        let i: int = (p6.len() + p7.len() + p8.len()) as int;
        assert(last[i] == p9[0]);
    }
}

/// Every prefix of an instruction that has a name of its own is written
/// with that name, and a `repne`, `lock`, `rep`/`repe` or `bnd` prefix of the
/// instruction is among its prefixes.
pub proof fn lemma_prefix_texts_named(instruction: Instruction, op_info: InstrOpInfo)
    requires
        segment_prefix_valid(instruction),
    ensures
        prefix_texts_named(prefix_texts(instruction, op_info)),
        instruction.has_repne_prefix && op_info.flags & InstrOpInfoFlags::BND_PREFIX == 0 ==> exists|i: int|
            0 <= i < prefix_texts(instruction, op_info).len() && (#[trigger] prefix_texts(instruction, op_info)[i]).1
                == PrefixKind::Repne,
        instruction.has_lock_prefix ==> exists|i: int|
            0 <= i < prefix_texts(instruction, op_info).len() && (#[trigger] prefix_texts(instruction, op_info)[i]).1
                == PrefixKind::Lock,
        instruction.has_repe_prefix ==> exists|i: int|
            0 <= i < prefix_texts(instruction, op_info).len() && ((#[trigger] prefix_texts(instruction, op_info)[i]).1
                == (if instruction.is_repe_or_repne_instruction {
                PrefixKind::Repe
            } else {
                PrefixKind::Rep
            })),
        op_info.flags & InstrOpInfoFlags::BND_PREFIX != 0 ==> exists|i: int|
            0 <= i < prefix_texts(instruction, op_info).len() && (#[trigger] prefix_texts(instruction, op_info)[i]).1
                == PrefixKind::Bnd,
{
    let first = prefix_texts_first(instruction, op_info);
    let last = prefix_texts_last(instruction, op_info);
    lemma_prefix_texts_first_named(instruction, op_info);
    lemma_prefix_texts_last_named(instruction, op_info);
    lemma_named_add(first, last);
    let all = first + last;
    assert(prefix_texts(instruction, op_info) == all);
    if instruction.has_lock_prefix {
        let i = choose|i: int| 0 <= i < first.len() && (#[trigger] first[i]).1 == PrefixKind::Lock;
        assert(all[i] == first[i]);
    }
    if instruction.has_repne_prefix && op_info.flags & InstrOpInfoFlags::BND_PREFIX == 0 {
        let i = choose|i: int| 0 <= i < last.len() && (#[trigger] last[i]).1 == PrefixKind::Repne;
        assert(all[first.len() + i] == last[i]);
    }
    if instruction.has_repe_prefix {
        let i = choose|i: int|
            0 <= i < last.len() && (#[trigger] last[i]).1 == (if instruction.is_repe_or_repne_instruction {
                PrefixKind::Repe
            } else {
                PrefixKind::Rep
            });
        assert(all[first.len() + i] == last[i]);
    }
    if op_info.flags & InstrOpInfoFlags::BND_PREFIX != 0 {
        let i = choose|i: int| 0 <= i < last.len() && (#[trigger] last[i]).1 == PrefixKind::Bnd;
        assert(all[first.len() + i] == last[i]);
    }
}

/// A segment register that can be a prefix has the name of its prefix kind.
spec fn register_name_of_segment(seg: u32) -> bool {
    prefix_kind_name(crate::nasm::segment_prefix_kind(seg)) matches Some(nm) ==> crate::register::register_name(
        seg as int,
    ) == nm
}


/// Prefix pieces say which prefix they are, and each is written by the
/// text of a prefix of that kind; each prefix has its piece.
proof fn lemma_prefix_pieces_of(o: FormatterOptions, texts: Seq<PrefixText>)
    ensures
        forall|j: int|
            0 <= j < prefix_pieces(o, texts).len() ==> ((#[trigger] prefix_pieces(o, texts)[j]).2 matches TextInfo::Prefix(k)
                ==> exists|i: int|
                0 <= i < texts.len() && (#[trigger] texts[i]).1 == k && prefix_pieces(o, texts)[j].0 == cased(
                    texts[i].0,
                    o.upper_case_prefixes || o.upper_case_all,
                )),
        forall|i: int|
            0 <= i < texts.len() ==> exists|j: int|
                0 <= j < prefix_pieces(o, texts).len() && #[trigger] prefix_pieces(o, texts)[j] == (
                    cased((#[trigger] texts[i]).0, o.upper_case_prefixes || o.upper_case_all),
                    FormatterTextKind::Prefix,
                    TextInfo::Prefix(texts[i].1),
                ),
    decreases texts.len(),
{
    if texts.len() > 0 {
        let prev = texts.drop_last();
        lemma_prefix_pieces_of(o, prev);
        let pp = prefix_pieces(o, prev);
        let sep = if texts.len() > 1 {
            piece(" "@, FormatterTextKind::Text)
        } else {
            Seq::empty()
        };
        let last = prefix_piece(o, texts.last());
        let all = prefix_pieces(o, texts);
        assert(all == pp + sep + last);
        assert forall|j: int| 0 <= j < all.len() implies ((#[trigger] all[j]).2 matches TextInfo::Prefix(k)
            ==> exists|i: int|
            0 <= i < texts.len() && (#[trigger] texts[i]).1 == k && all[j].0 == cased(
                texts[i].0,
                o.upper_case_prefixes || o.upper_case_all,
            )) by {
            if j < pp.len() {
                assert(all[j] == pp[j]);
                if let TextInfo::Prefix(k) = pp[j].2 {
                    let i = choose|i: int|
                        0 <= i < prev.len() && (#[trigger] prev[i]).1 == k && pp[j].0 == cased(
                            prev[i].0,
                            o.upper_case_prefixes || o.upper_case_all,
                        );
                    assert(texts[i] == prev[i]);
                }
            } else if j < pp.len() + sep.len() {
                assert(all[j] == sep[j - pp.len()]);
            } else {
                assert(all[j] == last[j - pp.len() - sep.len()]);
                assert(texts[texts.len() - 1] == texts.last());
            }
        }
        assert forall|i: int| 0 <= i < texts.len() implies exists|j: int|
            0 <= j < all.len() && #[trigger] all[j] == (
                cased((#[trigger] texts[i]).0, o.upper_case_prefixes || o.upper_case_all),
                FormatterTextKind::Prefix,
                TextInfo::Prefix(texts[i].1),
            ) by {
            if i < prev.len() {
                assert(texts[i] == prev[i]);
                let j = choose|j: int|
                    0 <= j < pp.len() && #[trigger] pp[j] == (
                        cased(prev[i].0, o.upper_case_prefixes || o.upper_case_all),
                        FormatterTextKind::Prefix,
                        TextInfo::Prefix(prev[i].1),
                    );
                assert(all[j] == pp[j]);
            } else {
                let j: int = (pp.len() + sep.len()) as int;
                assert(all[j] == last[0]);
            }
        }
    }
}

/// Prefixes written by their names give pieces written by their names.
proof fn lemma_named_pieces(o: FormatterOptions, texts: Seq<PrefixText>)
    requires
        prefix_texts_named(texts),
    ensures
        forall|j: int|
            0 <= j < prefix_pieces(o, texts).len() ==> ((#[trigger] prefix_pieces(o, texts)[j]).2 matches TextInfo::Prefix(k)
                ==> (prefix_kind_name(k) matches Some(nm) ==> prefix_pieces(o, texts)[j].0 == cased(
                nm,
                o.upper_case_prefixes || o.upper_case_all,
            ))),
{
    lemma_prefix_pieces_of(o, texts);
    let pp = prefix_pieces(o, texts);
    assert forall|j: int| 0 <= j < pp.len() implies ((#[trigger] pp[j]).2 matches TextInfo::Prefix(k) ==> (
    prefix_kind_name(k) matches Some(nm) ==> pp[j].0 == cased(nm, o.upper_case_prefixes || o.upper_case_all))) by {
        if let TextInfo::Prefix(k) = pp[j].2 {
            let i = choose|i: int|
                0 <= i < texts.len() && (#[trigger] texts[i]).1 == k && pp[j].0 == cased(
                    texts[i].0,
                    o.upper_case_prefixes || o.upper_case_all,
                );
        }
    }
}

/// Every prefix that the formatter writes before the mnemonic and that has
/// a name of its own is written with that name, in the case the options ask
/// for; a `repne` prefix (not taken by `bnd`) is written as such a piece
/// where prefixes are written.
#[verifier::rlimit(40)]
pub proof fn lemma_prefixes_written_by_name(
    o: FormatterOptions,
    instruction: Instruction,
    op_info: InstrOpInfo,
    mnemonic_options: u32,
)
    requires
        segment_prefix_valid(instruction),
    ensures
        forall|j: int|
            0 <= j < mnemonic_pieces(o, instruction, op_info, mnemonic_options).len() ==> ((#[trigger] mnemonic_pieces(
                o,
                instruction,
                op_info,
                mnemonic_options,
            )[j]).2 matches TextInfo::Prefix(k) ==> (prefix_kind_name(k) matches Some(nm) ==> mnemonic_pieces(
                o,
                instruction,
                op_info,
                mnemonic_options,
            )[j].0 == cased(nm, o.upper_case_prefixes || o.upper_case_all))),
        instruction.has_repne_prefix && op_info.flags & InstrOpInfoFlags::BND_PREFIX == 0 && mnemonic_options
            & FormatMnemonicOptions::NO_PREFIXES == 0 && op_info.flags & InstrOpInfoFlags::MNEMONIC_IS_DIRECTIVE == 0
            ==> exists|j: int|
            0 <= j < mnemonic_pieces(o, instruction, op_info, mnemonic_options).len() && #[trigger] mnemonic_pieces(
                o,
                instruction,
                op_info,
                mnemonic_options,
            )[j] == (
                cased(seq!['r', 'e', 'p', 'n', 'e'], o.upper_case_prefixes || o.upper_case_all),
                FormatterTextKind::Prefix,
                TextInfo::Prefix(PrefixKind::Repne),
            ),
{
    let texts = written_prefix_texts(instruction, op_info, mnemonic_options);
    let writes = mnemonic_options & FormatMnemonicOptions::NO_PREFIXES == 0 && op_info.flags
        & InstrOpInfoFlags::MNEMONIC_IS_DIRECTIVE == 0;
    assert(prefix_texts_named(texts)) by {
        lemma_prefix_texts_named(instruction, op_info);
        if !writes {
            assert(texts =~= Seq::<PrefixText>::empty());
        }
    }
    let pp = prefix_pieces(o, texts);
    let rest = if mnemonic_options & FormatMnemonicOptions::NO_MNEMONIC == 0 {
        (if texts.len() > 0 {
            piece(" "@, FormatterTextKind::Text)
        } else {
            Seq::empty()
        }) + crate::nasm::mnemonic_text_pieces(o, op_info)
    } else {
        Seq::empty()
    };
    let mp = mnemonic_pieces(o, instruction, op_info, mnemonic_options);
    assert(mp == pp + rest);
    assert(forall|j: int| 0 <= j < rest.len() ==> (#[trigger] rest[j]).2 == TextInfo::Plain);
    lemma_named_pieces(o, texts);
    assert forall|j: int| 0 <= j < mp.len() implies ((#[trigger] mp[j]).2 matches TextInfo::Prefix(k) ==> (
    prefix_kind_name(k) matches Some(nm) ==> mp[j].0 == cased(nm, o.upper_case_prefixes || o.upper_case_all))) by {
        if j < pp.len() {
            assert(mp[j] == pp[j]);
        } else {
            assert(mp[j] == rest[j - pp.len()]);
        }
    }
    if instruction.has_repne_prefix && op_info.flags & InstrOpInfoFlags::BND_PREFIX == 0 && writes {
        lemma_prefix_texts_named(instruction, op_info);
        assert(texts == prefix_texts(instruction, op_info));
        lemma_prefix_pieces_of(o, texts);
        let i = choose|i: int| 0 <= i < texts.len() && (#[trigger] texts[i]).1 == PrefixKind::Repne;
        assert(texts[i].0 == seq!['r', 'e', 'p', 'n', 'e']);
        let j = choose|j: int|
            0 <= j < pp.len() && #[trigger] pp[j] == (
                cased(texts[i].0, o.upper_case_prefixes || o.upper_case_all),
                FormatterTextKind::Prefix,
                TextInfo::Prefix(texts[i].1),
            );
        assert(mp[j] == pp[j]);
    }
}


/// The offset of a far branch, reduced to the size of the operand.
pub open spec fn far_offset_value(instruction: Instruction, k: InstrOpKind) -> nat {
    if k == InstrOpKind::FarBranch32 {
        instruction.far_branch32 as nat
    } else {
        (instruction.far_branch32 as nat) % 0x1_0000
    }
}

/// A far branch without symbols is its branch size keywords, the selector,
/// a colon and the offset: two numbers that read back as the selector and
/// as the offset of the size of the operand.
pub proof fn lemma_far_branch_written(
    o: FormatterOptions,
    instruction: Instruction,
    k: InstrOpKind,
    flags: u32,
    op: FormatterOperandOptions,
    n: NumberFormat,
)
    requires
        k == InstrOpKind::FarBranch16 || k == InstrOpKind::FarBranch32,
    ensures
        exists|ts: Seq<char>, t: Seq<char>|
            #![trigger number_reads_as(n, ts, instruction.far_branch_selector as nat), number_reads_as(n, t, far_offset_value(instruction, k))]
            far_branch_pieces(o, instruction, k, flags, op, n, None, None) == flow_control_pieces(o, flags, op)
                + info_piece(
                ts,
                FormatterTextKind::SelectorValue,
                TextInfo::Number(instruction.far_branch_selector as u64, NumberKind::UInt16),
            ) + piece(":"@, FormatterTextKind::Punctuation) + info_piece(
                t,
                if instruction.is_call {
                    FormatterTextKind::FunctionAddress
                } else {
                    FormatterTextKind::LabelAddress
                },
                TextInfo::Number(
                    far_offset_value(instruction, k) as u64,
                    if k == InstrOpKind::FarBranch32 {
                        NumberKind::UInt32
                    } else {
                        NumberKind::UInt16
                    },
                ),
            ) && number_reads_as(n, ts, instruction.far_branch_selector as nat) && number_reads_as(
                n,
                t,
                far_offset_value(instruction, k),
            ),
{
    reveal(far_branch_pieces);
    let x = instruction.far_branch32;
    assert(x as u16 as u64 == x % 0x1_0000) by (bit_vector);
    let v = far_offset_value(instruction, k);
    let bits: nat = if k == InstrOpKind::FarBranch32 {
        32
    } else {
        16
    };
    let sel = instruction.far_branch_selector;
    let ts = crate::number::unsigned_text(n, sel as nat, 16, n.leading_zeroes);
    let t = crate::number::unsigned_text(n, v, bits, n.leading_zeroes);
    lemma_unsigned_text_reads_back(n, sel as nat, 16, n.leading_zeroes);
    lemma_unsigned_text_reads_back(n, v, bits, n.leading_zeroes);
    assert(far_branch_pieces(o, instruction, k, flags, op, n, None, None) == flow_control_pieces(o, flags, op)
        + info_piece(
        ts,
        FormatterTextKind::SelectorValue,
        TextInfo::Number(sel as u64, NumberKind::UInt16),
    ) + piece(":"@, FormatterTextKind::Punctuation) + info_piece(
        t,
        branch_target_kind(instruction),
        TextInfo::Number(
            v as u64,
            if k == InstrOpKind::FarBranch32 {
                NumberKind::UInt32
            } else {
                NumberKind::UInt16
            },
        ),
    ));
}

/// A general memory operand with a base that is not `rip` or `eip` keeps
/// its base, and its displacement is the instruction's: all 64 bits of it
/// with a 64-bit address, else its low 32 bits.
pub proof fn lemma_memory_operand_displacement(instruction: Instruction, op_info: InstrOpInfo, rip_relative: bool)
    requires
        instruction.memory_base != Register::RIP,
        instruction.memory_base != Register::EIP,
    ensures
        ({
            let m = memory_operand_of(instruction, op_info, InstrOpKind::Memory);
            let a = adjusted_address(instruction, m, rip_relative);
            &&& a.base == instruction.memory_base
            &&& a.displ_size == instruction.memory_displ_size
            &&& m.addr_size == 8 ==> a.displ as u64 == instruction.memory_displacement64
            &&& m.addr_size != 8 ==> 0 <= a.displ && a.displ as nat == (instruction.memory_displacement64 as nat)
                % 0x1_0000_0000
        }),
{
    let x = instruction.memory_displacement64;
    assert(x as i64 as u64 == x) by (bit_vector);
    assert(x as u32 as i64 as u64 == x % 0x1_0000_0000 && x as u32 as i64 >= 0) by (bit_vector);
}


/// The scale of an index is written as the decimal number of its factor,
/// two to the power of the scale shift, and says that factor.
pub proof fn lemma_scale_written(scale: u32)
    requires
        scale <= 3,
    ensures
        crate::number::digits_value(crate::nasm::SCALE_NUMBERS@[scale as int]@, 10) == vstd::arithmetic::power2::pow2(
            scale as nat,
        ),
        crate::nasm::SCALE_NUMBERS@[scale as int]@.len() == 1,
        crate::nasm::scale_value(scale) as nat == vstd::arithmetic::power2::pow2(scale as nat),
{
    reveal_strlit("1");
    reveal_strlit("2");
    reveal_strlit("4");
    reveal_strlit("8");
    vstd::arithmetic::power2::lemma2_to64();
    let t = crate::nasm::SCALE_NUMBERS@[scale as int]@;
    assert(t.drop_last() =~= Seq::<char>::empty());
    assert(crate::number::digits_value(t.drop_last(), 10) == 0);
    assert(crate::number::digits_value(t, 10) == crate::number::digit_value(t.last()));
    if scale == 0 {
        assert(t == "1"@);
    } else if scale == 1 {
        assert(t == "2"@);
    } else if scale == 2 {
        assert(t == "4"@);
    } else {
        assert(t == "8"@);
    }
}

} // verus!
