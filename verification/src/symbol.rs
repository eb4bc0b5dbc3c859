//! Symbols: what a symbol resolver returns, how the formatter writes one,
//! and the two hooks that a user of the formatter may give it.

use vstd::prelude::*;
use vstd::string::*;
use crate::instruction::Instruction;
use crate::number::{format_u16_zeroes, format_u32_zeroes, format_u64_zeroes, unsigned_text};
use crate::options::{FormatterOperandOptions, NumberFormat, NumberFormattingOptions};
use crate::text::{FormatterOutput, FormatterTextKind, NumberKind, Piece, TextInfo, info_piece, piece};

verus! {

/// The bits of `SymbolResult::flags`.
pub struct SymbolFlags;

impl SymbolFlags {
    pub const NONE: u32 = 0x0000_0000;
    /// The symbol is relative to the address of the instruction.
    pub const RELATIVE: u32 = 0x0000_0001;
    /// The symbol is written with a minus sign in front.
    pub const SIGNED: u32 = 0x0000_0002;
}

/// A symbol that a resolver found for an address.
pub struct SymbolResult {
    /// The address of the symbol; the operand may lie at an offset from it.
    pub address: u64,
    pub text: String,
    pub kind: FormatterTextKind,
    pub flags: u32,
}

impl SymbolResult {
    /// A label at `address` named `text`.
    pub fn with_string(address: u64, text: String) -> (r: SymbolResult)
        ensures
            r.address == address,
            r.text@ == text@,
            r.kind == FormatterTextKind::Label,
            r.flags == SymbolFlags::NONE,
    {
        SymbolResult { address, text, kind: FormatterTextKind::Label, flags: SymbolFlags::NONE }
    }

    /// A symbol at `address` named `text` of the given kind and flags.
    pub fn with_string_kind_flags(address: u64, text: String, kind: FormatterTextKind, flags: u32) -> (r:
        SymbolResult)
        ensures
            r.address == address,
            r.text@ == text@,
            r.kind == kind,
            r.flags == flags,
    {
        SymbolResult { address, text, kind, flags }
    }
}

/// Finds symbols for the addresses and immediates of operands.
pub trait SymbolResolver {
    /// The answers that this resolver may give to a query; it says what the
    /// resolver does, and does not change from one query to the next. Unless
    /// an implementation says more, any answer.
    open spec fn answers(
        &self,
        instruction: Instruction,
        operand: u32,
        instruction_operand: Option<u32>,
        address: u64,
        address_size: u32,
        r: Option<SymbolResult>,
    ) -> bool {
        true
    }

    /// A symbol for `address` (of `address_size` bytes) of formatter operand
    /// `operand`, if there is one.
    fn symbol(
        &mut self,
        instruction: &Instruction,
        operand: u32,
        instruction_operand: Option<u32>,
        address: u64,
        address_size: u32,
    ) -> (r: Option<SymbolResult>)
        ensures
            old(self).answers(*instruction, operand, instruction_operand, address, address_size, r),
            forall|i: Instruction, o: u32, io: Option<u32>, a: u64, s: u32, x: Option<SymbolResult>|
                #[trigger] final(self).answers(i, o, io, a, s, x) == old(self).answers(i, o, io, a, s, x),
    ;
}

/// Changes the options of single operands.
pub trait FormatterOptionsProvider {
    /// The changes that this provider may make: from the operand options
    /// `op0` and number format `n0` to `op1` and `n1`. It says what the
    /// provider does, and does not change from one call to the next. Unless
    /// an implementation says more, any change.
    open spec fn gives(
        &self,
        instruction: Instruction,
        operand: u32,
        instruction_operand: Option<u32>,
        op0: FormatterOperandOptions,
        n0: NumberFormat,
        op1: FormatterOperandOptions,
        n1: NumberFormat,
    ) -> bool {
        true
    }

    /// May change the options of formatter operand `operand` and of its number.
    fn operand_options(
        &mut self,
        instruction: &Instruction,
        operand: u32,
        instruction_operand: Option<u32>,
        options: &mut FormatterOperandOptions,
        number_options: &mut NumberFormattingOptions,
    )
        ensures
            old(self).gives(
                *instruction,
                operand,
                instruction_operand,
                *old(options),
                old(number_options)@,
                *final(options),
                final(number_options)@,
            ),
            forall|
                i: Instruction,
                o: u32,
                io: Option<u32>,
                op0: FormatterOperandOptions,
                n0: NumberFormat,
                op1: FormatterOperandOptions,
                n1: NumberFormat,
            |
                #[trigger] final(self).gives(i, o, io, op0, n0, op1, n1) == old(self).gives(i, o, io, op0, n0, op1, n1),
    ;
}

/// `piece(s, k)` when `b` holds, else nothing.
pub open spec fn piece_if(b: bool, s: Seq<char>, k: FormatterTextKind) -> Seq<Piece> {
    if b {
        piece(s, k)
    } else {
        Seq::empty()
    }
}

/// The offset of `address` from the symbol, negated for a signed symbol.
pub open spec fn symbol_displacement(address: u64, sym: SymbolResult) -> i64 {
    let d = (address.wrapping_sub(sym.address)) as i64;
    if sym.flags & SymbolFlags::SIGNED != 0 {
        0i64.wrapping_sub(d)
    } else {
        d
    }
}

/// The text of an address in parentheses: with leading zeroes, as 16, 32 or
/// 64 bits, whichever is the smallest that holds it.
pub open spec fn symbol_address_text(
    n: NumberFormat, address: u64) -> Seq<char> {
    if address <= 0xFFFF {
        unsigned_text(n, address as nat, 16, true)
    } else if address <= 0xFFFF_FFFF {
        unsigned_text(n, address as nat, 32, true)
    } else {
        unsigned_text(n, address as nat, 64, true)
    }
}

/// The offset from a symbol: its sign and its magnitude, where it is not zero.
pub open spec fn symbol_offset_pieces(
    n: NumberFormat, displ: i64, spaces_between_op: bool) -> Seq<
    Piece,
> {
    if displ != 0 {
        piece_if(spaces_between_op, " "@, FormatterTextKind::Text) + (if displ < 0 {
            piece("-"@, FormatterTextKind::Operator)
        } else {
            piece("+"@, FormatterTextKind::Operator)
        }) + piece_if(spaces_between_op, " "@, FormatterTextKind::Text) + info_piece(
            unsigned_text(
                n,
                (if displ < 0 {
                    0i64.wrapping_sub(displ)
                } else {
                    displ
                }) as u64 as nat,
                64,
                false,
            ),
            FormatterTextKind::Number,
            TextInfo::Number(
                displ as u64,
                if displ < 0 {
                    NumberKind::Int64
                } else {
                    NumberKind::UInt64
                },
            ),
        )
    } else {
        Seq::empty()
    }
}

/// The address of a symbol in parentheses, where asked for.
pub open spec fn symbol_address_pieces(
    n: NumberFormat, address: u64, show_symbol_address: bool) -> Seq<
    Piece,
> {
    if show_symbol_address {
        piece(" "@, FormatterTextKind::Text) + piece("("@, FormatterTextKind::Punctuation) + info_piece(
            symbol_address_text(n, address),
            FormatterTextKind::Number,
            TextInfo::Number(
                address,
                if address <= 0xFFFF {
                    NumberKind::UInt16
                } else if address <= 0xFFFF_FFFF {
                    NumberKind::UInt32
                } else {
                    NumberKind::UInt64
                },
            ),
        ) + piece(")"@, FormatterTextKind::Punctuation)
    } else {
        Seq::empty()
    }
}

/// What the formatter writes for a symbol found for `address`: a minus sign
/// for a signed symbol where asked for, the symbol's text, the offset from the
/// symbol with its sign where it is not zero, and the address in parentheses
/// where asked for.
#[verifier::opaque]
pub open spec fn symbol_pieces(
    n: NumberFormat,
    address: u64,
    sym: SymbolResult,
    show_symbol_address: bool,
    write_minus_if_signed: bool,
    spaces_between_op: bool,
) -> Seq<Piece> {
    piece_if(sym.flags & SymbolFlags::SIGNED != 0 && write_minus_if_signed, "-"@, FormatterTextKind::Operator)
        + piece(sym.text@, sym.kind) + symbol_offset_pieces(
        n,
        symbol_displacement(address, sym),
        spaces_between_op,
    ) + symbol_address_pieces(n, address, show_symbol_address)
}

/// Writes `symbol_offset_pieces`.
fn write_symbol_offset(output: &mut FormatterOutput, n: &NumberFormattingOptions, displ: i64, spaces_between_op: bool)
    ensures
        final(output)@ == old(output)@ + symbol_offset_pieces(n@, displ, spaces_between_op),
{
    if displ != 0 {
        let ghost o0 = output@;
        if spaces_between_op {
            output.write(" ", FormatterTextKind::Text);
        }
        let ghost o1 = output@;
        let mut m: i64 = displ;
        if displ < 0 {
            output.write("-", FormatterTextKind::Operator);
            m = 0i64.wrapping_sub(displ);
        } else {
            output.write("+", FormatterTextKind::Operator);
        }
        let ghost o2 = output@;
        if spaces_between_op {
            output.write(" ", FormatterTextKind::Text);
        }
        let ghost o3 = output@;
        let s = format_u64_zeroes(n, m as u64, false);
        let number_kind = if displ < 0 {
            NumberKind::Int64
        } else {
            NumberKind::UInt64
        };
        output.write_number(s.as_str(), displ as u64, number_kind, FormatterTextKind::Number);
        assert(o1 =~= o0 + piece_if(spaces_between_op, " "@, FormatterTextKind::Text));
        assert(o3 =~= o2 + piece_if(spaces_between_op, " "@, FormatterTextKind::Text));
        assert(output@ =~= old(output)@ + symbol_offset_pieces(n@, displ, spaces_between_op));
    } else {
        assert(output@ =~= old(output)@ + symbol_offset_pieces(n@, displ, spaces_between_op));
    }
}

/// Writes `symbol_address_pieces`.
fn write_symbol_address(output: &mut FormatterOutput, n: &NumberFormattingOptions, address: u64, show_symbol_address: bool)
    ensures
        final(output)@ == old(output)@ + symbol_address_pieces(n@, address, show_symbol_address),
{
    if show_symbol_address {
        output.write(" ", FormatterTextKind::Text);
        output.write("(", FormatterTextKind::Punctuation);
        let (s, number_kind) = if address <= 0xFFFF {
            (format_u16_zeroes(n, address as u16, true), NumberKind::UInt16)
        } else if address <= 0xFFFF_FFFF {
            (format_u32_zeroes(n, address as u32, true), NumberKind::UInt32)
        } else {
            (format_u64_zeroes(n, address, true), NumberKind::UInt64)
        };
        output.write_number(s.as_str(), address, number_kind, FormatterTextKind::Number);
        output.write(")", FormatterTextKind::Punctuation);
    }
    assert(output@ =~= old(output)@ + symbol_address_pieces(n@, address, show_symbol_address));
}

/// Writes `symbol_pieces`.
pub fn write_symbol(
    output: &mut FormatterOutput,
    n: &NumberFormattingOptions,
    address: u64,
    sym: &SymbolResult,
    show_symbol_address: bool,
    write_minus_if_signed: bool,
    spaces_between_op: bool,
)
    ensures
        final(output)@ == old(output)@ + symbol_pieces(
            n@,
            address,
            *sym,
            show_symbol_address,
            write_minus_if_signed,
            spaces_between_op,
        ),
{
    let ghost minus = piece_if(
        sym.flags & SymbolFlags::SIGNED != 0 && write_minus_if_signed,
        "-"@,
        FormatterTextKind::Operator,
    );
    let ghost d = symbol_displacement(address, *sym);
    let mut displ: i64 = address.wrapping_sub(sym.address) as i64;
    if sym.flags & SymbolFlags::SIGNED != 0 {
        if write_minus_if_signed {
            output.write("-", FormatterTextKind::Operator);
        }
        displ = 0i64.wrapping_sub(displ);
    }
    let ghost o1 = output@;
    assert(o1 =~= old(output)@ + minus);
    assert(displ == d);
    output.write(sym.text.as_str(), sym.kind);
    let ghost o2 = output@;
    write_symbol_offset(output, n, displ, spaces_between_op);
    let ghost o3 = output@;
    write_symbol_address(output, n, address, show_symbol_address);
    proof {
        reveal(symbol_pieces);
        let t = piece(sym.text@, sym.kind);
        let off = symbol_offset_pieces(n@, d, spaces_between_op);
        let ad = symbol_address_pieces(n@, address, show_symbol_address);
        assert(symbol_pieces(n@, address, *sym, show_symbol_address, write_minus_if_signed, spaces_between_op)
            == minus + t + off + ad);
        assert(o2 == o1 + t);
        assert(o3 == o2 + off);
        assert(output@ == o3 + ad);
        assert(output@ =~= old(output)@ + (minus + t + off + ad));
    }
}

} // verus!
