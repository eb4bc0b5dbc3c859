//! Options of the formatter, of one operand, and of one number.

use vstd::prelude::*;

verus! {

/// The base in which numbers are written.
#[derive(Clone, Copy, Debug, PartialEq, Eq, Structural)]
pub enum NumberBase {
    Hexadecimal,
    Decimal,
    Octal,
    Binary,
}

/// When the size of a memory operand is written (`dword [eax]`).
#[derive(Clone, Copy, Debug, PartialEq, Eq, Structural)]
pub enum MemorySizeOptions {
    /// Only when it cannot be seen from the other operands.
    Default,
    /// Always.
    Always,
    /// Only when the instruction needs it to be told apart from another one.
    Minimum,
    /// Never.
    Never,
}

/// The options of the formatter.
pub struct FormatterOptions {
    pub upper_case_prefixes: bool,
    pub upper_case_mnemonics: bool,
    pub upper_case_registers: bool,
    pub upper_case_keywords: bool,
    pub upper_case_decorators: bool,
    pub upper_case_all: bool,
    /// Column of the first operand; 0 means one space after the mnemonic.
    pub first_operand_char_index: u32,
    /// Size of a tab; 0 means that spaces are written instead of tabs.
    pub tab_size: u32,
    pub space_after_operand_separator: bool,
    pub space_after_memory_bracket: bool,
    pub space_between_memory_add_operators: bool,
    pub space_between_memory_mul_operators: bool,
    pub scale_before_index: bool,
    pub always_show_scale: bool,
    pub always_show_segment_register: bool,
    pub show_zero_displacements: bool,
    pub hex_prefix: String,
    pub hex_suffix: String,
    pub decimal_prefix: String,
    pub decimal_suffix: String,
    pub octal_prefix: String,
    pub octal_suffix: String,
    pub binary_prefix: String,
    pub binary_suffix: String,
    pub uppercase_hex: bool,
    pub small_hex_numbers_in_decimal: bool,
    pub add_leading_zero_to_hex_numbers: bool,
    pub number_base: NumberBase,
    pub branch_leading_zeroes: bool,
    pub signed_immediate_operands: bool,
    pub signed_memory_displacements: bool,
    pub displacement_leading_zeroes: bool,
    pub memory_size_options: MemorySizeOptions,
    pub rip_relative_addresses: bool,
    pub show_branch_size: bool,
    pub show_symbol_address: bool,
    pub leading_zeroes: bool,
    pub nasm_show_sign_extended_immediate_size: bool,
}

/// A string whose characters are those of `s`.
fn string_of(s: &str) -> (r: String)
    ensures
        r@ == s@,
{
    s.to_string()
}

impl FormatterOptions {
    /// The default options.
    pub fn new() -> (r: FormatterOptions)
        ensures
            r.is_default_except_suffixes(),
            r.hex_suffix@.len() == 0,
            r.octal_suffix@.len() == 0,
            r.binary_suffix@.len() == 0,
    {
        proof {
            reveal_strlit("");
        }
        FormatterOptions {
            upper_case_prefixes: false,
            upper_case_mnemonics: false,
            upper_case_registers: false,
            upper_case_keywords: false,
            upper_case_decorators: false,
            upper_case_all: false,
            first_operand_char_index: 0,
            tab_size: 0,
            space_after_operand_separator: false,
            space_after_memory_bracket: false,
            space_between_memory_add_operators: false,
            space_between_memory_mul_operators: false,
            scale_before_index: false,
            always_show_scale: false,
            always_show_segment_register: false,
            show_zero_displacements: false,
            hex_prefix: string_of(""),
            hex_suffix: string_of(""),
            decimal_prefix: string_of(""),
            decimal_suffix: string_of(""),
            octal_prefix: string_of(""),
            octal_suffix: string_of(""),
            binary_prefix: string_of(""),
            binary_suffix: string_of(""),
            uppercase_hex: true,
            small_hex_numbers_in_decimal: true,
            add_leading_zero_to_hex_numbers: true,
            number_base: NumberBase::Hexadecimal,
            branch_leading_zeroes: true,
            signed_immediate_operands: false,
            signed_memory_displacements: true,
            displacement_leading_zeroes: false,
            memory_size_options: MemorySizeOptions::Default,
            rip_relative_addresses: false,
            show_branch_size: true,
            show_symbol_address: false,
            leading_zeroes: false,
            nasm_show_sign_extended_immediate_size: false,
        }
    }

    /// The default options of every field but the three number suffixes.
    pub open spec fn is_default_except_suffixes(&self) -> bool {
        &&& !self.upper_case_prefixes
        &&& !self.upper_case_mnemonics
        &&& !self.upper_case_registers
        &&& !self.upper_case_keywords
        &&& !self.upper_case_decorators
        &&& !self.upper_case_all
        &&& self.first_operand_char_index == 0
        &&& self.tab_size == 0
        &&& !self.space_after_operand_separator
        &&& !self.space_after_memory_bracket
        &&& !self.space_between_memory_add_operators
        &&& !self.space_between_memory_mul_operators
        &&& !self.scale_before_index
        &&& !self.always_show_scale
        &&& !self.always_show_segment_register
        &&& !self.show_zero_displacements
        &&& self.hex_prefix@.len() == 0
        &&& self.decimal_prefix@.len() == 0
        &&& self.decimal_suffix@.len() == 0
        &&& self.octal_prefix@.len() == 0
        &&& self.binary_prefix@.len() == 0
        &&& self.uppercase_hex
        &&& self.small_hex_numbers_in_decimal
        &&& self.add_leading_zero_to_hex_numbers
        &&& self.number_base == NumberBase::Hexadecimal
        &&& self.branch_leading_zeroes
        &&& !self.signed_immediate_operands
        &&& self.signed_memory_displacements
        &&& !self.displacement_leading_zeroes
        &&& self.memory_size_options == MemorySizeOptions::Default
        &&& !self.rip_relative_addresses
        &&& self.show_branch_size
        &&& !self.show_symbol_address
        &&& !self.leading_zeroes
        &&& !self.nasm_show_sign_extended_immediate_size
    }

    /// The default options of the NASM formatter: the defaults, with the
    /// number suffixes `h`, `o` and `b`.
    pub fn with_nasm() -> (r: FormatterOptions)
        ensures
            r.is_default_except_suffixes(),
            r.hex_suffix@ == "h"@,
            r.octal_suffix@ == "o"@,
            r.binary_suffix@ == "b"@,
    {
        let mut r = FormatterOptions::new();
        r.hex_suffix = string_of("h");
        r.octal_suffix = string_of("o");
        r.binary_suffix = string_of("b");
        r
    }
}

/// How one number is written.
pub struct NumberFormattingOptions {
    pub prefix: String,
    pub suffix: String,
    pub number_base: NumberBase,
    pub uppercase_hex: bool,
    pub small_hex_numbers_in_decimal: bool,
    pub add_leading_zero_to_hex_numbers: bool,
    pub leading_zeroes: bool,
    pub signed_number: bool,
    pub displacement_leading_zeroes: bool,
}

/// How one number is written, in specifications.
pub struct NumberFormat {
    pub prefix: Seq<char>,
    pub suffix: Seq<char>,
    pub number_base: NumberBase,
    pub uppercase_hex: bool,
    pub small_hex_numbers_in_decimal: bool,
    pub add_leading_zero_to_hex_numbers: bool,
    pub leading_zeroes: bool,
    pub signed_number: bool,
    pub displacement_leading_zeroes: bool,
}

impl View for NumberFormattingOptions {
    type V = NumberFormat;

    open spec fn view(&self) -> NumberFormat {
        NumberFormat {
            prefix: self.prefix@,
            suffix: self.suffix@,
            number_base: self.number_base,
            uppercase_hex: self.uppercase_hex,
            small_hex_numbers_in_decimal: self.small_hex_numbers_in_decimal,
            add_leading_zero_to_hex_numbers: self.add_leading_zero_to_hex_numbers,
            leading_zeroes: self.leading_zeroes,
            signed_number: self.signed_number,
            displacement_leading_zeroes: self.displacement_leading_zeroes,
        }
    }
}

/// The way of writing a number that `options` give, with the three flags.
pub open spec fn number_format(
    options: FormatterOptions,
    leading_zeroes: bool,
    signed_number: bool,
    displacement_leading_zeroes: bool,
) -> NumberFormat {
    NumberFormat {
        prefix: NumberFormattingOptions::base_prefix(&options),
        suffix: NumberFormattingOptions::base_suffix(&options),
        number_base: options.number_base,
        uppercase_hex: options.uppercase_hex,
        small_hex_numbers_in_decimal: options.small_hex_numbers_in_decimal,
        add_leading_zero_to_hex_numbers: options.add_leading_zero_to_hex_numbers,
        leading_zeroes,
        signed_number,
        displacement_leading_zeroes,
    }
}

impl NumberFormattingOptions {
    /// The prefix that the options give to numbers of their base.
    pub open spec fn base_prefix(options: &FormatterOptions) -> Seq<char> {
        match options.number_base {
            NumberBase::Hexadecimal => options.hex_prefix@,
            NumberBase::Decimal => options.decimal_prefix@,
            NumberBase::Octal => options.octal_prefix@,
            NumberBase::Binary => options.binary_prefix@,
        }
    }

    /// The suffix that the options give to numbers of their base.
    pub open spec fn base_suffix(options: &FormatterOptions) -> Seq<char> {
        match options.number_base {
            NumberBase::Hexadecimal => options.hex_suffix@,
            NumberBase::Decimal => options.decimal_suffix@,
            NumberBase::Octal => options.octal_suffix@,
            NumberBase::Binary => options.binary_suffix@,
        }
    }

    /// These options are those that `options` gives, with the three flags.
    pub open spec fn derived_from(
        &self,
        options: &FormatterOptions,
        leading_zeroes: bool,
        signed_number: bool,
        displacement_leading_zeroes: bool,
    ) -> bool {
        self@ == number_format(*options, leading_zeroes, signed_number, displacement_leading_zeroes)
    }

    /// The options of a number that `options` give, with the three flags.
    pub fn new(
        options: &FormatterOptions,
        leading_zeroes: bool,
        signed_number: bool,
        displacement_leading_zeroes: bool,
    ) -> (r: NumberFormattingOptions)
        ensures
            r.derived_from(options, leading_zeroes, signed_number, displacement_leading_zeroes),
    {
        let (prefix, suffix) = match options.number_base {
            NumberBase::Hexadecimal => (options.hex_prefix.clone(), options.hex_suffix.clone()),
            NumberBase::Decimal => (options.decimal_prefix.clone(), options.decimal_suffix.clone()),
            NumberBase::Octal => (options.octal_prefix.clone(), options.octal_suffix.clone()),
            NumberBase::Binary => (options.binary_prefix.clone(), options.binary_suffix.clone()),
        };
        NumberFormattingOptions {
            prefix,
            suffix,
            number_base: options.number_base,
            uppercase_hex: options.uppercase_hex,
            small_hex_numbers_in_decimal: options.small_hex_numbers_in_decimal,
            add_leading_zero_to_hex_numbers: options.add_leading_zero_to_hex_numbers,
            leading_zeroes,
            signed_number,
            displacement_leading_zeroes,
        }
    }

    /// The options of an immediate operand.
    pub fn with_immediate(options: &FormatterOptions) -> (r: NumberFormattingOptions)
        ensures
            r.derived_from(options, options.leading_zeroes, options.signed_immediate_operands, false),
    {
        NumberFormattingOptions::new(options, options.leading_zeroes, options.signed_immediate_operands, false)
    }

    /// The options of a memory displacement.
    pub fn with_displacement(options: &FormatterOptions) -> (r: NumberFormattingOptions)
        ensures
            r.derived_from(
                options,
                options.leading_zeroes,
                options.signed_memory_displacements,
                options.displacement_leading_zeroes,
            ),
    {
        NumberFormattingOptions::new(
            options,
            options.leading_zeroes,
            options.signed_memory_displacements,
            options.displacement_leading_zeroes,
        )
    }

    /// The options of a branch target.
    pub fn with_branch(options: &FormatterOptions) -> (r: NumberFormattingOptions)
        ensures
            r.derived_from(options, options.branch_leading_zeroes, false, false),
    {
        NumberFormattingOptions::new(options, options.branch_leading_zeroes, false, false)
    }
}

/// The options of one operand.
#[derive(Clone, Copy, Debug, PartialEq, Eq, Structural)]
pub struct FormatterOperandOptions {
    /// Whether `short`, `near` and the like are left out of a branch.
    pub no_branch_size: bool,
    /// Whether `[rip+12345678h]` is written in place of `[rel 12345678h]`.
    pub rip_relative_addresses: bool,
    pub memory_size_options: MemorySizeOptions,
}

impl FormatterOperandOptions {
    /// Options with the branch size shown or not, the other fields at default.
    pub fn new(no_branch_size: bool) -> (r: FormatterOperandOptions)
        ensures
            r == (FormatterOperandOptions {
                no_branch_size,
                rip_relative_addresses: false,
                memory_size_options: MemorySizeOptions::Default,
            }),
    {
        FormatterOperandOptions {
            no_branch_size,
            rip_relative_addresses: false,
            memory_size_options: MemorySizeOptions::Default,
        }
    }

    /// Options with the given memory size options, the other fields at default.
    pub fn with_memory_size_options(options: MemorySizeOptions) -> (r: FormatterOperandOptions)
        ensures
            r == (FormatterOperandOptions {
                no_branch_size: false,
                rip_relative_addresses: false,
                memory_size_options: options,
            }),
    {
        FormatterOperandOptions {
            no_branch_size: false,
            rip_relative_addresses: false,
            memory_size_options: options,
        }
    }

    /// Whether the branch size is written.
    pub fn branch_size(&self) -> (r: bool)
        ensures
            r == !self.no_branch_size,
    {
        !self.no_branch_size
    }
}

impl Default for FormatterOperandOptions {
    fn default() -> (r: FormatterOperandOptions)
        ensures
            r == FormatterOperandOptions::new_spec(),
    {
        FormatterOperandOptions::new(false)
    }
}

impl FormatterOperandOptions {
    /// The default operand options.
    pub open spec fn new_spec() -> FormatterOperandOptions {
        FormatterOperandOptions {
            no_branch_size: false,
            rip_relative_addresses: false,
            memory_size_options: MemorySizeOptions::Default,
        }
    }
}

} // verus!
