//! Formatting of decoded x86 instructions in NASM syntax, with the encoder's
//! small enums. Every function here is verified by Verus.

pub mod encoder_enums;
pub mod instruction;
pub mod memory_size;
pub mod nasm;
pub mod nasm_laws;
pub mod number;
pub mod options;
pub mod register;
pub mod symbol;
pub mod tables;
pub mod text;

pub use encoder_enums::{IcedConstants, IcedError, RepPrefixKind};
pub use instruction::{CodeSize, InstrOpInfo, InstrOpInfoFlags, InstrOpKind, Instruction, OpAccess};
pub use nasm::NasmFormatter;
pub use options::{FormatterOperandOptions, FormatterOptions, MemorySizeOptions, NumberBase, NumberFormattingOptions};
pub use symbol::{FormatterOptionsProvider, SymbolFlags, SymbolResolver, SymbolResult};
pub use text::{DecoratorKind, FormatterOutput, FormatterString, FormatterTextKind, NumberKind, PrefixKind, TextInfo};
