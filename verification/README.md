# iced_x86 (NASM formatter, verified)

A NASM-syntax formatter for decoded x86 instructions, with the encoder's
`RepPrefixKind` enumeration, written in Verus. Every function in `src/` is
verified against a contract stated over a mathematical model of its result:
the formatted text is a sequence of `(text, kind)` pieces, and each public
formatting method says exactly which pieces it appends to the output.

Layout:

- `src/text.rs` - formatter strings, text kinds and the output sink.
- `src/number.rs` - numbers in any base, with padding, prefixes and suffixes.
- `src/options.rs` - formatter, number and per-operand options.
- `src/register.rs`, `src/memory_size.rs`, `src/tables.rs` - name tables.
- `src/instruction.rs` - the instruction and operand-layout values the formatter reads.
- `src/symbol.rs` - symbol resolution and per-operand option hooks.
- `src/nasm.rs` - the formatter itself, and the laws it obeys.
- `src/encoder_enums.rs` - encoder enumerations and `RepPrefixKind`.
- `app/` - serde support for `RepPrefixKind`.
