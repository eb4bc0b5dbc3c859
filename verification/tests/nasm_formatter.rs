use iced_x86::instruction::{InstrOpInfoFlags, MemorySizeInfo};
use iced_x86::memory_size::MemorySize;
use iced_x86::register::Register;
use iced_x86::{
    DecoratorKind, NumberKind, PrefixKind, TextInfo,
    CodeSize, FormatterOperandOptions, FormatterOptionsProvider, FormatterOutput, FormatterString,
    FormatterTextKind, InstrOpInfo, InstrOpKind, Instruction, MemorySizeOptions, NasmFormatter,
    NumberBase, NumberFormattingOptions, OpAccess, SymbolFlags, SymbolResolver, SymbolResult,
};

fn instr() -> Instruction {
    Instruction {
        code_size: CodeSize::Code64,
        op_count: 0,
        segment_prefix: Register::NONE,
        memory_segment: Register::DS,
        has_xacquire_prefix: false,
        has_xrelease_prefix: false,
        has_lock_prefix: false,
        has_repe_prefix: false,
        has_repne_prefix: false,
        is_notrack_prefix_branch: false,
        is_repe_or_repne_instruction: false,
        is_call: false,
        near_branch64: 0,
        far_branch32: 0,
        far_branch_selector: 0,
        immediate8: 0,
        immediate8_2nd: 0,
        immediate16: 0,
        immediate32: 0,
        immediate64: 0,
        declare_values: Vec::new(),
        memory_displ_size: 0,
        memory_base: Register::NONE,
        memory_index: Register::NONE,
        memory_index_scale: 0,
        memory_displacement64: 0,
        next_ip: 0,
        op_mask: Register::NONE,
        zeroing_masking: false,
    }
}

fn info(mnemonic: &str, flags: u32, kinds: Vec<InstrOpKind>, regs: Vec<u32>, mem_size: u32) -> InstrOpInfo {
    let n = kinds.len();
    InstrOpInfo {
        mnemonic: FormatterString::new(mnemonic),
        flags,
        op_kinds: kinds,
        op_registers: regs,
        op_indexes: (0..n as i8).collect(),
        memory_size: mem_size,
    }
}

fn format(f: &mut NasmFormatter, i: &Instruction, op: &InstrOpInfo) -> String {
    let mut out = FormatterOutput::new();
    f.format(i, &mut out, op);
    out.text()
}

#[test]
fn doc_example_vcvtne2ps2bf16() {
    let mut i = instr();
    i.op_mask = Register::K5;
    i.zeroing_masking = true;
    i.memory_base = Register::RAX;
    i.memory_displ_size = 1;
    i.memory_displacement64 = 4;
    let op = info(
        "vcvtne2ps2bf16",
        0,
        vec![InstrOpKind::Register, InstrOpKind::Register, InstrOpKind::Memory],
        vec![Register::ZMM0 + 2, Register::ZMM0 + 6, 0],
        MemorySize::Broadcast512_Float32,
    );
    let mut f = NasmFormatter::new();
    f.options_mut().upper_case_mnemonics = true;
    assert_eq!(format(&mut f, &i, &op), "VCVTNE2PS2BF16 zmm2{k5}{z},zmm6,[rax+4]{1to16}");
}

struct MySymbolResolver;

impl SymbolResolver for MySymbolResolver {
    fn symbol(
        &mut self,
        _instruction: &Instruction,
        _operand: u32,
        _instruction_operand: Option<u32>,
        address: u64,
        _address_size: u32,
    ) -> Option<SymbolResult> {
        if address == 0x5AA55AA5 {
            Some(SymbolResult::with_string(address, String::from("my_data")))
        } else {
            None
        }
    }
}

fn mov_rcx_mem(displ: u64) -> (Instruction, InstrOpInfo) {
    let mut i = instr();
    i.memory_base = Register::RDX;
    i.memory_displ_size = 4;
    i.memory_displacement64 = displ;
    let op = info(
        "mov",
        0,
        vec![InstrOpKind::Register, InstrOpKind::Memory],
        vec![Register::RCX, 0],
        MemorySize::UInt64,
    );
    (i, op)
}

#[test]
fn doc_example_symbol_resolver() {
    let (i, op) = mov_rcx_mem(0x5AA55AA5);
    let mut resolver = MySymbolResolver;
    let mut f = NasmFormatter::with_options(Some(&mut resolver), None);
    assert_eq!(format(&mut f, &i, &op), "mov rcx,[rdx+my_data]");
}

#[test]
fn symbol_resolver_without_symbol_writes_number() {
    let (i, op) = mov_rcx_mem(0x1234);
    let mut resolver = MySymbolResolver;
    let mut f = NasmFormatter::with_options(Some(&mut resolver), None);
    assert_eq!(format(&mut f, &i, &op), "mov rcx,[rdx+1234h]");
}

#[test]
fn memory_displacement_hex_with_leading_zero() {
    let (i, op) = mov_rcx_mem(0xA5);
    let mut f = NasmFormatter::new();
    assert_eq!(format(&mut f, &i, &op), "mov rcx,[rdx+0A5h]");
}

#[test]
fn memory_negative_displacement() {
    let (i, op) = mov_rcx_mem(0xFFFF_FFFF_FFFF_FFF8);
    let mut f = NasmFormatter::new();
    assert_eq!(format(&mut f, &i, &op), "mov rcx,[rdx-8]");
    f.options_mut().signed_memory_displacements = false;
    assert_eq!(format(&mut f, &i, &op), "mov rcx,[rdx+0FFFFFFFFFFFFFFF8h]");
}

#[test]
fn memory_size_forced_and_always() {
    let (i, mut op) = mov_rcx_mem(8);
    op.op_kinds = vec![InstrOpKind::Memory, InstrOpKind::Immediate8];
    op.op_registers = vec![0, 0];
    op.flags = InstrOpInfoFlags::SHOW_NO_MEM_SIZE_FORCE_SIZE;
    let mut i = i;
    i.immediate8 = 1;
    let mut f = NasmFormatter::new();
    assert_eq!(format(&mut f, &i, &op), "mov qword [rdx+8],1");
    op.flags = 0;
    assert_eq!(format(&mut f, &i, &op), "mov [rdx+8],1");
    f.options_mut().memory_size_options = MemorySizeOptions::Always;
    assert_eq!(format(&mut f, &i, &op), "mov qword [rdx+8],1");
    f.options_mut().memory_size_options = MemorySizeOptions::Never;
    op.flags = InstrOpInfoFlags::SHOW_NO_MEM_SIZE_FORCE_SIZE;
    assert_eq!(format(&mut f, &i, &op), "mov [rdx+8],1");
}

#[test]
fn scaled_index_and_spaces() {
    let mut i = instr();
    i.memory_base = Register::RAX;
    i.memory_index = Register::RSI;
    i.memory_index_scale = 2;
    i.memory_displ_size = 1;
    i.memory_displacement64 = 0x10;
    let op = info("lea", 0, vec![InstrOpKind::Register, InstrOpKind::Memory], vec![Register::EAX, 0], MemorySize::Unknown);
    let mut f = NasmFormatter::new();
    assert_eq!(format(&mut f, &i, &op), "lea eax,[rax+rsi*4+10h]");
    f.options_mut().scale_before_index = true;
    f.options_mut().space_between_memory_add_operators = true;
    f.options_mut().space_between_memory_mul_operators = true;
    f.options_mut().space_after_memory_bracket = true;
    f.options_mut().space_after_operand_separator = true;
    assert_eq!(format(&mut f, &i, &op), "lea eax, [ rax + 4 * rsi + 10h ]");
}

#[test]
fn rip_relative_becomes_rel() {
    let mut i = instr();
    i.memory_base = Register::RIP;
    i.memory_displ_size = 4;
    i.memory_displacement64 = 0x10;
    i.next_ip = 0x1000;
    let op = info("mov", 0, vec![InstrOpKind::Register, InstrOpKind::Memory], vec![Register::EAX, 0], MemorySize::UInt32);
    let mut f = NasmFormatter::new();
    assert_eq!(format(&mut f, &i, &op), "mov eax,[rel 1010h]");
    f.options_mut().rip_relative_addresses = true;
    assert_eq!(format(&mut f, &i, &op), "mov eax,[rip+10h]");
}

#[test]
fn prefixes_in_order_and_upper_case() {
    let mut i = instr();
    i.has_lock_prefix = true;
    i.has_repe_prefix = true;
    i.segment_prefix = Register::FS;
    i.memory_segment = Register::FS;
    i.memory_base = Register::RBX;
    let op = info(
        "add",
        (1 << InstrOpInfoFlags::OP_SIZE_SHIFT) | InstrOpInfoFlags::SHOW_NO_MEM_SIZE_FORCE_SIZE,
        vec![InstrOpKind::Memory, InstrOpKind::Register],
        vec![0, Register::AX],
        MemorySize::UInt16,
    );
    let mut f = NasmFormatter::new();
    assert_eq!(format(&mut f, &i, &op), "o16 lock rep add word [fs:rbx],ax");
    f.options_mut().upper_case_all = true;
    assert_eq!(format(&mut f, &i, &op), "O16 LOCK REP ADD WORD [FS:RBX],AX");
}

#[test]
fn segment_prefix_without_memory_operand() {
    let mut i = instr();
    i.segment_prefix = Register::ES;
    let op = info("nop", 0, vec![], vec![], MemorySize::Unknown);
    let mut f = NasmFormatter::new();
    assert_eq!(format(&mut f, &i, &op), "es nop");
}

#[test]
fn repe_bnd_and_notrack() {
    let mut i = instr();
    i.has_repe_prefix = true;
    i.is_repe_or_repne_instruction = true;
    let op = info("cmpsb", 0, vec![], vec![], MemorySize::Unknown);
    let mut f = NasmFormatter::new();
    assert_eq!(format(&mut f, &i, &op), "repe cmpsb");

    let mut i = instr();
    i.has_repne_prefix = true;
    let op = info("ret", InstrOpInfoFlags::BND_PREFIX, vec![], vec![], MemorySize::Unknown);
    assert_eq!(format(&mut f, &i, &op), "bnd ret");

    let mut i = instr();
    i.segment_prefix = Register::DS;
    i.is_notrack_prefix_branch = true;
    i.memory_base = Register::RAX;
    let op = info("jmp", 0, vec![InstrOpKind::Memory], vec![0], MemorySize::UInt64);
    assert_eq!(format(&mut f, &i, &op), "notrack jmp [rax]");
}

#[test]
fn near_branch_with_leading_zeroes() {
    let mut i = instr();
    i.near_branch64 = 0x7FF6_1234;
    let op = info("jmp", 1 << InstrOpInfoFlags::BRANCH_SIZE_INFO_SHIFT, vec![InstrOpKind::NearBranch64], vec![0], MemorySize::Unknown);
    let mut f = NasmFormatter::new();
    assert_eq!(format(&mut f, &i, &op), "jmp short 000000007FF61234h");
    f.options_mut().show_branch_size = false;
    f.options_mut().branch_leading_zeroes = false;
    assert_eq!(format(&mut f, &i, &op), "jmp 7FF61234h");
    let mut out = FormatterOutput::new();
    f.format(&i, &mut out, &op);
    assert_eq!(out.kind_at(out.len() - 1), FormatterTextKind::LabelAddress);
}

#[test]
fn far_branch_selector_and_offset() {
    let mut i = instr();
    i.far_branch32 = 0x1234_5678;
    i.far_branch_selector = 0xA;
    i.is_call = true;
    let op = info("call", 0, vec![InstrOpKind::FarBranch32], vec![0], MemorySize::Unknown);
    let mut f = NasmFormatter::new();
    assert_eq!(format(&mut f, &i, &op), "call 000Ah:12345678h");
}

#[test]
fn immediates_signed_and_unsigned() {
    let mut i = instr();
    i.immediate8 = 0xFF;
    let op = info("push", 0, vec![InstrOpKind::Immediate8to64], vec![0], MemorySize::Unknown);
    let mut f = NasmFormatter::new();
    assert_eq!(format(&mut f, &i, &op), "push 0FFFFFFFFFFFFFFFFh");
    f.options_mut().signed_immediate_operands = true;
    assert_eq!(format(&mut f, &i, &op), "push -1");
    f.options_mut().nasm_show_sign_extended_immediate_size = true;
    let op = info(
        "push",
        3 << InstrOpInfoFlags::SIGN_EXTEND_INFO_SHIFT,
        vec![InstrOpKind::Immediate8to64],
        vec![0],
        MemorySize::Unknown,
    );
    assert_eq!(format(&mut f, &i, &op), "push byte -1");
}

#[test]
fn declare_data_operands() {
    let mut i = instr();
    i.declare_values = vec![1, 0x80, 0x3F];
    let op = info("db", InstrOpInfoFlags::MNEMONIC_IS_DIRECTIVE, vec![InstrOpKind::DeclareByte; 3], vec![0, 0, 0], MemorySize::Unknown);
    let mut f = NasmFormatter::new();
    f.options_mut().upper_case_keywords = true;
    assert_eq!(format(&mut f, &i, &op), "DB 1,80h,3Fh");
}

#[test]
fn rounding_decorator() {
    let i = instr();
    let op = info(
        "vaddps",
        0,
        vec![InstrOpKind::Register, InstrOpKind::Register, InstrOpKind::Register, InstrOpKind::RnSae],
        vec![Register::ZMM0, Register::ZMM0 + 1, Register::ZMM0 + 2, 0],
        MemorySize::Unknown,
    );
    let mut f = NasmFormatter::new();
    assert_eq!(format(&mut f, &i, &op), "vaddps zmm0,zmm1,zmm2,{rn-sae}");
    f.options_mut().upper_case_decorators = true;
    assert_eq!(format(&mut f, &i, &op), "vaddps zmm0,zmm1,zmm2,{RN-SAE}");
}

#[test]
fn first_operand_column_and_tabs() {
    let mut i = instr();
    i.immediate32 = 1;
    let op = info("mov", 0, vec![InstrOpKind::Register, InstrOpKind::Immediate32], vec![Register::EAX, 0], MemorySize::Unknown);
    let mut f = NasmFormatter::new();
    f.options_mut().first_operand_char_index = 8;
    assert_eq!(format(&mut f, &i, &op), "mov     eax,1");
    f.options_mut().tab_size = 4;
    assert_eq!(format(&mut f, &i, &op), "mov\t\teax,1");
    f.options_mut().first_operand_char_index = 0;
    assert_eq!(format(&mut f, &i, &op), "mov\teax,1");
}

#[test]
fn register_to_and_mem_size_keyword() {
    let i = instr();
    let op = info(
        "fadd",
        InstrOpInfoFlags::REGISTER_TO,
        vec![InstrOpKind::Register],
        vec![Register::ST0 + 1],
        MemorySize::Unknown,
    );
    let mut f = NasmFormatter::new();
    assert_eq!(format(&mut f, &i, &op), "fadd to st1");

    let mut i = instr();
    i.memory_displacement64 = 0x100;
    i.memory_displ_size = 4;
    i.code_size = CodeSize::Code32;
    let op = info(
        "jmp",
        MemorySizeInfo::DWORD << InstrOpInfoFlags::MEMORY_SIZE_INFO_SHIFT,
        vec![InstrOpKind::Memory],
        vec![0],
        MemorySize::Unknown,
    );
    assert_eq!(format(&mut f, &i, &op), "jmp [dword 100h]");
}

#[test]
fn mnemonic_options_and_operand_queries() {
    let mut i = instr();
    i.has_lock_prefix = true;
    i.op_count = 2;
    let mut op = info("xchg", 0, vec![InstrOpKind::Register, InstrOpKind::Register], vec![Register::EAX, Register::ECX], MemorySize::Unknown);
    op.op_indexes = vec![1, 0];
    let mut f = NasmFormatter::new();
    let mut out = FormatterOutput::new();
    f.format_mnemonic_options(&i, &mut out, &op, 0);
    assert_eq!(out.text(), "lock xchg");
    let mut out = FormatterOutput::new();
    f.format_mnemonic_options(&i, &mut out, &op, 1);
    assert_eq!(out.text(), "xchg");
    let mut out = FormatterOutput::new();
    f.format_mnemonic_options(&i, &mut out, &op, 2);
    assert_eq!(out.text(), "lock");
    assert_eq!(out.kind_at(0), FormatterTextKind::Prefix);
    assert_eq!(f.operand_count(&op), 2);
    assert_eq!(f.get_instruction_operand(&op, 0), Some(1));
    assert_eq!(f.get_formatter_operand(&i, &op, 0), Some(1));
    let mut out = FormatterOutput::new();
    f.format_operand(&i, &mut out, &op, 1);
    f.format_operand_separator(&mut out);
    f.format_all_operands(&i, &mut out, &op);
    assert_eq!(out.text(), "ecx,eax,ecx");
    assert_eq!(f.format_register(Register::R15), "r15");
    f.options_mut().upper_case_registers = true;
    assert_eq!(f.format_register(Register::R15), "R15");
}

#[test]
fn number_formatting_methods() {
    let mut f = NasmFormatter::new();
    assert_eq!(f.format_u8(9), "9");
    assert_eq!(f.format_u8(10), "0Ah");
    assert_eq!(f.format_u16(0x1234), "1234h");
    assert_eq!(f.format_u32(0xDEADBEEF), "0DEADBEEFh");
    assert_eq!(f.format_u64(u64::MAX), "0FFFFFFFFFFFFFFFFh");
    assert_eq!(f.format_i8(-1), "-1");
    assert_eq!(f.format_i16(-0x7FFF), "-7FFFh");
    assert_eq!(f.format_i32(i32::MIN), "-80000000h");
    assert_eq!(f.format_i64(i64::MIN), "-8000000000000000h");
    f.options_mut().uppercase_hex = false;
    assert_eq!(f.format_u16(0xABCD), "0abcdh");
    f.options_mut().hex_prefix = String::from("0x");
    f.options_mut().hex_suffix = String::new();
    assert_eq!(f.format_u16(0xABCD), "0xabcd");
    f.options_mut().number_base = NumberBase::Decimal;
    assert_eq!(f.format_u32(1234567), "1234567");
    f.options_mut().number_base = NumberBase::Binary;
    assert_eq!(f.format_u8(5), "101b");
    f.options_mut().number_base = NumberBase::Octal;
    f.options_mut().leading_zeroes = true;
    assert_eq!(f.format_u8(8), "010o");
    let opts = NumberFormattingOptions::with_immediate(f.options());
    assert_eq!(f.format_u16_options(8, &opts), "000010o");
    assert_eq!(f.format_i32_options(-8, &opts), "-00000000010o");
}

struct ForceSize;

impl FormatterOptionsProvider for ForceSize {
    fn operand_options(
        &mut self,
        _instruction: &Instruction,
        _operand: u32,
        _instruction_operand: Option<u32>,
        options: &mut FormatterOperandOptions,
        number_options: &mut NumberFormattingOptions,
    ) {
        options.memory_size_options = MemorySizeOptions::Always;
        number_options.number_base = NumberBase::Decimal;
        number_options.suffix = String::new();
    }
}

#[test]
fn options_provider_changes_operand() {
    let (i, op) = mov_rcx_mem(0x20);
    let mut provider = ForceSize;
    let mut f = NasmFormatter::with_options(None, Some(&mut provider));
    assert_eq!(format(&mut f, &i, &op), "mov rcx,qword [rdx+32]");
}

struct SignedSymbol;

impl SymbolResolver for SignedSymbol {
    fn symbol(
        &mut self,
        _instruction: &Instruction,
        _operand: u32,
        _instruction_operand: Option<u32>,
        address: u64,
        _address_size: u32,
    ) -> Option<SymbolResult> {
        Some(SymbolResult::with_string_kind_flags(address.wrapping_sub(2), String::from("sym"), FormatterTextKind::Data, SymbolFlags::NONE))
    }
}

#[test]
fn symbol_with_offset_and_address() {
    let mut i = instr();
    i.immediate32 = 0x100;
    let op = info("push", 0, vec![InstrOpKind::Immediate32], vec![0], MemorySize::Unknown);
    let mut resolver = SignedSymbol;
    let mut f = NasmFormatter::with_options(Some(&mut resolver), None);
    assert_eq!(format(&mut f, &i, &op), "push sym+2");
    f.options_mut().show_symbol_address = true;
    assert_eq!(format(&mut f, &i, &op), "push sym+2 (0100h)");
}

struct DecimalBranch;

impl FormatterOptionsProvider for DecimalBranch {
    fn operand_options(
        &mut self,
        _instruction: &Instruction,
        _operand: u32,
        _instruction_operand: Option<u32>,
        options: &mut FormatterOperandOptions,
        number_options: &mut NumberFormattingOptions,
    ) {
        options.no_branch_size = true;
        number_options.number_base = NumberBase::Decimal;
        number_options.suffix = String::new();
        number_options.leading_zeroes = false;
    }
}

#[test]
fn options_provider_on_branch_keeps_branch_keyword() {
    let mut i = instr();
    i.near_branch64 = 0x100;
    let op = info("jmp", 1 << InstrOpInfoFlags::BRANCH_SIZE_INFO_SHIFT, vec![InstrOpKind::NearBranch64], vec![0], MemorySize::Unknown);
    let mut provider = DecimalBranch;
    let mut f = NasmFormatter::with_options(None, Some(&mut provider));
    assert_eq!(format(&mut f, &i, &op), "jmp short 256");
}

#[test]
fn format_is_mnemonic_then_tab_then_operands() {
    let mut i = instr();
    i.immediate8 = 7;
    let op = info("add", 0, vec![InstrOpKind::Register, InstrOpKind::Immediate8], vec![Register::AL, 0], MemorySize::Unknown);
    let mut f = NasmFormatter::new();
    f.options_mut().tab_size = 4;
    let whole = format(&mut f, &i, &op);
    let mut mnemonic = FormatterOutput::new();
    f.format_mnemonic_options(&i, &mut mnemonic, &op, 0);
    let mut operands = FormatterOutput::new();
    f.format_all_operands(&i, &mut operands, &op);
    assert_eq!(whole, format!("{}\t{}", mnemonic.text(), operands.text()));
    assert_eq!(whole, "add\tal,7");
}

#[test]
fn first_operand_column_counts_prefixes() {
    let mut i = instr();
    i.has_lock_prefix = true;
    i.memory_base = Register::RAX;
    let op = info("inc", 0, vec![InstrOpKind::Memory], vec![0], MemorySize::UInt32);
    let mut f = NasmFormatter::new();
    f.options_mut().first_operand_char_index = 12;
    let text = format(&mut f, &i, &op);
    assert_eq!(text, "lock inc    [rax]");
    assert_eq!(text.find('[').unwrap(), 12);
}

#[test]
fn negative_immediate_has_positive_magnitude() {
    let mut i = instr();
    i.immediate16 = 0x8000;
    let op = info("push", 0, vec![InstrOpKind::Immediate16], vec![0], MemorySize::Unknown);
    let mut f = NasmFormatter::new();
    f.options_mut().signed_immediate_operands = true;
    assert_eq!(format(&mut f, &i, &op), "push -8000h");
}

#[test]
fn padded_number_reads_back() {
    let mut f = NasmFormatter::new();
    f.options_mut().leading_zeroes = true;
    let opts = NumberFormattingOptions::with_immediate(f.options());
    let s = f.format_u32_options(0x2A, &opts);
    assert_eq!(s, "0000002Ah");
    assert_eq!(u32::from_str_radix(s.trim_end_matches('h'), 16).unwrap(), 0x2A);
}

#[test]
fn op_access_of_added_operands() {
    let mut op = info("fxch", 0, vec![InstrOpKind::Register; 4], vec![Register::ST0; 4], MemorySize::Unknown);
    op.op_indexes = vec![0, InstrOpInfo::OP_ACCESS_READ_WRITE, InstrOpInfo::OP_ACCESS_INVALID, InstrOpInfo::OP_ACCESS_NO_MEM_ACCESS];
    let mut f = NasmFormatter::new();
    assert_eq!(f.op_access(&op, 0), None);
    assert_eq!(f.op_access(&op, 1), Some(OpAccess::ReadWrite));
    assert_eq!(f.op_access(&op, 2), None);
    assert_eq!(f.op_access(&op, 3), Some(OpAccess::NoMemAccess));
    assert_eq!(f.get_instruction_operand(&op, 1), None);
}

fn infos(out: &FormatterOutput) -> Vec<(String, FormatterTextKind, TextInfo)> {
    (0..out.len()).map(|i| (out.text_at(i).to_string(), out.kind_at(i), out.info_at(i))).collect()
}

#[test]
fn typed_writes_of_prefix_register_and_decorator() {
    let mut i = instr();
    i.has_lock_prefix = true;
    i.op_mask = Register::K5;
    i.zeroing_masking = true;
    let op = info("vmovaps", 0, vec![InstrOpKind::Register, InstrOpKind::Register], vec![Register::ZMM0 + 2, Register::ZMM0 + 6], MemorySize::Unknown);
    let mut f = NasmFormatter::new();
    let mut out = FormatterOutput::new();
    f.format(&i, &mut out, &op);
    assert_eq!(out.text(), "lock vmovaps zmm2{k5}{z},zmm6");
    let v = infos(&out);
    assert_eq!(v[0], ("lock".to_string(), FormatterTextKind::Prefix, TextInfo::Prefix(PrefixKind::Lock)));
    assert!(v.contains(&("zmm2".to_string(), FormatterTextKind::Register, TextInfo::Register(Register::ZMM0 + 2))));
    assert!(v.contains(&("k5".to_string(), FormatterTextKind::Register, TextInfo::Register(Register::K5))));
    assert!(v.contains(&("z".to_string(), FormatterTextKind::Decorator, TextInfo::Decorator(DecoratorKind::ZeroingMasking))));
}

#[test]
fn typed_write_of_minimum_signed_immediate() {
    let mut i = instr();
    i.immediate8 = 0x80;
    let op = info("push", 0, vec![InstrOpKind::Immediate8], vec![0], MemorySize::Unknown);
    let mut f = NasmFormatter::new();
    f.options_mut().signed_immediate_operands = true;
    let mut out = FormatterOutput::new();
    f.format(&i, &mut out, &op);
    assert_eq!(out.text(), "push -80h");
    let n = out.len() - 1;
    assert_eq!(out.info_at(n), TextInfo::Number(0xFFFF_FFFF_FFFF_FF80, NumberKind::Int8));
    f.options_mut().signed_immediate_operands = false;
    let mut out = FormatterOutput::new();
    f.format(&i, &mut out, &op);
    assert_eq!(out.text(), "push 80h");
    assert_eq!(out.info_at(out.len() - 1), TextInfo::Number(0x80, NumberKind::UInt8));
}

#[test]
fn typed_writes_of_branch_segment_and_scale() {
    let mut i = instr();
    i.near_branch64 = 0x1000;
    i.is_call = true;
    let op = info("call", 0, vec![InstrOpKind::NearBranch64], vec![0], MemorySize::Unknown);
    let mut f = NasmFormatter::new();
    let mut out = FormatterOutput::new();
    f.format(&i, &mut out, &op);
    let n = out.len() - 1;
    assert_eq!(out.kind_at(n), FormatterTextKind::FunctionAddress);
    assert_eq!(out.info_at(n), TextInfo::Number(0x1000, NumberKind::UInt64));

    let mut i = instr();
    i.segment_prefix = Register::FS;
    i.memory_base = Register::RAX;
    i.memory_index = Register::RCX;
    i.memory_index_scale = 3;
    let op = info("nop", 0, vec![], vec![], MemorySize::Unknown);
    let mut out = FormatterOutput::new();
    f.format(&i, &mut out, &op);
    assert_eq!(out.info_at(0), TextInfo::Prefix(PrefixKind::FS));
    let op = info("lea", 0, vec![InstrOpKind::Register, InstrOpKind::Memory], vec![Register::RAX, 0], MemorySize::Unknown);
    let mut i2 = instr();
    i2.memory_base = Register::RAX;
    i2.memory_index = Register::RCX;
    i2.memory_index_scale = 3;
    i2.memory_displ_size = 1;
    i2.memory_displacement64 = 0xFFFF_FFFF_FFFF_FFF0;
    let mut out = FormatterOutput::new();
    f.format(&i2, &mut out, &op);
    assert_eq!(out.text(), "lea rax,[rax+rcx*8-10h]");
    let v = infos(&out);
    assert!(v.contains(&("8".to_string(), FormatterTextKind::Number, TextInfo::Number(8, NumberKind::Int32))));
    assert!(v.contains(&("10h".to_string(), FormatterTextKind::Number, TextInfo::Number(0xFFFF_FFFF_FFFF_FFF0, NumberKind::Int8))));
}

#[test]
fn mnemonic_is_prefixes_space_mnemonic() {
    let mut i = instr();
    i.has_lock_prefix = true;
    i.has_repe_prefix = true;
    let op = info("add", 0, vec![], vec![], MemorySize::Unknown);
    let mut f = NasmFormatter::new();
    let mut all = FormatterOutput::new();
    f.format_mnemonic_options(&i, &mut all, &op, 0);
    let mut prefixes = FormatterOutput::new();
    f.format_mnemonic_options(&i, &mut prefixes, &op, 2);
    let mut mnemonic = FormatterOutput::new();
    f.format_mnemonic_options(&i, &mut mnemonic, &op, 1);
    assert_eq!(all.text(), format!("{} {}", prefixes.text(), mnemonic.text()));
    assert_eq!(all.text(), "lock rep add");
}

#[test]
fn operand_index_round_trip() {
    let mut i = instr();
    i.op_count = 2;
    let mut op = info("xchg", 0, vec![InstrOpKind::Register; 3], vec![Register::EAX, Register::ECX, Register::ECX], MemorySize::Unknown);
    op.op_indexes = vec![1, 0, 0];
    let mut f = NasmFormatter::new();
    for k in 0..3u32 {
        let j = f.get_instruction_operand(&op, k).unwrap();
        let back = f.get_formatter_operand(&i, &op, j).unwrap();
        assert!(back <= k);
        assert_eq!(f.get_instruction_operand(&op, back), Some(j));
    }
}

#[test]
fn mnemonic_options_leaving_out_both_write_nothing() {
    let mut i = instr();
    i.has_lock_prefix = true;
    let op = info("add", 0, vec![], vec![], MemorySize::Unknown);
    let mut f = NasmFormatter::new();
    let mut out = FormatterOutput::new();
    f.format_mnemonic_options(&i, &mut out, &op, 3);
    assert_eq!(out.len(), 0);
    assert_eq!(out.text(), "");
}
