//! The registers: their numbers and their names in NASM syntax.

use vstd::prelude::*;

verus! {

/// The number of registers.
pub const REGISTER_COUNT: usize = 256;

/// The name of each register, indexed by its number; register 0 is "no register".
pub const REGISTER_NAMES: [&'static str; 256] = [
    "", "al", "cl", "dl", "bl", "ah", "ch", "dh",
    "bh", "spl", "bpl", "sil", "dil", "r8b", "r9b", "r10b",
    "r11b", "r12b", "r13b", "r14b", "r15b", "ax", "cx", "dx",
    "bx", "sp", "bp", "si", "di", "r8w", "r9w", "r10w",
    "r11w", "r12w", "r13w", "r14w", "r15w", "eax", "ecx", "edx",
    "ebx", "esp", "ebp", "esi", "edi", "r8d", "r9d", "r10d",
    "r11d", "r12d", "r13d", "r14d", "r15d", "rax", "rcx", "rdx",
    "rbx", "rsp", "rbp", "rsi", "rdi", "r8", "r9", "r10",
    "r11", "r12", "r13", "r14", "r15", "eip", "rip", "es",
    "cs", "ss", "ds", "fs", "gs", "xmm0", "xmm1", "xmm2",
    "xmm3", "xmm4", "xmm5", "xmm6", "xmm7", "xmm8", "xmm9", "xmm10",
    "xmm11", "xmm12", "xmm13", "xmm14", "xmm15", "xmm16", "xmm17", "xmm18",
    "xmm19", "xmm20", "xmm21", "xmm22", "xmm23", "xmm24", "xmm25", "xmm26",
    "xmm27", "xmm28", "xmm29", "xmm30", "xmm31", "ymm0", "ymm1", "ymm2",
    "ymm3", "ymm4", "ymm5", "ymm6", "ymm7", "ymm8", "ymm9", "ymm10",
    "ymm11", "ymm12", "ymm13", "ymm14", "ymm15", "ymm16", "ymm17", "ymm18",
    "ymm19", "ymm20", "ymm21", "ymm22", "ymm23", "ymm24", "ymm25", "ymm26",
    "ymm27", "ymm28", "ymm29", "ymm30", "ymm31", "zmm0", "zmm1", "zmm2",
    "zmm3", "zmm4", "zmm5", "zmm6", "zmm7", "zmm8", "zmm9", "zmm10",
    "zmm11", "zmm12", "zmm13", "zmm14", "zmm15", "zmm16", "zmm17", "zmm18",
    "zmm19", "zmm20", "zmm21", "zmm22", "zmm23", "zmm24", "zmm25", "zmm26",
    "zmm27", "zmm28", "zmm29", "zmm30", "zmm31", "k0", "k1", "k2",
    "k3", "k4", "k5", "k6", "k7", "bnd0", "bnd1", "bnd2",
    "bnd3", "cr0", "cr1", "cr2", "cr3", "cr4", "cr5", "cr6",
    "cr7", "cr8", "cr9", "cr10", "cr11", "cr12", "cr13", "cr14",
    "cr15", "dr0", "dr1", "dr2", "dr3", "dr4", "dr5", "dr6",
    "dr7", "dr8", "dr9", "dr10", "dr11", "dr12", "dr13", "dr14",
    "dr15", "st0", "st1", "st2", "st3", "st4", "st5", "st6",
    "st7", "mm0", "mm1", "mm2", "mm3", "mm4", "mm5", "mm6",
    "mm7", "tr0", "tr1", "tr2", "tr3", "tr4", "tr5", "tr6",
    "tr7", "tmm0", "tmm1", "tmm2", "tmm3", "tmm4", "tmm5", "tmm6",
    "tmm7", "dontuse0", "dontusefa", "dontusefb", "dontusefc", "dontusefd", "dontusefe", "dontuseff",
];

/// The name of register `r`.
pub open spec fn register_name(r: int) -> Seq<char> {
    REGISTER_NAMES@[r]@
}

/// Register numbers.
pub struct Register;

impl Register {
    pub const NONE: u32 = 0;
    pub const AL: u32 = 1;
    pub const CL: u32 = 2;
    pub const DL: u32 = 3;
    pub const BL: u32 = 4;
    pub const AH: u32 = 5;
    pub const CH: u32 = 6;
    pub const DH: u32 = 7;
    pub const BH: u32 = 8;
    pub const SPL: u32 = 9;
    pub const BPL: u32 = 10;
    pub const SIL: u32 = 11;
    pub const DIL: u32 = 12;
    pub const R8L: u32 = 13;
    pub const R9L: u32 = 14;
    pub const R10L: u32 = 15;
    pub const R11L: u32 = 16;
    pub const R12L: u32 = 17;
    pub const R13L: u32 = 18;
    pub const R14L: u32 = 19;
    pub const R15L: u32 = 20;
    pub const AX: u32 = 21;
    pub const CX: u32 = 22;
    pub const DX: u32 = 23;
    pub const BX: u32 = 24;
    pub const SP: u32 = 25;
    pub const BP: u32 = 26;
    pub const SI: u32 = 27;
    pub const DI: u32 = 28;
    pub const R8W: u32 = 29;
    pub const R9W: u32 = 30;
    pub const R10W: u32 = 31;
    pub const R11W: u32 = 32;
    pub const R12W: u32 = 33;
    pub const R13W: u32 = 34;
    pub const R14W: u32 = 35;
    pub const R15W: u32 = 36;
    pub const EAX: u32 = 37;
    pub const ECX: u32 = 38;
    pub const EDX: u32 = 39;
    pub const EBX: u32 = 40;
    pub const ESP: u32 = 41;
    pub const EBP: u32 = 42;
    pub const ESI: u32 = 43;
    pub const EDI: u32 = 44;
    pub const R8D: u32 = 45;
    pub const R9D: u32 = 46;
    pub const R10D: u32 = 47;
    pub const R11D: u32 = 48;
    pub const R12D: u32 = 49;
    pub const R13D: u32 = 50;
    pub const R14D: u32 = 51;
    pub const R15D: u32 = 52;
    pub const RAX: u32 = 53;
    pub const RCX: u32 = 54;
    pub const RDX: u32 = 55;
    pub const RBX: u32 = 56;
    pub const RSP: u32 = 57;
    pub const RBP: u32 = 58;
    pub const RSI: u32 = 59;
    pub const RDI: u32 = 60;
    pub const R8: u32 = 61;
    pub const R9: u32 = 62;
    pub const R10: u32 = 63;
    pub const R11: u32 = 64;
    pub const R12: u32 = 65;
    pub const R13: u32 = 66;
    pub const R14: u32 = 67;
    pub const R15: u32 = 68;
    pub const EIP: u32 = 69;
    pub const RIP: u32 = 70;
    pub const ES: u32 = 71;
    pub const CS: u32 = 72;
    pub const SS: u32 = 73;
    pub const DS: u32 = 74;
    pub const FS: u32 = 75;
    pub const GS: u32 = 76;
    pub const XMM0: u32 = 77;
    pub const XMM1: u32 = 78;
    pub const XMM2: u32 = 79;
    pub const XMM3: u32 = 80;
    pub const XMM4: u32 = 81;
    pub const XMM5: u32 = 82;
    pub const XMM6: u32 = 83;
    pub const XMM7: u32 = 84;
    pub const XMM8: u32 = 85;
    pub const XMM9: u32 = 86;
    pub const XMM10: u32 = 87;
    pub const XMM11: u32 = 88;
    pub const XMM12: u32 = 89;
    pub const XMM13: u32 = 90;
    pub const XMM14: u32 = 91;
    pub const XMM15: u32 = 92;
    pub const XMM16: u32 = 93;
    pub const XMM17: u32 = 94;
    pub const XMM18: u32 = 95;
    pub const XMM19: u32 = 96;
    pub const XMM20: u32 = 97;
    pub const XMM21: u32 = 98;
    pub const XMM22: u32 = 99;
    pub const XMM23: u32 = 100;
    pub const XMM24: u32 = 101;
    pub const XMM25: u32 = 102;
    pub const XMM26: u32 = 103;
    pub const XMM27: u32 = 104;
    pub const XMM28: u32 = 105;
    pub const XMM29: u32 = 106;
    pub const XMM30: u32 = 107;
    pub const XMM31: u32 = 108;
    pub const YMM0: u32 = 109;
    pub const YMM1: u32 = 110;
    pub const YMM2: u32 = 111;
    pub const YMM3: u32 = 112;
    pub const YMM4: u32 = 113;
    pub const YMM5: u32 = 114;
    pub const YMM6: u32 = 115;
    pub const YMM7: u32 = 116;
    pub const YMM8: u32 = 117;
    pub const YMM9: u32 = 118;
    pub const YMM10: u32 = 119;
    pub const YMM11: u32 = 120;
    pub const YMM12: u32 = 121;
    pub const YMM13: u32 = 122;
    pub const YMM14: u32 = 123;
    pub const YMM15: u32 = 124;
    pub const YMM16: u32 = 125;
    pub const YMM17: u32 = 126;
    pub const YMM18: u32 = 127;
    pub const YMM19: u32 = 128;
    pub const YMM20: u32 = 129;
    pub const YMM21: u32 = 130;
    pub const YMM22: u32 = 131;
    pub const YMM23: u32 = 132;
    pub const YMM24: u32 = 133;
    pub const YMM25: u32 = 134;
    pub const YMM26: u32 = 135;
    pub const YMM27: u32 = 136;
    pub const YMM28: u32 = 137;
    pub const YMM29: u32 = 138;
    pub const YMM30: u32 = 139;
    pub const YMM31: u32 = 140;
    pub const ZMM0: u32 = 141;
    pub const ZMM1: u32 = 142;
    pub const ZMM2: u32 = 143;
    pub const ZMM3: u32 = 144;
    pub const ZMM4: u32 = 145;
    pub const ZMM5: u32 = 146;
    pub const ZMM6: u32 = 147;
    pub const ZMM7: u32 = 148;
    pub const ZMM8: u32 = 149;
    pub const ZMM9: u32 = 150;
    pub const ZMM10: u32 = 151;
    pub const ZMM11: u32 = 152;
    pub const ZMM12: u32 = 153;
    pub const ZMM13: u32 = 154;
    pub const ZMM14: u32 = 155;
    pub const ZMM15: u32 = 156;
    pub const ZMM16: u32 = 157;
    pub const ZMM17: u32 = 158;
    pub const ZMM18: u32 = 159;
    pub const ZMM19: u32 = 160;
    pub const ZMM20: u32 = 161;
    pub const ZMM21: u32 = 162;
    pub const ZMM22: u32 = 163;
    pub const ZMM23: u32 = 164;
    pub const ZMM24: u32 = 165;
    pub const ZMM25: u32 = 166;
    pub const ZMM26: u32 = 167;
    pub const ZMM27: u32 = 168;
    pub const ZMM28: u32 = 169;
    pub const ZMM29: u32 = 170;
    pub const ZMM30: u32 = 171;
    pub const ZMM31: u32 = 172;
    pub const K0: u32 = 173;
    pub const K1: u32 = 174;
    pub const K2: u32 = 175;
    pub const K3: u32 = 176;
    pub const K4: u32 = 177;
    pub const K5: u32 = 178;
    pub const K6: u32 = 179;
    pub const K7: u32 = 180;
    pub const BND0: u32 = 181;
    pub const BND1: u32 = 182;
    pub const BND2: u32 = 183;
    pub const BND3: u32 = 184;
    pub const CR0: u32 = 185;
    pub const CR1: u32 = 186;
    pub const CR2: u32 = 187;
    pub const CR3: u32 = 188;
    pub const CR4: u32 = 189;
    pub const CR5: u32 = 190;
    pub const CR6: u32 = 191;
    pub const CR7: u32 = 192;
    pub const CR8: u32 = 193;
    pub const CR9: u32 = 194;
    pub const CR10: u32 = 195;
    pub const CR11: u32 = 196;
    pub const CR12: u32 = 197;
    pub const CR13: u32 = 198;
    pub const CR14: u32 = 199;
    pub const CR15: u32 = 200;
    pub const DR0: u32 = 201;
    pub const DR1: u32 = 202;
    pub const DR2: u32 = 203;
    pub const DR3: u32 = 204;
    pub const DR4: u32 = 205;
    pub const DR5: u32 = 206;
    pub const DR6: u32 = 207;
    pub const DR7: u32 = 208;
    pub const DR8: u32 = 209;
    pub const DR9: u32 = 210;
    pub const DR10: u32 = 211;
    pub const DR11: u32 = 212;
    pub const DR12: u32 = 213;
    pub const DR13: u32 = 214;
    pub const DR14: u32 = 215;
    pub const DR15: u32 = 216;
    pub const ST0: u32 = 217;
    pub const ST1: u32 = 218;
    pub const ST2: u32 = 219;
    pub const ST3: u32 = 220;
    pub const ST4: u32 = 221;
    pub const ST5: u32 = 222;
    pub const ST6: u32 = 223;
    pub const ST7: u32 = 224;
    pub const MM0: u32 = 225;
    pub const MM1: u32 = 226;
    pub const MM2: u32 = 227;
    pub const MM3: u32 = 228;
    pub const MM4: u32 = 229;
    pub const MM5: u32 = 230;
    pub const MM6: u32 = 231;
    pub const MM7: u32 = 232;
    pub const TR0: u32 = 233;
    pub const TR1: u32 = 234;
    pub const TR2: u32 = 235;
    pub const TR3: u32 = 236;
    pub const TR4: u32 = 237;
    pub const TR5: u32 = 238;
    pub const TR6: u32 = 239;
    pub const TR7: u32 = 240;
    pub const TMM0: u32 = 241;
    pub const TMM1: u32 = 242;
    pub const TMM2: u32 = 243;
    pub const TMM3: u32 = 244;
    pub const TMM4: u32 = 245;
    pub const TMM5: u32 = 246;
    pub const TMM6: u32 = 247;
    pub const TMM7: u32 = 248;
    pub const DONT_USE0: u32 = 249;
    pub const DONT_USEFA: u32 = 250;
    pub const DONT_USEFB: u32 = 251;
    pub const DONT_USEFC: u32 = 252;
    pub const DONT_USEFD: u32 = 253;
    pub const DONT_USEFE: u32 = 254;
    pub const DONT_USEFF: u32 = 255;
}

/// Whether `r` is one of the 64-bit general purpose registers.
pub open spec fn is_gpr64(r: u32) -> bool {
    Register::RAX <= r && r <= Register::R15
}

/// Whether `r` is one of the 32-bit general purpose registers.
pub open spec fn is_gpr32(r: u32) -> bool {
    Register::EAX <= r && r <= Register::R15D
}


/// Every register but "no register" has a name of at least one character.
#[verifier::rlimit(100)]
pub proof fn lemma_register_names_nonempty()
    ensures
        forall|r: int| 1 <= r < REGISTER_COUNT ==> #[trigger] register_name(r).len() > 0,
{
    reveal_strlit("al");
    reveal_strlit("cl");
    reveal_strlit("dl");
    reveal_strlit("bl");
    reveal_strlit("ah");
    reveal_strlit("ch");
    reveal_strlit("dh");
    reveal_strlit("bh");
    reveal_strlit("spl");
    reveal_strlit("bpl");
    reveal_strlit("sil");
    reveal_strlit("dil");
    reveal_strlit("r8b");
    reveal_strlit("r9b");
    reveal_strlit("r10b");
    reveal_strlit("r11b");
    reveal_strlit("r12b");
    reveal_strlit("r13b");
    reveal_strlit("r14b");
    reveal_strlit("r15b");
    reveal_strlit("ax");
    reveal_strlit("cx");
    reveal_strlit("dx");
    reveal_strlit("bx");
    reveal_strlit("sp");
    reveal_strlit("bp");
    reveal_strlit("si");
    reveal_strlit("di");
    reveal_strlit("r8w");
    reveal_strlit("r9w");
    reveal_strlit("r10w");
    reveal_strlit("r11w");
    reveal_strlit("r12w");
    reveal_strlit("r13w");
    reveal_strlit("r14w");
    reveal_strlit("r15w");
    reveal_strlit("eax");
    reveal_strlit("ecx");
    reveal_strlit("edx");
    reveal_strlit("ebx");
    reveal_strlit("esp");
    reveal_strlit("ebp");
    reveal_strlit("esi");
    reveal_strlit("edi");
    reveal_strlit("r8d");
    reveal_strlit("r9d");
    reveal_strlit("r10d");
    reveal_strlit("r11d");
    reveal_strlit("r12d");
    reveal_strlit("r13d");
    reveal_strlit("r14d");
    reveal_strlit("r15d");
    reveal_strlit("rax");
    reveal_strlit("rcx");
    reveal_strlit("rdx");
    reveal_strlit("rbx");
    reveal_strlit("rsp");
    reveal_strlit("rbp");
    reveal_strlit("rsi");
    reveal_strlit("rdi");
    reveal_strlit("r8");
    reveal_strlit("r9");
    reveal_strlit("r10");
    reveal_strlit("r11");
    reveal_strlit("r12");
    reveal_strlit("r13");
    reveal_strlit("r14");
    reveal_strlit("r15");
    reveal_strlit("eip");
    reveal_strlit("rip");
    reveal_strlit("es");
    reveal_strlit("cs");
    reveal_strlit("ss");
    reveal_strlit("ds");
    reveal_strlit("fs");
    reveal_strlit("gs");
    reveal_strlit("xmm0");
    reveal_strlit("xmm1");
    reveal_strlit("xmm2");
    reveal_strlit("xmm3");
    reveal_strlit("xmm4");
    reveal_strlit("xmm5");
    reveal_strlit("xmm6");
    reveal_strlit("xmm7");
    reveal_strlit("xmm8");
    reveal_strlit("xmm9");
    reveal_strlit("xmm10");
    reveal_strlit("xmm11");
    reveal_strlit("xmm12");
    reveal_strlit("xmm13");
    reveal_strlit("xmm14");
    reveal_strlit("xmm15");
    reveal_strlit("xmm16");
    reveal_strlit("xmm17");
    reveal_strlit("xmm18");
    reveal_strlit("xmm19");
    reveal_strlit("xmm20");
    reveal_strlit("xmm21");
    reveal_strlit("xmm22");
    reveal_strlit("xmm23");
    reveal_strlit("xmm24");
    reveal_strlit("xmm25");
    reveal_strlit("xmm26");
    reveal_strlit("xmm27");
    reveal_strlit("xmm28");
    reveal_strlit("xmm29");
    reveal_strlit("xmm30");
    reveal_strlit("xmm31");
    reveal_strlit("ymm0");
    reveal_strlit("ymm1");
    reveal_strlit("ymm2");
    reveal_strlit("ymm3");
    reveal_strlit("ymm4");
    reveal_strlit("ymm5");
    reveal_strlit("ymm6");
    reveal_strlit("ymm7");
    reveal_strlit("ymm8");
    reveal_strlit("ymm9");
    reveal_strlit("ymm10");
    reveal_strlit("ymm11");
    reveal_strlit("ymm12");
    reveal_strlit("ymm13");
    reveal_strlit("ymm14");
    reveal_strlit("ymm15");
    reveal_strlit("ymm16");
    reveal_strlit("ymm17");
    reveal_strlit("ymm18");
    reveal_strlit("ymm19");
    reveal_strlit("ymm20");
    reveal_strlit("ymm21");
    reveal_strlit("ymm22");
    reveal_strlit("ymm23");
    reveal_strlit("ymm24");
    reveal_strlit("ymm25");
    reveal_strlit("ymm26");
    reveal_strlit("ymm27");
    reveal_strlit("ymm28");
    reveal_strlit("ymm29");
    reveal_strlit("ymm30");
    reveal_strlit("ymm31");
    reveal_strlit("zmm0");
    reveal_strlit("zmm1");
    reveal_strlit("zmm2");
    reveal_strlit("zmm3");
    reveal_strlit("zmm4");
    reveal_strlit("zmm5");
    reveal_strlit("zmm6");
    reveal_strlit("zmm7");
    reveal_strlit("zmm8");
    reveal_strlit("zmm9");
    reveal_strlit("zmm10");
    reveal_strlit("zmm11");
    reveal_strlit("zmm12");
    reveal_strlit("zmm13");
    reveal_strlit("zmm14");
    reveal_strlit("zmm15");
    reveal_strlit("zmm16");
    reveal_strlit("zmm17");
    reveal_strlit("zmm18");
    reveal_strlit("zmm19");
    reveal_strlit("zmm20");
    reveal_strlit("zmm21");
    reveal_strlit("zmm22");
    reveal_strlit("zmm23");
    reveal_strlit("zmm24");
    reveal_strlit("zmm25");
    reveal_strlit("zmm26");
    reveal_strlit("zmm27");
    reveal_strlit("zmm28");
    reveal_strlit("zmm29");
    reveal_strlit("zmm30");
    reveal_strlit("zmm31");
    reveal_strlit("k0");
    reveal_strlit("k1");
    reveal_strlit("k2");
    reveal_strlit("k3");
    reveal_strlit("k4");
    reveal_strlit("k5");
    reveal_strlit("k6");
    reveal_strlit("k7");
    reveal_strlit("bnd0");
    reveal_strlit("bnd1");
    reveal_strlit("bnd2");
    reveal_strlit("bnd3");
    reveal_strlit("cr0");
    reveal_strlit("cr1");
    reveal_strlit("cr2");
    reveal_strlit("cr3");
    reveal_strlit("cr4");
    reveal_strlit("cr5");
    reveal_strlit("cr6");
    reveal_strlit("cr7");
    reveal_strlit("cr8");
    reveal_strlit("cr9");
    reveal_strlit("cr10");
    reveal_strlit("cr11");
    reveal_strlit("cr12");
    reveal_strlit("cr13");
    reveal_strlit("cr14");
    reveal_strlit("cr15");
    reveal_strlit("dr0");
    reveal_strlit("dr1");
    reveal_strlit("dr2");
    reveal_strlit("dr3");
    reveal_strlit("dr4");
    reveal_strlit("dr5");
    reveal_strlit("dr6");
    reveal_strlit("dr7");
    reveal_strlit("dr8");
    reveal_strlit("dr9");
    reveal_strlit("dr10");
    reveal_strlit("dr11");
    reveal_strlit("dr12");
    reveal_strlit("dr13");
    reveal_strlit("dr14");
    reveal_strlit("dr15");
    reveal_strlit("st0");
    reveal_strlit("st1");
    reveal_strlit("st2");
    reveal_strlit("st3");
    reveal_strlit("st4");
    reveal_strlit("st5");
    reveal_strlit("st6");
    reveal_strlit("st7");
    reveal_strlit("mm0");
    reveal_strlit("mm1");
    reveal_strlit("mm2");
    reveal_strlit("mm3");
    reveal_strlit("mm4");
    reveal_strlit("mm5");
    reveal_strlit("mm6");
    reveal_strlit("mm7");
    reveal_strlit("tr0");
    reveal_strlit("tr1");
    reveal_strlit("tr2");
    reveal_strlit("tr3");
    reveal_strlit("tr4");
    reveal_strlit("tr5");
    reveal_strlit("tr6");
    reveal_strlit("tr7");
    reveal_strlit("tmm0");
    reveal_strlit("tmm1");
    reveal_strlit("tmm2");
    reveal_strlit("tmm3");
    reveal_strlit("tmm4");
    reveal_strlit("tmm5");
    reveal_strlit("tmm6");
    reveal_strlit("tmm7");
    reveal_strlit("dontuse0");
    reveal_strlit("dontusefa");
    reveal_strlit("dontusefb");
    reveal_strlit("dontusefc");
    reveal_strlit("dontusefd");
    reveal_strlit("dontusefe");
    reveal_strlit("dontuseff");
    assert forall|r: int| 1 <= r < REGISTER_COUNT implies #[trigger] register_name(r).len() > 0 by {
        if r == 1 { assert(register_name(1) == "al"@); }
        if r == 2 { assert(register_name(2) == "cl"@); }
        if r == 3 { assert(register_name(3) == "dl"@); }
        if r == 4 { assert(register_name(4) == "bl"@); }
        if r == 5 { assert(register_name(5) == "ah"@); }
        if r == 6 { assert(register_name(6) == "ch"@); }
        if r == 7 { assert(register_name(7) == "dh"@); }
        if r == 8 { assert(register_name(8) == "bh"@); }
        if r == 9 { assert(register_name(9) == "spl"@); }
        if r == 10 { assert(register_name(10) == "bpl"@); }
        if r == 11 { assert(register_name(11) == "sil"@); }
        if r == 12 { assert(register_name(12) == "dil"@); }
        if r == 13 { assert(register_name(13) == "r8b"@); }
        if r == 14 { assert(register_name(14) == "r9b"@); }
        if r == 15 { assert(register_name(15) == "r10b"@); }
        if r == 16 { assert(register_name(16) == "r11b"@); }
        if r == 17 { assert(register_name(17) == "r12b"@); }
        if r == 18 { assert(register_name(18) == "r13b"@); }
        if r == 19 { assert(register_name(19) == "r14b"@); }
        if r == 20 { assert(register_name(20) == "r15b"@); }
        if r == 21 { assert(register_name(21) == "ax"@); }
        if r == 22 { assert(register_name(22) == "cx"@); }
        if r == 23 { assert(register_name(23) == "dx"@); }
        if r == 24 { assert(register_name(24) == "bx"@); }
        if r == 25 { assert(register_name(25) == "sp"@); }
        if r == 26 { assert(register_name(26) == "bp"@); }
        if r == 27 { assert(register_name(27) == "si"@); }
        if r == 28 { assert(register_name(28) == "di"@); }
        if r == 29 { assert(register_name(29) == "r8w"@); }
        if r == 30 { assert(register_name(30) == "r9w"@); }
        if r == 31 { assert(register_name(31) == "r10w"@); }
        if r == 32 { assert(register_name(32) == "r11w"@); }
        if r == 33 { assert(register_name(33) == "r12w"@); }
        if r == 34 { assert(register_name(34) == "r13w"@); }
        if r == 35 { assert(register_name(35) == "r14w"@); }
        if r == 36 { assert(register_name(36) == "r15w"@); }
        if r == 37 { assert(register_name(37) == "eax"@); }
        if r == 38 { assert(register_name(38) == "ecx"@); }
        if r == 39 { assert(register_name(39) == "edx"@); }
        if r == 40 { assert(register_name(40) == "ebx"@); }
        if r == 41 { assert(register_name(41) == "esp"@); }
        if r == 42 { assert(register_name(42) == "ebp"@); }
        if r == 43 { assert(register_name(43) == "esi"@); }
        if r == 44 { assert(register_name(44) == "edi"@); }
        if r == 45 { assert(register_name(45) == "r8d"@); }
        if r == 46 { assert(register_name(46) == "r9d"@); }
        if r == 47 { assert(register_name(47) == "r10d"@); }
        if r == 48 { assert(register_name(48) == "r11d"@); }
        if r == 49 { assert(register_name(49) == "r12d"@); }
        if r == 50 { assert(register_name(50) == "r13d"@); }
        if r == 51 { assert(register_name(51) == "r14d"@); }
        if r == 52 { assert(register_name(52) == "r15d"@); }
        if r == 53 { assert(register_name(53) == "rax"@); }
        if r == 54 { assert(register_name(54) == "rcx"@); }
        if r == 55 { assert(register_name(55) == "rdx"@); }
        if r == 56 { assert(register_name(56) == "rbx"@); }
        if r == 57 { assert(register_name(57) == "rsp"@); }
        if r == 58 { assert(register_name(58) == "rbp"@); }
        if r == 59 { assert(register_name(59) == "rsi"@); }
        if r == 60 { assert(register_name(60) == "rdi"@); }
        if r == 61 { assert(register_name(61) == "r8"@); }
        if r == 62 { assert(register_name(62) == "r9"@); }
        if r == 63 { assert(register_name(63) == "r10"@); }
        if r == 64 { assert(register_name(64) == "r11"@); }
        if r == 65 { assert(register_name(65) == "r12"@); }
        if r == 66 { assert(register_name(66) == "r13"@); }
        if r == 67 { assert(register_name(67) == "r14"@); }
        if r == 68 { assert(register_name(68) == "r15"@); }
        if r == 69 { assert(register_name(69) == "eip"@); }
        if r == 70 { assert(register_name(70) == "rip"@); }
        if r == 71 { assert(register_name(71) == "es"@); }
        if r == 72 { assert(register_name(72) == "cs"@); }
        if r == 73 { assert(register_name(73) == "ss"@); }
        if r == 74 { assert(register_name(74) == "ds"@); }
        if r == 75 { assert(register_name(75) == "fs"@); }
        if r == 76 { assert(register_name(76) == "gs"@); }
        if r == 77 { assert(register_name(77) == "xmm0"@); }
        if r == 78 { assert(register_name(78) == "xmm1"@); }
        if r == 79 { assert(register_name(79) == "xmm2"@); }
        if r == 80 { assert(register_name(80) == "xmm3"@); }
        if r == 81 { assert(register_name(81) == "xmm4"@); }
        if r == 82 { assert(register_name(82) == "xmm5"@); }
        if r == 83 { assert(register_name(83) == "xmm6"@); }
        if r == 84 { assert(register_name(84) == "xmm7"@); }
        if r == 85 { assert(register_name(85) == "xmm8"@); }
        if r == 86 { assert(register_name(86) == "xmm9"@); }
        if r == 87 { assert(register_name(87) == "xmm10"@); }
        if r == 88 { assert(register_name(88) == "xmm11"@); }
        if r == 89 { assert(register_name(89) == "xmm12"@); }
        if r == 90 { assert(register_name(90) == "xmm13"@); }
        if r == 91 { assert(register_name(91) == "xmm14"@); }
        if r == 92 { assert(register_name(92) == "xmm15"@); }
        if r == 93 { assert(register_name(93) == "xmm16"@); }
        if r == 94 { assert(register_name(94) == "xmm17"@); }
        if r == 95 { assert(register_name(95) == "xmm18"@); }
        if r == 96 { assert(register_name(96) == "xmm19"@); }
        if r == 97 { assert(register_name(97) == "xmm20"@); }
        if r == 98 { assert(register_name(98) == "xmm21"@); }
        if r == 99 { assert(register_name(99) == "xmm22"@); }
        if r == 100 { assert(register_name(100) == "xmm23"@); }
        if r == 101 { assert(register_name(101) == "xmm24"@); }
        if r == 102 { assert(register_name(102) == "xmm25"@); }
        if r == 103 { assert(register_name(103) == "xmm26"@); }
        if r == 104 { assert(register_name(104) == "xmm27"@); }
        if r == 105 { assert(register_name(105) == "xmm28"@); }
        if r == 106 { assert(register_name(106) == "xmm29"@); }
        if r == 107 { assert(register_name(107) == "xmm30"@); }
        if r == 108 { assert(register_name(108) == "xmm31"@); }
        if r == 109 { assert(register_name(109) == "ymm0"@); }
        if r == 110 { assert(register_name(110) == "ymm1"@); }
        if r == 111 { assert(register_name(111) == "ymm2"@); }
        if r == 112 { assert(register_name(112) == "ymm3"@); }
        if r == 113 { assert(register_name(113) == "ymm4"@); }
        if r == 114 { assert(register_name(114) == "ymm5"@); }
        if r == 115 { assert(register_name(115) == "ymm6"@); }
        if r == 116 { assert(register_name(116) == "ymm7"@); }
        if r == 117 { assert(register_name(117) == "ymm8"@); }
        if r == 118 { assert(register_name(118) == "ymm9"@); }
        if r == 119 { assert(register_name(119) == "ymm10"@); }
        if r == 120 { assert(register_name(120) == "ymm11"@); }
        if r == 121 { assert(register_name(121) == "ymm12"@); }
        if r == 122 { assert(register_name(122) == "ymm13"@); }
        if r == 123 { assert(register_name(123) == "ymm14"@); }
        if r == 124 { assert(register_name(124) == "ymm15"@); }
        if r == 125 { assert(register_name(125) == "ymm16"@); }
        if r == 126 { assert(register_name(126) == "ymm17"@); }
        if r == 127 { assert(register_name(127) == "ymm18"@); }
        if r == 128 { assert(register_name(128) == "ymm19"@); }
        if r == 129 { assert(register_name(129) == "ymm20"@); }
        if r == 130 { assert(register_name(130) == "ymm21"@); }
        if r == 131 { assert(register_name(131) == "ymm22"@); }
        if r == 132 { assert(register_name(132) == "ymm23"@); }
        if r == 133 { assert(register_name(133) == "ymm24"@); }
        if r == 134 { assert(register_name(134) == "ymm25"@); }
        if r == 135 { assert(register_name(135) == "ymm26"@); }
        if r == 136 { assert(register_name(136) == "ymm27"@); }
        if r == 137 { assert(register_name(137) == "ymm28"@); }
        if r == 138 { assert(register_name(138) == "ymm29"@); }
        if r == 139 { assert(register_name(139) == "ymm30"@); }
        if r == 140 { assert(register_name(140) == "ymm31"@); }
        if r == 141 { assert(register_name(141) == "zmm0"@); }
        if r == 142 { assert(register_name(142) == "zmm1"@); }
        if r == 143 { assert(register_name(143) == "zmm2"@); }
        if r == 144 { assert(register_name(144) == "zmm3"@); }
        if r == 145 { assert(register_name(145) == "zmm4"@); }
        if r == 146 { assert(register_name(146) == "zmm5"@); }
        if r == 147 { assert(register_name(147) == "zmm6"@); }
        if r == 148 { assert(register_name(148) == "zmm7"@); }
        if r == 149 { assert(register_name(149) == "zmm8"@); }
        if r == 150 { assert(register_name(150) == "zmm9"@); }
        if r == 151 { assert(register_name(151) == "zmm10"@); }
        if r == 152 { assert(register_name(152) == "zmm11"@); }
        if r == 153 { assert(register_name(153) == "zmm12"@); }
        if r == 154 { assert(register_name(154) == "zmm13"@); }
        if r == 155 { assert(register_name(155) == "zmm14"@); }
        if r == 156 { assert(register_name(156) == "zmm15"@); }
        if r == 157 { assert(register_name(157) == "zmm16"@); }
        if r == 158 { assert(register_name(158) == "zmm17"@); }
        if r == 159 { assert(register_name(159) == "zmm18"@); }
        if r == 160 { assert(register_name(160) == "zmm19"@); }
        if r == 161 { assert(register_name(161) == "zmm20"@); }
        if r == 162 { assert(register_name(162) == "zmm21"@); }
        if r == 163 { assert(register_name(163) == "zmm22"@); }
        if r == 164 { assert(register_name(164) == "zmm23"@); }
        if r == 165 { assert(register_name(165) == "zmm24"@); }
        if r == 166 { assert(register_name(166) == "zmm25"@); }
        if r == 167 { assert(register_name(167) == "zmm26"@); }
        if r == 168 { assert(register_name(168) == "zmm27"@); }
        if r == 169 { assert(register_name(169) == "zmm28"@); }
        if r == 170 { assert(register_name(170) == "zmm29"@); }
        if r == 171 { assert(register_name(171) == "zmm30"@); }
        if r == 172 { assert(register_name(172) == "zmm31"@); }
        if r == 173 { assert(register_name(173) == "k0"@); }
        if r == 174 { assert(register_name(174) == "k1"@); }
        if r == 175 { assert(register_name(175) == "k2"@); }
        if r == 176 { assert(register_name(176) == "k3"@); }
        if r == 177 { assert(register_name(177) == "k4"@); }
        if r == 178 { assert(register_name(178) == "k5"@); }
        if r == 179 { assert(register_name(179) == "k6"@); }
        if r == 180 { assert(register_name(180) == "k7"@); }
        if r == 181 { assert(register_name(181) == "bnd0"@); }
        if r == 182 { assert(register_name(182) == "bnd1"@); }
        if r == 183 { assert(register_name(183) == "bnd2"@); }
        if r == 184 { assert(register_name(184) == "bnd3"@); }
        if r == 185 { assert(register_name(185) == "cr0"@); }
        if r == 186 { assert(register_name(186) == "cr1"@); }
        if r == 187 { assert(register_name(187) == "cr2"@); }
        if r == 188 { assert(register_name(188) == "cr3"@); }
        if r == 189 { assert(register_name(189) == "cr4"@); }
        if r == 190 { assert(register_name(190) == "cr5"@); }
        if r == 191 { assert(register_name(191) == "cr6"@); }
        if r == 192 { assert(register_name(192) == "cr7"@); }
        if r == 193 { assert(register_name(193) == "cr8"@); }
        if r == 194 { assert(register_name(194) == "cr9"@); }
        if r == 195 { assert(register_name(195) == "cr10"@); }
        if r == 196 { assert(register_name(196) == "cr11"@); }
        if r == 197 { assert(register_name(197) == "cr12"@); }
        if r == 198 { assert(register_name(198) == "cr13"@); }
        if r == 199 { assert(register_name(199) == "cr14"@); }
        if r == 200 { assert(register_name(200) == "cr15"@); }
        if r == 201 { assert(register_name(201) == "dr0"@); }
        if r == 202 { assert(register_name(202) == "dr1"@); }
        if r == 203 { assert(register_name(203) == "dr2"@); }
        if r == 204 { assert(register_name(204) == "dr3"@); }
        if r == 205 { assert(register_name(205) == "dr4"@); }
        if r == 206 { assert(register_name(206) == "dr5"@); }
        if r == 207 { assert(register_name(207) == "dr6"@); }
        if r == 208 { assert(register_name(208) == "dr7"@); }
        if r == 209 { assert(register_name(209) == "dr8"@); }
        if r == 210 { assert(register_name(210) == "dr9"@); }
        if r == 211 { assert(register_name(211) == "dr10"@); }
        if r == 212 { assert(register_name(212) == "dr11"@); }
        if r == 213 { assert(register_name(213) == "dr12"@); }
        if r == 214 { assert(register_name(214) == "dr13"@); }
        if r == 215 { assert(register_name(215) == "dr14"@); }
        if r == 216 { assert(register_name(216) == "dr15"@); }
        if r == 217 { assert(register_name(217) == "st0"@); }
        if r == 218 { assert(register_name(218) == "st1"@); }
        if r == 219 { assert(register_name(219) == "st2"@); }
        if r == 220 { assert(register_name(220) == "st3"@); }
        if r == 221 { assert(register_name(221) == "st4"@); }
        if r == 222 { assert(register_name(222) == "st5"@); }
        if r == 223 { assert(register_name(223) == "st6"@); }
        if r == 224 { assert(register_name(224) == "st7"@); }
        if r == 225 { assert(register_name(225) == "mm0"@); }
        if r == 226 { assert(register_name(226) == "mm1"@); }
        if r == 227 { assert(register_name(227) == "mm2"@); }
        if r == 228 { assert(register_name(228) == "mm3"@); }
        if r == 229 { assert(register_name(229) == "mm4"@); }
        if r == 230 { assert(register_name(230) == "mm5"@); }
        if r == 231 { assert(register_name(231) == "mm6"@); }
        if r == 232 { assert(register_name(232) == "mm7"@); }
        if r == 233 { assert(register_name(233) == "tr0"@); }
        if r == 234 { assert(register_name(234) == "tr1"@); }
        if r == 235 { assert(register_name(235) == "tr2"@); }
        if r == 236 { assert(register_name(236) == "tr3"@); }
        if r == 237 { assert(register_name(237) == "tr4"@); }
        if r == 238 { assert(register_name(238) == "tr5"@); }
        if r == 239 { assert(register_name(239) == "tr6"@); }
        if r == 240 { assert(register_name(240) == "tr7"@); }
        if r == 241 { assert(register_name(241) == "tmm0"@); }
        if r == 242 { assert(register_name(242) == "tmm1"@); }
        if r == 243 { assert(register_name(243) == "tmm2"@); }
        if r == 244 { assert(register_name(244) == "tmm3"@); }
        if r == 245 { assert(register_name(245) == "tmm4"@); }
        if r == 246 { assert(register_name(246) == "tmm5"@); }
        if r == 247 { assert(register_name(247) == "tmm6"@); }
        if r == 248 { assert(register_name(248) == "tmm7"@); }
        if r == 249 { assert(register_name(249) == "dontuse0"@); }
        if r == 250 { assert(register_name(250) == "dontusefa"@); }
        if r == 251 { assert(register_name(251) == "dontusefb"@); }
        if r == 252 { assert(register_name(252) == "dontusefc"@); }
        if r == 253 { assert(register_name(253) == "dontusefd"@); }
        if r == 254 { assert(register_name(254) == "dontusefe"@); }
        if r == 255 { assert(register_name(255) == "dontuseff"@); }
    }
}
} // verus!
