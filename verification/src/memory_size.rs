//! The memory operand sizes: their numbers, their NASM size keywords and
//! their broadcast decorators.

use vstd::prelude::*;

verus! {

/// The number of memory sizes.
pub const MEMORY_SIZE_COUNT: usize = 78;

/// The size keyword of each memory size ("" where NASM has none).
pub const MEMORY_SIZE_KEYWORDS: [&'static str; 78] = [
    "", "byte", "word", "dword", "qword", "qword", "oword", "yword",
    "zword", "byte", "word", "dword", "qword", "oword", "yword", "zword",
    "far", "far", "far", "word", "dword", "qword", "dword", "qword",
    "qword", "oword", "", "", "word", "dword", "qword", "tword",
    "oword", "word", "", "", "", "", "", "",
    "", "", "tword", "", "", "", "", "",
    "word", "dword", "qword", "oword", "yword", "zword", "qword", "oword",
    "yword", "zword", "oword", "yword", "zword", "oword", "yword", "zword",
    "dword", "dword", "dword", "dword", "dword", "dword", "dword", "qword",
    "qword", "qword", "qword", "qword", "qword", "word",
];

/// The broadcast decorator of each memory size ("" for one that is no broadcast).
pub const MEMORY_SIZE_BROADCASTS: [&'static str; 78] = [
    "", "", "", "", "", "", "", "",
    "", "", "", "", "", "", "", "",
    "", "", "", "", "", "", "", "",
    "", "", "", "", "", "", "", "",
    "", "", "", "", "", "", "", "",
    "", "", "", "", "", "", "", "",
    "", "", "", "", "", "", "", "",
    "", "", "", "", "", "", "", "",
    "1to2", "1to4", "1to8", "1to16", "1to4", "1to8", "1to16", "1to2",
    "1to4", "1to8", "1to2", "1to4", "1to8", "1to32",
];

/// The size keyword of memory size `m`.
pub open spec fn memory_size_keyword(m: int) -> Seq<char> {
    MEMORY_SIZE_KEYWORDS@[m]@
}

/// The broadcast decorator of memory size `m`.
pub open spec fn memory_size_broadcast(m: int) -> Seq<char> {
    MEMORY_SIZE_BROADCASTS@[m]@
}

/// Memory size numbers.
pub struct MemorySize;

#[allow(non_upper_case_globals)]
impl MemorySize {
    pub const Unknown: u32 = 0;
    pub const UInt8: u32 = 1;
    pub const UInt16: u32 = 2;
    pub const UInt32: u32 = 3;
    pub const UInt52: u32 = 4;
    pub const UInt64: u32 = 5;
    pub const UInt128: u32 = 6;
    pub const UInt256: u32 = 7;
    pub const UInt512: u32 = 8;
    pub const Int8: u32 = 9;
    pub const Int16: u32 = 10;
    pub const Int32: u32 = 11;
    pub const Int64: u32 = 12;
    pub const Int128: u32 = 13;
    pub const Int256: u32 = 14;
    pub const Int512: u32 = 15;
    pub const SegPtr16: u32 = 16;
    pub const SegPtr32: u32 = 17;
    pub const SegPtr64: u32 = 18;
    pub const WordOffset: u32 = 19;
    pub const DwordOffset: u32 = 20;
    pub const QwordOffset: u32 = 21;
    pub const Bound16_WordWord: u32 = 22;
    pub const Bound32_DwordDword: u32 = 23;
    pub const Bnd32: u32 = 24;
    pub const Bnd64: u32 = 25;
    pub const Fword6: u32 = 26;
    pub const Fword10: u32 = 27;
    pub const Float16: u32 = 28;
    pub const Float32: u32 = 29;
    pub const Float64: u32 = 30;
    pub const Float80: u32 = 31;
    pub const Float128: u32 = 32;
    pub const BFloat16: u32 = 33;
    pub const FpuEnv14: u32 = 34;
    pub const FpuEnv28: u32 = 35;
    pub const FpuState94: u32 = 36;
    pub const FpuState108: u32 = 37;
    pub const Fxsave_512Byte: u32 = 38;
    pub const Fxsave64_512Byte: u32 = 39;
    pub const Xsave: u32 = 40;
    pub const Xsave64: u32 = 41;
    pub const Bcd: u32 = 42;
    pub const Tilecfg: u32 = 43;
    pub const Tile: u32 = 44;
    pub const SegmentDescSelector: u32 = 45;
    pub const KLHandleAes128: u32 = 46;
    pub const KLHandleAes256: u32 = 47;
    pub const Packed16_UInt8: u32 = 48;
    pub const Packed32_UInt8: u32 = 49;
    pub const Packed64_UInt8: u32 = 50;
    pub const Packed128_UInt8: u32 = 51;
    pub const Packed256_UInt8: u32 = 52;
    pub const Packed512_UInt8: u32 = 53;
    pub const Packed64_Float32: u32 = 54;
    pub const Packed128_Float32: u32 = 55;
    pub const Packed256_Float32: u32 = 56;
    pub const Packed512_Float32: u32 = 57;
    pub const Packed128_Float64: u32 = 58;
    pub const Packed256_Float64: u32 = 59;
    pub const Packed512_Float64: u32 = 60;
    pub const Packed128_Int32: u32 = 61;
    pub const Packed256_Int32: u32 = 62;
    pub const Packed512_Int32: u32 = 63;
    pub const Broadcast64_UInt32: u32 = 64;
    pub const Broadcast128_UInt32: u32 = 65;
    pub const Broadcast256_UInt32: u32 = 66;
    pub const Broadcast512_UInt32: u32 = 67;
    pub const Broadcast128_Float32: u32 = 68;
    pub const Broadcast256_Float32: u32 = 69;
    pub const Broadcast512_Float32: u32 = 70;
    pub const Broadcast128_UInt64: u32 = 71;
    pub const Broadcast256_UInt64: u32 = 72;
    pub const Broadcast512_UInt64: u32 = 73;
    pub const Broadcast128_Float64: u32 = 74;
    pub const Broadcast256_Float64: u32 = 75;
    pub const Broadcast512_Float64: u32 = 76;
    pub const Broadcast512_Float16: u32 = 77;
}

} // verus!
