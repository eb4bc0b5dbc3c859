//! The strings that the NASM formatter writes besides registers and memory
//! size keywords: prefixes, keywords and decorators.

use vstd::prelude::*;
use crate::memory_size::{MEMORY_SIZE_BROADCASTS, MEMORY_SIZE_COUNT, MEMORY_SIZE_KEYWORDS, memory_size_broadcast, memory_size_keyword};
use crate::register::{REGISTER_COUNT, REGISTER_NAMES, register_name};
use crate::text::FormatterString;

verus! {

/// The operand size prefixes, indexed by the operand size field of the flags.
pub const OP_SIZE_STRINGS: [&'static str; 4] = ["", "o16", "o32", "o64"];

/// The address size prefixes, indexed by the address size field of the flags.
pub const ADDR_SIZE_STRINGS: [&'static str; 4] = ["", "a16", "a32", "a64"];

/// The size keywords written inside the brackets, indexed by `MemorySizeInfo`.
pub const MEM_SIZE_INFO_STRINGS: [&'static str; 4] = ["", "word", "dword", "qword"];

/// The keywords written before the size of a far memory operand.
pub const FAR_MEM_SIZE_INFO_STRINGS: [&'static str; 3] = ["", "word", "dword"];

/// The keywords written before a branch target, indexed by `BranchSizeInfo`.
pub open spec fn branch_info_keywords(i: int) -> Seq<Seq<char>> {
    if i == 0 {
        Seq::empty()
    } else {
        seq!["short"@]
    }
}

/// Named strings of the formatter.
pub struct FormatterConstants {
    pub to: FormatterString,
    pub xacquire: FormatterString,
    pub xrelease: FormatterString,
    pub lock: FormatterString,
    pub rep: FormatterString,
    pub repe: FormatterString,
    pub repne: FormatterString,
    pub notrack: FormatterString,
    pub bnd: FormatterString,
    pub byte: FormatterString,
    pub word: FormatterString,
    pub dword: FormatterString,
    pub qword: FormatterString,
    pub rel: FormatterString,
    pub sae: FormatterString,
    pub rn_sae: FormatterString,
    pub rd_sae: FormatterString,
    pub ru_sae: FormatterString,
    pub rz_sae: FormatterString,
    pub z: FormatterString,
}

/// `f` is well formed and holds `s`.
pub open spec fn holds(f: FormatterString, s: Seq<char>) -> bool {
    f.wf() && f.lower_view() == s
}

impl FormatterConstants {
    /// Each field holds the string that its name says.
    pub open spec fn wf(&self) -> bool {
        &&& holds(self.to, "to"@)
        &&& holds(self.xacquire, "xacquire"@)
        &&& holds(self.xrelease, "xrelease"@)
        &&& holds(self.lock, "lock"@)
        &&& holds(self.rep, "rep"@)
        &&& holds(self.repe, "repe"@)
        &&& holds(self.repne, "repne"@)
        &&& holds(self.notrack, "notrack"@)
        &&& holds(self.bnd, "bnd"@)
        &&& holds(self.byte, "byte"@)
        &&& holds(self.word, "word"@)
        &&& holds(self.dword, "dword"@)
        &&& holds(self.qword, "qword"@)
        &&& holds(self.rel, "rel"@)
        &&& holds(self.sae, "sae"@)
        &&& holds(self.rn_sae, "rn-sae"@)
        &&& holds(self.rd_sae, "rd-sae"@)
        &&& holds(self.ru_sae, "ru-sae"@)
        &&& holds(self.rz_sae, "rz-sae"@)
        &&& holds(self.z, "z"@)
    }

    /// The named strings.
    pub fn new() -> (r: FormatterConstants)
        ensures
            r.wf(),
    {
        FormatterConstants {
            to: FormatterString::new("to"),
            xacquire: FormatterString::new("xacquire"),
            xrelease: FormatterString::new("xrelease"),
            lock: FormatterString::new("lock"),
            rep: FormatterString::new("rep"),
            repe: FormatterString::new("repe"),
            repne: FormatterString::new("repne"),
            notrack: FormatterString::new("notrack"),
            bnd: FormatterString::new("bnd"),
            byte: FormatterString::new("byte"),
            word: FormatterString::new("word"),
            dword: FormatterString::new("dword"),
            qword: FormatterString::new("qword"),
            rel: FormatterString::new("rel"),
            sae: FormatterString::new("sae"),
            rn_sae: FormatterString::new("rn-sae"),
            rd_sae: FormatterString::new("rd-sae"),
            ru_sae: FormatterString::new("ru-sae"),
            rz_sae: FormatterString::new("rz-sae"),
            z: FormatterString::new("z"),
        }
    }
}

/// The size keyword and broadcast decorator of one memory size.
pub struct MemorySizeText {
    pub keyword: FormatterString,
    pub bcst_to: FormatterString,
}

/// The tables of the formatter, each indexed by a number.
pub struct ArrayConstants {
    pub registers: Vec<FormatterString>,
    pub memory_sizes: Vec<MemorySizeText>,
    pub op_size_strings: Vec<FormatterString>,
    pub addr_size_strings: Vec<FormatterString>,
    pub mem_size_infos: Vec<FormatterString>,
    pub far_mem_size_infos: Vec<FormatterString>,
    pub branch_infos: Vec<Vec<FormatterString>>,
}

impl ArrayConstants {
    /// Each table holds the strings of its constant.
    pub open spec fn wf(&self) -> bool {
        &&& self.registers@.len() == REGISTER_COUNT
        &&& forall|i: int| 0 <= i < REGISTER_COUNT ==> holds(#[trigger] self.registers@[i], register_name(i))
        &&& self.memory_sizes@.len() == MEMORY_SIZE_COUNT
        &&& forall|i: int|
            0 <= i < MEMORY_SIZE_COUNT ==> holds(#[trigger] self.memory_sizes@[i].keyword, memory_size_keyword(i))
        &&& forall|i: int|
            0 <= i < MEMORY_SIZE_COUNT ==> holds(#[trigger] self.memory_sizes@[i].bcst_to, memory_size_broadcast(i))
        &&& self.op_size_strings@.len() == 4
        &&& forall|i: int| 0 <= i < 4 ==> holds(#[trigger] self.op_size_strings@[i], OP_SIZE_STRINGS@[i]@)
        &&& self.addr_size_strings@.len() == 4
        &&& forall|i: int| 0 <= i < 4 ==> holds(#[trigger] self.addr_size_strings@[i], ADDR_SIZE_STRINGS@[i]@)
        &&& self.mem_size_infos@.len() == 4
        &&& forall|i: int| 0 <= i < 4 ==> holds(#[trigger] self.mem_size_infos@[i], MEM_SIZE_INFO_STRINGS@[i]@)
        &&& self.far_mem_size_infos@.len() == 3
        &&& forall|i: int|
            0 <= i < 3 ==> holds(#[trigger] self.far_mem_size_infos@[i], FAR_MEM_SIZE_INFO_STRINGS@[i]@)
        &&& self.branch_infos@.len() == 2
        &&& forall|i: int|
            0 <= i < 2 ==> #[trigger] self.branch_infos@[i]@.len() == branch_info_keywords(i).len()
        &&& forall|i: int, j: int|
            0 <= i < 2 && 0 <= j < branch_info_keywords(i).len() ==> holds(
                #[trigger] self.branch_infos@[i]@[j],
                branch_info_keywords(i)[j],
            )
    }

    /// Builds the tables from their constants.
    pub fn new() -> (r: ArrayConstants)
        ensures
            r.wf(),
    {
        let mut registers: Vec<FormatterString> = Vec::new();
        let mut i: usize = 0;
        while i < REGISTER_COUNT
            invariant
                i <= REGISTER_COUNT,
                registers@.len() == i,
                forall|k: int| 0 <= k < i ==> holds(#[trigger] registers@[k], register_name(k)),
            decreases REGISTER_COUNT - i,
        {
            registers.push(FormatterString::new(REGISTER_NAMES[i]));
            i = i + 1;
        }
        let mut memory_sizes: Vec<MemorySizeText> = Vec::new();
        let mut i: usize = 0;
        while i < MEMORY_SIZE_COUNT
            invariant
                i <= MEMORY_SIZE_COUNT,
                memory_sizes@.len() == i,
                forall|k: int| 0 <= k < i ==> holds(#[trigger] memory_sizes@[k].keyword, memory_size_keyword(k)),
                forall|k: int| 0 <= k < i ==> holds(#[trigger] memory_sizes@[k].bcst_to, memory_size_broadcast(k)),
            decreases MEMORY_SIZE_COUNT - i,
        {
            memory_sizes.push(
                MemorySizeText {
                    keyword: FormatterString::new(MEMORY_SIZE_KEYWORDS[i]),
                    bcst_to: FormatterString::new(MEMORY_SIZE_BROADCASTS[i]),
                },
            );
            i = i + 1;
        }
        let op_size_strings = table4(&OP_SIZE_STRINGS);
        let addr_size_strings = table4(&ADDR_SIZE_STRINGS);
        let mem_size_infos = table4(&MEM_SIZE_INFO_STRINGS);
        let mut far_mem_size_infos: Vec<FormatterString> = Vec::new();
        far_mem_size_infos.push(FormatterString::new(FAR_MEM_SIZE_INFO_STRINGS[0]));
        far_mem_size_infos.push(FormatterString::new(FAR_MEM_SIZE_INFO_STRINGS[1]));
        far_mem_size_infos.push(FormatterString::new(FAR_MEM_SIZE_INFO_STRINGS[2]));
        let mut short_list: Vec<FormatterString> = Vec::new();
        short_list.push(FormatterString::new("short"));
        let mut branch_infos: Vec<Vec<FormatterString>> = Vec::new();
        branch_infos.push(Vec::new());
        branch_infos.push(short_list);
        let r = ArrayConstants {
            registers,
            memory_sizes,
            op_size_strings,
            addr_size_strings,
            mem_size_infos,
            far_mem_size_infos,
            branch_infos,
        };
        assert forall|i: int| 0 <= i < 3 implies holds(
            #[trigger] r.far_mem_size_infos@[i],
            FAR_MEM_SIZE_INFO_STRINGS@[i]@,
        ) by {
            if i == 0 {
            } else if i == 1 {
            } else {
            }
        }
        assert forall|i: int, j: int|
            0 <= i < 2 && 0 <= j < branch_info_keywords(i).len() implies holds(
            #[trigger] r.branch_infos@[i]@[j],
            branch_info_keywords(i)[j],
        ) by {
            assert(i == 1 && j == 0);
        }
        r
    }
}

/// The four strings of `a` as formatter strings.
fn table4(a: &[&'static str; 4]) -> (r: Vec<FormatterString>)
    ensures
        r@.len() == 4,
        forall|i: int| 0 <= i < 4 ==> holds(#[trigger] r@[i], a@[i]@),
{
    let mut r: Vec<FormatterString> = Vec::new();
    let mut i: usize = 0;
    while i < 4
        invariant
            i <= 4,
            r@.len() == i,
            forall|k: int| 0 <= k < i ==> holds(#[trigger] r@[k], a@[k]@),
        decreases 4 - i,
    {
        r.push(FormatterString::new(a[i]));
        i = i + 1;
    }
    r
}

} // verus!
