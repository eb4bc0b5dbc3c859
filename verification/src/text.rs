//! Text building blocks: a string with its upper case form, the kinds of
//! text that the formatter writes, and an output that records each write.

use vstd::prelude::*;
use vstd::string::*;

verus! {

/// Appends one character to a string.
/// Trusted: `String::push` appends its argument at the end of the string.
#[verifier::external_body]
pub(crate) fn push_char(s: &mut String, c: char)
    ensures
        final(s)@ == old(s)@.push(c),
{
    s.push(c);
}

/// The upper case form of an ASCII letter; any other character is kept.
pub open spec fn char_to_upper(c: char) -> char {
    if 'a' <= c && c <= 'z' {
        ((c as int) - 32) as char
    } else {
        c
    }
}

/// The string with every ASCII lower case letter turned into upper case.
pub open spec fn ascii_upper(s: Seq<char>) -> Seq<char> {
    s.map_values(|c: char| char_to_upper(c))
}

/// `s` in upper case if `upper` holds, else `s`.
pub open spec fn cased(s: Seq<char>, upper: bool) -> Seq<char> {
    if upper {
        ascii_upper(s)
    } else {
        s
    }
}

/// Computes `char_to_upper`.
pub fn upper_char(c: char) -> (r: char)
    ensures
        r == char_to_upper(c),
{
    if 'a' <= c && c <= 'z' {
        let b: u8 = ((c as u32) - 32) as u8;
        let r: char = b as char;
        r
    } else {
        c
    }
}

/// Returns `s` with its ASCII letters in upper case.
pub fn to_ascii_upper(s: &str) -> (r: String)
    ensures
        r@ == ascii_upper(s@),
{
    let n = s.unicode_len();
    let mut r = String::new();
    let mut i: usize = 0;
    while i < n
        invariant
            n == s@.len(),
            i <= n,
            r@ == ascii_upper(s@.subrange(0, i as int)),
        decreases n - i,
    {
        let c = s.get_char(i);
        push_char(&mut r, upper_char(c));
        proof {
            assert(ascii_upper(s@.subrange(0, i + 1)) =~= ascii_upper(s@.subrange(0, i as int)).push(
                char_to_upper(c),
            ));
        }
        i = i + 1;
    }
    proof {
        assert(s@.subrange(0, n as int) =~= s@);
    }
    r
}


/// A string of the formatter together with its upper case form.
pub struct FormatterString {
    lower: String,
    upper: String,
}

impl FormatterString {
    /// The string as it was given.
    pub closed spec fn lower_view(&self) -> Seq<char> {
        self.lower@
    }

    /// The string that `get` returns for the given case choice.
    pub open spec fn text(&self, upper: bool) -> Seq<char> {
        cased(self.lower_view(), upper)
    }

    /// Well-formedness: the stored upper case form is that of the string.
    pub closed spec fn wf(&self) -> bool {
        self.upper@ == ascii_upper(self.lower@)
    }

    /// Creates the string `lower` with its upper case form.
    pub fn new(lower: &str) -> (r: FormatterString)
        ensures
            r.wf(),
            r.lower_view() == lower@,
    {
        FormatterString { lower: lower.to_string(), upper: to_ascii_upper(lower) }
    }

    /// The empty string.
    pub fn empty() -> (r: FormatterString)
        ensures
            r.wf(),
            r.lower_view() == Seq::<char>::empty(),
    {
        proof {
            reveal_strlit("");
        }
        FormatterString::new("")
    }

    /// Returns the upper case form if `upper` holds, else the string as given.
    pub fn get(&self, upper: bool) -> (r: &str)
        requires
            self.wf(),
        ensures
            r@ == self.text(upper),
    {
        if upper {
            self.upper.as_str()
        } else {
            self.lower.as_str()
        }
    }

    /// The number of characters of the string.
    pub fn len(&self) -> (r: usize)
        ensures
            r == self.lower_view().len(),
    {
        self.lower.as_str().unicode_len()
    }

    /// Whether this is the empty string, which stands for "nothing to write".
    pub fn is_default(&self) -> (r: bool)
        ensures
            r == (self.lower_view().len() == 0),
    {
        self.len() == 0
    }

    /// A copy of this string.
    pub fn duplicate(&self) -> (r: FormatterString)
        ensures
            r.lower_view() == self.lower_view(),
            self.wf() ==> r.wf(),
    {
        FormatterString { lower: self.lower.clone(), upper: self.upper.clone() }
    }
}

/// What a piece of formatted text is.
#[derive(Clone, Copy, Debug, PartialEq, Eq, Structural)]
pub enum FormatterTextKind {
    Text,
    Directive,
    Prefix,
    Mnemonic,
    Keyword,
    Operator,
    Punctuation,
    Number,
    Register,
    Decorator,
    SelectorValue,
    LabelAddress,
    FunctionAddress,
    Data,
    Label,
    Function,
}

/// Which prefix a prefix is.
#[derive(Clone, Copy, Debug, PartialEq, Eq, Structural)]
pub enum PrefixKind {
    ES,
    CS,
    SS,
    DS,
    FS,
    GS,
    Lock,
    Rep,
    Repe,
    Repne,
    OperandSize,
    AddressSize,
    HintNotTaken,
    HintTaken,
    Bnd,
    Notrack,
    Xacquire,
    Xrelease,
}

/// How a written number was read: its size and whether it is signed.
#[derive(Clone, Copy, Debug, PartialEq, Eq, Structural)]
pub enum NumberKind {
    Int8,
    UInt8,
    Int16,
    UInt16,
    Int32,
    UInt32,
    Int64,
    UInt64,
}

/// Which decorator a decorator is.
#[derive(Clone, Copy, Debug, PartialEq, Eq, Structural)]
pub enum DecoratorKind {
    /// `{1to16}` and the like.
    Broadcast,
    /// `{rn-sae}` and the like.
    RoundingControl,
    /// `{sae}`.
    SuppressAllExceptions,
    /// `{z}`.
    ZeroingMasking,
}

/// What a write says besides its text and its kind.
#[derive(Clone, Copy, Debug, PartialEq, Eq, Structural)]
pub enum TextInfo {
    /// Nothing more.
    Plain,
    /// A prefix, and which.
    Prefix(PrefixKind),
    /// A number: its value (sign extended to 64 bits where it was read as
    /// signed) and how it was read.
    Number(u64, NumberKind),
    /// A register, and which.
    Register(u32),
    /// A decorator, and which.
    Decorator(DecoratorKind),
}

/// One write of the formatter: a text, its kind and what it says besides.
pub struct TextPiece {
    pub text: String,
    pub kind: FormatterTextKind,
    pub info: TextInfo,
}

/// A piece of text in specifications: its characters, its kind and what it
/// says besides.
pub type Piece = (Seq<char>, FormatterTextKind, TextInfo);

/// The single piece `text` of kind `kind`, which says nothing more.
pub open spec fn piece(text: Seq<char>, kind: FormatterTextKind) -> Seq<Piece> {
    seq![(text, kind, TextInfo::Plain)]
}

/// The single piece `text` of kind `kind` that says `info`.
pub open spec fn info_piece(text: Seq<char>, kind: FormatterTextKind, info: TextInfo) -> Seq<Piece> {
    seq![(text, kind, info)]
}

/// The characters of a sequence of pieces, one after the other.
pub open spec fn text_of(pieces: Seq<Piece>) -> Seq<char>
    decreases pieces.len(),
{
    if pieces.len() == 0 {
        Seq::empty()
    } else {
        text_of(pieces.drop_last()) + pieces.last().0
    }
}

/// The text of a single piece is its characters.
pub proof fn lemma_text_of_piece(s: Seq<char>, kind: FormatterTextKind)
    ensures
        text_of(piece(s, kind)) == s,
{
    let p = piece(s, kind);
    assert(p.drop_last() =~= Seq::<Piece>::empty());
    assert(text_of(p.drop_last()) == Seq::<char>::empty());
    assert(text_of(p) =~= s);
}

/// The text of a single piece is its characters, whatever it says besides.
pub proof fn lemma_text_of_info_piece(s: Seq<char>, kind: FormatterTextKind, info: TextInfo)
    ensures
        text_of(info_piece(s, kind, info)) == s,
{
    let p = info_piece(s, kind, info);
    assert(p.drop_last() =~= Seq::<Piece>::empty());
    assert(text_of(p.drop_last()) == Seq::<char>::empty());
    assert(text_of(p) =~= s);
}

/// The text of `a + b` is the text of `a` followed by the text of `b`.
pub proof fn lemma_text_of_append(a: Seq<Piece>, b: Seq<Piece>)
    ensures
        text_of(a + b) == text_of(a) + text_of(b),
    decreases b.len(),
{
    if b.len() == 0 {
        assert(a + b =~= a);
        assert(text_of(b) =~= Seq::<char>::empty());
        assert(text_of(a) + text_of(b) =~= text_of(a));
    } else {
        lemma_text_of_append(a, b.drop_last());
        assert((a + b).drop_last() =~= a + b.drop_last());
        assert((a + b).last() == b.last());
        assert(text_of(a) + text_of(b) =~= text_of(a) + text_of(b.drop_last()) + b.last().0);
    }
}

/// The output of the formatter: every write, in order.
pub struct FormatterOutput {
    pieces: Vec<TextPiece>,
}

impl View for FormatterOutput {
    type V = Seq<Piece>;

    closed spec fn view(&self) -> Seq<Piece> {
        self.pieces@.map_values(|p: TextPiece| (p.text@, p.kind, p.info))
    }
}

impl FormatterOutput {
    /// An output with nothing written.
    pub fn new() -> (r: FormatterOutput)
        ensures
            r@ == Seq::<Piece>::empty(),
    {
        let r = FormatterOutput { pieces: Vec::new() };
        assert(r@ =~= Seq::<Piece>::empty());
        r
    }

    /// Writes `text` of kind `kind`.
    pub fn write(&mut self, text: &str, kind: FormatterTextKind)
        ensures
            final(self)@ == old(self)@ + piece(text@, kind),
    {
        let t = text.to_string();
        self.pieces.push(TextPiece { text: t, kind, info: TextInfo::Plain });
        assert(final(self)@ =~= old(self)@ + piece(text@, kind));
    }

    /// Writes `text` of kind `kind` that says `info`.
    fn write_info(&mut self, text: &str, kind: FormatterTextKind, info: TextInfo)
        ensures
            final(self)@ == old(self)@ + info_piece(text@, kind, info),
    {
        let t = text.to_string();
        self.pieces.push(TextPiece { text: t, kind, info });
        assert(final(self)@ =~= old(self)@ + info_piece(text@, kind, info));
    }

    /// Writes prefix `text`, which is prefix `prefix`.
    pub fn write_prefix(&mut self, text: &str, prefix: PrefixKind)
        ensures
            final(self)@ == old(self)@ + info_piece(text@, FormatterTextKind::Prefix, TextInfo::Prefix(prefix)),
    {
        self.write_info(text, FormatterTextKind::Prefix, TextInfo::Prefix(prefix));
    }

    /// Writes number `text` of kind `kind`, the text of `value` read as
    /// `number_kind`.
    pub fn write_number(&mut self, text: &str, value: u64, number_kind: NumberKind, kind: FormatterTextKind)
        ensures
            final(self)@ == old(self)@ + info_piece(text@, kind, TextInfo::Number(value, number_kind)),
    {
        self.write_info(text, kind, TextInfo::Number(value, number_kind));
    }

    /// Writes register name `text`, the name of `register`.
    pub fn write_register(&mut self, text: &str, register: u32)
        ensures
            final(self)@ == old(self)@ + info_piece(text@, FormatterTextKind::Register, TextInfo::Register(register)),
    {
        self.write_info(text, FormatterTextKind::Register, TextInfo::Register(register));
    }

    /// Writes decorator `text`, which is decorator `decorator`.
    pub fn write_decorator(&mut self, text: &str, decorator: DecoratorKind)
        ensures
            final(self)@ == old(self)@ + info_piece(
                text@,
                FormatterTextKind::Decorator,
                TextInfo::Decorator(decorator),
            ),
    {
        self.write_info(text, FormatterTextKind::Decorator, TextInfo::Decorator(decorator));
    }

    /// The number of writes so far.
    pub fn len(&self) -> (r: usize)
        ensures
            r == self@.len(),
    {
        self.pieces.len()
    }

    /// The kind of the `i`-th write.
    pub fn kind_at(&self, i: usize) -> (r: FormatterTextKind)
        requires
            i < self@.len(),
        ensures
            r == self@[i as int].1,
    {
        self.pieces[i].kind
    }

    /// What the `i`-th write says besides its text and kind.
    pub fn info_at(&self, i: usize) -> (r: TextInfo)
        requires
            i < self@.len(),
        ensures
            r == self@[i as int].2,
    {
        self.pieces[i].info
    }

    /// The text of the `i`-th write.
    pub fn text_at(&self, i: usize) -> (r: &str)
        requires
            i < self@.len(),
        ensures
            r@ == self@[i as int].0,
    {
        self.pieces[i].text.as_str()
    }

    /// All text written so far.
    pub fn text(&self) -> (r: String)
        ensures
            r@ == text_of(self@),
    {
        let mut r = String::new();
        let mut i: usize = 0;
        while i < self.pieces.len()
            invariant
                i <= self.pieces.len(),
                r@ == text_of(self@.subrange(0, i as int)),
            decreases self.pieces.len() - i,
        {
            let ghost before = r@;
            r.append(self.pieces[i].text.as_str());
            proof {
                let s = self@.subrange(0, i + 1);
                assert(s.drop_last() =~= self@.subrange(0, i as int));
                assert(s.last() == self@[i as int]);
            }
            i = i + 1;
        }
        assert(self@.subrange(0, i as int) =~= self@);
        r
    }
}

} // verus!
