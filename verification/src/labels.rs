//! Labels for completions and symbols: a line of Elixir for the editor to highlight, and the
//! parts of it to show. Positions count bytes of UTF-8.

use vstd::prelude::*;
use vstd::string::*;
use vstd::utf8::encode_utf8;

verus! {

/// The kind of a completion.
#[derive(Clone, Copy, Debug, PartialEq, Eq)]
pub enum CompletionKind {
    Text,
    Method,
    Function,
    Constructor,
    Field,
    Variable,
    Class,
    Interface,
    Module,
    Property,
    Unit,
    Value,
    Enum,
    Keyword,
    Snippet,
    Color,
    File,
    Reference,
    Folder,
    EnumMember,
    Constant,
    Struct,
    Event,
    Operator,
    TypeParameter,
    Other(i32),
}

/// What a language server adds to the label of a completion.
#[derive(Clone, Debug, PartialEq, Eq)]
pub struct CompletionLabelDetails {
    pub detail: Option<String>,
    pub description: Option<String>,
}

/// A completion as a language server offers it.
#[derive(Clone, Debug, PartialEq, Eq)]
pub struct Completion {
    pub label: String,
    pub label_details: Option<CompletionLabelDetails>,
    pub detail: Option<String>,
    pub kind: Option<CompletionKind>,
}

/// What a [`Completion`] holds, as plain values.
pub struct CompletionView {
    pub label: Seq<char>,
    /// The detail among the label details, if there is one.
    pub label_detail: Option<Seq<char>>,
    /// The description among the label details, if there is one.
    pub label_description: Option<Seq<char>>,
    pub detail: Option<Seq<char>>,
    pub kind: Option<CompletionKind>,
}

impl View for Completion {
    type V = CompletionView;

    open spec fn view(&self) -> CompletionView {
        CompletionView {
            label: self.label@,
            label_detail: match self.label_details {
                Some(CompletionLabelDetails { detail: Some(detail), .. }) => Some(detail@),
                _ => None,
            },
            label_description: match self.label_details {
                Some(CompletionLabelDetails { description: Some(description), .. }) => Some(
                    description@,
                ),
                _ => None,
            },
            detail: match self.detail {
                Some(detail) => Some(detail@),
                None => None,
            },
            kind: self.kind,
        }
    }
}

/// The kind of a symbol.
#[derive(Clone, Copy, Debug, PartialEq, Eq)]
pub enum SymbolKind {
    File,
    Module,
    Namespace,
    Package,
    Class,
    Method,
    Property,
    Field,
    Constructor,
    Enum,
    Interface,
    Function,
    Variable,
    Constant,
    String,
    Number,
    Boolean,
    Array,
    Object,
    Key,
    Null,
    EnumMember,
    Struct,
    Event,
    Operator,
    TypeParameter,
    Other(i32),
}

/// A symbol as a language server reports it.
#[derive(Clone, Debug, PartialEq, Eq)]
pub struct Symbol {
    pub kind: SymbolKind,
    pub name: String,
}

/// The bytes from `start` up to, not including, `end`.
#[derive(Clone, Copy, Debug, PartialEq, Eq, Structural)]
pub struct Range {
    pub start: u32,
    pub end: u32,
}

/// Text that is shown as it is, highlighted as `highlight_name` says.
#[derive(Clone, Debug, PartialEq, Eq)]
pub struct CodeLabelSpanLiteral {
    pub text: String,
    pub highlight_name: Option<String>,
}

/// A part of a label that is shown.
#[derive(Clone, Debug, PartialEq, Eq)]
pub enum CodeLabelSpan {
    /// A part of the code, highlighted as the code is.
    CodeRange(Range),
    Literal(CodeLabelSpanLiteral),
}

/// What a [`CodeLabelSpan`] holds, as plain values.
pub enum CodeLabelSpanView {
    CodeRange(Range),
    Literal { text: Seq<char>, highlight_name: Option<Seq<char>> },
}

impl View for CodeLabelSpan {
    type V = CodeLabelSpanView;

    open spec fn view(&self) -> CodeLabelSpanView {
        match self {
            CodeLabelSpan::CodeRange(range) => CodeLabelSpanView::CodeRange(*range),
            CodeLabelSpan::Literal(literal) => CodeLabelSpanView::Literal {
                text: literal.text@,
                highlight_name: match literal.highlight_name {
                    Some(name) => Some(name@),
                    None => None,
                },
            },
        }
    }
}

/// A label: code to highlight, the parts to show, and the part to filter by.
#[derive(Clone, Debug, PartialEq, Eq)]
pub struct CodeLabel {
    pub code: String,
    pub spans: Vec<CodeLabelSpan>,
    pub filter_range: Range,
}

/// What a [`CodeLabel`] holds, as plain values.
pub struct CodeLabelView {
    pub code: Seq<char>,
    pub spans: Seq<CodeLabelSpanView>,
    pub filter_range: Range,
}

impl View for CodeLabel {
    type V = CodeLabelView;

    open spec fn view(&self) -> CodeLabelView {
        CodeLabelView {
            code: self.code@,
            spans: Seq::new(self.spans@.len(), |i: int| self.spans@[i]@),
            filter_range: self.filter_range,
        }
    }
}

/// The number of bytes the text takes in UTF-8.
pub open spec fn utf8_len(text: Seq<char>) -> nat {
    encode_utf8(text).len()
}

/// The range between two positions. A position beyond what 32 bits hold is cut down to its
/// low 32 bits.
pub open spec fn range_between(start: nat, end: nat) -> Range {
    Range { start: start as u32, end: end as u32 }
}

/// The part of a label's code that shows `text`, which begins at byte `start`.
pub open spec fn code_range(start: nat, text: Seq<char>) -> CodeLabelSpanView {
    CodeLabelSpanView::CodeRange(range_between(start, start + utf8_len(text)))
}

/// `text` between `before` and `after`, or nothing where there is no text.
pub open spec fn wrapped(before: Seq<char>, text: Option<Seq<char>>, after: Seq<char>) -> Seq<
    char,
> {
    match text {
        Some(text) => before + text + after,
        None => Seq::empty(),
    }
}

/// The label of a definition: `keyword` and `name`, of which the name is shown and filtered
/// by.
pub open spec fn definition_label(keyword: Seq<char>, name: Seq<char>) -> CodeLabelView {
    CodeLabelView {
        code: keyword + name,
        spans: seq![code_range(utf8_len(keyword), name)],
        filter_range: range_between(0, utf8_len(name)),
    }
}

/// The label of an operator: a definition with an operand on either side, of which the
/// operator is shown and filtered by.
pub open spec fn operator_label(name: Seq<char>) -> CodeLabelView {
    CodeLabelView {
        code: "def a "@ + name + " b"@,
        spans: seq![code_range(utf8_len("def a "@), name)],
        filter_range: range_between(0, utf8_len(name)),
    }
}

/// The bytes of two texts, one after the other, are the bytes of the texts one after the
/// other.
pub proof fn lemma_encode_concat(first: Seq<char>, second: Seq<char>)
    ensures
        encode_utf8(first + second) == encode_utf8(first) + encode_utf8(second),
        utf8_len(first + second) == utf8_len(first) + utf8_len(second),
    decreases first.len(),
{
    if first.len() == 0 {
        assert(first + second == second);
        assert(encode_utf8(first) + encode_utf8(second) == encode_utf8(second));
    } else {
        lemma_encode_concat(first.drop_first(), second);
        assert((first + second).drop_first() == first.drop_first() + second);
        assert((first + second)[0] == first[0]);
        assert(encode_utf8(first + second) == encode_utf8(first) + encode_utf8(second));
    }
}

/// The range of a definition's label that is shown holds the name: the bytes of the code
/// between the two positions are those of the name.
pub proof fn lemma_definition_shows_name(keyword: Seq<char>, name: Seq<char>)
    ensures
        utf8_len(keyword) + utf8_len(name) == utf8_len(definition_label(keyword, name).code),
        encode_utf8(definition_label(keyword, name).code).subrange(
            utf8_len(keyword) as int,
            (utf8_len(keyword) + utf8_len(name)) as int,
        ) == encode_utf8(name),
{
    lemma_encode_concat(keyword, name);
}

/// The number of bytes of the text.
pub fn byte_len(text: &str) -> (len: usize)
    ensures
        len == utf8_len(text@),
{
    text.as_bytes().len()
}

impl Range {
    /// The range between two positions.
    pub fn between(start: usize, end: usize) -> (range: Range)
        ensures
            range == range_between(start as nat, end as nat),
    {
        Range { start: start as u32, end: end as u32 }
    }
}

impl CodeLabelSpan {
    /// The part of a label's code from byte `start` up to, not including, byte `end`.
    pub fn code_range(start: usize, end: usize) -> (span: CodeLabelSpan)
        ensures
            span@ == CodeLabelSpanView::CodeRange(range_between(start as nat, end as nat)),
    {
        CodeLabelSpan::CodeRange(Range::between(start, end))
    }

    /// Text that is shown as it is.
    pub fn literal(text: String, highlight_name: Option<String>) -> (span: CodeLabelSpan)
        ensures
            span@ == (CodeLabelSpanView::Literal {
                text: text@,
                highlight_name: match highlight_name {
                    Some(name) => Some(name@),
                    None => None,
                },
            }),
    {
        CodeLabelSpan::Literal(CodeLabelSpanLiteral { text, highlight_name })
    }
}

/// `text` between `before` and `after`, or nothing where there is no text.
pub fn wrap(before: &str, text: &Option<String>, after: &str) -> (result: String)
    ensures
        result@ == wrapped(
            before@,
            match text {
                Some(text) => Some(text@),
                None => None,
            },
            after@,
        ),
{
    match text {
        Some(text) => crate::text::join3(before, text.as_str(), after),
        None => String::new(),
    }
}

/// The label of a definition: `keyword` and `name`, of which the name is shown and filtered
/// by.
pub fn definition(keyword: &str, name: &str) -> (label: CodeLabel)
    ensures
        label@ == definition_label(keyword@, name@),
{
    let code = crate::text::join2(keyword, name);
    let shown_from = byte_len(keyword);
    let name_len = byte_len(name);
    proof {
        lemma_encode_concat(keyword@, name@);
    }
    // The code is in memory, so its length fits a `usize`, and so does every position
    // in it.
    let _code_len = byte_len(code.as_str());
    let mut spans: Vec<CodeLabelSpan> = Vec::new();
    spans.push(CodeLabelSpan::code_range(shown_from, shown_from + name_len));
    let label = CodeLabel { code, spans, filter_range: Range::between(0, name_len) };
    assert(label@.spans =~= definition_label(keyword@, name@).spans);
    label
}

/// The label of an operator: a definition with an operand on either side, of which the
/// operator is shown and filtered by.
pub fn operator(name: &str) -> (label: CodeLabel)
    ensures
        label@ == operator_label(name@),
{
    let code = crate::text::join3("def a ", name, " b");
    let shown_from = byte_len("def a ");
    let name_len = byte_len(name);
    proof {
        lemma_encode_concat("def a "@, name@);
        lemma_encode_concat("def a "@ + name@, " b"@);
    }
    // The code is in memory, so its length fits a `usize`, and so does every position
    // in it.
    let _code_len = byte_len(code.as_str());
    let mut spans: Vec<CodeLabelSpan> = Vec::new();
    spans.push(CodeLabelSpan::code_range(shown_from, shown_from + name_len));
    let label = CodeLabel { code, spans, filter_range: Range::between(0, name_len) };
    assert(label@.spans =~= operator_label(name@).spans);
    label
}

} // verus!
