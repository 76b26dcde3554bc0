//! Display labels for completions and symbols: a snippet of Swift code, the
//! spans of it that are shown, and the range of the shown text that a fuzzy
//! matcher scores against. All ranges are in bytes.
use vstd::prelude::*;
use vstd::utf8::encode_utf8;

use crate::language_server::SourceKitLsp;
use crate::text::{byte_count, byte_len, find_byte, first_index_of, lemma_byte_len_concat};

verus! {

/// The kind of a completion, as the language server reports it.
#[derive(Clone, Copy, Debug, PartialEq, Eq)]
pub enum CompletionKind {
    Text,
    Method,
    Function,
    Constructor,
    Field,
    Variable,
    Class,
    Interface,
    Module,
    Property,
    Unit,
    Value,
    Enum,
    Keyword,
    Snippet,
    Color,
    File,
    Reference,
    Folder,
    EnumMember,
    Constant,
    Struct,
    Event,
    Operator,
    TypeParameter,
    Other(i32),
}

/// The kind of a symbol, as the language server reports it.
#[derive(Clone, Copy, Debug, PartialEq, Eq)]
pub enum SymbolKind {
    File,
    Module,
    Namespace,
    Package,
    Class,
    Method,
    Property,
    Field,
    Constructor,
    Enum,
    Interface,
    Function,
    Variable,
    Constant,
    String,
    Number,
    Boolean,
    Array,
    Object,
    Key,
    Null,
    EnumMember,
    Struct,
    Event,
    Operator,
    TypeParameter,
    Other(i32),
}

/// A completion candidate: the text offered, an optional type or detail
/// text, and its kind.
pub struct Completion {
    pub label: String,
    pub detail: Option<String>,
    pub kind: Option<CompletionKind>,
}

/// A symbol of a document or workspace.
pub struct Symbol {
    pub kind: SymbolKind,
    pub name: String,
}

/// A half-open range of byte positions.
#[derive(Clone, Copy, Debug, PartialEq, Eq)]
pub struct ByteRange {
    pub start: usize,
    pub end: usize,
}

/// Literal text shown in a label, with an optional highlight name.
pub struct CodeLabelSpanLiteral {
    pub text: String,
    pub highlight_name: Option<String>,
}

/// One piece of a label's shown text.
pub enum CodeLabelSpan {
    /// The bytes of the label's code in this range.
    CodeRange(ByteRange),
    /// Text given directly.
    Literal(CodeLabelSpanLiteral),
}

/// A label: the code to highlight, the spans of it to show, and the range
/// of the shown text used for filtering.
pub struct CodeLabel {
    pub code: String,
    pub spans: Vec<CodeLabelSpan>,
    pub filter_range: ByteRange,
}

/// What a span stands for: a byte range of the code, or literal text with
/// an optional highlight name.
pub enum SpanModel {
    CodeRange(int, int),
    Literal(Seq<char>, Option<Seq<char>>),
}

/// What a label stands for.
pub struct LabelModel {
    pub code: Seq<char>,
    pub spans: Seq<SpanModel>,
    pub filter_start: int,
    pub filter_end: int,
}

pub open spec fn opt_text(s: Option<String>) -> Option<Seq<char>> {
    match s {
        Some(t) => Some(t@),
        None => None,
    }
}

impl View for CodeLabelSpan {
    type V = SpanModel;

    open spec fn view(&self) -> SpanModel {
        match self {
            CodeLabelSpan::CodeRange(r) => SpanModel::CodeRange(r.start as int, r.end as int),
            CodeLabelSpan::Literal(l) => SpanModel::Literal(l.text@, opt_text(l.highlight_name)),
        }
    }
}

impl View for CodeLabel {
    type V = LabelModel;

    open spec fn view(&self) -> LabelModel {
        LabelModel {
            code: self.code@,
            spans: self.spans@.map_values(|s: CodeLabelSpan| s@),
            filter_start: self.filter_range.start as int,
            filter_end: self.filter_range.end as int,
        }
    }
}

pub open spec fn opt_label(l: Option<CodeLabel>) -> Option<LabelModel> {
    match l {
        Some(x) => Some(x@),
        None => None,
    }
}

/// The keyword that opens the code of a symbol label of this kind, if the
/// kind has a label.
pub open spec fn symbol_keyword(kind: SymbolKind) -> Option<Seq<char>> {
    match kind {
        SymbolKind::Method | SymbolKind::Function => Some("func "@),
        SymbolKind::Variable | SymbolKind::Constant => Some("var/let "@),
        SymbolKind::Class => Some("class "@),
        SymbolKind::Struct => Some("struct "@),
        SymbolKind::Enum => Some("enum "@),
        _ => None,
    }
}

/// The label of a symbol: the keyword and the name, all of it shown,
/// filtered on the bytes of the name alone.
pub open spec fn symbol_label(kind: SymbolKind, name: Seq<char>) -> Option<LabelModel> {
    match symbol_keyword(kind) {
        Some(keyword) => Some(
            LabelModel {
                code: keyword + name,
                spans: seq![SpanModel::CodeRange(0, byte_len(keyword + name) as int)],
                filter_start: byte_len(keyword) as int,
                filter_end: byte_len(keyword + name) as int,
            },
        ),
        None => None,
    }
}

/// The byte of `(` in UTF-8.
pub const OPEN_PAREN: u8 = 0x28;

/// The byte position at which the filter range of a function or enum case
/// ends: the first `(` of the label, if any.
pub open spec fn paren_pos(label: Seq<char>) -> Option<int> {
    first_index_of(encode_utf8(label), OPEN_PAREN)
}

/// The text that a detail contributes after a prefix such as `" -> "`:
/// nothing when the detail is absent or empty.
pub open spec fn detail_suffix(prefix: Seq<char>, detail: Option<Seq<char>>) -> Seq<char> {
    match detail {
        Some(d) => if d.len() > 0 {
            prefix + d
        } else {
            Seq::empty()
        },
        None => Seq::empty(),
    }
}

/// A label whose code is `code`, of which the bytes from `start` to `end`
/// are shown, filtered on the first `filter_end` bytes of what is shown.
pub open spec fn code_label(code: Seq<char>, start: int, end: int, filter_end: int) -> LabelModel {
    LabelModel {
        code,
        spans: seq![SpanModel::CodeRange(start, end)],
        filter_start: 0,
        filter_end,
    }
}

/// A label with no code that shows `label` as literal text.
pub open spec fn literal_label(label: Seq<char>, highlight: Option<Seq<char>>) -> LabelModel {
    LabelModel {
        code: Seq::empty(),
        spans: seq![SpanModel::Literal(label, highlight)],
        filter_start: 0,
        filter_end: byte_len(label) as int,
    }
}

/// The label of a completion, or `None` where its kind has no label or the
/// label cannot be built from what was given.
pub open spec fn completion_label(
    label: Seq<char>,
    detail: Option<Seq<char>>,
    kind: Option<CompletionKind>,
) -> Option<LabelModel> {
    match kind {
        None => None,
        Some(k) => match k {
            CompletionKind::Class
            | CompletionKind::Interface
            | CompletionKind::Enum
            | CompletionKind::Struct => Some(literal_label(label, Some("type"@))),
            CompletionKind::Keyword => Some(literal_label(label, Some("keyword"@))),
            CompletionKind::Module => Some(literal_label(label, None)),
            CompletionKind::EnumMember => {
                let start = "enum Enum { case "@;
                Some(
                    code_label(
                        start + label + " }"@,
                        byte_len(start) as int,
                        (byte_len(start) + byte_len(label)) as int,
                        match paren_pos(label) {
                            Some(p) => p,
                            None => byte_len(label) as int,
                        },
                    ),
                )
            },
            CompletionKind::Function | CompletionKind::Method => match paren_pos(label) {
                Some(p) => {
                    let before_braces = "func "@ + label + detail_suffix(" -> "@, detail);
                    Some(
                        code_label(
                            before_braces + " {}"@,
                            byte_len("func "@) as int,
                            byte_len(before_braces) as int,
                            p,
                        ),
                    )
                },
                None => None,
            },
            CompletionKind::TypeParameter => match detail {
                Some(d) => {
                    let code = "typealias "@ + label + " = "@ + d;
                    Some(
                        code_label(
                            code,
                            byte_len("typealias "@) as int,
                            byte_len(code) as int,
                            byte_len(label) as int,
                        ),
                    )
                },
                None => None,
            },
            CompletionKind::Value => {
                let var = "var variable"@ + detail_suffix(": "@, detail) + " = "@;
                Some(
                    code_label(
                        var + label,
                        byte_len(var) as int,
                        byte_len(var + label) as int,
                        byte_len(label) as int,
                    ),
                )
            },
            CompletionKind::Variable => match detail {
                Some(d) => {
                    let code = "var "@ + label + ": "@ + d;
                    Some(
                        code_label(
                            code,
                            byte_len("var "@) as int,
                            byte_len(code) as int,
                            byte_len(label) as int,
                        ),
                    )
                },
                None => None,
            },
            _ => None,
        },
    }
}

/// The number of bytes that a span shows.
pub open spec fn span_len(s: SpanModel) -> int {
    match s {
        SpanModel::CodeRange(a, b) => b - a,
        SpanModel::Literal(t, _) => byte_len(t) as int,
    }
}

/// The number of bytes that a sequence of spans shows.
pub open spec fn shown_len(spans: Seq<SpanModel>) -> int
    decreases spans.len(),
{
    if spans.len() == 0 {
        0
    } else {
        shown_len(spans.drop_last()) + span_len(spans.last())
    }
}

/// Every code range lies within the code, and the filter range within the
/// text that the spans show.
pub open spec fn label_is_valid(l: LabelModel) -> bool {
    &&& forall|i: int|
        0 <= i < l.spans.len() ==> match #[trigger] l.spans[i] {
            SpanModel::CodeRange(a, b) => 0 <= a <= b <= byte_len(l.code),
            SpanModel::Literal(_, _) => true,
        }
    &&& 0 <= l.filter_start <= l.filter_end <= shown_len(l.spans)
}

/// The declaration keyword with which the code of a completion label of
/// this kind opens; empty for kinds whose label has no code.
pub open spec fn completion_keyword(kind: CompletionKind) -> Seq<char> {
    match kind {
        CompletionKind::EnumMember => "enum Enum { case "@,
        CompletionKind::Function | CompletionKind::Method => "func "@,
        CompletionKind::TypeParameter => "typealias "@,
        CompletionKind::Value | CompletionKind::Variable => "var "@,
        _ => Seq::empty(),
    }
}

/// The code opens with `keyword`, and no code range shows any of it.
pub open spec fn shows_no_keyword(l: LabelModel, keyword: Seq<char>) -> bool {
    &&& keyword.is_prefix_of(l.code)
    &&& forall|i: int|
        0 <= i < l.spans.len() ==> match #[trigger] l.spans[i] {
            SpanModel::CodeRange(a, _) => a >= byte_len(keyword),
            SpanModel::Literal(_, _) => true,
        }
}

proof fn lemma_paren_pos_bound(label: Seq<char>)
    ensures
        paren_pos(label) matches Some(p) ==> 0 <= p < byte_len(label),
{
    reveal(byte_len);
    let bytes = encode_utf8(label);
    if exists|i: int| 0 <= i < bytes.len() && bytes[i] == OPEN_PAREN {
        let i = choose|i: int| 0 <= i < bytes.len() && bytes[i] == OPEN_PAREN;
        assert(exists|c: int|
            0 <= c < bytes.len() && bytes[c] == OPEN_PAREN && forall|j: int|
                0 <= j < c ==> bytes[j] != OPEN_PAREN) by {
            lemma_first_exists(bytes, OPEN_PAREN, i);
        }
    }
}

proof fn lemma_first_exists(bytes: Seq<u8>, b: u8, i: int)
    requires
        0 <= i < bytes.len(),
        bytes[i] == b,
    ensures
        exists|c: int|
            0 <= c < bytes.len() && bytes[c] == b && forall|j: int| 0 <= j < c ==> bytes[j] != b,
    decreases i,
{
    if forall|j: int| 0 <= j < i ==> bytes[j] != b {
    } else {
        let j = choose|j: int| 0 <= j < i && bytes[j] == b;
        lemma_first_exists(bytes, b, j);
    }
}

proof fn lemma_prefix(a: Seq<char>, b: Seq<char>)
    ensures
        a.is_prefix_of(a + b),
{
    assert((a + b).subrange(0, a.len() as int) =~= a);
}

/// A label that shows the code from the end of `keyword` up to `end` is
/// valid and shows none of the keyword, where the code opens with the
/// keyword followed by at least `filter_end` bytes up to `end`.
proof fn lemma_code_label_valid(
    keyword: Seq<char>,
    rest: Seq<char>,
    end: int,
    filter_end: int,
)
    requires
        byte_len(keyword) <= end <= byte_len(keyword + rest),
        0 <= filter_end <= end - byte_len(keyword),
    ensures
        label_is_valid(code_label(keyword + rest, byte_len(keyword) as int, end, filter_end)),
        shows_no_keyword(
            code_label(keyword + rest, byte_len(keyword) as int, end, filter_end),
            keyword,
        ),
{
    let l = code_label(keyword + rest, byte_len(keyword) as int, end, filter_end);
    lemma_prefix(keyword, rest);
    assert(l.spans.drop_last() =~= Seq::<SpanModel>::empty());
    assert(shown_len(Seq::<SpanModel>::empty()) == 0);
}

/// Every completion label has its code ranges within its code and its
/// filter range within the text it shows, and no code range shows the
/// declaration keyword that opens the code.
pub proof fn lemma_completion_label_ranges(
    label: Seq<char>,
    detail: Option<Seq<char>>,
    kind: CompletionKind,
)
    ensures
        completion_label(label, detail, Some(kind)) matches Some(l) ==> label_is_valid(l)
            && shows_no_keyword(l, completion_keyword(kind)),
{
    match kind {
        CompletionKind::EnumMember => lemma_enum_member_label(label, detail),
        CompletionKind::Function | CompletionKind::Method => lemma_function_label(
            label,
            detail,
            kind,
        ),
        CompletionKind::TypeParameter => lemma_type_parameter_label(label, detail),
        CompletionKind::Value => lemma_value_label(label, detail),
        CompletionKind::Variable => lemma_variable_label(label, detail),
        _ => {
            let l = completion_label(label, detail, Some(kind));
            if l is Some {
                assert(l->0.spans.drop_last() =~= Seq::<SpanModel>::empty());
                assert(shown_len(Seq::<SpanModel>::empty()) == 0);
                assert(Seq::<char>::empty().is_prefix_of(l->0.code));
            }
        },
    }
}

/// A function or method label shows a return arrow exactly when a
/// non-empty detail is given: its code is `func <label> -> <detail> {}`
/// then, and `func <label> {}` otherwise.
pub proof fn lemma_function_return_arrow(
    label: Seq<char>,
    detail: Option<Seq<char>>,
    kind: CompletionKind,
)
    requires
        kind == CompletionKind::Function || kind == CompletionKind::Method,
        paren_pos(label) is Some,
    ensures
        completion_label(label, detail, Some(kind)) matches Some(l) && l.code
            == match detail {
            Some(d) => if d.len() > 0 {
                "func "@ + label + " -> "@ + d + " {}"@
            } else {
                "func "@ + label + " {}"@
            },
            None => "func "@ + label + " {}"@,
        },
{
    match detail {
        Some(d) => if d.len() > 0 {
            assert("func "@ + label + (" -> "@ + d) =~= "func "@ + label + " -> "@ + d);
        } else {
            assert("func "@ + label + Seq::<char>::empty() =~= "func "@ + label);
        },
        None => {
            assert("func "@ + label + Seq::<char>::empty() =~= "func "@ + label);
        },
    }
}

proof fn lemma_enum_member_label(label: Seq<char>, detail: Option<Seq<char>>)
    ensures
        completion_label(label, detail, Some(CompletionKind::EnumMember)) matches Some(l)
            ==> label_is_valid(l) && shows_no_keyword(l, "enum Enum { case "@),
{
    lemma_paren_pos_bound(label);
    let l = completion_label(label, detail, Some(CompletionKind::EnumMember))->0;
    let start = "enum Enum { case "@;
    lemma_byte_len_concat(start, label);
    lemma_byte_len_concat(start + label, " }"@);
    assert(start + label + " }"@ =~= start + (label + " }"@));
    lemma_byte_len_concat(label, " }"@);
    lemma_code_label_valid(
        start,
        label + " }"@,
        (byte_len(start) + byte_len(label)) as int,
        l.filter_end,
    );
}

proof fn lemma_function_label(label: Seq<char>, detail: Option<Seq<char>>, kind: CompletionKind)
    requires
        kind == CompletionKind::Function || kind == CompletionKind::Method,
    ensures
        completion_label(label, detail, Some(kind)) matches Some(l)
            ==> label_is_valid(l) && shows_no_keyword(l, "func "@),
{
    lemma_paren_pos_bound(label);
    let suffix = detail_suffix(" -> "@, detail);
    let before = "func "@ + label + suffix;
    lemma_byte_len_concat("func "@, label);
    lemma_byte_len_concat("func "@ + label, suffix);
    lemma_byte_len_concat(before, " {}"@);
    let rest = label + suffix + " {}"@;
    assert(before + " {}"@ =~= "func "@ + rest);
    if paren_pos(label) is Some {
        lemma_code_label_valid("func "@, rest, byte_len(before) as int, paren_pos(label)->0);
    }
}

proof fn lemma_type_parameter_label(label: Seq<char>, detail: Option<Seq<char>>)
    ensures
        completion_label(label, detail, Some(CompletionKind::TypeParameter)) matches Some(l)
            ==> label_is_valid(l) && shows_no_keyword(l, "typealias "@),
{
    if detail is Some {
        let d = detail->0;
        let rest = label + " = "@ + d;
        lemma_byte_len_concat("typealias "@, label);
        lemma_byte_len_concat("typealias "@ + label, " = "@);
        lemma_byte_len_concat("typealias "@ + label + " = "@, d);
        assert("typealias "@ + label + " = "@ + d =~= "typealias "@ + rest);
        lemma_code_label_valid(
            "typealias "@,
            rest,
            byte_len("typealias "@ + rest) as int,
            byte_len(label) as int,
        );
    }
}

proof fn lemma_variable_label(label: Seq<char>, detail: Option<Seq<char>>)
    ensures
        completion_label(label, detail, Some(CompletionKind::Variable)) matches Some(l)
            ==> label_is_valid(l) && shows_no_keyword(l, "var "@),
{
    if detail is Some {
        let d = detail->0;
        let rest = label + ": "@ + d;
        lemma_byte_len_concat("var "@, label);
        lemma_byte_len_concat("var "@ + label, ": "@);
        lemma_byte_len_concat("var "@ + label + ": "@, d);
        assert("var "@ + label + ": "@ + d =~= "var "@ + rest);
        lemma_code_label_valid("var "@, rest, byte_len("var "@ + rest) as int, byte_len(label) as int);
    }
}

proof fn lemma_value_label(label: Seq<char>, detail: Option<Seq<char>>)
    ensures
        completion_label(label, detail, Some(CompletionKind::Value)) matches Some(l)
            ==> label_is_valid(l) && shows_no_keyword(l, "var "@),
{
    let suffix = detail_suffix(": "@, detail);
    let var = "var variable"@ + suffix + " = "@;
    let l = completion_label(label, detail, Some(CompletionKind::Value))->0;
    assert("var variable"@ =~= "var "@ + "variable"@) by {
        reveal_strlit("var variable");
        reveal_strlit("var ");
        reveal_strlit("variable");
    }
    let rest = "variable"@ + suffix + " = "@ + label;
    assert(var + label =~= "var "@ + rest);
    lemma_byte_len_concat("var "@, "variable"@ + suffix + " = "@);
    assert(var =~= "var "@ + ("variable"@ + suffix + " = "@));
    lemma_byte_len_concat(var, label);
    lemma_byte_len_concat("var "@, rest);
    assert(l.spans.drop_last() =~= Seq::<SpanModel>::empty());
    assert(shown_len(Seq::<SpanModel>::empty()) == 0);
    lemma_prefix("var "@, rest);
}

/// A label with the given code, showing its bytes from `start` to `end`,
/// filtered on its first `filter_end` shown bytes.
fn make_code_label(code: String, start: usize, end: usize, filter_end: usize) -> (r: CodeLabel)
    ensures
        r@ == code_label(code@, start as int, end as int, filter_end as int),
{
    let spans = vec![CodeLabelSpan::CodeRange(ByteRange { start, end })];
    let r = CodeLabel { code, spans, filter_range: ByteRange { start: 0, end: filter_end } };
    assert(r@.spans =~= seq![SpanModel::CodeRange(start as int, end as int)]);
    r
}

/// A label with no code that shows `label` as literal text.
fn make_literal_label(label: String, highlight: Option<&str>) -> (r: CodeLabel)
    ensures
        r@ == literal_label(
            label@,
            match highlight {
                Some(h) => Some(h@),
                None => None,
            },
        ),
{
    let label_len = byte_count(label.as_str());
    let highlight_name = match highlight {
        Some(h) => Some(String::from_str(h)),
        None => None,
    };
    let span = CodeLabelSpan::Literal(CodeLabelSpanLiteral { text: label, highlight_name });
    let r = CodeLabel {
        code: String::new(),
        spans: vec![span],
        filter_range: ByteRange { start: 0, end: label_len },
    };
    assert(r@.spans =~= seq![SpanModel::Literal(label@, opt_text(highlight_name))]);
    r
}

/// Appends `prefix` and then `detail` to `s` when the detail is present and
/// not empty.
fn append_detail(s: &mut String, prefix: &str, detail: &Option<String>)
    ensures
        final(s)@ == old(s)@ + detail_suffix(prefix@, opt_text(*detail)),
{
    match detail {
        Some(d) => {
            if !d.as_str().is_empty() {
                s.append(prefix);
                s.append(d.as_str());
                assert(final(s)@ =~= old(s)@ + (prefix@ + d@));
            } else {
                assert(final(s)@ =~= old(s)@ + Seq::<char>::empty());
            }
        },
        None => {
            assert(final(s)@ =~= old(s)@ + Seq::<char>::empty());
        },
    }
}

/// A symbol label shows its whole code, and its filter range covers the
/// bytes of the name and nothing of the keyword before it.
pub proof fn lemma_symbol_filter_is_name(kind: SymbolKind, name: Seq<char>)
    ensures
        symbol_label(kind, name) matches Some(l) ==> {
            &&& l.code == symbol_keyword(kind)->0 + name
            &&& l.filter_start == byte_len(symbol_keyword(kind)->0)
            &&& l.filter_end == l.filter_start + byte_len(name)
            &&& l.filter_end == shown_len(l.spans)
        },
{
    if symbol_keyword(kind) is Some {
        let l = symbol_label(kind, name)->0;
        lemma_byte_len_concat(symbol_keyword(kind)->0, name);
        assert(l.spans.drop_last() =~= Seq::<SpanModel>::empty());
        assert(shown_len(Seq::<SpanModel>::empty()) == 0);
    }
}

/// A label whose code is `prefix` followed by `name`, shown whole and
/// filtered on the bytes of `name`.
fn keyword_label(prefix: &str, name: String) -> (r: CodeLabel)
    ensures
        r@ == (LabelModel {
            code: prefix@ + name@,
            spans: seq![SpanModel::CodeRange(0, byte_len(prefix@ + name@) as int)],
            filter_start: byte_len(prefix@) as int,
            filter_end: byte_len(prefix@ + name@) as int,
        }),
{
    let prefix_len = byte_count(prefix);
    let mut code = String::from_str(prefix);
    code.append(name.as_str());
    let code_len = byte_count(code.as_str());
    let spans = vec![CodeLabelSpan::CodeRange(ByteRange { start: 0, end: code_len })];
    let r = CodeLabel { code, spans, filter_range: ByteRange { start: prefix_len, end: code_len } };
    assert(r@.spans =~= seq![SpanModel::CodeRange(0, byte_len(prefix@ + name@) as int)]);
    r
}

impl SourceKitLsp {
    /// The label of a completion, or `None` where its kind has no label or
    /// the label cannot be built from what was given.
    pub fn label_for_completion(&self, completion: Completion) -> (r: Option<CodeLabel>)
        ensures
            opt_label(r) == completion_label(
                completion.label@,
                opt_text(completion.detail),
                completion.kind,
            ),
    {
        let kind = match completion.kind {
            Some(k) => k,
            None => return None,
        };
        let label = completion.label;
        let detail = completion.detail;
        let label_len = byte_count(label.as_str());
        match kind {
            CompletionKind::Class
            | CompletionKind::Interface
            | CompletionKind::Enum
            | CompletionKind::Struct => Some(make_literal_label(label, Some("type"))),
            CompletionKind::Keyword => Some(make_literal_label(label, Some("keyword"))),
            CompletionKind::Module => Some(make_literal_label(label, None)),
            CompletionKind::EnumMember => {
                let start = "enum Enum { case ";
                let start_len = byte_count(start);
                let filter_end = match find_byte(label.as_str().as_bytes(), OPEN_PAREN) {
                    Some(p) => p,
                    None => label_len,
                };
                let mut code = String::from_str(start);
                code.append(label.as_str());
                let end = byte_count(code.as_str());
                proof {
                    lemma_byte_len_concat(start@, label@);
                }
                code.append(" }");
                proof {
                    assert(code@ =~= start@ + label@ + " }"@);
                }
                Some(make_code_label(code, start_len, end, filter_end))
            },
            CompletionKind::Function | CompletionKind::Method => {
                let func = "func ";
                let paren = find_byte(label.as_str().as_bytes(), OPEN_PAREN);
                let filter_end = match paren {
                    Some(p) => p,
                    None => return None,
                };
                let mut code = String::from_str(func);
                code.append(label.as_str());
                append_detail(&mut code, " -> ", &detail);
                let end = byte_count(code.as_str());
                code.append(" {}");
                Some(make_code_label(code, byte_count(func), end, filter_end))
            },
            CompletionKind::TypeParameter => {
                let d = match detail {
                    Some(d) => d,
                    None => return None,
                };
                let typealias = "typealias ";
                let mut code = String::from_str(typealias);
                code.append(label.as_str());
                code.append(" = ");
                code.append(d.as_str());
                let end = byte_count(code.as_str());
                Some(make_code_label(code, byte_count(typealias), end, label_len))
            },
            CompletionKind::Value => {
                let mut code = String::from_str("var variable");
                append_detail(&mut code, ": ", &detail);
                code.append(" = ");
                let start = byte_count(code.as_str());
                code.append(label.as_str());
                let end = byte_count(code.as_str());
                Some(make_code_label(code, start, end, label_len))
            },
            CompletionKind::Variable => {
                let d = match detail {
                    Some(d) => d,
                    None => return None,
                };
                let var = "var ";
                let mut code = String::from_str(var);
                code.append(label.as_str());
                code.append(": ");
                code.append(d.as_str());
                let end = byte_count(code.as_str());
                Some(make_code_label(code, byte_count(var), end, label_len))
            },
            _ => None,
        }
    }

    /// The label of a symbol, or `None` for a kind that has no label.
    pub fn label_for_symbol(&self, symbol: Symbol) -> (r: Option<CodeLabel>)
        ensures
            opt_label(r) == symbol_label(symbol.kind, symbol.name@),
    {
        match symbol.kind {
            SymbolKind::Method | SymbolKind::Function => Some(keyword_label("func ", symbol.name)),
            SymbolKind::Variable | SymbolKind::Constant => Some(
                keyword_label("var/let ", symbol.name),
            ),
            SymbolKind::Class => Some(keyword_label("class ", symbol.name)),
            SymbolKind::Struct => Some(keyword_label("struct ", symbol.name)),
            SymbolKind::Enum => Some(keyword_label("enum ", symbol.name)),
            _ => None,
        }
    }
}

} // verus!
