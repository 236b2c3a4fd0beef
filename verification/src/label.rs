//! Rendering of language-server completion items into editor code labels.
//!
//! A completion item carries a kind tag, a display label and an optional
//! detail string.  For the five handled kinds the renderer produces a code
//! label: a rendered code string, an ordered list of span annotations (copy
//! ranges into the code string, or independently styled literal text) and a
//! filter range used for fuzzy-match highlighting.  All ranges are byte
//! ranges into the UTF-8 encoding of the rendered code string; the filter
//! range always covers exactly the original label's bytes.

use vstd::prelude::*;
use vstd::string::StringExecFns;
use vstd::utf8::encode_utf8;

verus! {

/// The closed set of completion kinds the renderer distinguishes.  `Other`
/// stands for every kind the host may report beyond the named ones.
#[derive(Clone, Copy, Debug, PartialEq, Eq)]
pub enum CompletionKind {
    Class,
    Enum,
    Interface,
    Method,
    Variable,
    Function,
    Other,
}

/// A completion item as handed over by the language server: a kind tag (if
/// the server reported one), a display label, and an optional detail string
/// such as an import path.
#[derive(Clone, Debug)]
pub struct Completion {
    pub kind: Option<CompletionKind>,
    pub label: String,
    pub detail: Option<String>,
}

/// A half-open byte range `[start, end)`.
#[derive(Clone, Copy, Debug, PartialEq, Eq)]
pub struct ByteRange {
    pub start: usize,
    pub end: usize,
}

/// One span of a code label: either a copy of a byte range of the rendered
/// code string, or literal text that is styled independently and never
/// matched against the source.
#[derive(Clone, Debug, PartialEq)]
pub enum CodeLabelSpan {
    CodeRange(ByteRange),
    Literal(String),
}

/// A rendered completion label: the code string, the spans making up the
/// displayed text, and the byte range within `code` used for fuzzy-match
/// highlighting.
#[derive(Clone, Debug, PartialEq)]
pub struct CodeLabel {
    pub code: String,
    pub spans: Vec<CodeLabelSpan>,
    pub filter_range: ByteRange,
}

/// The byte length of a string: the length of its UTF-8 encoding.
pub fn byte_len(s: &str) -> (n: usize)
    ensures
        n == encode_utf8(s@).len(),
{
    s.as_bytes().len()
}

/// Holds when a span only references bytes below `n`, the length of the
/// rendered code string.
pub open spec fn span_in_bounds(s: CodeLabelSpan, n: nat) -> bool {
    match s {
        CodeLabelSpan::CodeRange(r) => r.start <= r.end && r.end <= n,
        CodeLabelSpan::Literal(_) => true,
    }
}

/// Holds when the copy ranges of the two spans, in the order given, do not
/// overlap and run left to right.
pub open spec fn spans_ordered(a: CodeLabelSpan, b: CodeLabelSpan) -> bool {
    match (a, b) {
        (CodeLabelSpan::CodeRange(r1), CodeLabelSpan::CodeRange(r2)) => r1.end <= r2.start,
        _ => true,
    }
}

/// Well-formedness of a code label: every byte offset referenced by a span
/// or by the filter range lies within the rendered code string, and copy
/// ranges appear in left-to-right order.
pub open spec fn code_label_wf(cl: CodeLabel) -> bool {
    let n = encode_utf8(cl.code@).len();
    &&& forall|i: int| 0 <= i < cl.spans@.len() ==> span_in_bounds(#[trigger] cl.spans@[i], n)
    &&& forall|i: int, j: int|
        0 <= i < j < cl.spans@.len() ==> spans_ordered(
            #[trigger] cl.spans@[i],
            #[trigger] cl.spans@[j],
        )
    &&& cl.filter_range.start <= cl.filter_range.end
    &&& cl.filter_range.end <= n
}

/// Holds exactly when the renderer produces a label for the item: the item
/// must carry one of the five handled kinds, and for class-like kinds a
/// detail string is mandatory.
pub open spec fn renders(c: Completion) -> bool {
    match c.kind {
        Some(CompletionKind::Class) | Some(CompletionKind::Enum) | Some(
            CompletionKind::Interface,
        ) => c.detail is Some,
        Some(CompletionKind::Method) | Some(CompletionKind::Variable) => true,
        _ => false,
    }
}

/// The label rendered for a class-like completion (class, enum, interface):
/// code is `"{label} variable"`, the label's bytes are copied, the import
/// detail is appended as independently styled literal text, and the filter
/// range covers the label's bytes.
pub open spec fn class_like_label(label: Seq<char>, detail: Seq<char>, cl: CodeLabel) -> bool {
    &&& cl.code@ == label + " variable"@
    &&& cl.spans@.len() == 2
    &&& cl.spans@[0] matches CodeLabelSpan::CodeRange(r) && r.start == 0 && r.end == encode_utf8(
        label,
    ).len()
    &&& cl.spans@[1] matches CodeLabelSpan::Literal(t) && t@ == " (import "@ + detail + ")"@
    &&& cl.filter_range.start == 0
    &&& cl.filter_range.end == encode_utf8(label).len()
}

/// The label rendered for a method completion: code is `"{label}()"`, one
/// span copies the whole rendered string, and the filter range covers the
/// label's bytes.
pub open spec fn method_label(label: Seq<char>, cl: CodeLabel) -> bool {
    &&& cl.code@ == label + "()"@
    &&& cl.spans@.len() == 1
    &&& cl.spans@[0] matches CodeLabelSpan::CodeRange(r) && r.start == 0 && r.end == encode_utf8(
        cl.code@,
    ).len()
    &&& cl.filter_range.start == 0
    &&& cl.filter_range.end == encode_utf8(label).len()
}

/// The label rendered for a variable completion: code is `"def {label}"`,
/// one span copies everything after the `"def "` prefix, and the filter
/// range covers the label's bytes.
pub open spec fn variable_label(label: Seq<char>, cl: CodeLabel) -> bool {
    &&& cl.code@ == "def "@ + label
    &&& cl.spans@.len() == 1
    &&& cl.spans@[0] matches CodeLabelSpan::CodeRange(r) && r.start == encode_utf8("def "@).len()
        && r.end == encode_utf8(cl.code@).len()
    &&& cl.filter_range.start == 0
    &&& cl.filter_range.end == encode_utf8(label).len()
}

/// Relates a completion item to the label rendered for it, by kind.
pub open spec fn label_spec(c: Completion, cl: CodeLabel) -> bool {
    match c.kind {
        Some(CompletionKind::Class) | Some(CompletionKind::Enum) | Some(
            CompletionKind::Interface,
        ) => c.detail matches Some(d) && class_like_label(c.label@, d@, cl),
        Some(CompletionKind::Method) => method_label(c.label@, cl),
        Some(CompletionKind::Variable) => variable_label(c.label@, cl),
        _ => false,
    }
}

/// The UTF-8 encoding of a concatenation is the concatenation of the
/// encodings.
proof fn lemma_encode_utf8_concat(a: Seq<char>, b: Seq<char>)
    ensures
        encode_utf8(a + b) == encode_utf8(a) + encode_utf8(b),
    decreases a.len(),
{
    if a.len() == 0 {
        assert(a + b =~= b);
        assert(encode_utf8(a) + encode_utf8(b) =~= encode_utf8(b));
    } else {
        assert((a + b).drop_first() =~= a.drop_first() + b);
        assert((a + b)[0] == a[0]);
        assert((a + b).len() > 0);
        lemma_encode_utf8_concat(a.drop_first(), b);
        assert(encode_utf8(a + b) =~= encode_utf8(a) + encode_utf8(b));
    }
}

/// For every rendered label, the filter range never reaches past the
/// original label's bytes, nor past the rendered code string's bytes, and
/// the label is well formed: every span and the filter range stay within
/// the rendered code string, with copy ranges in left-to-right order.
pub proof fn lemma_label_ranges_bounded(c: Completion, cl: CodeLabel)
    requires
        label_spec(c, cl),
    ensures
        cl.filter_range.start == 0,
        cl.filter_range.end <= encode_utf8(c.label@).len(),
        cl.filter_range.end <= encode_utf8(cl.code@).len(),
        code_label_wf(cl),
{
    match c.kind {
        Some(CompletionKind::Class) | Some(CompletionKind::Enum) | Some(
            CompletionKind::Interface,
        ) => {
            lemma_encode_utf8_concat(c.label@, " variable"@);
        },
        Some(CompletionKind::Method) => {
            lemma_encode_utf8_concat(c.label@, "()"@);
        },
        Some(CompletionKind::Variable) => {
            lemma_encode_utf8_concat("def "@, c.label@);
        },
        _ => {},
    }
}

/// Renders the editor label for a completion item, or `None` for any item
/// the renderer does not handle (unknown kind, or a class-like kind with no
/// detail), in which case the host falls back to its default rendering.
pub fn label_for_completion(completion: &Completion) -> (r: Option<CodeLabel>)
    ensures
        r is Some <==> renders(*completion),
        r matches Some(cl) ==> label_spec(*completion, cl),
{
    let kind = match completion.kind {
        Some(k) => k,
        None => {
            return None;
        },
    };
    match kind {
        CompletionKind::Class | CompletionKind::Enum | CompletionKind::Interface => {
            let detail = match &completion.detail {
                Some(d) => d,
                None => {
                    return None;
                },
            };
            let label_len: usize = byte_len(completion.label.as_str());
            let mut code = completion.label.clone();
            code.append(" variable");
            let mut literal: String = " (import ".to_owned();
            literal.append(detail.as_str());
            literal.append(")");
            proof {
                assert(literal@ =~= " (import "@ + detail@ + ")"@);
            }
            let mut spans: Vec<CodeLabelSpan> = Vec::new();
            spans.push(CodeLabelSpan::CodeRange(ByteRange { start: 0, end: label_len }));
            spans.push(CodeLabelSpan::Literal(literal));
            Some(
                CodeLabel {
                    code,
                    spans,
                    filter_range: ByteRange { start: 0, end: label_len },
                },
            )
        },
        CompletionKind::Method => {
            let label_len: usize = byte_len(completion.label.as_str());
            let mut code = completion.label.clone();
            code.append("()");
            let code_len: usize = byte_len(code.as_str());
            let mut spans: Vec<CodeLabelSpan> = Vec::new();
            spans.push(CodeLabelSpan::CodeRange(ByteRange { start: 0, end: code_len }));
            Some(
                CodeLabel {
                    code,
                    spans,
                    filter_range: ByteRange { start: 0, end: label_len },
                },
            )
        },
        CompletionKind::Variable => {
            let label_len: usize = byte_len(completion.label.as_str());
            let prefix: &str = "def ";
            let prefix_len: usize = byte_len(prefix);
            let mut code: String = prefix.to_owned();
            code.append(completion.label.as_str());
            let code_len: usize = byte_len(code.as_str());
            let mut spans: Vec<CodeLabelSpan> = Vec::new();
            spans.push(CodeLabelSpan::CodeRange(ByteRange { start: prefix_len, end: code_len }));
            Some(
                CodeLabel {
                    code,
                    spans,
                    filter_range: ByteRange { start: 0, end: label_len },
                },
            )
        },
        CompletionKind::Function | CompletionKind::Other => None,
    }
}

} // verus!
