//! Semantic highlighting: which kind of token each token and each syntax
//! node of a file gets.
use vstd::prelude::*;

use vstd::string::StringSliceAdditionalSpecFns;

use crate::base::{str_eq, FileId, TextRange};
use crate::client::ClientId;
use crate::decl::LuaDeclId;
use crate::reference::{local_entries, LuaReferenceIndex};
use crate::types::LuaType;

verus! {

/// The kinds of semantic tokens the server reports.
#[derive(Debug, Clone, Copy, PartialEq, Eq, Structural)]
pub enum SemanticTokenKind {
    Namespace,
    Type,
    Class,
    Enum,
    Parameter,
    Variable,
    Property,
    Function,
    Keyword,
    Modifier,
    Comment,
    String,
    Number,
    Regexp,
    Operator,
}

/// The modifiers of semantic tokens the server reports.
#[derive(Debug, Clone, Copy, PartialEq, Eq, Structural)]
pub enum SemanticTokenModifier {
    Declaration,
    Readonly,
    Async,
    Documentation,
    Modification,
    DefaultLibrary,
}

/// The kinds of lexical tokens that get a highlight of their own.
#[derive(Debug, Clone, Copy, PartialEq, Eq, Structural)]
pub enum TokenKind {
    TkLongString,
    TkString,
    TkAnd,
    TkBreak,
    TkDo,
    TkElse,
    TkElseIf,
    TkEnd,
    TkFor,
    TkFunction,
    TkGoto,
    TkIf,
    TkIn,
    TkNot,
    TkOr,
    TkRepeat,
    TkReturn,
    TkThen,
    TkUntil,
    TkWhile,
    TkPlus,
    TkMinus,
    TkMul,
    TkDiv,
    TkIDiv,
    TkDot,
    TkConcat,
    TkEq,
    TkGe,
    TkLe,
    TkNe,
    TkShl,
    TkShr,
    TkLt,
    TkGt,
    TkMod,
    TkPow,
    TkLen,
    TkBitAnd,
    TkBitOr,
    TkBitXor,
    TkLeftBrace,
    TkRightBrace,
    TkLeftBracket,
    TkRightBracket,
    TkComplex,
    TkInt,
    TkFloat,
    TkTagClass,
    TkTagEnum,
    TkTagInterface,
    TkTagAlias,
    TkTagModule,
    TkTagField,
    TkTagType,
    TkTagParam,
    TkTagReturn,
    TkTagOverload,
    TkTagGeneric,
    TkTagSee,
    TkTagDeprecated,
    TkTagAsync,
    TkTagCast,
    TkTagOther,
    TkTagReadonly,
    TkTagDiagnostic,
    TkTagMeta,
    TkTagVersion,
    TkTagAs,
    TkTagNodiscard,
    TkTagOperator,
    TkTagMapping,
    TkTagNamespace,
    TkTagUsing,
    TkTagSource,
    TkDocKeyOf,
    TkDocExtends,
    TkDocAs,
    TkDocIn,
    TkDocInfer,
    TkLocal,
    TkDocDetail,
    TkDocQuestion,
    TkDocVisibility,
    TkTagVisibility,
    TkDocVersionNumber,
    TkStringTemplateType,
    TkDocMatch,
    TkDocBoolean,
    TKDocPath,
    TkDocRegion,
    TkDocEndRegion,
    TkDocStart,
    Other,
}

/// The highlight of a token: the whole token, or `length` bytes at
/// `position`.
#[derive(Debug, Clone, Copy, PartialEq, Eq, Structural)]
pub enum TokenHighlight {
    Whole(SemanticTokenKind, Option<SemanticTokenModifier>),
    At {
        position: u32,
        length: u32,
        kind: SemanticTokenKind,
        modifier: SemanticTokenModifier,
    },
}

/// The highlight of a whole token of this kind, for every kind but the start
/// of a doc comment; `local` is a keyword except in Visual Studio Code.
pub open spec fn spec_token_kind_highlight(kind: TokenKind, client_id: ClientId) -> Option<
    (SemanticTokenKind, Option<SemanticTokenModifier>),
> {
    match kind {
        TokenKind::TkLongString | TokenKind::TkString => Some((SemanticTokenKind::String, None)),
        TokenKind::TkAnd | TokenKind::TkBreak | TokenKind::TkDo | TokenKind::TkElse | TokenKind::TkElseIf | TokenKind::TkEnd | TokenKind::TkFor | TokenKind::TkFunction | TokenKind::TkGoto | TokenKind::TkIf | TokenKind::TkIn | TokenKind::TkNot | TokenKind::TkOr | TokenKind::TkRepeat | TokenKind::TkReturn | TokenKind::TkThen | TokenKind::TkUntil | TokenKind::TkWhile => Some((SemanticTokenKind::Keyword, None)),
        TokenKind::TkPlus | TokenKind::TkMinus | TokenKind::TkMul | TokenKind::TkDiv | TokenKind::TkIDiv | TokenKind::TkDot | TokenKind::TkConcat | TokenKind::TkEq | TokenKind::TkGe | TokenKind::TkLe | TokenKind::TkNe | TokenKind::TkShl | TokenKind::TkShr | TokenKind::TkLt | TokenKind::TkGt | TokenKind::TkMod | TokenKind::TkPow | TokenKind::TkLen | TokenKind::TkBitAnd | TokenKind::TkBitOr | TokenKind::TkBitXor | TokenKind::TkLeftBrace | TokenKind::TkRightBrace | TokenKind::TkLeftBracket | TokenKind::TkRightBracket => Some((SemanticTokenKind::Operator, None)),
        TokenKind::TkComplex | TokenKind::TkInt | TokenKind::TkFloat => Some((SemanticTokenKind::Number, None)),
        TokenKind::TkTagClass | TokenKind::TkTagEnum | TokenKind::TkTagInterface | TokenKind::TkTagAlias | TokenKind::TkTagModule | TokenKind::TkTagField | TokenKind::TkTagType | TokenKind::TkTagParam | TokenKind::TkTagReturn | TokenKind::TkTagOverload | TokenKind::TkTagGeneric | TokenKind::TkTagSee | TokenKind::TkTagDeprecated | TokenKind::TkTagAsync | TokenKind::TkTagCast | TokenKind::TkTagOther | TokenKind::TkTagReadonly | TokenKind::TkTagDiagnostic | TokenKind::TkTagMeta | TokenKind::TkTagVersion | TokenKind::TkTagAs | TokenKind::TkTagNodiscard | TokenKind::TkTagOperator | TokenKind::TkTagMapping | TokenKind::TkTagNamespace | TokenKind::TkTagUsing | TokenKind::TkTagSource => Some((SemanticTokenKind::Keyword, Some(SemanticTokenModifier::Documentation))),
        TokenKind::TkDocKeyOf | TokenKind::TkDocExtends | TokenKind::TkDocAs | TokenKind::TkDocIn | TokenKind::TkDocInfer => Some((SemanticTokenKind::Keyword, None)),
        TokenKind::TkDocDetail => Some((SemanticTokenKind::Comment, None)),
        TokenKind::TkDocQuestion => Some((SemanticTokenKind::Operator, None)),
        TokenKind::TkDocVisibility | TokenKind::TkTagVisibility => Some((SemanticTokenKind::Keyword, Some(SemanticTokenModifier::Modification))),
        TokenKind::TkDocVersionNumber => Some((SemanticTokenKind::Number, None)),
        TokenKind::TkStringTemplateType => Some((SemanticTokenKind::String, None)),
        TokenKind::TkDocMatch | TokenKind::TkDocBoolean => Some((SemanticTokenKind::Keyword, None)),
        TokenKind::TKDocPath => Some((SemanticTokenKind::String, None)),
        TokenKind::TkDocRegion | TokenKind::TkDocEndRegion => Some((SemanticTokenKind::Keyword, None)),
        TokenKind::TkLocal => if client_id is VSCode {
            None
        } else {
            Some((SemanticTokenKind::Keyword, None))
        },
        _ => None,
    }
}

/// Numeric literals (integers, floats and complex numbers) and version
/// numbers in doc comments, and only they, are highlighted as numbers,
/// without modifier, in every editor.
pub proof fn lemma_number_tokens(kind: TokenKind, client_id: ClientId)
    ensures
        (kind is TkInt || kind is TkFloat || kind is TkComplex || kind is TkDocVersionNumber)
            ==> spec_token_kind_highlight(kind, client_id) == Some(
            (SemanticTokenKind::Number, None::<SemanticTokenModifier>),
        ),
        (spec_token_kind_highlight(kind, client_id) matches Some((k, _)) && k is Number) ==> (
        kind is TkInt || kind is TkFloat || kind is TkComplex || kind is TkDocVersionNumber),
{
}

/// String literals, string template types and paths in doc comments, and
/// only they, are highlighted as strings, without modifier, in every editor.
pub proof fn lemma_string_tokens(kind: TokenKind, client_id: ClientId)
    ensures
        (kind is TkString || kind is TkLongString || kind is TkStringTemplateType
            || kind is TKDocPath) ==> spec_token_kind_highlight(kind, client_id) == Some(
            (SemanticTokenKind::String, None::<SemanticTokenModifier>),
        ),
        (spec_token_kind_highlight(kind, client_id) matches Some((k, _)) && k is String) ==> (
        kind is TkString || kind is TkLongString || kind is TkStringTemplateType
            || kind is TKDocPath),
{
}

/// The Lua keywords are highlighted as keywords without modifier in every
/// editor; `local` too, except in Visual Studio Code, which highlights it
/// itself.
pub proof fn lemma_keyword_tokens(kind: TokenKind, client_id: ClientId)
    ensures
        (kind is TkAnd || kind is TkBreak || kind is TkDo || kind is TkElse || kind is TkElseIf
            || kind is TkEnd || kind is TkFor || kind is TkFunction || kind is TkGoto || kind is TkIf
            || kind is TkIn || kind is TkNot || kind is TkOr || kind is TkRepeat || kind is TkReturn
            || kind is TkThen || kind is TkUntil || kind is TkWhile) ==> spec_token_kind_highlight(
            kind,
            client_id,
        ) == Some((SemanticTokenKind::Keyword, None::<SemanticTokenModifier>)),
        kind is TkLocal ==> (spec_token_kind_highlight(kind, client_id) is None <==> client_id is VSCode),
        (kind is TkLocal && !(client_id is VSCode)) ==> spec_token_kind_highlight(kind, client_id)
            == Some((SemanticTokenKind::Keyword, None::<SemanticTokenModifier>)),
{
}

/// Arithmetic, comparison, bitwise and length operators, the dot, the
/// concatenation and the braces and brackets, and the `?` of doc comments,
/// and only they, are highlighted as operators, without modifier.
pub proof fn lemma_operator_tokens(kind: TokenKind, client_id: ClientId)
    ensures
        (kind is TkPlus || kind is TkMinus || kind is TkMul || kind is TkDiv || kind is TkIDiv
            || kind is TkDot || kind is TkConcat || kind is TkEq || kind is TkGe || kind is TkLe
            || kind is TkNe || kind is TkShl || kind is TkShr || kind is TkLt || kind is TkGt
            || kind is TkMod || kind is TkPow || kind is TkLen || kind is TkBitAnd || kind is TkBitOr
            || kind is TkBitXor || kind is TkLeftBrace || kind is TkRightBrace
            || kind is TkLeftBracket || kind is TkRightBracket || kind is TkDocQuestion)
            <==> spec_token_kind_highlight(kind, client_id) == Some(
            (SemanticTokenKind::Operator, None::<SemanticTokenModifier>),
        ),
{
}

/// Doc tags, and only they, are highlighted as keywords of documentation;
/// visibility words, and only they, as keywords of modification; the
/// details of doc comments, and only they, as comments.
pub proof fn lemma_doc_tokens(kind: TokenKind, client_id: ClientId)
    ensures
        (kind is TkTagClass || kind is TkTagEnum || kind is TkTagInterface || kind is TkTagAlias
            || kind is TkTagModule || kind is TkTagField || kind is TkTagType || kind is TkTagParam
            || kind is TkTagReturn || kind is TkTagOverload || kind is TkTagGeneric
            || kind is TkTagSee || kind is TkTagDeprecated || kind is TkTagAsync || kind is TkTagCast
            || kind is TkTagOther || kind is TkTagReadonly || kind is TkTagDiagnostic
            || kind is TkTagMeta || kind is TkTagVersion || kind is TkTagAs || kind is TkTagNodiscard
            || kind is TkTagOperator || kind is TkTagMapping || kind is TkTagNamespace
            || kind is TkTagUsing || kind is TkTagSource) <==> spec_token_kind_highlight(
            kind,
            client_id,
        ) == Some((SemanticTokenKind::Keyword, Some(SemanticTokenModifier::Documentation))),
        (kind is TkDocVisibility || kind is TkTagVisibility) <==> spec_token_kind_highlight(
            kind,
            client_id,
        ) == Some((SemanticTokenKind::Keyword, Some(SemanticTokenModifier::Modification))),
        kind is TkDocDetail <==> spec_token_kind_highlight(kind, client_id) == Some(
            (SemanticTokenKind::Comment, None::<SemanticTokenModifier>),
        ),
{
}

/// The highlight of a token does not depend on the editor, but for `local`.
pub proof fn lemma_highlight_same_in_every_editor(kind: TokenKind, a: ClientId, b: ClientId)
    requires
        !(kind is TkLocal),
    ensures
        spec_token_kind_highlight(kind, a) == spec_token_kind_highlight(kind, b),
{
}

/// The index of the first `@` byte, or 0 when there is none.
pub open spec fn first_at_byte(bytes: Seq<u8>) -> int {
    if exists|i: int| 0 <= i < bytes.len() && bytes[i] == 0x40u8 {
        choose|i: int|
            0 <= i < bytes.len() && bytes[i] == 0x40u8 && forall|j: int|
                0 <= j < i ==> bytes[j] != 0x40u8
    } else {
        0
    }
}

/// Where the text has an `@`, the offset is that of the first one: the byte
/// there is `@` and none before it is.
pub proof fn lemma_first_at_byte_is_first_at(bytes: Seq<u8>)
    ensures
        0 <= first_at_byte(bytes) <= bytes.len(),
        (exists|i: int| 0 <= i < bytes.len() && bytes[i] == 0x40u8) ==> {
            &&& first_at_byte(bytes) < bytes.len()
            &&& bytes[first_at_byte(bytes)] == 0x40u8
            &&& forall|j: int| 0 <= j < first_at_byte(bytes) ==> bytes[j] != 0x40u8
        },
        !(exists|i: int| 0 <= i < bytes.len() && bytes[i] == 0x40u8) ==> first_at_byte(bytes) == 0,
{
    if exists|i: int| 0 <= i < bytes.len() && bytes[i] == 0x40u8 {
        let i = choose|i: int| 0 <= i < bytes.len() && bytes[i] == 0x40u8;
        lemma_a_first_at_exists(bytes, i);
    }
}

/// If some byte is `@`, one is first.
proof fn lemma_a_first_at_exists(bytes: Seq<u8>, i: int)
    requires
        0 <= i < bytes.len(),
        bytes[i] == 0x40u8,
    ensures
        exists|k: int|
            0 <= k < bytes.len() && bytes[k] == 0x40u8 && forall|j: int| 0 <= j < k ==> bytes[j] != 0x40u8,
    decreases i,
{
    if exists|j: int| 0 <= j < i && bytes[j] == 0x40u8 {
        let j = choose|j: int| 0 <= j < i && bytes[j] == 0x40u8;
        lemma_a_first_at_exists(bytes, j);
    } else {
        assert(forall|j: int| 0 <= j < i ==> bytes[j] != 0x40u8);
    }
}

/// The byte offset of the first `@` in `text`, or 0 when there is none.
pub fn find_at_offset(text: &str) -> (r: usize)
    ensures
        r == first_at_byte(text.spec_bytes()),
        r <= text.spec_bytes().len(),
{
    let bytes = text.as_bytes();
    let mut i: usize = 0;
    while i < bytes.len()
        invariant
            0 <= i <= bytes@.len(),
            bytes@ == text.spec_bytes(),
            forall|j: int| 0 <= j < i ==> bytes@[j] != 0x40u8,
        decreases bytes@.len() - i,
    {
        if bytes[i] == 0x40u8 {
            proof {
                let w = choose|k: int|
                    0 <= k < bytes@.len() && bytes@[k] == 0x40u8 && forall|j: int|
                        0 <= j < k ==> bytes@[j] != 0x40u8;
                assert(0 <= i < bytes@.len() && bytes@[i as int] == 0x40u8);
                assert(w == i) by {
                    if w < i {
                        assert(bytes@[w] != 0x40u8);
                    } else if w > i {
                        assert(bytes@[i as int] != 0x40u8);
                    }
                }
            }
            return i;
        }
        i = i + 1;
    }
    0
}

/// The highlight of a token of kind `kind` whose text is `text` and that
/// starts at `start`. The start of a doc comment gets its `@` highlighted.
pub fn build_tokens_semantic_token(
    kind: TokenKind,
    text: &str,
    start: u32,
    client_id: ClientId,
) -> (r: Option<TokenHighlight>)
    requires
        start + text.spec_bytes().len() <= u32::MAX,
    ensures
        kind is TkDocStart ==> r == Some(
            TokenHighlight::At {
                position: (start + first_at_byte(text.spec_bytes())) as u32,
                length: 1,
                kind: SemanticTokenKind::Keyword,
                modifier: SemanticTokenModifier::Documentation,
            },
        ),
        !(kind is TkDocStart) ==> r == match spec_token_kind_highlight(kind, client_id) {
            Some((k, m)) => Some(TokenHighlight::Whole(k, m)),
            None => None,
        },
{
    match kind {
        TokenKind::TkLongString | TokenKind::TkString => Some(TokenHighlight::Whole(SemanticTokenKind::String, None)),
        TokenKind::TkAnd | TokenKind::TkBreak | TokenKind::TkDo | TokenKind::TkElse | TokenKind::TkElseIf | TokenKind::TkEnd | TokenKind::TkFor | TokenKind::TkFunction | TokenKind::TkGoto | TokenKind::TkIf | TokenKind::TkIn | TokenKind::TkNot | TokenKind::TkOr | TokenKind::TkRepeat | TokenKind::TkReturn | TokenKind::TkThen | TokenKind::TkUntil | TokenKind::TkWhile => Some(TokenHighlight::Whole(SemanticTokenKind::Keyword, None)),
        TokenKind::TkPlus | TokenKind::TkMinus | TokenKind::TkMul | TokenKind::TkDiv | TokenKind::TkIDiv | TokenKind::TkDot | TokenKind::TkConcat | TokenKind::TkEq | TokenKind::TkGe | TokenKind::TkLe | TokenKind::TkNe | TokenKind::TkShl | TokenKind::TkShr | TokenKind::TkLt | TokenKind::TkGt | TokenKind::TkMod | TokenKind::TkPow | TokenKind::TkLen | TokenKind::TkBitAnd | TokenKind::TkBitOr | TokenKind::TkBitXor | TokenKind::TkLeftBrace | TokenKind::TkRightBrace | TokenKind::TkLeftBracket | TokenKind::TkRightBracket => Some(TokenHighlight::Whole(SemanticTokenKind::Operator, None)),
        TokenKind::TkComplex | TokenKind::TkInt | TokenKind::TkFloat => Some(TokenHighlight::Whole(SemanticTokenKind::Number, None)),
        TokenKind::TkTagClass | TokenKind::TkTagEnum | TokenKind::TkTagInterface | TokenKind::TkTagAlias | TokenKind::TkTagModule | TokenKind::TkTagField | TokenKind::TkTagType | TokenKind::TkTagParam | TokenKind::TkTagReturn | TokenKind::TkTagOverload | TokenKind::TkTagGeneric | TokenKind::TkTagSee | TokenKind::TkTagDeprecated | TokenKind::TkTagAsync | TokenKind::TkTagCast | TokenKind::TkTagOther | TokenKind::TkTagReadonly | TokenKind::TkTagDiagnostic | TokenKind::TkTagMeta | TokenKind::TkTagVersion | TokenKind::TkTagAs | TokenKind::TkTagNodiscard | TokenKind::TkTagOperator | TokenKind::TkTagMapping | TokenKind::TkTagNamespace | TokenKind::TkTagUsing | TokenKind::TkTagSource => Some(TokenHighlight::Whole(SemanticTokenKind::Keyword, Some(SemanticTokenModifier::Documentation))),
        TokenKind::TkDocKeyOf | TokenKind::TkDocExtends | TokenKind::TkDocAs | TokenKind::TkDocIn | TokenKind::TkDocInfer => Some(TokenHighlight::Whole(SemanticTokenKind::Keyword, None)),
        TokenKind::TkDocDetail => Some(TokenHighlight::Whole(SemanticTokenKind::Comment, None)),
        TokenKind::TkDocQuestion => Some(TokenHighlight::Whole(SemanticTokenKind::Operator, None)),
        TokenKind::TkDocVisibility | TokenKind::TkTagVisibility => Some(TokenHighlight::Whole(SemanticTokenKind::Keyword, Some(SemanticTokenModifier::Modification))),
        TokenKind::TkDocVersionNumber => Some(TokenHighlight::Whole(SemanticTokenKind::Number, None)),
        TokenKind::TkStringTemplateType => Some(TokenHighlight::Whole(SemanticTokenKind::String, None)),
        TokenKind::TkDocMatch | TokenKind::TkDocBoolean => Some(TokenHighlight::Whole(SemanticTokenKind::Keyword, None)),
        TokenKind::TKDocPath => Some(TokenHighlight::Whole(SemanticTokenKind::String, None)),
        TokenKind::TkDocRegion | TokenKind::TkDocEndRegion => Some(TokenHighlight::Whole(SemanticTokenKind::Keyword, None)),
        TokenKind::TkLocal => {
            if !client_id.is_vscode() {
                Some(TokenHighlight::Whole(SemanticTokenKind::Keyword, None))
            } else {
                None
            }
        },
        TokenKind::TkDocStart => {
            let offset = find_at_offset(text);
            let position = start + offset as u32;
            Some(
                TokenHighlight::At {
                    position,
                    length: 1,
                    kind: SemanticTokenKind::Keyword,
                    modifier: SemanticTokenModifier::Documentation,
                },
            )
        },
        _ => None,
    }
}

} // verus!

verus! {

/// One token to highlight: its range, kind and modifier.
pub type TokenPush = (TextRange, SemanticTokenKind, Option<SemanticTokenModifier>);

/// What the prefix of a call is, as far as its highlight depends on it.
#[derive(Debug)]
pub enum CallPrefix {
    /// A name: `name` is its token; the other fields tell whether the
    /// prefix has a signature type, whether the name's range is among the
    /// references to local declarations, and whether a global declaration of
    /// that name exists.
    NameExpr {
        name: Option<TextRange>,
        is_signature: bool,
        in_local_references: bool,
        has_global_decl: bool,
    },
    /// An index expression: `name` is the token of the index.
    IndexExpr { name: Option<TextRange> },
    /// Any other prefix, or none.
    Other,
}

/// What a syntax node holds, as far as its highlights depend on it. Names
/// are given by the ranges of their tokens, `None` where the node has none.
#[derive(Debug)]
pub enum NodeInfo {
    DocTagClass {
        name: Option<TextRange>,
        attribs: Vec<TextRange>,
        generic_names: Vec<Option<TextRange>>,
    },
    DocTagEnum { name: Option<TextRange>, attribs: Vec<TextRange> },
    DocTagAlias { name: Option<TextRange> },
    /// `name_key` is the key of the field when it is a name.
    DocTagField { name_key: Option<TextRange> },
    DocTagDiagnostic { action: Option<TextRange>, codes: Vec<TextRange> },
    DocTagParam { name: Option<TextRange> },
    DocTagReturn { names: Vec<Option<TextRange>> },
    DocTagCast { name: Option<TextRange> },
    /// `decls` is `None` when the tag has no list of generic declarations.
    DocTagGeneric { decls: Option<Vec<Option<TextRange>>> },
    DocTagNamespace { name: Option<TextRange> },
    DocTagUsing { name: Option<TextRange> },
    ParamName { name: Option<TextRange> },
    /// `is_class_def` tells whether the declaration's type is a class definition.
    LocalName { name: Option<TextRange>, is_class_def: bool },
    NameExpr { name: Option<TextRange>, is_class_def: bool },
    ForRangeStat { names: Vec<TextRange> },
    ForStat { name: Option<TextRange> },
    LocalFuncStat { name: Option<TextRange> },
    /// `name` is the name token, or the index token when the name is indexed.
    FuncStat { name: Option<TextRange> },
    /// The name tokens of the index expressions under the statement, in order.
    LocalStat { index_names: Vec<Option<TextRange>> },
    LocalAttribute { name: Option<TextRange> },
    CallExpr { prefix: CallPrefix },
    DocNameType { name: Option<(TextRange, String)> },
    /// The tokens of the fields whose key is a name.
    DocObjectType { field_names: Vec<Option<TextRange>> },
    /// The name tokens with their text, and the name tokens of the parameters.
    DocFuncType { name_tokens: Vec<(TextRange, String)>, params: Vec<Option<TextRange>> },
    IndexExpr { name: Option<TextRange> },
    Other,
}

/// Each range with the given kind and modifier.
pub open spec fn all_with(
    ranges: Seq<TextRange>,
    k: SemanticTokenKind,
    m: Option<SemanticTokenModifier>,
) -> Seq<TokenPush> {
    ranges.map_values(|r: TextRange| (r, k, m))
}

/// Each present range, in order, with the given kind and modifier.
pub open spec fn somes_with(
    ranges: Seq<Option<TextRange>>,
    k: SemanticTokenKind,
    m: Option<SemanticTokenModifier>,
) -> Seq<TokenPush>
    decreases ranges.len(),
{
    if ranges.len() == 0 {
        Seq::empty()
    } else {
        let before = somes_with(ranges.drop_last(), k, m);
        match ranges.last() {
            Some(r) => before.push((r, k, m)),
            None => before,
        }
    }
}

/// The number of ranges present before the first missing one.
pub open spec fn present_prefix_len(ranges: Seq<Option<TextRange>>) -> int
    decreases ranges.len(),
{
    if ranges.len() == 0 {
        0
    } else if ranges[0] is None {
        0
    } else {
        1 + present_prefix_len(ranges.drop_first())
    }
}

/// The ranges before the first missing one, with the given kind and modifier.
pub open spec fn until_none_with(
    ranges: Seq<Option<TextRange>>,
    k: SemanticTokenKind,
    m: Option<SemanticTokenModifier>,
) -> Seq<TokenPush> {
    somes_with(ranges.take(present_prefix_len(ranges)), k, m)
}

/// `fun` is a keyword, `async` an async keyword; other names get nothing.
pub open spec fn func_keyword_pushes(tokens: Seq<(TextRange, String)>) -> Seq<TokenPush>
    decreases tokens.len(),
{
    if tokens.len() == 0 {
        Seq::empty()
    } else {
        let before = func_keyword_pushes(tokens.drop_last());
        let (r, text) = tokens.last();
        if text@ == "fun"@ {
            before.push((r, SemanticTokenKind::Keyword, None))
        } else if text@ == "async"@ {
            before.push((r, SemanticTokenKind::Keyword, Some(SemanticTokenModifier::Async)))
        } else {
            before
        }
    }
}

/// One push, when the range is present.
pub open spec fn one_push(
    name: Option<TextRange>,
    k: SemanticTokenKind,
    m: Option<SemanticTokenModifier>,
) -> Seq<TokenPush> {
    match name {
        Some(r) => seq![(r, k, m)],
        None => Seq::empty(),
    }
}

/// The highlights a syntax node gives, in order.
pub open spec fn spec_node_pushes(node: NodeInfo) -> Seq<TokenPush> {
    match node {
        NodeInfo::DocTagClass { name, attribs, generic_names } => match name {
            Some(n) => seq![(n, SemanticTokenKind::Class, Some(SemanticTokenModifier::Declaration))]
                + all_with(attribs@, SemanticTokenKind::Modifier, None) + somes_with(
                generic_names@,
                SemanticTokenKind::Class,
                Some(SemanticTokenModifier::Declaration),
            ),
            None => Seq::empty(),
        },
        NodeInfo::DocTagEnum { name, attribs } => match name {
            Some(n) => seq![(n, SemanticTokenKind::Enum, None)] + all_with(
                attribs@,
                SemanticTokenKind::Modifier,
                None,
            ),
            None => Seq::empty(),
        },
        NodeInfo::DocTagAlias { name } => one_push(name, SemanticTokenKind::Type, None),
        NodeInfo::DocTagField { name_key } => one_push(name_key, SemanticTokenKind::Property, None),
        NodeInfo::DocTagDiagnostic { action, codes } => match action {
            Some(a) => seq![(a, SemanticTokenKind::Property, None)] + all_with(
                codes@,
                SemanticTokenKind::Regexp,
                None,
            ),
            None => Seq::empty(),
        },
        NodeInfo::DocTagParam { name } => one_push(name, SemanticTokenKind::Parameter, None),
        NodeInfo::DocTagReturn { names } => somes_with(names@, SemanticTokenKind::Variable, None),
        NodeInfo::DocTagCast { name } => one_push(name, SemanticTokenKind::Variable, None),
        NodeInfo::DocTagGeneric { decls } => match decls {
            Some(d) => somes_with(
                d@,
                SemanticTokenKind::Type,
                Some(SemanticTokenModifier::Declaration),
            ),
            None => Seq::empty(),
        },
        NodeInfo::DocTagNamespace { name } => one_push(name, SemanticTokenKind::Namespace, None),
        NodeInfo::DocTagUsing { name } => one_push(name, SemanticTokenKind::Namespace, None),
        NodeInfo::ParamName { name } => one_push(name, SemanticTokenKind::Parameter, None),
        NodeInfo::LocalName { name, is_class_def } => one_push(
            name,
            if is_class_def {
                SemanticTokenKind::Class
            } else {
                SemanticTokenKind::Variable
            },
            None,
        ),
        NodeInfo::NameExpr { name, is_class_def } => one_push(
            name,
            if is_class_def {
                SemanticTokenKind::Class
            } else {
                SemanticTokenKind::Variable
            },
            None,
        ),
        NodeInfo::ForRangeStat { names } => all_with(names@, SemanticTokenKind::Variable, None),
        NodeInfo::ForStat { name } => one_push(name, SemanticTokenKind::Variable, None),
        NodeInfo::LocalFuncStat { name } => one_push(name, SemanticTokenKind::Function, None),
        NodeInfo::FuncStat { name } => one_push(name, SemanticTokenKind::Function, None),
        NodeInfo::LocalStat { index_names } => until_none_with(
            index_names@,
            SemanticTokenKind::Property,
            None,
        ),
        NodeInfo::LocalAttribute { name } => one_push(name, SemanticTokenKind::Keyword, None),
        NodeInfo::CallExpr { prefix } => match prefix {
            CallPrefix::NameExpr { name, is_signature, in_local_references, has_global_decl } =>
                one_push(
                name,
                SemanticTokenKind::Function,
                if is_signature && !in_local_references && has_global_decl {
                    Some(SemanticTokenModifier::DefaultLibrary)
                } else {
                    None
                },
            ),
            CallPrefix::IndexExpr { name } => one_push(name, SemanticTokenKind::Function, None),
            CallPrefix::Other => Seq::empty(),
        },
        NodeInfo::DocNameType { name } => match name {
            Some((r, text)) => if text@ == "self"@ {
                seq![(r, SemanticTokenKind::Type, Some(SemanticTokenModifier::Readonly))]
            } else {
                seq![(r, SemanticTokenKind::Type, None)]
            },
            None => Seq::empty(),
        },
        NodeInfo::DocObjectType { field_names } => somes_with(
            field_names@,
            SemanticTokenKind::Property,
            None,
        ),
        NodeInfo::DocFuncType { name_tokens, params } => func_keyword_pushes(name_tokens@)
            + until_none_with(params@, SemanticTokenKind::Parameter, None),
        NodeInfo::IndexExpr { name } => one_push(name, SemanticTokenKind::Property, None),
        NodeInfo::Other => Seq::empty(),
    }
}

/// The highlights are the one of the name, with kind `k` and modifier `m`,
/// when the name is there, and none otherwise.
pub open spec fn highlights_name_as(
    pushes: Seq<TokenPush>,
    name: Option<TextRange>,
    k: SemanticTokenKind,
    m: Option<SemanticTokenModifier>,
) -> bool {
    match name {
        Some(r) => pushes == seq![(r, k, m)],
        None => pushes.len() == 0,
    }
}

/// Names are highlighted by their role: function names as functions,
/// parameters as parameters, local variables and loop variables as
/// variables (a local holding a class definition as a class), aliases as
/// types, namespaces as namespaces, fields and indexed names as properties,
/// attributes as keywords; a node without its name highlights nothing.
pub proof fn lemma_names_highlighted_by_role(node: NodeInfo)
    ensures
        node matches NodeInfo::FuncStat { name } ==> highlights_name_as(
            spec_node_pushes(node),
            name,
            SemanticTokenKind::Function,
            None,
        ),
        node matches NodeInfo::LocalFuncStat { name } ==> highlights_name_as(
            spec_node_pushes(node),
            name,
            SemanticTokenKind::Function,
            None,
        ),
        node matches NodeInfo::ParamName { name } ==> highlights_name_as(
            spec_node_pushes(node),
            name,
            SemanticTokenKind::Parameter,
            None,
        ),
        node matches NodeInfo::DocTagParam { name } ==> highlights_name_as(
            spec_node_pushes(node),
            name,
            SemanticTokenKind::Parameter,
            None,
        ),
        node matches NodeInfo::LocalName { name, is_class_def } ==> highlights_name_as(
            spec_node_pushes(node),
            name,
            if is_class_def {
                SemanticTokenKind::Class
            } else {
                SemanticTokenKind::Variable
            },
            None,
        ),
        node matches NodeInfo::NameExpr { name, is_class_def } ==> highlights_name_as(
            spec_node_pushes(node),
            name,
            if is_class_def {
                SemanticTokenKind::Class
            } else {
                SemanticTokenKind::Variable
            },
            None,
        ),
        node matches NodeInfo::ForStat { name } ==> highlights_name_as(
            spec_node_pushes(node),
            name,
            SemanticTokenKind::Variable,
            None,
        ),
        node matches NodeInfo::DocTagCast { name } ==> highlights_name_as(
            spec_node_pushes(node),
            name,
            SemanticTokenKind::Variable,
            None,
        ),
        node matches NodeInfo::DocTagAlias { name } ==> highlights_name_as(
            spec_node_pushes(node),
            name,
            SemanticTokenKind::Type,
            None,
        ),
        node matches NodeInfo::DocTagNamespace { name } ==> highlights_name_as(
            spec_node_pushes(node),
            name,
            SemanticTokenKind::Namespace,
            None,
        ),
        node matches NodeInfo::DocTagUsing { name } ==> highlights_name_as(
            spec_node_pushes(node),
            name,
            SemanticTokenKind::Namespace,
            None,
        ),
        node matches NodeInfo::DocTagField { name_key } ==> highlights_name_as(
            spec_node_pushes(node),
            name_key,
            SemanticTokenKind::Property,
            None,
        ),
        node matches NodeInfo::IndexExpr { name } ==> highlights_name_as(
            spec_node_pushes(node),
            name,
            SemanticTokenKind::Property,
            None,
        ),
        node matches NodeInfo::LocalAttribute { name } ==> highlights_name_as(
            spec_node_pushes(node),
            name,
            SemanticTokenKind::Keyword,
            None,
        ),
        node is Other ==> spec_node_pushes(node).len() == 0,
{
}

/// The name of a called function is highlighted as a function; it is
/// marked as part of the standard library exactly when its prefix has a
/// signature, it refers to no local declaration and a global declaration
/// of that name exists.
pub proof fn lemma_call_name_highlighted_as_function(prefix: CallPrefix)
    ensures
        prefix matches CallPrefix::NameExpr { name, is_signature, in_local_references, has_global_decl }
            ==> highlights_name_as(
            spec_node_pushes(NodeInfo::CallExpr { prefix }),
            name,
            SemanticTokenKind::Function,
            if is_signature && !in_local_references && has_global_decl {
                Some(SemanticTokenModifier::DefaultLibrary)
            } else {
                None
            },
        ),
        prefix matches CallPrefix::IndexExpr { name } ==> highlights_name_as(
            spec_node_pushes(NodeInfo::CallExpr { prefix }),
            name,
            SemanticTokenKind::Function,
            None,
        ),
        prefix is Other ==> spec_node_pushes(NodeInfo::CallExpr { prefix }).len() == 0,
{
}

/// A type name in a doc comment is highlighted as a type, read-only when it
/// is `self`; the names of a `for ... in` loop are all highlighted as
/// variables, in order.
pub proof fn lemma_type_names_and_loop_names(node: NodeInfo)
    ensures
        node matches NodeInfo::DocNameType { name } ==> (name matches Some(n) ==> spec_node_pushes(
            node,
        ) == seq![
            (
                n.0,
                SemanticTokenKind::Type,
                if n.1@ == "self"@ {
                    Some(SemanticTokenModifier::Readonly)
                } else {
                    None
                },
            ),
        ]),
        node matches NodeInfo::ForRangeStat { names } ==> (spec_node_pushes(node).len()
            == names@.len() && forall|i: int|
            0 <= i < names@.len() ==> #[trigger] spec_node_pushes(node)[i] == (
                names@[i],
                SemanticTokenKind::Variable,
                None::<SemanticTokenModifier>,
            )),
{
}

/// A class tag highlights its name as a declared class first, then its
/// attributes as modifiers, in order; without a name it highlights nothing.
pub proof fn lemma_class_tag_highlights_name_first(node: NodeInfo)
    ensures
        node matches NodeInfo::DocTagClass { name, attribs, generic_names } ==> (name matches Some(
            n,
        ) ==> (spec_node_pushes(node)[0] == (
            n,
            SemanticTokenKind::Class,
            Some(SemanticTokenModifier::Declaration),
        ) && forall|i: int|
            0 <= i < attribs@.len() ==> #[trigger] spec_node_pushes(node)[1 + i] == (
                attribs@[i],
                SemanticTokenKind::Modifier,
                None::<SemanticTokenModifier>,
            ))),
        node matches NodeInfo::DocTagClass { name, attribs, generic_names } ==> (name is None
            ==> spec_node_pushes(node).len() == 0),
{
}

/// Appends each range with the given kind and modifier.
fn push_all(
    out: &mut Vec<TokenPush>,
    ranges: &Vec<TextRange>,
    k: SemanticTokenKind,
    m: Option<SemanticTokenModifier>,
)
    ensures
        final(out)@ == old(out)@ + all_with(ranges@, k, m),
{
    let mut i: usize = 0;
    while i < ranges.len()
        invariant
            0 <= i <= ranges@.len(),
            out@ == old(out)@ + all_with(ranges@.take(i as int), k, m),
        decreases ranges@.len() - i,
    {
        out.push((ranges[i], k, m));
        proof {
            assert(all_with(ranges@.take(i + 1), k, m) =~= all_with(ranges@.take(i as int), k, m).push(
                (ranges@[i as int], k, m),
            ));
        }
        i = i + 1;
    }
    proof {
        assert(ranges@.take(i as int) =~= ranges@);
    }
}

/// Appends each present range with the given kind and modifier.
fn push_somes(
    out: &mut Vec<TokenPush>,
    ranges: &Vec<Option<TextRange>>,
    k: SemanticTokenKind,
    m: Option<SemanticTokenModifier>,
)
    ensures
        final(out)@ == old(out)@ + somes_with(ranges@, k, m),
{
    let mut i: usize = 0;
    while i < ranges.len()
        invariant
            0 <= i <= ranges@.len(),
            out@ == old(out)@ + somes_with(ranges@.take(i as int), k, m),
        decreases ranges@.len() - i,
    {
        proof {
            assert(ranges@.take(i + 1).drop_last() =~= ranges@.take(i as int));
        }
        if let Some(r) = ranges[i] {
            out.push((r, k, m));
        }
        proof {
            assert(out@ =~= old(out)@ + somes_with(ranges@.take(i + 1), k, m));
        }
        i = i + 1;
    }
    proof {
        assert(ranges@.take(i as int) =~= ranges@);
    }
}

/// Ranges all present up to `n` make a present prefix of at least `n`.
proof fn lemma_present_prefix(ranges: Seq<Option<TextRange>>, n: int)
    requires
        0 <= n <= ranges.len(),
        forall|j: int| 0 <= j < n ==> ranges[j] is Some,
    ensures
        n <= present_prefix_len(ranges) <= ranges.len(),
        n < ranges.len() && ranges[n] is None ==> present_prefix_len(ranges) == n,
    decreases ranges.len(),
{
    if ranges.len() > 0 && n > 0 {
        lemma_present_prefix(ranges.drop_first(), n - 1);
    } else if ranges.len() > 0 {
        lemma_present_prefix(ranges.drop_first(), 0);
    }
}

/// Appends the present ranges before the first missing one.
fn push_until_none(
    out: &mut Vec<TokenPush>,
    ranges: &Vec<Option<TextRange>>,
    k: SemanticTokenKind,
    m: Option<SemanticTokenModifier>,
)
    ensures
        final(out)@ == old(out)@ + until_none_with(ranges@, k, m),
{
    let mut i: usize = 0;
    while i < ranges.len()
        invariant
            0 <= i <= ranges@.len(),
            forall|j: int| 0 <= j < i ==> ranges@[j] is Some,
            out@ == old(out)@ + somes_with(ranges@.take(i as int), k, m),
        decreases ranges@.len() - i,
    {
        proof {
            assert(ranges@.take(i + 1).drop_last() =~= ranges@.take(i as int));
        }
        match ranges[i] {
            Some(r) => {
                out.push((r, k, m));
            },
            None => {
                proof {
                    lemma_present_prefix(ranges@, i as int);
                }
                return;
            },
        }
        proof {
            assert(out@ =~= old(out)@ + somes_with(ranges@.take(i + 1), k, m));
        }
        i = i + 1;
    }
    proof {
        lemma_present_prefix(ranges@, i as int);
    }
}

/// Computes the highlights of one syntax node, in order.
pub fn build_node_semantic_token(node: &NodeInfo) -> (r: Vec<TokenPush>)
    ensures
        r@ == spec_node_pushes(*node),
{
    let mut out: Vec<TokenPush> = Vec::new();
    match node {
        NodeInfo::DocTagClass { name, attribs, generic_names } => {
            if let Some(n) = name {
                out.push((*n, SemanticTokenKind::Class, Some(SemanticTokenModifier::Declaration)));
                push_all(&mut out, attribs, SemanticTokenKind::Modifier, None);
                push_somes(
                    &mut out,
                    generic_names,
                    SemanticTokenKind::Class,
                    Some(SemanticTokenModifier::Declaration),
                );
            }
        },
        NodeInfo::DocTagEnum { name, attribs } => {
            if let Some(n) = name {
                out.push((*n, SemanticTokenKind::Enum, None));
                push_all(&mut out, attribs, SemanticTokenKind::Modifier, None);
            }
        },
        NodeInfo::DocTagAlias { name } => {
            if let Some(n) = name {
                out.push((*n, SemanticTokenKind::Type, None));
            }
        },
        NodeInfo::DocTagField { name_key } => {
            if let Some(n) = name_key {
                out.push((*n, SemanticTokenKind::Property, None));
            }
        },
        NodeInfo::DocTagDiagnostic { action, codes } => {
            if let Some(a) = action {
                out.push((*a, SemanticTokenKind::Property, None));
                push_all(&mut out, codes, SemanticTokenKind::Regexp, None);
            }
        },
        NodeInfo::DocTagParam { name } => {
            if let Some(n) = name {
                out.push((*n, SemanticTokenKind::Parameter, None));
            }
        },
        NodeInfo::DocTagReturn { names } => {
            push_somes(&mut out, names, SemanticTokenKind::Variable, None);
        },
        NodeInfo::DocTagCast { name } => {
            if let Some(n) = name {
                out.push((*n, SemanticTokenKind::Variable, None));
            }
        },
        NodeInfo::DocTagGeneric { decls } => {
            if let Some(d) = decls {
                push_somes(
                    &mut out,
                    d,
                    SemanticTokenKind::Type,
                    Some(SemanticTokenModifier::Declaration),
                );
            }
        },
        NodeInfo::DocTagNamespace { name } | NodeInfo::DocTagUsing { name } => {
            if let Some(n) = name {
                out.push((*n, SemanticTokenKind::Namespace, None));
            }
        },
        NodeInfo::ParamName { name } => {
            if let Some(n) = name {
                out.push((*n, SemanticTokenKind::Parameter, None));
            }
        },
        NodeInfo::LocalName { name, is_class_def } | NodeInfo::NameExpr { name, is_class_def } => {
            if let Some(n) = name {
                if *is_class_def {
                    out.push((*n, SemanticTokenKind::Class, None));
                } else {
                    out.push((*n, SemanticTokenKind::Variable, None));
                }
            }
        },
        NodeInfo::ForRangeStat { names } => {
            push_all(&mut out, names, SemanticTokenKind::Variable, None);
        },
        NodeInfo::ForStat { name } => {
            if let Some(n) = name {
                out.push((*n, SemanticTokenKind::Variable, None));
            }
        },
        NodeInfo::LocalFuncStat { name } | NodeInfo::FuncStat { name } => {
            if let Some(n) = name {
                out.push((*n, SemanticTokenKind::Function, None));
            }
        },
        NodeInfo::LocalStat { index_names } => {
            push_until_none(&mut out, index_names, SemanticTokenKind::Property, None);
        },
        NodeInfo::LocalAttribute { name } => {
            if let Some(n) = name {
                out.push((*n, SemanticTokenKind::Keyword, None));
            }
        },
        NodeInfo::CallExpr { prefix } => match prefix {
            CallPrefix::NameExpr { name, is_signature, in_local_references, has_global_decl } => {
                if let Some(n) = name {
                    if *is_signature && !*in_local_references && *has_global_decl {
                        out.push(
                            (
                                *n,
                                SemanticTokenKind::Function,
                                Some(SemanticTokenModifier::DefaultLibrary),
                            ),
                        );
                    } else {
                        out.push((*n, SemanticTokenKind::Function, None));
                    }
                }
            },
            CallPrefix::IndexExpr { name } => {
                if let Some(n) = name {
                    out.push((*n, SemanticTokenKind::Function, None));
                }
            },
            CallPrefix::Other => {},
        },
        NodeInfo::DocNameType { name } => {
            if let Some((r, text)) = name {
                if str_eq(text.as_str(), "self") {
                    out.push((*r, SemanticTokenKind::Type, Some(SemanticTokenModifier::Readonly)));
                } else {
                    out.push((*r, SemanticTokenKind::Type, None));
                }
            }
        },
        NodeInfo::DocObjectType { field_names } => {
            push_somes(&mut out, field_names, SemanticTokenKind::Property, None);
        },
        NodeInfo::DocFuncType { name_tokens, params } => {
            let mut i: usize = 0;
            while i < name_tokens.len()
                invariant
                    0 <= i <= name_tokens@.len(),
                    out@ == func_keyword_pushes(name_tokens@.take(i as int)),
                decreases name_tokens@.len() - i,
            {
                proof {
                    assert(name_tokens@.take(i + 1).drop_last() =~= name_tokens@.take(i as int));
                }
                let (r, text) = &name_tokens[i];
                if str_eq(text.as_str(), "fun") {
                    out.push((*r, SemanticTokenKind::Keyword, None));
                } else if str_eq(text.as_str(), "async") {
                    out.push((*r, SemanticTokenKind::Keyword, Some(SemanticTokenModifier::Async)));
                }
                i = i + 1;
            }
            proof {
                assert(name_tokens@.take(i as int) =~= name_tokens@);
            }
            push_until_none(&mut out, params, SemanticTokenKind::Parameter, None);
        },
        NodeInfo::IndexExpr { name } => {
            if let Some(n) = name {
                out.push((*n, SemanticTokenKind::Property, None));
            }
        },
        NodeInfo::Other => {},
    }
    proof {
        assert(out@ =~= spec_node_pushes(*node));
    }
    out
}


/// Whether a declaration's type is a class definition.
pub fn is_class_def(decl_type: Option<&LuaType>) -> (r: bool)
    ensures
        r == (decl_type matches Some(t) && *t is Def),
{
    match decl_type {
        Some(LuaType::Def(_)) => true,
        _ => false,
    }
}

/// The ranges of the references of all declarations, in order.
pub open spec fn flatten_ranges(entries: Seq<(LuaDeclId, Seq<TextRange>)>) -> Seq<TextRange>
    decreases entries.len(),
{
    if entries.len() == 0 {
        seq![]
    } else {
        flatten_ranges(entries.drop_last()) + entries.last().1
    }
}

/// The ranges in file `file_id` that reference a local declaration, to
/// tell the uses of locals from those of globals; empty when the file has
/// no local references.
pub fn calc_name_expr_ref(index: &LuaReferenceIndex, file_id: FileId) -> (r: Vec<TextRange>)
    requires
        index.wf(),
    ensures
        match index.spec_local_file(file_id) {
            Some(lr) => r@ == flatten_ranges(lr.spec_entries()),
            None => r@.len() == 0,
        },
{
    let mut out: Vec<TextRange> = Vec::new();
    let map = match index.get_local_references_map(&file_id) {
        Some(m) => m,
        None => {
            return out;
        },
    };
    let ghost entries = local_entries(map@);
    let mut i: usize = 0;
    while i < map.len()
        invariant
            0 <= i <= map@.len(),
            entries == local_entries(map@),
            out@ == flatten_ranges(entries.take(i as int)),
        decreases map@.len() - i,
    {
        proof {
            assert(entries.take(i + 1).drop_last() =~= entries.take(i as int));
            assert(entries.take(i + 1).last() == entries[i as int]);
            assert(entries[i as int].1 == map@[i as int].1@);
        }
        let ranges = &map[i].1;
        let ghost before = out@;
        let mut j: usize = 0;
        while j < ranges.len()
            invariant
                0 <= j <= ranges@.len(),
                out@ == before + ranges@.take(j as int),
            decreases ranges@.len() - j,
        {
            out.push(ranges[j]);
            proof {
                assert(out@ =~= before + ranges@.take(j + 1));
            }
            j = j + 1;
        }
        proof {
            assert(ranges@.take(j as int) =~= ranges@);
        }
        i = i + 1;
    }
    proof {
        assert(entries.take(i as int) =~= entries);
    }
    out
}

/// Whether `range` is one of `ranges`.
pub fn contains_range(ranges: &Vec<TextRange>, range: TextRange) -> (r: bool)
    ensures
        r == ranges@.contains(range),
{
    let mut i: usize = 0;
    while i < ranges.len()
        invariant
            0 <= i <= ranges@.len(),
            forall|j: int| 0 <= j < i ==> ranges@[j] != range,
        decreases ranges@.len() - i,
    {
        if ranges[i] == range {
            proof {
                assert(ranges@[i as int] == range);
            }
            return true;
        }
        i = i + 1;
    }
    false
}

} // verus!
