//! Flow narrowing: what a condition, an assignment or an `assert` tells
//! about the type of a variable, and where that knowledge holds.
use vstd::prelude::*;

use crate::base::{lemma_range_of, range_of, str_eq, LuaSyntaxId, TextRange};
use crate::types::{lemma_decl_id_view, spec_decl_id, LuaType, LuaTypeDeclId};

verus! {

/// What is known of a variable's type over a range of code.
#[derive(Debug)]
pub enum TypeAssertion {
    /// The value is neither `nil` nor `false`.
    Exist,
    /// The value is `nil` or `false`.
    NotExist,
    /// The type is narrowed to this one.
    Narrow(LuaType),
    /// This type is taken out of the possible types.
    Remove(LuaType),
    /// The variable was reassigned from value `.1` of the expression `.0`.
    Reassign((LuaSyntaxId, i32)),
}

impl TypeAssertion {
    /// What holds where the assertion does not: existence and narrowing
    /// turn into their opposites; a reassignment has no opposite.
    pub open spec fn spec_negation(self) -> Option<TypeAssertion> {
        match self {
            TypeAssertion::Exist => Some(TypeAssertion::NotExist),
            TypeAssertion::NotExist => Some(TypeAssertion::Exist),
            TypeAssertion::Narrow(t) => Some(TypeAssertion::Remove(t)),
            TypeAssertion::Remove(t) => Some(TypeAssertion::Narrow(t)),
            TypeAssertion::Reassign(_) => None,
        }
    }

    pub fn get_negation(&self) -> (r: Option<TypeAssertion>)
        ensures
            r == self.spec_negation(),
    {
        match self {
            TypeAssertion::Exist => Some(TypeAssertion::NotExist),
            TypeAssertion::NotExist => Some(TypeAssertion::Exist),
            TypeAssertion::Narrow(t) => Some(TypeAssertion::Remove(t.clone())),
            TypeAssertion::Remove(t) => Some(TypeAssertion::Narrow(t.clone())),
            TypeAssertion::Reassign(_) => None,
        }
    }
}

/// Negating twice gives back the assertion.
pub proof fn lemma_negation_involutive(t: TypeAssertion)
    requires
        t.spec_negation() is Some,
    ensures
        t.spec_negation()->Some_0.spec_negation() == Some(t),
{
}

impl Clone for TypeAssertion {
    fn clone(&self) -> (r: Self)
        ensures
            r == *self,
    {
        match self {
            TypeAssertion::Exist => TypeAssertion::Exist,
            TypeAssertion::NotExist => TypeAssertion::NotExist,
            TypeAssertion::Narrow(t) => TypeAssertion::Narrow(t.clone()),
            TypeAssertion::Remove(t) => TypeAssertion::Remove(t.clone()),
            TypeAssertion::Reassign(r) => TypeAssertion::Reassign(*r),
        }
    }
}

/// A literal compared with a variable.
#[derive(Debug)]
pub enum LiteralInfo {
    Nil,
    Bool(bool),
    /// A number: its integer value when it is an integer.
    Number(Option<i64>),
    String(String),
    /// Any other literal, such as `...`.
    Other,
}

/// What `var == literal` (`is_eq`) or `var ~= literal` tells where it holds,
/// if anything.
pub open spec fn spec_literal_assertion(literal: LiteralInfo, is_eq: bool) -> Option<TypeAssertion> {
    match literal {
        LiteralInfo::Nil => Some(
            if is_eq {
                TypeAssertion::NotExist
            } else {
                TypeAssertion::Exist
            },
        ),
        LiteralInfo::Bool(b) => Some(
            if b == is_eq {
                TypeAssertion::Exist
            } else {
                TypeAssertion::NotExist
            },
        ),
        LiteralInfo::Number(n) => {
            let t = match n {
                Some(i) => LuaType::IntegerConst(i),
                None => LuaType::Number,
            };
            Some(
                if is_eq {
                    TypeAssertion::Narrow(t)
                } else {
                    TypeAssertion::Remove(t)
                },
            )
        },
        LiteralInfo::String(s) => Some(
            if is_eq {
                TypeAssertion::Narrow(LuaType::StringConst(s))
            } else {
                TypeAssertion::Remove(LuaType::StringConst(s))
            },
        ),
        LiteralInfo::Other => None,
    }
}

/// The assertion of a comparison of a variable with a literal: `==` when
/// `is_eq`, `~=` otherwise. `nil` and booleans tell whether the value
/// exists, numbers and strings narrow the type to (or take out) the
/// literal's type.
pub fn binary_literal_type_assert(literal: &LiteralInfo, is_eq: bool) -> (r: Option<TypeAssertion>)
    ensures
        r == spec_literal_assertion(*literal, is_eq),
{
    match literal {
        LiteralInfo::Nil => {
            if is_eq {
                Some(TypeAssertion::NotExist)
            } else {
                Some(TypeAssertion::Exist)
            }
        },
        LiteralInfo::Bool(b) => {
            if *b == is_eq {
                Some(TypeAssertion::Exist)
            } else {
                Some(TypeAssertion::NotExist)
            }
        },
        LiteralInfo::Number(n) => {
            let t = match n {
                Some(i) => LuaType::IntegerConst(*i),
                None => LuaType::Number,
            };
            if is_eq {
                Some(TypeAssertion::Narrow(t))
            } else {
                Some(TypeAssertion::Remove(t))
            }
        },
        LiteralInfo::String(s) => {
            let t = LuaType::StringConst(s.clone());
            if is_eq {
                Some(TypeAssertion::Narrow(t))
            } else {
                Some(TypeAssertion::Remove(t))
            }
        },
        LiteralInfo::Other => None,
    }
}

/// `x ~= literal` tells the opposite of `x == literal`: where the comparison
/// with `==` gives an assertion, the one with `~=` is its negation, and a
/// literal that `==` tells nothing of tells nothing with `~=` either.
pub proof fn lemma_not_equal_negates_equal(literal: LiteralInfo)
    ensures
        spec_literal_assertion(literal, false) == match spec_literal_assertion(literal, true) {
            Some(a) => a.spec_negation(),
            None => None,
        },
        spec_literal_assertion(literal, true) == match spec_literal_assertion(literal, false) {
            Some(a) => a.spec_negation(),
            None => None,
        },
{
}

/// What `x == literal` tells: comparing with `nil` tells that `x` does not
/// exist, with `true` that it exists and with `false` that it does not; a
/// number or string literal narrows `x` to the literal's own type (an
/// integer constant, `number` for a float, or the string constant), and so
/// `x ~= literal` takes that type out. Other literals tell nothing.
pub proof fn lemma_equal_literal_narrows_to_literal_type(literal: LiteralInfo)
    ensures
        literal is Nil ==> spec_literal_assertion(literal, true) == Some(TypeAssertion::NotExist),
        literal == LiteralInfo::Bool(true) ==> spec_literal_assertion(literal, true) == Some(
            TypeAssertion::Exist,
        ),
        literal == LiteralInfo::Bool(false) ==> spec_literal_assertion(literal, true) == Some(
            TypeAssertion::NotExist,
        ),
        forall|i: i64|
            literal == LiteralInfo::Number(Some(i)) ==> spec_literal_assertion(literal, true) == Some(
                TypeAssertion::Narrow(LuaType::IntegerConst(i)),
            ) && spec_literal_assertion(literal, false) == Some(
                TypeAssertion::Remove(LuaType::IntegerConst(i)),
            ),
        literal == LiteralInfo::Number(None) ==> spec_literal_assertion(literal, true) == Some(
            TypeAssertion::Narrow(LuaType::Number),
        ) && spec_literal_assertion(literal, false) == Some(TypeAssertion::Remove(LuaType::Number)),
        literal matches LiteralInfo::String(s) ==> spec_literal_assertion(literal, true) == Some(
            TypeAssertion::Narrow(LuaType::StringConst(s)),
        ) && spec_literal_assertion(literal, false) == Some(
            TypeAssertion::Remove(LuaType::StringConst(s)),
        ),
        literal is Other ==> spec_literal_assertion(literal, true) is None
            && spec_literal_assertion(literal, false) is None,
{
}

/// The type named by the result of `type(x)` compared in `type(x) == "..."`:
/// a built-in type, or a reference to the declared type of that name.
pub open spec fn spec_type_name_narrow(name: String) -> LuaType {
    if name@ == "number"@ {
        LuaType::Number
    } else if name@ == "string"@ {
        LuaType::String
    } else if name@ == "boolean"@ {
        LuaType::Boolean
    } else if name@ == "table"@ {
        LuaType::Table
    } else if name@ == "function"@ {
        LuaType::Function
    } else if name@ == "thread"@ {
        LuaType::Thread
    } else if name@ == "userdata"@ {
        LuaType::Userdata
    } else if name@ == "nil"@ {
        LuaType::Nil
    } else {
        LuaType::Ref(spec_decl_id(name))
    }
}

/// `type(x) == name` narrows `x` to the built-in type of that name, and
/// for any other name to the declared type of that name; only the name
/// `"nil"` narrows to `nil`.
pub proof fn lemma_type_name_narrows_to_named_type(name: String)
    ensures
        name@ == "number"@ ==> spec_type_name_narrow(name) == LuaType::Number,
        name@ == "string"@ ==> spec_type_name_narrow(name) == LuaType::String,
        name@ == "boolean"@ ==> spec_type_name_narrow(name) == LuaType::Boolean,
        name@ == "table"@ ==> spec_type_name_narrow(name) == LuaType::Table,
        name@ == "function"@ ==> spec_type_name_narrow(name) == LuaType::Function,
        name@ == "thread"@ ==> spec_type_name_narrow(name) == LuaType::Thread,
        name@ == "userdata"@ ==> spec_type_name_narrow(name) == LuaType::Userdata,
        spec_type_name_narrow(name) is Nil <==> name@ == "nil"@,
        spec_type_name_narrow(name) matches LuaType::Ref(id) ==> id@ == name@,
        !(name@ == "number"@ || name@ == "string"@ || name@ == "boolean"@ || name@ == "table"@
            || name@ == "function"@ || name@ == "thread"@ || name@ == "userdata"@ || name@
            == "nil"@) ==> spec_type_name_narrow(name) is Ref,
{
    lemma_decl_id_view(name);
    reveal_strlit("number");
    reveal_strlit("string");
    reveal_strlit("boolean");
    reveal_strlit("table");
    reveal_strlit("function");
    reveal_strlit("thread");
    reveal_strlit("userdata");
    reveal_strlit("nil");
    assert("number"@.len() == 6 && "string"@.len() == 6 && "thread"@.len() == 6);
    assert("boolean"@.len() == 7 && "table"@.len() == 5 && "nil"@.len() == 3);
    assert("function"@.len() == 8 && "userdata"@.len() == 8);
    assert("number"@[0] != "string"@[0] && "number"@[0] != "thread"@[0]);
    assert("string"@[0] != "thread"@[0] && "function"@[0] != "userdata"@[0]);
    assert("number"@ != "nil"@ && "number"@ != "string"@);
    assert("string"@ != "nil"@ && "string"@ != "boolean"@ && "string"@ != "table"@);
    assert("boolean"@ != "nil"@ && "boolean"@ != "table"@);
    assert("table"@ != "nil"@ && "table"@ != "function"@ && "table"@ != "thread"@);
    assert("function"@ != "nil"@ && "function"@ != "thread"@);
    assert("thread"@ != "nil"@ && "thread"@ != "userdata"@);
    assert("userdata"@ != "nil"@);
    assert("number"@ != "boolean"@ && "number"@ != "table"@ && "number"@ != "function"@);
    assert("number"@ != "thread"@ && "number"@ != "userdata"@ && "string"@ != "function"@);
    assert("string"@ != "thread"@ && "string"@ != "userdata"@ && "boolean"@ != "function"@);
    assert("boolean"@ != "thread"@ && "boolean"@ != "userdata"@ && "table"@ != "userdata"@);
    assert("function"@ != "userdata"@);
}

/// The narrowing that `type(x) == name` gives.
pub fn type_name_type_assert(name: &String) -> (r: TypeAssertion)
    ensures
        r == TypeAssertion::Narrow(spec_type_name_narrow(*name)),
{
    let n = name.as_str();
    if str_eq(n, "number") {
        TypeAssertion::Narrow(LuaType::Number)
    } else if str_eq(n, "string") {
        TypeAssertion::Narrow(LuaType::String)
    } else if str_eq(n, "boolean") {
        TypeAssertion::Narrow(LuaType::Boolean)
    } else if str_eq(n, "table") {
        TypeAssertion::Narrow(LuaType::Table)
    } else if str_eq(n, "function") {
        TypeAssertion::Narrow(LuaType::Function)
    } else if str_eq(n, "thread") {
        TypeAssertion::Narrow(LuaType::Thread)
    } else if str_eq(n, "userdata") {
        TypeAssertion::Narrow(LuaType::Userdata)
    } else if str_eq(n, "nil") {
        TypeAssertion::Narrow(LuaType::Nil)
    } else {
        TypeAssertion::Narrow(LuaType::Ref(LuaTypeDeclId::from_string(name.clone())))
    }
}

/// Which value of a multiple assignment the variable at `var_index` gets:
/// the value at the same index, or, past the last value expression, value
/// `var_index - (value_count - 1)` of the last one. `None` when there is no
/// value expression.
pub fn reassign_value_index(var_index: usize, value_count: usize) -> (r: Option<(usize, i32)>)
    ensures
        value_count == 0 ==> r is None,
        value_count > 0 && var_index < value_count ==> r == Some((var_index, 0i32)),
        value_count > 0 && var_index >= value_count ==> r == Some(
            ((value_count - 1) as usize, (var_index - (value_count - 1)) as i32),
        ),
{
    if value_count == 0 {
        return None;
    }
    if var_index < value_count {
        Some((var_index, 0))
    } else {
        let diff = var_index - (value_count - 1);
        Some((value_count - 1, diff as i32))
    }
}

/// The kinds of doc tags.
#[derive(Debug, Clone, Copy, PartialEq, Eq, Structural)]
pub enum DocTagKind {
    Class,
    Generic,
    Enum,
    Alias,
    Type,
    Param,
    Return,
    Overload,
    Module,
    Visibility,
    Source,
    Nodiscard,
    Deprecated,
    Namespace,
    Using,
    Meta,
    Other,
}

/// An assignment preceded by a `@type`, `@class`, `@module` or `@enum` tag
/// declares the variable rather than reassigning it.
pub fn is_decl_assign_stat(comment_tags: &Vec<DocTagKind>) -> (r: Option<bool>)
    ensures
        r == Some(
            exists|i: int|
                0 <= i < comment_tags@.len() && (comment_tags@[i] is Type || comment_tags@[i] is Class
                    || comment_tags@[i] is Module || comment_tags@[i] is Enum),
        ),
{
    let mut i: usize = 0;
    while i < comment_tags.len()
        invariant
            0 <= i <= comment_tags@.len(),
            forall|j: int|
                0 <= j < i ==> !(comment_tags@[j] is Type || comment_tags@[j] is Class
                    || comment_tags@[j] is Module || comment_tags@[j] is Enum),
        decreases comment_tags@.len() - i,
    {
        match comment_tags[i] {
            DocTagKind::Type | DocTagKind::Class | DocTagKind::Module | DocTagKind::Enum => {
                return Some(true);
            },
            _ => {},
        }
        i = i + 1;
    }
    Some(false)
}

/// A statement, as far as the flow of control depends on it.
#[derive(Debug)]
pub enum StatInfo {
    /// A call statement, with the name of the called function when it is
    /// called by name.
    CallExprStat { callee_name: Option<String> },
    ReturnStat,
    DoStat { block: Option<Vec<StatInfo>> },
    Other,
}

/// The statement leaves the enclosing block: a return, a call of `error`,
/// or a `do` block that does.
pub open spec fn spec_stat_change_flow(stat: StatInfo) -> bool
    decreases stat,
{
    match stat {
        StatInfo::CallExprStat { callee_name } => match callee_name {
            Some(n) => n@ == "error"@,
            None => false,
        },
        StatInfo::ReturnStat => true,
        StatInfo::DoStat { block } => match block {
            Some(b) => spec_block_has_return(b@),
            None => false,
        },
        StatInfo::Other => false,
    }
}

/// Some statement of the block leaves it.
pub open spec fn spec_block_has_return(stats: Seq<StatInfo>) -> bool
    decreases stats,
{
    stats.len() > 0 && (spec_block_has_return(stats.drop_last()) || spec_stat_change_flow(
        stats.last(),
    ))
}

/// Whether the statement leaves the enclosing block.
pub fn is_stat_change_flow(stat: &StatInfo) -> (r: Option<bool>)
    ensures
        r == Some(spec_stat_change_flow(*stat)),
    decreases *stat,
{
    match stat {
        StatInfo::CallExprStat { callee_name } => match callee_name {
            Some(name) => Some(str_eq(name.as_str(), "error")),
            None => Some(false),
        },
        StatInfo::ReturnStat => Some(true),
        StatInfo::DoStat { block } => Some(is_block_has_return(block).unwrap_or(false)),
        StatInfo::Other => Some(false),
    }
}

/// Whether some statement of the block leaves it.
pub fn is_block_has_return(block: &Option<Vec<StatInfo>>) -> (r: Option<bool>)
    ensures
        r == Some(
            match *block {
                Some(b) => spec_block_has_return(b@),
                None => false,
            },
        ),
    decreases *block,
{
    if let Some(stats) = block {
        let mut i: usize = 0;
        while i < stats.len()
            invariant
                0 <= i <= stats@.len(),
                !spec_block_has_return(stats@.take(i as int)),
                *block == Some(*stats),
            decreases stats@.len() - i,
        {
            proof {
                let ghost b = *block;
                assert(decreases_to!(b => b->Some_0));
                assert(decreases_to!(*stats => stats@));
                assert(decreases_to!(stats@ => stats@[i as int]));
                assert(stats@.take(i + 1).drop_last() =~= stats@.take(i as int));
                assert(stats@.take(i + 1).last() == stats@[i as int]);
            }
            if is_stat_change_flow(&stats[i]).unwrap_or(false) {
                proof {
                    assert(spec_block_has_return(stats@.take(i + 1)));
                    lemma_block_has_return_prefix(stats@, i + 1);
                }
                return Some(true);
            }
            i = i + 1;
        }
        proof {
            assert(stats@.take(i as int) =~= stats@);
        }
    }
    Some(false)
}

/// A block whose first `n` statements hold one that leaves it, leaves it.
proof fn lemma_block_has_return_prefix(stats: Seq<StatInfo>, n: int)
    requires
        0 <= n <= stats.len(),
        spec_block_has_return(stats.take(n)),
    ensures
        spec_block_has_return(stats),
    decreases stats.len(),
{
    if n < stats.len() {
        assert(stats.drop_last().take(n) =~= stats.take(n));
        lemma_block_has_return_prefix(stats.drop_last(), n);
    } else {
        assert(stats.take(n) =~= stats);
    }
}

/// The range from the end of a node to the end of its block, where what the
/// node tells holds for the rest of the block; `None` when the node ends
/// the block.
pub fn range_after(node_range: TextRange, block_range: TextRange) -> (r: Option<TextRange>)
    ensures
        node_range.spec_end() < block_range.spec_end() ==> (r matches Some(x)
            && x.spec_start() == node_range.spec_end() && x.spec_end() == block_range.spec_end()),
        node_range.spec_end() >= block_range.spec_end() ==> r is None,
{
    if node_range.end() < block_range.end() {
        Some(TextRange::new(node_range.end(), block_range.end()))
    } else {
        None
    }
}

/// The kind of node around a block that ends.
#[derive(Debug, Clone, Copy, PartialEq, Eq, Structural)]
pub enum BlockOwnerKind {
    IfStat,
    DoStat,
    WhileStat,
    ForStat,
    ForRangeStat,
    RepeatStat,
    ElseIfClauseStat,
    ElseClauseStat,
    Other,
}

/// Where knowledge that holds to the end of a block goes on to hold.
#[derive(Debug, Clone, Copy, PartialEq, Eq, Structural)]
pub enum OutsideBroadcast {
    /// After the statement that owns the block.
    AfterOwner,
    /// After the `if` statement whose clause owns the block.
    AfterOwnerParent,
    Nowhere,
}

/// Knowledge that holds to the end of a block of a statement holds after
/// the statement; for an `elseif` or `else` clause, after the whole `if`.
pub fn broadcast_outside_target(owner: BlockOwnerKind) -> (r: OutsideBroadcast)
    ensures
        (owner is IfStat || owner is DoStat || owner is WhileStat || owner is ForStat
            || owner is ForRangeStat || owner is RepeatStat) ==> r == OutsideBroadcast::AfterOwner,
        (owner is ElseIfClauseStat || owner is ElseClauseStat) ==> r
            == OutsideBroadcast::AfterOwnerParent,
        owner is Other ==> r == OutsideBroadcast::Nowhere,
{
    match owner {
        BlockOwnerKind::IfStat
        | BlockOwnerKind::DoStat
        | BlockOwnerKind::WhileStat
        | BlockOwnerKind::ForStat
        | BlockOwnerKind::ForRangeStat
        | BlockOwnerKind::RepeatStat => OutsideBroadcast::AfterOwner,
        BlockOwnerKind::ElseIfClauseStat | BlockOwnerKind::ElseClauseStat => {
            OutsideBroadcast::AfterOwnerParent
        },
        BlockOwnerKind::Other => OutsideBroadcast::Nowhere,
    }
}


/// A narrowing recorded for a variable: `type_assert` holds over `range`,
/// and was learned from the node at `actual_range`.
#[derive(Debug)]
pub struct FlowAssert {
    pub type_assert: TypeAssertion,
    pub range: TextRange,
    pub actual_range: TextRange,
}

/// Knowledge learned at `node` that holds from its end to the end of
/// `block`: one narrowing when the node ends before the block does. It is
/// tagged with `actual`, or with the narrowed range itself when `actual` is
/// `None`.
pub open spec fn spec_after(
    node: TextRange,
    block: TextRange,
    t: TypeAssertion,
    actual: Option<TextRange>,
) -> Seq<FlowAssert> {
    if node.spec_end() < block.spec_end() {
        let r = range_of(node.spec_end(), block.spec_end());
        seq![
            FlowAssert {
                type_assert: t,
                range: r,
                actual_range: match actual {
                    Some(a) => a,
                    None => r,
                },
            },
        ]
    } else {
        seq![]
    }
}

fn push_after(
    out: &mut Vec<FlowAssert>,
    node: TextRange,
    block: TextRange,
    t: TypeAssertion,
    actual: Option<TextRange>,
)
    ensures
        final(out)@ == old(out)@ + spec_after(node, block, t, actual),
{
    if node.end() < block.end() {
        let r = TextRange::new(node.end(), block.end());
        let a = match actual {
            Some(a) => a,
            None => r,
        };
        out.push(FlowAssert { type_assert: t, range: r, actual_range: a });
        proof {
            assert(old(out)@ + spec_after(node, block, t, actual) =~= out@);
        }
    } else {
        proof {
            assert(old(out)@ + spec_after(node, block, t, actual) =~= out@);
        }
    }
}

/// The block around a node, as far as knowledge spreads out of it.
#[derive(Debug)]
pub struct BlockInfo {
    pub range: TextRange,
    /// The kind of node that owns the block.
    pub owner: BlockOwnerKind,
    /// The node after which knowledge goes on once the block is left (the
    /// owner, or the `if` of an `elseif` or `else` clause) together with the
    /// block around that node, where both exist.
    pub outside: Option<(TextRange, TextRange)>,
}

/// A statement after which knowledge holds to the end of its block.
#[derive(Debug)]
pub struct DownInfo {
    pub node_range: TextRange,
    /// The block around the statement, `None` when it has none.
    pub block: Option<BlockInfo>,
}

/// What the narrowing `t` learned at a statement records: it holds from
/// the statement to the end of its block and, with `outside`, on after the
/// statement or `if` that owns that block.
pub open spec fn spec_broadcast_down(info: DownInfo, t: TypeAssertion, outside: bool) -> Seq<
    FlowAssert,
> {
    match info.block {
        None => seq![],
        Some(b) => spec_after(info.node_range, b.range, t, None) + if outside && !(b.owner is Other) {
            match b.outside {
                Some(o) => spec_after(o.0, o.1, t, None),
                None => seq![],
            }
        } else {
            seq![]
        },
    }
}

/// Records a narrowing learned at a statement for the rest of its block,
/// and, with `continue_outside`, after the statement that owns the block.
pub fn broadcast_down(info: &DownInfo, type_assert: TypeAssertion, continue_outside: bool) -> (r:
    Vec<FlowAssert>)
    ensures
        r@ == spec_broadcast_down(*info, type_assert, continue_outside),
{
    let mut out: Vec<FlowAssert> = Vec::new();
    match &info.block {
        None => {},
        Some(b) => {
            push_after(&mut out, info.node_range, b.range, type_assert.clone(), None);
            if continue_outside {
                match broadcast_outside_target(b.owner) {
                    OutsideBroadcast::Nowhere => {},
                    _ => {
                        match b.outside {
                            Some(o) => {
                                push_after(&mut out, o.0, o.1, type_assert, None);
                            },
                            None => {},
                        }
                    },
                }
            }
        },
    }
    proof {
        assert(out@ =~= spec_broadcast_down(*info, type_assert, continue_outside));
    }
    out
}

/// What `broadcast_down` records holds over ranges that are not empty.
pub proof fn lemma_broadcast_down_ranges_not_empty(info: DownInfo, t: TypeAssertion, outside: bool)
    ensures
        forall|i: int|
            0 <= i < spec_broadcast_down(info, t, outside).len() ==> (#[trigger] spec_broadcast_down(
                info,
                t,
                outside,
            )[i]).range.spec_start() < spec_broadcast_down(info, t, outside)[i].range.spec_end(),
{
    match info.block {
        None => {},
        Some(b) => {
            let first = spec_after(info.node_range, b.range, t, None);
            lemma_range_of(info.node_range.spec_end(), b.range.spec_end());
            match b.outside {
                Some(o) => {
                    lemma_range_of(o.0.spec_end(), o.1.spec_end());
                },
                None => {},
            }
        },
    }
}

/// Binary operators, as far as narrowing looks at them.
#[derive(Debug, Clone, Copy, PartialEq, Eq, Structural)]
pub enum BinaryOp {
    And,
    Or,
    Eq,
    Ne,
    Other,
}

/// The operands of a binary expression, seen from the operand that a
/// narrowing comes from.
#[derive(Debug)]
pub struct BinaryOperands {
    /// The narrowing comes from the left operand.
    pub origin_is_left: bool,
    pub right_range: TextRange,
    /// The other operand, when it is a literal.
    pub other_literal: Option<LiteralInfo>,
}

/// The comparison around a call of `type(x)`.
#[derive(Debug)]
pub struct TypeCompare {
    pub range: TextRange,
    pub op: BinaryOp,
    /// The first literal operand of the comparison.
    pub literal: Option<LiteralInfo>,
}

/// A call whose argument list holds the variable.
#[derive(Debug)]
pub enum CallInfo {
    /// `type(x)`, with the comparison around it when its parent is a binary
    /// expression.
    TypeCall(Option<TypeCompare>),
    /// `assert(x)`, with its call statement when it stands as one.
    AssertCall(Option<DownInfo>),
    Other,
}

/// A node that a narrowing reaches on its way up from a variable, with
/// what the narrowing needs of it. In a chain of ancestors each entry is
/// the parent of the node before it, except after a call of `type(x)`,
/// where the next entry is the parent of the comparison around the call.
#[derive(Debug)]
pub enum FlowParent {
    IfStat {
        block_range: Option<TextRange>,
        /// The statements of the `then` block.
        block_stats: Option<Vec<StatInfo>>,
        else_clause_range: Option<TextRange>,
        else_if_ranges: Vec<TextRange>,
        range: TextRange,
        parent_block_range: Option<TextRange>,
    },
    WhileStat { block_range: Option<TextRange> },
    ElseIfClauseStat { block_range: Option<TextRange> },
    ParenExpr { range: TextRange },
    BinaryExpr { range: TextRange, op: BinaryOp, operands: Option<BinaryOperands> },
    CallArgList { call: CallInfo },
    UnaryExpr { range: TextRange, is_not: bool },
    Other,
}

/// What `t`, learned at a child at `child`, records at the parent `p`, and
/// whether it goes on up: with which narrowing, from a child at which range.
pub open spec fn spec_up_step(p: FlowParent, child: TextRange, t: TypeAssertion) -> (
    Seq<FlowAssert>,
    Option<(TypeAssertion, TextRange)>,
) {
    match p {
        FlowParent::IfStat {
            block_range,
            block_stats,
            else_clause_range,
            else_if_ranges,
            range,
            parent_block_range,
        } => {
            let a1 = match block_range {
                Some(b) => seq![FlowAssert { type_assert: t, range: b, actual_range: child }],
                None => seq![],
            };
            match t.spec_negation() {
                None => (a1, None),
                Some(ne) => {
                    let elifs = Seq::new(
                        else_if_ranges@.len(),
                        |i: int|
                            FlowAssert {
                                type_assert: ne,
                                range: else_if_ranges@[i],
                                actual_range: child,
                            },
                    );
                    match else_clause_range {
                        Some(e) => (
                            a1 + seq![FlowAssert { type_assert: ne, range: e, actual_range: child }]
                                + elifs,
                            None,
                        ),
                        None => {
                            let has_return = match block_stats {
                                Some(b) => spec_block_has_return(b@),
                                None => false,
                            };
                            if has_return {
                                match parent_block_range {
                                    None => (a1, None),
                                    Some(pb) => (
                                        a1 + spec_after(range, pb, ne, Some(child)) + elifs,
                                        None,
                                    ),
                                }
                            } else {
                                (a1 + elifs, None)
                            }
                        },
                    }
                },
            }
        },
        FlowParent::WhileStat { block_range } => (
            match block_range {
                Some(b) => seq![FlowAssert { type_assert: t, range: b, actual_range: child }],
                None => seq![],
            },
            None,
        ),
        FlowParent::ElseIfClauseStat { block_range } => (
            match block_range {
                Some(b) => seq![FlowAssert { type_assert: t, range: b, actual_range: child }],
                None => seq![],
            },
            None,
        ),
        FlowParent::ParenExpr { range } => (seq![], Some((t, range))),
        FlowParent::BinaryExpr { range, op, operands } => match operands {
            None => (seq![], None),
            Some(o) => match op {
                BinaryOp::And => (
                    if o.origin_is_left {
                        seq![FlowAssert { type_assert: t, range: o.right_range, actual_range: child }]
                    } else {
                        seq![]
                    },
                    Some((t, range)),
                ),
                BinaryOp::Or => (
                    if o.origin_is_left && t.spec_negation() is Some {
                        seq![
                            FlowAssert {
                                type_assert: t.spec_negation()->Some_0,
                                range: o.right_range,
                                actual_range: child,
                            },
                        ]
                    } else {
                        seq![]
                    },
                    Some((t, range)),
                ),
                BinaryOp::Eq => match o.other_literal {
                    Some(l) => match spec_literal_assertion(l, true) {
                        Some(n) => (seq![], Some((n, range))),
                        None => (seq![], None),
                    },
                    None => (seq![], None),
                },
                BinaryOp::Ne => match o.other_literal {
                    Some(l) => match spec_literal_assertion(l, false) {
                        Some(n) => (seq![], Some((n, range))),
                        None => (seq![], None),
                    },
                    None => (seq![], None),
                },
                BinaryOp::Other => (seq![], None),
            },
        },
        FlowParent::CallArgList { call } => match call {
            CallInfo::TypeCall(c) => match c {
                Some(tc) => match tc.literal {
                    Some(LiteralInfo::String(name)) => {
                        let n = TypeAssertion::Narrow(spec_type_name_narrow(name));
                        if tc.op is Eq {
                            (seq![], Some((n, tc.range)))
                        } else if tc.op is Ne {
                            (seq![], Some((n.spec_negation()->Some_0, tc.range)))
                        } else {
                            (seq![], None)
                        }
                    },
                    _ => (seq![], None),
                },
                None => (seq![], None),
            },
            CallInfo::AssertCall(d) => match d {
                Some(info) => (spec_broadcast_down(info, t, true), None),
                None => (seq![], None),
            },
            CallInfo::Other => (seq![], None),
        },
        FlowParent::UnaryExpr { range, is_not } => if is_not && t.spec_negation() is Some {
            (seq![], Some((t.spec_negation()->Some_0, range)))
        } else {
            (seq![], None)
        },
        FlowParent::Other => (seq![], None),
    }
}

/// The narrowing `t` recorded over `range`, learned at `actual`.
pub open spec fn recorded(t: TypeAssertion, range: TextRange, actual: TextRange) -> FlowAssert {
    FlowAssert { type_assert: t, range, actual_range: actual }
}

/// At an `if` whose condition tells `t`, the `then` block gets `t`, and
/// where `t` has a negation the `else` block gets the negation; the
/// narrowing goes no further up, and what it records there is `t` or its
/// negation.
pub proof fn lemma_if_condition_narrows_branches(p: FlowParent, child: TextRange, t: TypeAssertion)
    requires
        p is IfStat,
    ensures
        spec_up_step(p, child, t).1 is None,
        p->IfStat_block_range is Some ==> spec_up_step(p, child, t).0.contains(
            recorded(t, p->IfStat_block_range->Some_0, child),
        ),
        (t.spec_negation() is Some && p->else_clause_range is Some) ==> spec_up_step(p, child, t).0.contains(
            recorded(t.spec_negation()->Some_0, p->else_clause_range->Some_0, child),
        ),
        forall|i: int|
            0 <= i < spec_up_step(p, child, t).0.len() ==> is_t_or_negation(
                #[trigger] spec_up_step(p, child, t).0[i],
                t,
            ),
{
    lemma_if_step_parts(p, child, t);
}

/// The assertion recorded is `t` or its negation.
pub open spec fn is_t_or_negation(a: FlowAssert, t: TypeAssertion) -> bool {
    a.type_assert == t || Some(a.type_assert) == t.spec_negation()
}

/// With an `else` clause, or where nothing returns out of the `then`
/// block, every `elseif` clause of the `if` gets the negation of `t`.
pub proof fn lemma_if_condition_negated_in_elseifs(p: FlowParent, child: TextRange, t: TypeAssertion, i: int)
    requires
        p is IfStat,
        t.spec_negation() is Some,
        0 <= i < p->else_if_ranges@.len(),
        p->else_clause_range is Some || !(p->block_stats matches Some(b) && spec_block_has_return(b@))
            || p->parent_block_range is Some,
    ensures
        spec_up_step(p, child, t).0.contains(
            recorded(t.spec_negation()->Some_0, p->else_if_ranges@[i], child),
        ),
{
    lemma_if_step_parts(p, child, t);
}

/// The parts of the step at an `if`.
proof fn lemma_if_step_parts(p: FlowParent, child: TextRange, t: TypeAssertion)
    requires
        p is IfStat,
    ensures
        spec_up_step(p, child, t).1 is None,
        p->IfStat_block_range is Some ==> spec_up_step(p, child, t).0.contains(
            recorded(t, p->IfStat_block_range->Some_0, child),
        ),
        (t.spec_negation() is Some && p->else_clause_range is Some) ==> spec_up_step(p, child, t).0.contains(
            recorded(t.spec_negation()->Some_0, p->else_clause_range->Some_0, child),
        ),
        forall|i: int|
            0 <= i < spec_up_step(p, child, t).0.len() ==> is_t_or_negation(
                #[trigger] spec_up_step(p, child, t).0[i],
                t,
            ),
        forall|i: int|
            (t.spec_negation() is Some && 0 <= i < p->else_if_ranges@.len() && (
            p->else_clause_range is Some || !(p->block_stats matches Some(b) && spec_block_has_return(
                b@,
            )) || p->parent_block_range is Some)) ==> spec_up_step(p, child, t).0.contains(
                recorded(t.spec_negation()->Some_0, #[trigger] p->else_if_ranges@[i], child),
            ),
{
    let step = spec_up_step(p, child, t);
    match p {
        FlowParent::IfStat {
            block_range,
            block_stats,
            else_clause_range,
            else_if_ranges,
            range,
            parent_block_range,
        } => {
            let a1 = match block_range {
                Some(b) => seq![recorded(t, b, child)],
                None => seq![],
            };
            if let Some(b) = block_range {
                assert(step.0[0] == recorded(t, b, child));
            }
            match t.spec_negation() {
                None => {
                    assert(step.0 == a1);
                },
                Some(ne) => {
                    let elifs = Seq::new(
                        else_if_ranges@.len(),
                        |i: int| recorded(ne, else_if_ranges@[i], child),
                    );
                    let mid: Seq<FlowAssert> = match else_clause_range {
                        Some(e) => seq![recorded(ne, e, child)],
                        None => {
                            let has_return = match block_stats {
                                Some(b) => spec_block_has_return(b@),
                                None => false,
                            };
                            if has_return {
                                match parent_block_range {
                                    None => seq![],
                                    Some(pb) => spec_after(range, pb, ne, Some(child)),
                                }
                            } else {
                                seq![]
                            }
                        },
                    };
                    let has_return = match block_stats {
                        Some(b) => spec_block_has_return(b@),
                        None => false,
                    };
                    let no_elifs = else_clause_range is None && has_return && parent_block_range is None;
                    if no_elifs {
                        assert(step.0 == a1);
                    } else {
                        assert(step.0 == a1 + mid + elifs);
                        assert forall|i: int| 0 <= i < elifs.len() implies step.0.contains(
                            recorded(ne, #[trigger] else_if_ranges@[i], child),
                        ) by {
                            assert(step.0[a1.len() + mid.len() + i] == elifs[i]);
                        }
                        if let Some(e) = else_clause_range {
                            assert(step.0[a1.len() as int] == recorded(ne, e, child));
                        }
                        assert forall|i: int| 0 <= i < step.0.len() implies is_t_or_negation(
                            #[trigger] step.0[i],
                            t,
                        ) by {
                            if i < a1.len() {
                                assert(step.0[i] == a1[i]);
                            } else if i < a1.len() + mid.len() {
                                assert(step.0[i] == mid[i - a1.len()]);
                            } else {
                                assert(step.0[i] == elifs[i - a1.len() - mid.len()]);
                            }
                        }
                    }
                },
            }
        },
        _ => {},
    }
}

/// A parenthesis passes a narrowing on unchanged; `not` passes on its
/// negation, and stops one that has none.
pub proof fn lemma_paren_and_not_pass_narrowing(p: FlowParent, child: TextRange, t: TypeAssertion)
    ensures
        p matches FlowParent::ParenExpr { range } ==> (spec_up_step(p, child, t).0.len() == 0
            && spec_up_step(p, child, t).1 == Some((t, range))),
        p matches FlowParent::UnaryExpr { range, is_not } ==> (is_not && t.spec_negation() is Some
            ==> spec_up_step(p, child, t).1 == Some((t.spec_negation()->Some_0, range))),
        p matches FlowParent::UnaryExpr { range, is_not } ==> (!(is_not && t.spec_negation() is Some)
            ==> spec_up_step(p, child, t).1 is None),
{
}

/// In `a and b` a narrowing goes on unchanged and, learned from `a`, also
/// holds in `b`; in `a or b` it goes on unchanged and, learned from `a`,
/// its negation holds in `b`.
pub proof fn lemma_and_or_pass_narrowing(
    range: TextRange,
    op: BinaryOp,
    o: BinaryOperands,
    child: TextRange,
    t: TypeAssertion,
)
    requires
        op is And || op is Or,
    ensures
        spec_up_step(FlowParent::BinaryExpr { range, op, operands: Some(o) }, child, t).1 == Some(
            (t, range),
        ),
        (op is And && o.origin_is_left) ==> spec_up_step(
            FlowParent::BinaryExpr { range, op, operands: Some(o) },
            child,
            t,
        ).0 == seq![recorded(t, o.right_range, child)],
        (op is Or && o.origin_is_left && t.spec_negation() is Some) ==> spec_up_step(
            FlowParent::BinaryExpr { range, op, operands: Some(o) },
            child,
            t,
        ).0 == seq![recorded(t.spec_negation()->Some_0, o.right_range, child)],
        !o.origin_is_left ==> spec_up_step(
            FlowParent::BinaryExpr { range, op, operands: Some(o) },
            child,
            t,
        ).0.len() == 0,
{
}

/// `x == lit` and `x ~= lit` go on with what comparing with the literal
/// tells, whatever was learned below.
pub proof fn lemma_literal_comparison_passes_its_assertion(
    range: TextRange,
    op: BinaryOp,
    o: BinaryOperands,
    l: LiteralInfo,
    child: TextRange,
    t: TypeAssertion,
)
    requires
        op is Eq || op is Ne,
        o.other_literal == Some(l),
    ensures
        spec_up_step(FlowParent::BinaryExpr { range, op, operands: Some(o) }, child, t).0.len() == 0,
        spec_up_step(FlowParent::BinaryExpr { range, op, operands: Some(o) }, child, t).1 == match spec_literal_assertion(
            l,
            op is Eq,
        ) {
            Some(n) => Some((n, range)),
            None => None,
        },
{
}

/// `type(x) == name` goes on narrowed to the named type, and
/// `type(x) ~= name` with the named type taken out.
pub proof fn lemma_type_call_passes_named_type(tc: TypeCompare, name: String, child: TextRange, t: TypeAssertion)
    requires
        tc.literal == Some(LiteralInfo::String(name)),
    ensures
        tc.op is Eq ==> spec_up_step(
            FlowParent::CallArgList { call: CallInfo::TypeCall(Some(tc)) },
            child,
            t,
        ).1 == Some((TypeAssertion::Narrow(spec_type_name_narrow(name)), tc.range)),
        tc.op is Ne ==> spec_up_step(
            FlowParent::CallArgList { call: CallInfo::TypeCall(Some(tc)) },
            child,
            t,
        ).1 == Some((TypeAssertion::Remove(spec_type_name_narrow(name)), tc.range)),
{
}

/// `assert(x)` as a statement makes what was learned hold over the rest of
/// its block and on after it, and goes no further up; a `while` or
/// `elseif` condition narrows its block and goes no further up.
pub proof fn lemma_assert_and_loops_stop_narrowing(p: FlowParent, child: TextRange, t: TypeAssertion)
    ensures
        p matches FlowParent::CallArgList { call } ==> (call matches CallInfo::AssertCall(d) ==> (d matches Some(
            info,
        ) ==> spec_up_step(p, child, t).0 == spec_broadcast_down(info, t, true))),
        p is CallArgList ==> (p->call is AssertCall ==> spec_up_step(p, child, t).1 is None),
        (p is WhileStat || p is ElseIfClauseStat || p is Other) ==> spec_up_step(p, child, t).1 is None,
        (p is WhileStat && p->WhileStat_block_range is Some) ==> spec_up_step(p, child, t).0 == seq![
            recorded(t, p->WhileStat_block_range->Some_0, child),
        ],
        (p is ElseIfClauseStat && p->ElseIfClauseStat_block_range is Some) ==> spec_up_step(
            p,
            child,
            t,
        ).0 == seq![recorded(t, p->ElseIfClauseStat_block_range->Some_0, child)],
{
}

/// What a statement records holds over the rest of its block: first from
/// the statement's end to the block's end, when the statement ends first;
/// nothing when the statement has no block; every record is `t`; without
/// going on outside, that one record is all, and there is one exactly when
/// the statement ends before its block.
pub proof fn lemma_broadcast_down_covers_rest_of_block(info: DownInfo, t: TypeAssertion, outside: bool)
    ensures
        info.block is None ==> spec_broadcast_down(info, t, outside).len() == 0,
        (info.block is Some && !outside) ==> (info.node_range.spec_end()
            < info.block->Some_0.range.spec_end() <==> spec_broadcast_down(info, t, outside).len()
            > 0),
        (info.block is Some && info.node_range.spec_end() < info.block->Some_0.range.spec_end())
            ==> spec_broadcast_down(info, t, outside)[0] == recorded(
            t,
            range_of(info.node_range.spec_end(), info.block->Some_0.range.spec_end()),
            range_of(info.node_range.spec_end(), info.block->Some_0.range.spec_end()),
        ),
        forall|i: int|
            0 <= i < spec_broadcast_down(info, t, outside).len() ==> (#[trigger] spec_broadcast_down(
                info,
                t,
                outside,
            )[i]).type_assert == t,
        !outside ==> spec_broadcast_down(info, t, outside).len() <= 1,
{
    match info.block {
        None => {},
        Some(b) => {
            let first = spec_after(info.node_range, b.range, t, None);
            match b.outside {
                Some(o) => {
                    let second = spec_after(o.0, o.1, t, None);
                    if outside && !(b.owner is Other) {
                        assert(spec_broadcast_down(info, t, outside) == first + second);
                        assert forall|i: int| 0 <= i < (first + second).len() implies (#[trigger] (first
                            + second)[i]).type_assert == t by {
                            if i < first.len() {
                                assert((first + second)[i] == first[i]);
                            } else {
                                assert((first + second)[i] == second[i - first.len()]);
                            }
                        }
                    } else {
                        assert(spec_broadcast_down(info, t, outside) =~= first);
                    }
                },
                None => {
                    assert(spec_broadcast_down(info, t, outside) =~= first);
                },
            }
        },
    }
}

/// What a narrowing learned at a variable records, following the chain of
/// its ancestors from the nearest one: each step records what it tells and
/// says whether, and with which narrowing, the next ancestor is reached.
pub open spec fn spec_broadcast_up(ancestors: Seq<FlowParent>, child: TextRange, t: TypeAssertion) -> Seq<
    FlowAssert,
>
    decreases ancestors.len(),
{
    if ancestors.len() == 0 {
        seq![]
    } else {
        let step = spec_up_step(ancestors[0], child, t);
        step.0 + match step.1 {
            Some(next) => spec_broadcast_up(ancestors.drop_first(), next.1, next.0),
            None => seq![],
        }
    }
}

fn push_on_ranges(
    out: &mut Vec<FlowAssert>,
    ranges: &Vec<TextRange>,
    t: &TypeAssertion,
    actual: TextRange,
)
    ensures
        final(out)@ == old(out)@ + Seq::new(
            ranges@.len(),
            |i: int| FlowAssert { type_assert: *t, range: ranges@[i], actual_range: actual },
        ),
{
    let ghost start = out@;
    let mut i: usize = 0;
    while i < ranges.len()
        invariant
            0 <= i <= ranges@.len(),
            out@ == start + Seq::new(
                i as nat,
                |j: int| FlowAssert { type_assert: *t, range: ranges@[j], actual_range: actual },
            ),
        decreases ranges@.len() - i,
    {
        out.push(FlowAssert { type_assert: t.clone(), range: ranges[i], actual_range: actual });
        i = i + 1;
        proof {
            assert(out@ =~= start + Seq::new(
                i as nat,
                |j: int| FlowAssert { type_assert: *t, range: ranges@[j], actual_range: actual },
            ));
        }
    }
    proof {
        assert(out@ =~= start + Seq::new(
            ranges@.len(),
            |j: int| FlowAssert { type_assert: *t, range: ranges@[j], actual_range: actual },
        ));
    }
}

/// One step up: what the narrowing `t`, learned at the child at `child`,
/// records at `parent`, and how it goes on to the next ancestor.
#[verifier::rlimit(40)]
pub fn up_step(parent: &FlowParent, child: TextRange, t: TypeAssertion) -> (r: (
    Vec<FlowAssert>,
    Option<(TypeAssertion, TextRange)>,
))
    ensures
        r.0@ == spec_up_step(*parent, child, t).0,
        r.1 == spec_up_step(*parent, child, t).1,
{
    let mut out: Vec<FlowAssert> = Vec::new();
    match parent {
        FlowParent::IfStat {
            block_range,
            block_stats,
            else_clause_range,
            else_if_ranges,
            range,
            parent_block_range,
        } => {
            if let Some(b) = block_range {
                out.push(FlowAssert { type_assert: t.clone(), range: *b, actual_range: child });
            }
            match t.get_negation() {
                None => {},
                Some(ne) => {
                    match else_clause_range {
                        Some(e) => {
                            out.push(
                                FlowAssert { type_assert: ne.clone(), range: *e, actual_range: child },
                            );
                        },
                        None => {
                            if is_block_has_return(block_stats).unwrap_or(false) {
                                match parent_block_range {
                                    None => {
                                        return (out, None);
                                    },
                                    Some(pb) => {
                                        push_after(&mut out, *range, *pb, ne.clone(), Some(child));
                                    },
                                }
                            }
                        },
                    }
                    push_on_ranges(&mut out, else_if_ranges, &ne, child);
                },
            }
            proof {
                assert(out@ =~= spec_up_step(*parent, child, t).0);
            }
            (out, None)
        },
        FlowParent::WhileStat { block_range } | FlowParent::ElseIfClauseStat { block_range } => {
            if let Some(b) = block_range {
                out.push(FlowAssert { type_assert: t, range: *b, actual_range: child });
            }
            proof {
                assert(out@ =~= spec_up_step(*parent, child, t).0);
            }
            (out, None)
        },
        FlowParent::ParenExpr { range } => (out, Some((t, *range))),
        FlowParent::BinaryExpr { range, op, operands } => match operands {
            None => (out, None),
            Some(o) => match op {
                BinaryOp::And => {
                    if o.origin_is_left {
                        out.push(
                            FlowAssert {
                                type_assert: t.clone(),
                                range: o.right_range,
                                actual_range: child,
                            },
                        );
                    }
                    proof {
                        assert(out@ =~= spec_up_step(*parent, child, t).0);
                    }
                    (out, Some((t, *range)))
                },
                BinaryOp::Or => {
                    if o.origin_is_left {
                        if let Some(ne) = t.get_negation() {
                            out.push(
                                FlowAssert { type_assert: ne, range: o.right_range, actual_range: child },
                            );
                        }
                    }
                    proof {
                        assert(out@ =~= spec_up_step(*parent, child, t).0);
                    }
                    (out, Some((t, *range)))
                },
                BinaryOp::Eq | BinaryOp::Ne => match &o.other_literal {
                    Some(l) => {
                        let is_eq = match op {
                            BinaryOp::Eq => true,
                            _ => false,
                        };
                        match binary_literal_type_assert(l, is_eq) {
                            Some(n) => (out, Some((n, *range))),
                            None => (out, None),
                        }
                    },
                    None => (out, None),
                },
                BinaryOp::Other => (out, None),
            },
        },
        FlowParent::CallArgList { call } => match call {
            CallInfo::TypeCall(c) => match c {
                Some(tc) => match &tc.literal {
                    Some(LiteralInfo::String(name)) => {
                        let n = type_name_type_assert(name);
                        match tc.op {
                            BinaryOp::Eq => (out, Some((n, tc.range))),
                            BinaryOp::Ne => match n.get_negation() {
                                Some(ne) => (out, Some((ne, tc.range))),
                                None => (out, None),
                            },
                            _ => (out, None),
                        }
                    },
                    _ => (out, None),
                },
                None => (out, None),
            },
            CallInfo::AssertCall(d) => match d {
                Some(info) => (broadcast_down(info, t, true), None),
                None => (out, None),
            },
            CallInfo::Other => (out, None),
        },
        FlowParent::UnaryExpr { range, is_not } => {
            if *is_not {
                match t.get_negation() {
                    Some(ne) => (out, Some((ne, *range))),
                    None => (out, None),
                }
            } else {
                (out, None)
            }
        },
        FlowParent::Other => (out, None),
    }
}

/// What a narrowing `type_assert`, learned at a variable at
/// `origin_range`, records as it goes up through the variable's ancestors
/// (`ancestors[0]` is its parent): the blocks of conditions it guards, the
/// right operands of `and`/`or`, comparisons with literals and `type(x)`,
/// negation by `not`, and the rest of the block after `assert(x)`.
#[verifier::rlimit(40)]
pub fn broadcast_up(ancestors: &Vec<FlowParent>, origin_range: TextRange, type_assert: TypeAssertion) -> (r:
    Vec<FlowAssert>)
    ensures
        r@ == spec_broadcast_up(ancestors@, origin_range, type_assert),
{
    let mut out: Vec<FlowAssert> = Vec::new();
    let mut i: usize = 0;
    let mut cur = type_assert;
    let mut child = origin_range;
    proof {
        assert(ancestors@.skip(0) =~= ancestors@);
        assert(out@ + spec_broadcast_up(ancestors@, child, cur) =~= spec_broadcast_up(
            ancestors@,
            child,
            cur,
        ));
    }
    loop
        invariant
            0 <= i <= ancestors@.len(),
            out@ + spec_broadcast_up(ancestors@.skip(i as int), child, cur) == spec_broadcast_up(
                ancestors@,
                origin_range,
                type_assert,
            ),
        decreases ancestors@.len() - i,
    {
        if i >= ancestors.len() {
            proof {
                assert(out@ + spec_broadcast_up(ancestors@.skip(i as int), child, cur) =~= out@);
            }
            return out;
        }
        let ghost rest = ancestors@.skip(i as int);
        proof {
            assert(rest[0] == ancestors@[i as int]);
            assert(rest.drop_first() =~= ancestors@.skip(i + 1));
        }
        let (mut step, next) = up_step(&ancestors[i], child, cur);
        let ghost before = out@;
        out.append(&mut step);
        match next {
            None => {
                proof {
                    assert(before + spec_broadcast_up(rest, child, cur) =~= out@);
                }
                return out;
            },
            Some((t2, c2)) => {
                proof {
                    assert(before + spec_broadcast_up(rest, child, cur) =~= out@
                        + spec_broadcast_up(ancestors@.skip(i + 1), c2, t2));
                }
                cur = t2;
                child = c2;
                i = i + 1;
            },
        }
    }
}

/// A variable used as a value: where it is used as a condition, it is
/// known to exist.
pub fn analyze_ref_expr(ancestors: &Vec<FlowParent>, var_range: TextRange) -> (r: Vec<FlowAssert>)
    ensures
        r@ == spec_broadcast_up(ancestors@, var_range, TypeAssertion::Exist),
{
    broadcast_up(ancestors, var_range, TypeAssertion::Exist)
}

/// Which value of a multiple assignment a variable gets, as in
/// `reassign_value_index`.
pub open spec fn spec_reassign_value_index(var_index: usize, value_count: usize) -> Option<(usize, i32)> {
    if value_count == 0 {
        None
    } else if var_index < value_count {
        Some((var_index, 0i32))
    } else {
        Some(((value_count - 1) as usize, (var_index - (value_count - 1)) as i32))
    }
}

/// A variable takes the value at its own index where there is one; past
/// the last value expression it takes the later values of the last one in
/// turn. So the expression's index and the value's offset in it add up to
/// the variable's index, the expression is one of the given ones, and only
/// the last one is read at an offset. Without value expressions there is no
/// value.
pub proof fn lemma_reassign_value_index_adds_up(var_index: usize, value_count: usize)
    requires
        var_index < value_count + 0x7fff_ffff,
    ensures
        spec_reassign_value_index(var_index, value_count) is None <==> value_count == 0,
        spec_reassign_value_index(var_index, value_count) matches Some(p) ==> (p.0 < value_count
            && p.1 >= 0 && p.0 + p.1 == var_index && (p.1 > 0 ==> p.0 == value_count - 1)),
{
}

/// Some tag marks the assignment as a declaration.
pub open spec fn spec_is_decl_assign(comment_tags: Seq<DocTagKind>) -> bool {
    exists|i: int|
        0 <= i < comment_tags.len() && (comment_tags[i] is Type || comment_tags[i] is Class
            || comment_tags[i] is Module || comment_tags[i] is Enum)
}

/// What an assignment to a variable records after the assignment `stat`.
/// An assignment marked as a declaration narrows the variable to its
/// declared type, when that is known. Otherwise the variable at
/// `var_index` among the assigned ones is reassigned from its value among
/// `value_ids`.
pub fn analyze_ref_assign(
    comment_tags: &Vec<DocTagKind>,
    declared_type: Option<LuaType>,
    var_index: Option<usize>,
    value_ids: &Vec<LuaSyntaxId>,
    stat: &DownInfo,
) -> (r: Vec<FlowAssert>)
    ensures
        spec_is_decl_assign(comment_tags@) ==> r@ == match declared_type {
            Some(t) => spec_broadcast_down(*stat, TypeAssertion::Narrow(t), true),
            None => seq![],
        },
        !spec_is_decl_assign(comment_tags@) ==> r@ == match var_index {
            None => seq![],
            Some(vi) => match spec_reassign_value_index(vi, value_ids@.len() as usize) {
                None => seq![],
                Some(p) => spec_broadcast_down(
                    *stat,
                    TypeAssertion::Reassign((value_ids@[p.0 as int], p.1)),
                    true,
                ),
            },
        },
{
    if is_decl_assign_stat(comment_tags).unwrap_or(false) {
        return match declared_type {
            Some(t) => broadcast_down(stat, TypeAssertion::Narrow(t), true),
            None => Vec::new(),
        };
    }
    let vi = match var_index {
        Some(v) => v,
        None => {
            return Vec::new();
        },
    };
    match reassign_value_index(vi, value_ids.len()) {
        None => Vec::new(),
        Some((k, idx)) => broadcast_down(stat, TypeAssertion::Reassign((value_ids[k], idx)), true),
    }
}

} // verus!
