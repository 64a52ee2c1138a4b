//! Compatibility of simple types: whether a value of one type may be used
//! where another is expected.
use std::sync::Arc;
use vstd::prelude::*;

use crate::types::{
    multi_return_arc_eq, multi_return_eq_lower, multi_return_eq_upper, LuaMultiReturn, LuaType,
    LuaUnionType,
};

verus! {

/// Why a type check failed.
#[derive(Debug)]
pub enum TypeCheckFailReason {
    TypeNotMatch,
    TypeNotMatchWithReason(String),
    TypeRecursion,
}

/// The result of a type check: `Ok` when the types are compatible.
pub type TypeCheckResult = Result<(), TypeCheckFailReason>;

/// Bounds the depth of nested checks, so that recursive types end.
#[derive(Debug, Clone, Copy, PartialEq, Eq, Structural)]
pub struct TypeCheckGuard {
    /// How many more levels the check may go down.
    pub remaining: u32,
}

impl TypeCheckGuard {
    pub fn new(depth: u32) -> (r: TypeCheckGuard)
        ensures
            r.remaining == depth,
    {
        TypeCheckGuard { remaining: depth }
    }

    /// The guard for one level further down, or a recursion failure when no
    /// level is left.
    pub fn next_level(&self) -> (r: Result<TypeCheckGuard, TypeCheckFailReason>)
        ensures
            self.remaining == 0 ==> r matches Err(TypeCheckFailReason::TypeRecursion),
            self.remaining > 0 ==> r == Ok::<TypeCheckGuard, TypeCheckFailReason>(
                TypeCheckGuard { remaining: (self.remaining - 1) as u32 },
            ),
    {
        if self.remaining == 0 {
            Err(TypeCheckFailReason::TypeRecursion)
        } else {
            Ok(TypeCheckGuard { remaining: self.remaining - 1 })
        }
    }
}

/// The outcome of a simple check, as the contract describes it.
pub enum SimpleOutcome {
    Pass,
    NotMatch,
    Recursion,
    /// Passes exactly when the two multiple returns compare equal.
    MultiCompare(LuaMultiReturn, LuaMultiReturn),
}

/// `r` is the result that `o` describes.
pub open spec fn outcome_matches(r: TypeCheckResult, o: SimpleOutcome) -> bool {
    match o {
        SimpleOutcome::Pass => r is Ok,
        SimpleOutcome::NotMatch => r matches Err(TypeCheckFailReason::TypeNotMatch),
        SimpleOutcome::Recursion => r matches Err(TypeCheckFailReason::TypeRecursion),
        SimpleOutcome::MultiCompare(m, c) => {
            &&& multi_return_eq_lower(m, c) ==> r is Ok
            &&& r is Ok ==> multi_return_eq_upper(m, c)
            &&& (r is Ok || r matches Err(TypeCheckFailReason::TypeNotMatch))
        },
    }
}

/// The verdicts that `f` gives on base types against references to declared
/// types are those of `v`.
pub open spec fn ref_verdicts<F: Fn(&LuaType, &LuaType, &TypeCheckGuard) -> bool>(
    f: F,
    v: spec_fn(LuaType, LuaType, TypeCheckGuard) -> bool,
) -> bool {
    forall|s: LuaType, c: LuaType, g: TypeCheckGuard, b: bool|
        #[trigger] f.ensures((&s, &c, &g), b) ==> b == v(s, c, g)
}

/// The outcome decided by the kind of `source` alone, when it decides one.
pub open spec fn simple_source_outcome(
    source: LuaType,
    compact: LuaType,
    guard: TypeCheckGuard,
    refok: spec_fn(LuaType, LuaType, TypeCheckGuard) -> bool,
) -> Option<SimpleOutcome>
    decreases guard.remaining, 0nat, 0nat,
{
    match source {
        LuaType::Unknown | LuaType::Any => Some(SimpleOutcome::Pass),
        LuaType::Nil => if compact is Nil {
            Some(SimpleOutcome::Pass)
        } else {
            None
        },
        LuaType::Table | LuaType::TableConst(_) => if compact is Table || compact is TableConst
            || compact is Tuple || compact is Array || compact is Object || compact is Ref
            || compact is Def || compact is TableGeneric || compact is Generic || compact is Global
            || compact is Userdata || compact is Instance || compact is Any {
            Some(SimpleOutcome::Pass)
        } else {
            None
        },
        LuaType::Userdata => if compact is Userdata || compact is Ref || compact is Def {
            Some(SimpleOutcome::Pass)
        } else {
            None
        },
        LuaType::Function => if compact is Function || compact is DocFunction
            || compact is Signature {
            Some(SimpleOutcome::Pass)
        } else {
            None
        },
        LuaType::Thread => if compact is Thread {
            Some(SimpleOutcome::Pass)
        } else {
            None
        },
        LuaType::Boolean | LuaType::BooleanConst(_) => if compact is Boolean
            || compact is BooleanConst {
            Some(SimpleOutcome::Pass)
        } else {
            None
        },
        LuaType::String | LuaType::StringConst(_) => if compact is String || compact is StringConst
            || compact is DocStringConst {
            Some(SimpleOutcome::Pass)
        } else if compact is Ref && refok(source, compact, guard) {
            Some(SimpleOutcome::Pass)
        } else {
            None
        },
        LuaType::Integer | LuaType::IntegerConst(_) => if compact is Integer
            || compact is IntegerConst || compact is DocIntegerConst {
            Some(SimpleOutcome::Pass)
        } else if compact is Ref && refok(source, compact, guard) {
            Some(SimpleOutcome::Pass)
        } else {
            None
        },
        LuaType::Number | LuaType::FloatConst(_) => if compact is Number || compact is FloatConst
            || compact is Integer || compact is IntegerConst || compact is DocIntegerConst {
            Some(SimpleOutcome::Pass)
        } else {
            None
        },
        LuaType::Io => if compact is Io {
            Some(SimpleOutcome::Pass)
        } else {
            None
        },
        LuaType::Global => if compact is Global {
            Some(SimpleOutcome::Pass)
        } else {
            None
        },
        LuaType::DocIntegerConst(i) => match compact {
            LuaType::IntegerConst(j) => Some(
                if i == j {
                    SimpleOutcome::Pass
                } else {
                    SimpleOutcome::NotMatch
                },
            ),
            LuaType::Integer => Some(SimpleOutcome::NotMatch),
            LuaType::DocIntegerConst(j) => Some(
                if i == j {
                    SimpleOutcome::Pass
                } else {
                    SimpleOutcome::NotMatch
                },
            ),
            _ => None,
        },
        LuaType::DocStringConst(s) => match compact {
            LuaType::StringConst(t) => Some(
                if s@ == t@ {
                    SimpleOutcome::Pass
                } else {
                    SimpleOutcome::NotMatch
                },
            ),
            LuaType::String => Some(SimpleOutcome::NotMatch),
            LuaType::DocStringConst(t) => Some(
                if s@ == t@ {
                    SimpleOutcome::Pass
                } else {
                    SimpleOutcome::NotMatch
                },
            ),
            _ => None,
        },
        LuaType::DocBooleanConst(b) => match compact {
            LuaType::BooleanConst(t) => Some(
                if b == t {
                    SimpleOutcome::Pass
                } else {
                    SimpleOutcome::NotMatch
                },
            ),
            LuaType::Boolean => Some(SimpleOutcome::NotMatch),
            LuaType::DocBooleanConst(t) => Some(
                if b == t {
                    SimpleOutcome::Pass
                } else {
                    SimpleOutcome::NotMatch
                },
            ),
            _ => None,
        },
        LuaType::StrTplRef(_) => if compact is String || compact is StringConst {
            Some(SimpleOutcome::Pass)
        } else {
            None
        },
        LuaType::TplRef(_) => Some(SimpleOutcome::Pass),
        LuaType::Namespace(s) => match compact {
            LuaType::Namespace(t) => if s@ == t@ {
                Some(SimpleOutcome::Pass)
            } else {
                None
            },
            _ => None,
        },
        LuaType::Variadic(inner) => if guard.remaining == 0 {
            Some(SimpleOutcome::Recursion)
        } else {
            let next = TypeCheckGuard { remaining: (guard.remaining - 1) as u32 };
            match compact {
                LuaType::Variadic(c) => Some(simple_check(*inner, *c, next, refok)),
                _ => Some(simple_check(*inner, compact, next, refok)),
            }
        },
        LuaType::MuliReturn(m) => match compact {
            LuaType::MuliReturn(c) => Some(SimpleOutcome::MultiCompare(*m, *c)),
            _ => Some(SimpleOutcome::NotMatch),
        },
        _ => None,
    }
}

/// Every member passes the check against `source` at level `guard`.
pub open spec fn union_all_pass(
    source: LuaType,
    members: Seq<LuaType>,
    guard: TypeCheckGuard,
    refok: spec_fn(LuaType, LuaType, TypeCheckGuard) -> bool,
) -> bool
    decreases guard.remaining, 1nat, members.len(),
{
    if members.len() == 0 {
        true
    } else {
        union_all_pass(source, members.drop_last(), guard, refok) && simple_check(
            source,
            members.last(),
            guard,
            refok,
        ) is Pass
    }
}

/// Whether a value of type `compact` may be used where `source` is
/// expected, for simple types, with `refok` deciding base types against
/// references to declared types.
pub open spec fn simple_check(
    source: LuaType,
    compact: LuaType,
    guard: TypeCheckGuard,
    refok: spec_fn(LuaType, LuaType, TypeCheckGuard) -> bool,
) -> SimpleOutcome
    decreases guard.remaining, 0nat, 1nat,
{
    match simple_source_outcome(source, compact, guard, refok) {
        Some(o) => o,
        None => match compact {
            LuaType::Union(u) => if u.types@.len() == 0 {
                SimpleOutcome::Pass
            } else if guard.remaining == 0 {
                SimpleOutcome::Recursion
            } else if union_all_pass(
                source,
                u.types@,
                TypeCheckGuard { remaining: (guard.remaining - 1) as u32 },
                refok,
            ) {
                SimpleOutcome::Pass
            } else {
                SimpleOutcome::NotMatch
            },
            _ => SimpleOutcome::NotMatch,
        },
    }
}

} // verus!

verus! {

/// A source that is neither variadic nor a multiple return never leaves the
/// outcome to a comparison of multiple returns.
proof fn lemma_no_multi_compare(
    source: LuaType,
    compact: LuaType,
    guard: TypeCheckGuard,
    refok: spec_fn(LuaType, LuaType, TypeCheckGuard) -> bool,
)
    requires
        !(source is Variadic),
        !(source is MuliReturn),
    ensures
        !(simple_check(source, compact, guard, refok) is MultiCompare),
{
}

/// Members that all pass include member `j`.
proof fn lemma_union_all_pass_at(
    source: LuaType,
    members: Seq<LuaType>,
    guard: TypeCheckGuard,
    refok: spec_fn(LuaType, LuaType, TypeCheckGuard) -> bool,
    j: int,
)
    requires
        union_all_pass(source, members, guard, refok),
        0 <= j < members.len(),
    ensures
        simple_check(source, members[j], guard, refok) is Pass,
    decreases members.len(),
{
    if j < members.len() - 1 {
        lemma_union_all_pass_at(source, members.drop_last(), guard, refok, j);
    }
}

/// Members that each pass all pass.
proof fn lemma_union_all_pass_from_each(
    source: LuaType,
    members: Seq<LuaType>,
    guard: TypeCheckGuard,
    refok: spec_fn(LuaType, LuaType, TypeCheckGuard) -> bool,
)
    requires
        forall|j: int|
            0 <= j < members.len() ==> (#[trigger] simple_check(source, members[j], guard, refok)) is Pass,
    ensures
        union_all_pass(source, members, guard, refok),
    decreases members.len(),
{
    if members.len() > 0 {
        let rest = members.drop_last();
        assert forall|j: int| 0 <= j < rest.len() implies (#[trigger] simple_check(
            source,
            rest[j],
            guard,
            refok,
        )) is Pass by {
            assert(rest[j] == members[j]);
        }
        lemma_union_all_pass_from_each(source, rest, guard, refok);
        assert(simple_check(source, members[members.len() - 1], guard, refok) is Pass);
    }
}

/// A union is checked member by member: against a source whose own kind
/// decides nothing, an empty union passes; otherwise, with no level left
/// the check fails for recursion, and with a level left the union passes
/// exactly when every member passes one level further down, and fails as a
/// mismatch when one does not.
pub proof fn lemma_union_checked_by_members(
    source: LuaType,
    u: LuaUnionType,
    guard: TypeCheckGuard,
    refok: spec_fn(LuaType, LuaType, TypeCheckGuard) -> bool,
)
    requires
        !(source is Unknown),
        !(source is Any),
        !(source is TplRef),
        !(source is Variadic),
        !(source is MuliReturn),
    ensures
        u.types@.len() == 0 ==> simple_check(
            source,
            LuaType::Union(Arc::new(u)),
            guard,
            refok,
        ) is Pass,
        u.types@.len() > 0 && guard.remaining == 0 ==> simple_check(
            source,
            LuaType::Union(Arc::new(u)),
            guard,
            refok,
        ) is Recursion,
        u.types@.len() > 0 && guard.remaining > 0 ==> {
            let next = TypeCheckGuard { remaining: (guard.remaining - 1) as u32 };
            let o = simple_check(source, LuaType::Union(Arc::new(u)), guard, refok);
            &&& (o is Pass <==> forall|j: int|
                0 <= j < u.types@.len() ==> (#[trigger] simple_check(
                    source,
                    u.types@[j],
                    next,
                    refok,
                )) is Pass)
            &&& (o is Pass || o is NotMatch)
        },
{
    let c = LuaType::Union(Arc::new(u));
    assert(simple_source_outcome(source, c, guard, refok) is None);
    if u.types@.len() > 0 && guard.remaining > 0 {
        let next = TypeCheckGuard { remaining: (guard.remaining - 1) as u32 };
        if union_all_pass(source, u.types@, next, refok) {
            assert forall|j: int| 0 <= j < u.types@.len() implies (#[trigger] simple_check(
                source,
                u.types@[j],
                next,
                refok,
            )) is Pass by {
                lemma_union_all_pass_at(source, u.types@, next, refok, j);
            }
        }
        if forall|j: int|
            0 <= j < u.types@.len() ==> (#[trigger] simple_check(
                source,
                u.types@[j],
                next,
                refok,
            )) is Pass {
            lemma_union_all_pass_from_each(source, u.types@, next, refok);
        }
    }
}

/// A variadic source is checked as its element type one level further
/// down, against the element type of a variadic value or against the value
/// itself; with no level left the check fails for recursion.
pub proof fn lemma_variadic_checked_by_element(
    elem: LuaType,
    compact: LuaType,
    guard: TypeCheckGuard,
    refok: spec_fn(LuaType, LuaType, TypeCheckGuard) -> bool,
)
    ensures
        guard.remaining == 0 ==> simple_check(
            LuaType::Variadic(Arc::new(elem)),
            compact,
            guard,
            refok,
        ) is Recursion,
        guard.remaining > 0 ==> simple_check(
            LuaType::Variadic(Arc::new(elem)),
            compact,
            guard,
            refok,
        ) == simple_check(
            elem,
            match compact {
                LuaType::Variadic(c) => *c,
                _ => compact,
            },
            TypeCheckGuard { remaining: (guard.remaining - 1) as u32 },
            refok,
        ),
{
}

/// The union law on results: where the results of the check of a union and
/// of the checks of its members (one level further down) are those the
/// check gives for the same verdicts on references, the union's result is
/// `Ok` exactly when every member's is, and a mismatch otherwise.
pub proof fn lemma_union_result_from_member_results(
    source: LuaType,
    u: LuaUnionType,
    guard: TypeCheckGuard,
    refok: spec_fn(LuaType, LuaType, TypeCheckGuard) -> bool,
    r: TypeCheckResult,
    member_results: Seq<TypeCheckResult>,
)
    requires
        !(source is Unknown),
        !(source is Any),
        !(source is TplRef),
        !(source is Variadic),
        !(source is MuliReturn),
        guard.remaining > 0,
        member_results.len() == u.types@.len(),
        outcome_matches(r, simple_check(source, LuaType::Union(Arc::new(u)), guard, refok)),
        forall|j: int|
            0 <= j < member_results.len() ==> outcome_matches(
                #[trigger] member_results[j],
                simple_check(
                    source,
                    u.types@[j],
                    TypeCheckGuard { remaining: (guard.remaining - 1) as u32 },
                    refok,
                ),
            ),
    ensures
        r is Ok <==> forall|j: int| 0 <= j < member_results.len() ==> (#[trigger] member_results[j]) is Ok,
        r is Err ==> r matches Err(TypeCheckFailReason::TypeNotMatch),
{
    let next = TypeCheckGuard { remaining: (guard.remaining - 1) as u32 };
    lemma_union_checked_by_members(source, u, guard, refok);
    assert forall|j: int| 0 <= j < member_results.len() implies ((#[trigger] member_results[j]) is Ok
        <==> simple_check(source, u.types@[j], next, refok) is Pass) by {
        lemma_no_multi_compare(source, u.types@[j], next, refok);
    }
    let o = simple_check(source, LuaType::Union(Arc::new(u)), guard, refok);
    if u.types@.len() > 0 {
        if forall|j: int| 0 <= j < member_results.len() ==> (#[trigger] member_results[j]) is Ok {
            assert forall|j: int| 0 <= j < u.types@.len() implies (#[trigger] simple_check(
                source,
                u.types@[j],
                next,
                refok,
            )) is Pass by {
                assert(member_results[j] is Ok);
            }
            assert(o is Pass);
        }
        if o is Pass {
            assert forall|j: int| 0 <= j < member_results.len() implies (
            #[trigger] member_results[j]) is Ok by {
                assert(simple_check(source, u.types@[j], next, refok) is Pass);
            }
        }
    }
}

/// The variadic law on results: the result of checking a variadic source,
/// with a level left, is described by the check of its element type one
/// level further down, against the element type of a variadic value or
/// against the value itself.
pub proof fn lemma_variadic_result_from_element(
    elem: LuaType,
    compact: LuaType,
    guard: TypeCheckGuard,
    refok: spec_fn(LuaType, LuaType, TypeCheckGuard) -> bool,
    r: TypeCheckResult,
)
    requires
        guard.remaining > 0,
        outcome_matches(r, simple_check(LuaType::Variadic(Arc::new(elem)), compact, guard, refok)),
    ensures
        outcome_matches(
            r,
            simple_check(
                elem,
                match compact {
                    LuaType::Variadic(c) => *c,
                    _ => compact,
                },
                TypeCheckGuard { remaining: (guard.remaining - 1) as u32 },
                refok,
            ),
        ),
{
    lemma_variadic_checked_by_element(elem, compact, guard, refok);
}

/// The kinds of types that every check accepts against themselves.
pub open spec fn is_self_accepting_kind(t: LuaType) -> bool {
    t is Unknown || t is Any || t is Nil || t is Table || t is TableConst || t is Userdata
        || t is Function || t is Thread || t is Boolean || t is BooleanConst || t is String
        || t is StringConst || t is Integer || t is IntegerConst || t is Number || t is FloatConst
        || t is Io || t is Global || t is DocIntegerConst || t is DocStringConst
        || t is DocBooleanConst || t is TplRef || t is Namespace
}

/// A value may be used where a value of its own simple type is expected,
/// at every level and whatever the verdicts on references.
pub proof fn lemma_simple_types_accept_themselves(
    t: LuaType,
    guard: TypeCheckGuard,
    refok: spec_fn(LuaType, LuaType, TypeCheckGuard) -> bool,
)
    requires
        is_self_accepting_kind(t),
    ensures
        simple_check(t, t, guard, refok) is Pass,
{
}

/// An integer is expected: integer values pass, and so does a reference
/// whose declared type the reference check accepts; a number or float
/// value, or any other value that is not a union, is a mismatch. Integers
/// are numbers but numbers are not integers: where a number is expected,
/// every integer value passes.
pub proof fn lemma_integer_place_accepts_integers_only(
    source: LuaType,
    compact: LuaType,
    guard: TypeCheckGuard,
    refok: spec_fn(LuaType, LuaType, TypeCheckGuard) -> bool,
)
    requires
        source is Integer || source is IntegerConst,
        !(compact is Union),
    ensures
        simple_check(source, compact, guard, refok) is Pass <==> (compact is Integer
            || compact is IntegerConst || compact is DocIntegerConst || (compact is Ref && refok(
            source,
            compact,
            guard,
        ))),
        simple_check(source, compact, guard, refok) is Pass || simple_check(
            source,
            compact,
            guard,
            refok,
        ) is NotMatch,
        (compact is Number || compact is FloatConst) ==> simple_check(
            source,
            compact,
            guard,
            refok,
        ) is NotMatch,
        (compact is Integer || compact is IntegerConst || compact is DocIntegerConst)
            ==> simple_check(LuaType::Number, compact, guard, refok) is Pass,
{
}

/// A number is expected: numbers, floats and integers pass; any other value
/// that is not a union is a mismatch.
pub proof fn lemma_number_place_accepts_numbers(
    source: LuaType,
    compact: LuaType,
    guard: TypeCheckGuard,
    refok: spec_fn(LuaType, LuaType, TypeCheckGuard) -> bool,
)
    requires
        source is Number || source is FloatConst,
        !(compact is Union),
    ensures
        simple_check(source, compact, guard, refok) is Pass <==> (compact is Number
            || compact is FloatConst || compact is Integer || compact is IntegerConst
            || compact is DocIntegerConst),
        simple_check(source, compact, guard, refok) is Pass || simple_check(
            source,
            compact,
            guard,
            refok,
        ) is NotMatch,
{
}

/// A string is expected: string values pass, and so does a reference whose
/// declared type the reference check accepts; any other value that is not
/// a union is a mismatch.
pub proof fn lemma_string_place_accepts_strings_only(
    source: LuaType,
    compact: LuaType,
    guard: TypeCheckGuard,
    refok: spec_fn(LuaType, LuaType, TypeCheckGuard) -> bool,
)
    requires
        source is String || source is StringConst,
        !(compact is Union),
    ensures
        simple_check(source, compact, guard, refok) is Pass <==> (compact is String
            || compact is StringConst || compact is DocStringConst || (compact is Ref && refok(
            source,
            compact,
            guard,
        ))),
        simple_check(source, compact, guard, refok) is Pass || simple_check(
            source,
            compact,
            guard,
            refok,
        ) is NotMatch,
{
}

/// A boolean is expected: boolean values pass; any other value that is not
/// a union is a mismatch.
pub proof fn lemma_boolean_place_accepts_booleans_only(
    source: LuaType,
    compact: LuaType,
    guard: TypeCheckGuard,
    refok: spec_fn(LuaType, LuaType, TypeCheckGuard) -> bool,
)
    requires
        source is Boolean || source is BooleanConst,
        !(compact is Union),
    ensures
        simple_check(source, compact, guard, refok) is Pass <==> (compact is Boolean
            || compact is BooleanConst),
        simple_check(source, compact, guard, refok) is Pass || simple_check(
            source,
            compact,
            guard,
            refok,
        ) is NotMatch,
{
}

/// Where `nil` is expected only `nil` passes; `unknown` and `any` accept
/// every value.
pub proof fn lemma_nil_and_any_places(
    compact: LuaType,
    guard: TypeCheckGuard,
    refok: spec_fn(LuaType, LuaType, TypeCheckGuard) -> bool,
)
    requires
        !(compact is Union),
    ensures
        simple_check(LuaType::Nil, compact, guard, refok) is Pass <==> compact is Nil,
        simple_check(LuaType::Unknown, compact, guard, refok) is Pass,
        simple_check(LuaType::Any, compact, guard, refok) is Pass,
{
}

/// Where a multiple return is expected, only a multiple return may pass,
/// and it passes when the two compare equal: an equal multiple return
/// passes, any other value is a mismatch.
pub proof fn lemma_multi_return_place(
    m: LuaMultiReturn,
    compact: LuaType,
    guard: TypeCheckGuard,
    refok: spec_fn(LuaType, LuaType, TypeCheckGuard) -> bool,
    r: TypeCheckResult,
)
    requires
        outcome_matches(r, simple_check(LuaType::MuliReturn(Arc::new(m)), compact, guard, refok)),
    ensures
        !(compact is MuliReturn) ==> r matches Err(TypeCheckFailReason::TypeNotMatch),
        compact matches LuaType::MuliReturn(c) ==> (multi_return_eq_lower(m, *c) ==> r is Ok),
        compact matches LuaType::MuliReturn(c) ==> (r is Ok ==> multi_return_eq_upper(m, *c)),
        r is Ok || r matches Err(TypeCheckFailReason::TypeNotMatch),
{
}

/// Checks whether a value of type `compact_type` may be used where `source`
/// is expected, for the simple kinds of types. `check_ref_base` tells whether
/// a string or integer type is accepted where a reference to a declared type
/// stands; the outcome for every verdict it may give is stated.
pub fn check_simple_type_compact<F: Fn(&LuaType, &LuaType, &TypeCheckGuard) -> bool>(
    check_ref_base: &F,
    source: &LuaType,
    compact_type: &LuaType,
    check_guard: TypeCheckGuard,
) -> (r: TypeCheckResult)
    requires
        forall|s: &LuaType, c: &LuaType, g: &TypeCheckGuard| check_ref_base.requires((s, c, g)),
    ensures
        (*source is Unknown || *source is Any || *source is TplRef) ==> r is Ok,
        forall|v: spec_fn(LuaType, LuaType, TypeCheckGuard) -> bool|
            ref_verdicts(*check_ref_base, v) ==> outcome_matches(
                r,
                #[trigger] simple_check(*source, *compact_type, check_guard, v),
            ),
    decreases check_guard.remaining,
{
    match source {
        LuaType::Unknown | LuaType::Any => {
            return Ok(());
        },
        LuaType::Nil => {
            if let LuaType::Nil = compact_type {
                return Ok(());
            }
        },
        LuaType::Table | LuaType::TableConst(_) => {
            if matches!(
                compact_type,
                LuaType::Table | LuaType::TableConst(_) | LuaType::Tuple(_) | LuaType::Array(_)
                    | LuaType::Object(_) | LuaType::Ref(_) | LuaType::Def(_)
                    | LuaType::TableGeneric(_) | LuaType::Generic(_) | LuaType::Global
                    | LuaType::Userdata | LuaType::Instance(_) | LuaType::Any
            ) {
                return Ok(());
            }
        },
        LuaType::Userdata => {
            if matches!(compact_type, LuaType::Userdata | LuaType::Ref(_) | LuaType::Def(_)) {
                return Ok(());
            }
        },
        LuaType::Function => {
            if matches!(
                compact_type,
                LuaType::Function | LuaType::DocFunction(_) | LuaType::Signature(_)
            ) {
                return Ok(());
            }
        },
        LuaType::Thread => {
            if let LuaType::Thread = compact_type {
                return Ok(());
            }
        },
        LuaType::Boolean | LuaType::BooleanConst(_) => {
            if compact_type.is_boolean() {
                return Ok(());
            }
        },
        LuaType::String | LuaType::StringConst(_) => match compact_type {
            LuaType::String | LuaType::StringConst(_) | LuaType::DocStringConst(_) => {
                return Ok(());
            },
            LuaType::Ref(_) => {
                if check_ref_base(source, compact_type, &check_guard) {
                    return Ok(());
                }
            },
            _ => {},
        },
        LuaType::Integer | LuaType::IntegerConst(_) => match compact_type {
            LuaType::Integer | LuaType::IntegerConst(_) | LuaType::DocIntegerConst(_) => {
                return Ok(());
            },
            LuaType::Ref(_) => {
                if check_ref_base(source, compact_type, &check_guard) {
                    return Ok(());
                }
            },
            _ => {},
        },
        LuaType::Number | LuaType::FloatConst(_) => {
            if matches!(
                compact_type,
                LuaType::Number | LuaType::FloatConst(_) | LuaType::Integer
                    | LuaType::IntegerConst(_) | LuaType::DocIntegerConst(_)
            ) {
                return Ok(());
            }
        },
        LuaType::Io => {
            if let LuaType::Io = compact_type {
                return Ok(());
            }
        },
        LuaType::Global => {
            if let LuaType::Global = compact_type {
                return Ok(());
            }
        },
        LuaType::DocIntegerConst(i) => match compact_type {
            LuaType::IntegerConst(j) => {
                if *i == *j {
                    return Ok(());
                }
                return Err(TypeCheckFailReason::TypeNotMatch);
            },
            LuaType::Integer => return Err(TypeCheckFailReason::TypeNotMatch),
            LuaType::DocIntegerConst(j) => {
                if *i == *j {
                    return Ok(());
                }
                return Err(TypeCheckFailReason::TypeNotMatch);
            },
            _ => {},
        },
        LuaType::DocStringConst(s) => match compact_type {
            LuaType::StringConst(t) => {
                if *s == *t {
                    return Ok(());
                }
                return Err(TypeCheckFailReason::TypeNotMatch);
            },
            LuaType::String => return Err(TypeCheckFailReason::TypeNotMatch),
            LuaType::DocStringConst(t) => {
                if *s == *t {
                    return Ok(());
                }
                return Err(TypeCheckFailReason::TypeNotMatch);
            },
            _ => {},
        },
        LuaType::DocBooleanConst(b) => match compact_type {
            LuaType::BooleanConst(t) => {
                if *b == *t {
                    return Ok(());
                }
                return Err(TypeCheckFailReason::TypeNotMatch);
            },
            LuaType::Boolean => return Err(TypeCheckFailReason::TypeNotMatch),
            LuaType::DocBooleanConst(t) => {
                if *b == *t {
                    return Ok(());
                }
                return Err(TypeCheckFailReason::TypeNotMatch);
            },
            _ => {},
        },
        LuaType::StrTplRef(_) => {
            if compact_type.is_string() {
                return Ok(());
            }
        },
        LuaType::TplRef(_) => return Ok(()),
        LuaType::Namespace(source_namespace) => {
            if let LuaType::Namespace(compact_namespace) = compact_type {
                if *source_namespace == *compact_namespace {
                    return Ok(());
                }
            }
        },
        LuaType::Variadic(source_type) => {
            let next = match check_guard.next_level() {
                Ok(g) => g,
                Err(e) => return Err(e),
            };
            if let LuaType::Variadic(compact_inner) = compact_type {
                let r = check_simple_type_compact(
                    check_ref_base,
                    &**source_type,
                    &**compact_inner,
                    next,
                );
                proof {
                    assert forall|v: spec_fn(LuaType, LuaType, TypeCheckGuard) -> bool|
                        ref_verdicts(*check_ref_base, v) implies outcome_matches(
                        r,
                        #[trigger] simple_check(*source, *compact_type, check_guard, v),
                    ) by {
                        assert(outcome_matches(
                            r,
                            simple_check(**source_type, **compact_inner, next, v),
                        ));
                    }
                }
                return r;
            } else {
                let r = check_simple_type_compact(check_ref_base, &**source_type, compact_type, next);
                proof {
                    assert forall|v: spec_fn(LuaType, LuaType, TypeCheckGuard) -> bool|
                        ref_verdicts(*check_ref_base, v) implies outcome_matches(
                        r,
                        #[trigger] simple_check(*source, *compact_type, check_guard, v),
                    ) by {
                        assert(outcome_matches(r, simple_check(**source_type, *compact_type, next, v)));
                    }
                }
                return r;
            }
        },
        LuaType::MuliReturn(multi_return) => {
            match compact_type {
                LuaType::MuliReturn(compact_multi_return) => {
                    if multi_return_arc_eq(multi_return, compact_multi_return) {
                        return Ok(());
                    }
                },
                _ => {},
            }
            return Err(TypeCheckFailReason::TypeNotMatch);
        },
        _ => {},
    }

    proof {
        assert forall|v: spec_fn(LuaType, LuaType, TypeCheckGuard) -> bool|
            ref_verdicts(*check_ref_base, v) implies simple_source_outcome(
            *source,
            *compact_type,
            check_guard,
            v,
        ) is None by {}
    }

    if let LuaType::Union(union) = compact_type {
        let types = union.get_types();
        let mut i: usize = 0;
        while i < types.len()
            invariant
                0 <= i <= types@.len(),
                types@ == union.types@,
                *compact_type == LuaType::Union(*union),
                forall|s: &LuaType, c: &LuaType, g: &TypeCheckGuard|
                    check_ref_base.requires((s, c, g)),
                !(*source is Variadic),
                !(*source is MuliReturn),
                !(*source is Unknown || *source is Any || *source is TplRef),
                forall|v: spec_fn(LuaType, LuaType, TypeCheckGuard) -> bool|
                    ref_verdicts(*check_ref_base, v) ==> #[trigger] simple_source_outcome(
                        *source,
                        *compact_type,
                        check_guard,
                        v,
                    ) is None,
                i > 0 ==> check_guard.remaining > 0,
                check_guard.remaining > 0 ==> forall|
                    v: spec_fn(LuaType, LuaType, TypeCheckGuard) -> bool,
                |
                    ref_verdicts(*check_ref_base, v) ==> #[trigger] union_all_pass(
                        *source,
                        types@.take(i as int),
                        TypeCheckGuard { remaining: (check_guard.remaining - 1) as u32 },
                        v,
                    ),
            decreases types@.len() - i,
        {
            let next = match check_guard.next_level() {
                Ok(g) => g,
                Err(e) => {
                    proof {
                        assert forall|v: spec_fn(LuaType, LuaType, TypeCheckGuard) -> bool|
                            ref_verdicts(*check_ref_base, v) implies outcome_matches(
                            Err::<(), TypeCheckFailReason>(e),
                            #[trigger] simple_check(*source, *compact_type, check_guard, v),
                        ) by {
                            assert(simple_source_outcome(*source, *compact_type, check_guard, v) is None);
                        }
                    }
                    return Err(e);
                },
            };
            let member_result = check_simple_type_compact(check_ref_base, source, &types[i], next);
            if member_result.is_err() {
                proof {
                    assert forall|v: spec_fn(LuaType, LuaType, TypeCheckGuard) -> bool|
                        ref_verdicts(*check_ref_base, v) implies !union_all_pass(
                        *source,
                        types@,
                        next,
                        v,
                    ) by {
                        assert(outcome_matches(
                            member_result,
                            simple_check(*source, types@[i as int], next, v),
                        ));
                        if union_all_pass(*source, types@, next, v) {
                            lemma_union_all_pass_at(*source, types@, next, v, i as int);
                        }
                    }
                    assert forall|v: spec_fn(LuaType, LuaType, TypeCheckGuard) -> bool|
                        ref_verdicts(*check_ref_base, v) implies outcome_matches(
                        Err::<(), TypeCheckFailReason>(TypeCheckFailReason::TypeNotMatch),
                        #[trigger] simple_check(*source, *compact_type, check_guard, v),
                    ) by {
                        assert(simple_source_outcome(*source, *compact_type, check_guard, v) is None);
                    }
                }
                return Err(TypeCheckFailReason::TypeNotMatch);
            }
            proof {
                assert forall|v: spec_fn(LuaType, LuaType, TypeCheckGuard) -> bool|
                    ref_verdicts(*check_ref_base, v) implies #[trigger] union_all_pass(
                    *source,
                    types@.take(i + 1),
                    next,
                    v,
                ) by {
                    assert(outcome_matches(
                        member_result,
                        simple_check(*source, types@[i as int], next, v),
                    ));
                    lemma_no_multi_compare(*source, types@[i as int], next, v);
                    assert(types@.take(i + 1).drop_last() =~= types@.take(i as int));
                    assert(types@.take(i + 1).last() == types@[i as int]);
                    assert(union_all_pass(*source, types@.take(i as int), next, v));
                }
            }
            i = i + 1;
        }
        proof {
            assert(types@.take(i as int) =~= types@);
            assert forall|v: spec_fn(LuaType, LuaType, TypeCheckGuard) -> bool|
                ref_verdicts(*check_ref_base, v) implies outcome_matches(
                Ok::<(), TypeCheckFailReason>(()),
                #[trigger] simple_check(*source, *compact_type, check_guard, v),
            ) by {
                assert(simple_source_outcome(*source, *compact_type, check_guard, v) is None);
                if types@.len() > 0 {
                    assert(union_all_pass(
                        *source,
                        types@.take(i as int),
                        TypeCheckGuard { remaining: (check_guard.remaining - 1) as u32 },
                        v,
                    ));
                }
            }
        }
        return Ok(());
    }
    Err(TypeCheckFailReason::TypeNotMatch)
}

} // verus!
