//! Decisions of type inference: the guard against self-referencing types,
//! the types of table literals, the arguments a generic function is
//! instantiated with, and the types of the values of an assignment.
use std::sync::Arc;
use vstd::prelude::*;

use crate::base::{FileId, InFiled, TextRange};
use crate::types::{LuaMultiReturn, LuaTupleType, LuaType, LuaTypeDeclId};

verus! {

/// Guard against endless inference on types that reference themselves:
/// remembers the declared types already being inferred.
///
/// The names are held in a list with no name twice rather than in a hash
/// set: a type name is a string, and a hash set of strings lets the verifier
/// prove nothing about membership, which is all the guard is for.
#[derive(Debug)]
pub struct InferGuard {
    guard: Vec<LuaTypeDeclId>,
}

impl InferGuard {
    /// The guard holds the type named `name`.
    pub closed spec fn spec_contains(self, name: Seq<char>) -> bool {
        exists|i: int| 0 <= i < self.guard@.len() && self.guard@[i]@ == name
    }

    pub fn new() -> (r: InferGuard)
        ensures
            forall|n: Seq<char>| !r.spec_contains(n),
    {
        InferGuard { guard: Vec::new() }
    }

    /// Lets the inference of `type_id` go on the first time only: `None`
    /// when the type is held already; otherwise the guard holds it from now
    /// on.
    pub fn check(&mut self, type_id: &LuaTypeDeclId) -> (r: Option<()>)
        ensures
            guard_check_step(*old(self), *type_id, r, *final(self)),
    {
        let mut i: usize = 0;
        while i < self.guard.len()
            invariant
                0 <= i <= self.guard@.len(),
                forall|j: int| 0 <= j < i ==> self.guard@[j]@ != type_id@,
            decreases self.guard@.len() - i,
        {
            if self.guard[i] == *type_id {
                return None;
            }
            i = i + 1;
        }
        let ghost before = self.guard@;
        self.guard.push(type_id.clone());
        proof {
            assert forall|n: Seq<char>| #[trigger]
                self.spec_contains(n) == (old(self).spec_contains(n) || n == type_id@) by {
                if old(self).spec_contains(n) {
                    let j = choose|j: int| 0 <= j < before.len() && before[j]@ == n;
                    assert(self.guard@[j] == before[j]);
                }
                if n == type_id@ {
                    assert(self.guard@[before.len() as int]@ == n);
                }
                if self.spec_contains(n) {
                    let j = choose|j: int| 0 <= j < self.guard@.len() && self.guard@[j]@ == n;
                    if j < before.len() {
                        assert(self.guard@[j] == before[j]);
                    }
                }
            }
        }
        Some(())
    }
}

/// One check on the guard: it answers `None` exactly when the type is held
/// already, and afterwards the guard holds what it held and the type.
pub open spec fn guard_check_step(
    before: InferGuard,
    type_id: LuaTypeDeclId,
    r: Option<()>,
    after: InferGuard,
) -> bool {
    &&& (r is None <==> before.spec_contains(type_id@))
    &&& forall|n: Seq<char>| #[trigger]
        after.spec_contains(n) == (before.spec_contains(n) || n == type_id@)
}

/// After the first `k` checks of a run on a new guard, the guard holds
/// exactly the types checked so far.
proof fn lemma_guard_holds_checked(
    guards: Seq<InferGuard>,
    ids: Seq<LuaTypeDeclId>,
    results: Seq<Option<()>>,
    k: int,
)
    requires
        guards.len() == ids.len() + 1,
        results.len() == ids.len(),
        forall|n: Seq<char>| !guards[0].spec_contains(n),
        forall|i: int|
            0 <= i < ids.len() ==> #[trigger] guard_check_step(guards[i], ids[i], results[i], guards[i + 1]),
        0 <= k <= ids.len(),
    ensures
        forall|n: Seq<char>|
            #[trigger] guards[k].spec_contains(n) <==> exists|j: int| 0 <= j < k && ids[j]@ == n,
    decreases k,
{
    if k > 0 {
        lemma_guard_holds_checked(guards, ids, results, k - 1);
        let i = k - 1;
        assert(guard_check_step(guards[i], ids[i], results[i], guards[i + 1]));
        assert(i + 1 == k);
        assert forall|n: Seq<char>| #[trigger] guards[k].spec_contains(n) <==> exists|j: int|
            0 <= j < k && ids[j]@ == n by {
            if guards[k].spec_contains(n) {
                if n == ids[k - 1]@ {
                    assert(0 <= k - 1 < k && ids[k - 1]@ == n);
                } else {
                    assert(guards[k - 1].spec_contains(n));
                }
            }
            if exists|j: int| 0 <= j < k && ids[j]@ == n {
                let j = choose|j: int| 0 <= j < k && ids[j]@ == n;
                if j < k - 1 {
                    assert(guards[k - 1].spec_contains(n));
                }
            }
        }
    }
}

/// Over any run of checks on a new guard, each check lets the inference go
/// on exactly when its type was not checked before in the run, so no type
/// is inferred twice; after `k` checks the guard holds exactly the types
/// of those checks.
pub proof fn lemma_guard_admits_each_type_once(
    guards: Seq<InferGuard>,
    ids: Seq<LuaTypeDeclId>,
    results: Seq<Option<()>>,
)
    requires
        guards.len() == ids.len() + 1,
        results.len() == ids.len(),
        forall|n: Seq<char>| !guards[0].spec_contains(n),
        forall|i: int|
            0 <= i < ids.len() ==> #[trigger] guard_check_step(guards[i], ids[i], results[i], guards[i + 1]),
    ensures
        forall|k: int|
            0 <= k < ids.len() ==> ((#[trigger] results[k]) is Some <==> forall|j: int|
                0 <= j < k ==> ids[j]@ != ids[k]@),
        forall|k: int, n: Seq<char>|
            0 <= k <= ids.len() ==> (#[trigger] guards[k].spec_contains(n) <==> exists|j: int|
                0 <= j < k && ids[j]@ == n),
{
    assert forall|k: int, n: Seq<char>| 0 <= k <= ids.len() implies (
    #[trigger] guards[k].spec_contains(n) <==> exists|j: int| 0 <= j < k && ids[j]@ == n) by {
        lemma_guard_holds_checked(guards, ids, results, k);
    }
    assert forall|k: int| 0 <= k < ids.len() implies ((#[trigger] results[k]) is Some <==> forall|j: int|
        0 <= j < k ==> ids[j]@ != ids[k]@) by {
        lemma_guard_holds_checked(guards, ids, results, k);
        assert(guard_check_step(guards[k], ids[k], results[k], guards[k + 1]));
        if results[k] is None {
            assert(guards[k].spec_contains(ids[k]@));
        }
    }
}

/// The type of a table literal that is not a list: the table itself,
/// named by its file and range.
pub fn infer_table_expr(is_array: bool, file_id: FileId, range: TextRange, array_type: Option<LuaType>) -> (r:
    Option<LuaType>)
    ensures
        is_array ==> r == array_type,
        !is_array ==> r == Some(LuaType::TableConst(InFiled { file_id, value: range })),
{
    if is_array {
        return array_type;
    }
    Some(LuaType::TableConst(InFiled::new(file_id, range)))
}

/// A value of a field of a table literal: whether it is `...`, and its
/// inferred type, `None` when inference fails.
#[derive(Debug)]
pub struct TableValueInfo {
    pub is_dots: bool,
    pub typ: Option<LuaType>,
}

/// The shape inferred for a list literal.
pub enum TableShape {
    /// A list of elements of this type.
    Array(LuaType),
    /// A list of exactly these element types.
    Tuple(Seq<LuaType>),
    /// No type: a field without value, or a needed type not inferred.
    Fail,
}

/// The element type that a `...` of type `t` gives a list: the first value
/// of a multiple return (unknown when it has none), or `t` itself.
pub open spec fn spec_dots_element(t: LuaType) -> LuaType {
    match t {
        LuaType::MuliReturn(m) => match *m {
            LuaMultiReturn::Multi(types) => if types@.len() > 0 {
                types@[0]
            } else {
                LuaType::Unknown
            },
            LuaMultiReturn::Base(b) => b,
        },
        _ => t,
    }
}

/// How a list literal is typed: with more than ten fields, as a list of
/// the first field's type; ending in `...`, as a list of the element type
/// of `...`; otherwise as the tuple of its fields' types.
pub open spec fn spec_table_shape(fields: Seq<Option<TableValueInfo>>) -> TableShape {
    if fields.len() > 10 {
        match fields[0] {
            Some(v) => match v.typ {
                Some(t) => TableShape::Array(t),
                None => TableShape::Fail,
            },
            None => TableShape::Fail,
        }
    } else if fields.len() > 0 && fields.last() is None {
        TableShape::Fail
    } else if fields.len() > 0 && fields.last()->Some_0.is_dots {
        match fields.last()->Some_0.typ {
            Some(t) => TableShape::Array(spec_dots_element(t)),
            None => TableShape::Fail,
        }
    } else if forall|i: int| 0 <= i < fields.len() ==> (#[trigger] fields[i] matches Some(v)
        && v.typ is Some) {
        TableShape::Tuple(Seq::new(fields.len(), |i: int| fields[i]->Some_0.typ->Some_0))
    } else {
        TableShape::Fail
    }
}

/// `r` is the type that `shape` describes.
pub open spec fn type_has_shape(r: Option<LuaType>, shape: TableShape) -> bool {
    match shape {
        TableShape::Array(t) => r matches Some(LuaType::Array(a)) && *a == t,
        TableShape::Tuple(ts) => r matches Some(LuaType::Tuple(tt)) && tt.types@ == ts,
        TableShape::Fail => r is None,
    }
}

/// The type of a list literal from its fields' values.
pub fn infer_table_tuple_or_array(fields: &Vec<Option<TableValueInfo>>) -> (r: Option<LuaType>)
    ensures
        type_has_shape(r, spec_table_shape(fields@)),
{
    let n = fields.len();
    if n > 10 {
        return match &fields[0] {
            Some(v) => match &v.typ {
                Some(t) => Some(LuaType::Array(Arc::new(t.clone()))),
                None => None,
            },
            None => None,
        };
    }
    if n > 0 {
        match &fields[n - 1] {
            None => {
                return None;
            },
            Some(last) => {
                if last.is_dots {
                    return match &last.typ {
                        Some(t) => {
                            let elem = match t {
                                LuaType::MuliReturn(m) => match &**m {
                                    LuaMultiReturn::Multi(types) => {
                                        if types.len() > 0 {
                                            types[0].clone()
                                        } else {
                                            LuaType::Unknown
                                        }
                                    },
                                    LuaMultiReturn::Base(b) => b.clone(),
                                },
                                _ => t.clone(),
                            };
                            Some(LuaType::Array(Arc::new(elem)))
                        },
                        None => None,
                    };
                }
            },
        }
    }
    let mut types: Vec<LuaType> = Vec::new();
    let mut i: usize = 0;
    while i < n
        invariant
            n == fields@.len(),
            n <= 10,
            n > 0 ==> (fields@[n - 1] matches Some(l) && !l.is_dots),
            0 <= i <= n,
            types@.len() == i,
            forall|j: int| 0 <= j < i ==> (#[trigger] fields@[j] matches Some(v) && v.typ is Some),
            forall|j: int| 0 <= j < i ==> types@[j] == fields@[j]->Some_0.typ->Some_0,
        decreases n - i,
    {
        match &fields[i] {
            Some(v) => match &v.typ {
                Some(t) => {
                    types.push(t.clone());
                },
                None => {
                    return None;
                },
            },
            None => {
                return None;
            },
        }
        i = i + 1;
    }
    proof {
        assert(types@ =~= Seq::new(fields@.len(), |j: int| fields@[j]->Some_0.typ->Some_0));
    }
    Some(LuaType::Tuple(Arc::new(LuaTupleType::new(types))))
}

/// The arguments that a call passes to the parameters of the function it
/// calls: a function defined with `:` called with `.` takes its `self`
/// from the first argument, and one defined with `.` called with `:` gets
/// the caller as an extra first argument of any type.
pub fn instantiate_call_args(colon_define: bool, colon_call: bool, arg_types: Vec<LuaType>) -> (r:
    Vec<LuaType>)
    ensures
        colon_define == colon_call ==> r@ == arg_types@,
        colon_define && !colon_call ==> r@ == if arg_types@.len() > 0 {
            arg_types@.drop_first()
        } else {
            arg_types@
        },
        !colon_define && colon_call ==> r@ == seq![LuaType::Any] + arg_types@,
{
    let mut args = arg_types;
    if colon_define && !colon_call {
        if args.len() > 0 {
            args.remove(0);
            proof {
                assert(args@ =~= arg_types@.drop_first());
            }
        }
    } else if !colon_define && colon_call {
        args.insert(0, LuaType::Any);
        proof {
            assert(args@ =~= seq![LuaType::Any] + arg_types@);
        }
    }
    args
}

/// The types one value expression contributes to the values of an
/// assignment: a multiple return gives all its types when it is the last
/// expression and only its first type otherwise; any other type is one
/// value.
pub open spec fn spec_value_part(t: LuaType, is_last: bool) -> Seq<LuaType> {
    match t {
        LuaType::MuliReturn(m) => match *m {
            LuaMultiReturn::Multi(types) => if is_last {
                types@
            } else {
                seq![types@[0]]
            },
            LuaMultiReturn::Base(b) => seq![b],
        },
        _ => seq![t],
    }
}

/// The types of the values given by the first `k` value expressions of an
/// assignment whose expressions were all inferred, in order.
pub open spec fn spec_value_types_prefix(ts: Seq<Option<LuaType>>, k: int) -> Seq<LuaType>
    decreases k,
{
    if k <= 0 || k > ts.len() {
        seq![]
    } else {
        spec_value_types_prefix(ts, k - 1) + match ts[k - 1] {
            Some(t) => spec_value_part(t, k - 1 == ts.len() - 1),
            None => seq![],
        }
    }
}

/// Every value expression of the assignment was inferred.
pub open spec fn spec_all_inferred(ts: Seq<Option<LuaType>>) -> bool {
    forall|i: int| 0 <= i < ts.len() ==> (#[trigger] ts[i]) is Some
}

/// A multiple return with no types stands before the last value expression
/// and every expression after it was inferred: there the first type of it
/// would be taken.
pub open spec fn spec_takes_first_of_empty(ts: Seq<Option<LuaType>>) -> bool {
    exists|k: int|
        0 <= k < ts.len() - 1 && (forall|j: int| k < j < ts.len() ==> (#[trigger] ts[j]) is Some)
            && (#[trigger] ts[k] matches Some(LuaType::MuliReturn(m)) && (*m matches LuaMultiReturn::Multi(types)
            && types@.len() == 0))
}

/// The types of all values of an assignment, in order, from the inferred
/// types of its value expressions (`None` where inference failed): each
/// expression gives one value, and the last gives all the values of a
/// multiple return. `None` when any expression was not inferred.
pub fn get_all_value_expr_type(expr_types: &Vec<Option<LuaType>>) -> (r: Option<Vec<LuaType>>)
    requires
        !spec_takes_first_of_empty(expr_types@),
    ensures
        r is Some <==> spec_all_inferred(expr_types@),
        r matches Some(v) ==> v@ == spec_value_types_prefix(expr_types@, expr_types@.len() as int),
{
    let n = expr_types.len();
    let mut i: usize = 0;
    while i < n
        invariant
            n == expr_types@.len(),
            0 <= i <= n,
            forall|j: int| 0 <= j < i ==> (#[trigger] expr_types@[j]) is Some,
        decreases n - i,
    {
        if expr_types[i].is_none() {
            return None;
        }
        i = i + 1;
    }
    let mut out: Vec<LuaType> = Vec::new();
    let mut k: usize = 0;
    while k < n
        invariant
            n == expr_types@.len(),
            0 <= k <= n,
            spec_all_inferred(expr_types@),
            !spec_takes_first_of_empty(expr_types@),
            out@ == spec_value_types_prefix(expr_types@, k as int),
        decreases n - k,
    {
        let ghost before = out@;
        let is_last = k + 1 == n;
        assert(expr_types@[k as int] is Some);
        match &expr_types[k] {
            None => {},
            Some(t) => match t {
                LuaType::MuliReturn(m) => match &**m {
                    LuaMultiReturn::Multi(types) => {
                        if is_last {
                            let mut q: usize = 0;
                            while q < types.len()
                                invariant
                                    0 <= q <= types@.len(),
                                    out@ == before + types@.take(q as int),
                                decreases types@.len() - q,
                            {
                                out.push(types[q].clone());
                                proof {
                                    assert(out@ =~= before + types@.take(q + 1));
                                }
                                q = q + 1;
                            }
                            proof {
                                assert(types@.take(types@.len() as int) =~= types@);
                            }
                        } else {
                            proof {
                                if types@.len() == 0 {
                                    assert forall|j: int| k < j < expr_types@.len() implies (
                                    #[trigger] expr_types@[j]) is Some by {}
                                    assert(spec_takes_first_of_empty(expr_types@));
                                }
                            }
                            out.push(types[0].clone());
                        }
                    },
                    LuaMultiReturn::Base(b) => {
                        out.push(b.clone());
                    },
                },
                _ => {
                    out.push(t.clone());
                },
            },
        }
        proof {
            assert(out@ =~= spec_value_types_prefix(expr_types@, k + 1));
        }
        k = k + 1;
    }
    Some(out)
}

/// The type a table literal assigned to a declaration should have: the
/// declaration's type, unless it is the type of a table literal itself.
pub fn table_type_from_decl(decl_type: Option<&LuaType>) -> (r: Option<LuaType>)
    ensures
        match decl_type {
            Some(t) => if *t is TableConst {
                r is None
            } else {
                r == Some(*t)
            },
            None => r is None,
        },
{
    match decl_type {
        Some(t) => match t {
            LuaType::TableConst(_) => None,
            _ => Some(t.clone()),
        },
        None => None,
    }
}


/// The type a table literal passed as an argument should have: that of
/// the parameter at its position (`arg_index`), when the called function
/// has one there.
pub fn infer_table_type_by_callee(params: &[(String, Option<LuaType>)], arg_index: Option<usize>) -> (r:
    Option<LuaType>)
    ensures
        match arg_index {
            Some(i) => if i < params@.len() {
                r == params@[i as int].1
            } else {
                r is None
            },
            None => r is None,
        },
{
    let i = match arg_index {
        Some(i) => i,
        None => {
            return None;
        },
    };
    if i >= params.len() {
        return None;
    }
    match &params[i].1 {
        Some(t) => Some(t.clone()),
        None => None,
    }
}

} // verus!
