//! The decisions of three checks: arguments against the parameters of the
//! called function, assigned values against the declared types, and calls
//! of async functions outside async functions.
use vstd::prelude::*;

use crate::base::{str_eq, TextRange};
use crate::type_check::{TypeCheckFailReason, TypeCheckResult};
use crate::types::{clone_types, LuaType};

verus! {

/// A value that does not fit the type it is given to.
#[derive(Debug)]
pub struct TypeMismatch {
    pub range: TextRange,
    /// The type the value is given to.
    pub expected: LuaType,
    /// The type of the value.
    pub found: LuaType,
    pub reason: TypeCheckFailReason,
}

/// The results that the type check `f` gives are those of `v`.
pub open spec fn check_verdicts<F: Fn(&LuaType, &LuaType) -> TypeCheckResult>(
    f: F,
    v: spec_fn(LuaType, LuaType) -> TypeCheckResult,
) -> bool {
    forall|a: LuaType, b: LuaType, r: TypeCheckResult| #[trigger]
        f.ensures((&a, &b), r) ==> r == v(a, b)
}

/// The parameters by name and type.
pub open spec fn param_views(params: Seq<(String, Option<LuaType>)>) -> Seq<(Seq<char>, Option<LuaType>)> {
    params.map_values(|p: (String, Option<LuaType>)| (p.0@, p.1))
}

/// What a variadic parameter of type `vt` finds wrong with the remaining
/// arguments, taken in pairs with their ranges.
pub open spec fn spec_variadic_mismatches(
    vt: LuaType,
    args: Seq<LuaType>,
    ranges: Seq<TextRange>,
    v: spec_fn(LuaType, LuaType) -> TypeCheckResult,
) -> Seq<TypeMismatch>
    decreases args.len(),
{
    if args.len() == 0 || ranges.len() == 0 {
        seq![]
    } else {
        (match v(vt, args[0]) {
            Ok(_) => seq![],
            Err(reason) => seq![
                TypeMismatch { range: ranges[0], expected: vt, found: args[0], reason },
            ],
        }) + spec_variadic_mismatches(vt, args.drop_first(), ranges.drop_first(), v)
    }
}

/// The type a parameter of type `pt` at `idx` is checked against: the
/// caller's type for a first parameter of type `self`, when it is known.
pub open spec fn spec_checked_param_type(pt: LuaType, idx: int, source: Option<LuaType>) -> LuaType {
    if idx == 0 && pt is SelfInfer && source is Some {
        source->Some_0
    } else {
        pt
    }
}

/// The argument at `idx`, or `any` when the call has fewer arguments.
pub open spec fn spec_arg_at(args: Seq<LuaType>, idx: int) -> LuaType {
    if 0 <= idx < args.len() {
        args[idx]
    } else {
        LuaType::Any
    }
}

/// What the parameters from `idx` on find wrong with the arguments: each
/// typed parameter checks its argument, until a variadic parameter `...`
/// checks all the arguments left; a failed check of a missing argument
/// ends the checking.
pub open spec fn spec_param_mismatches(
    ps: Seq<(Seq<char>, Option<LuaType>)>,
    args: Seq<LuaType>,
    ranges: Seq<TextRange>,
    source: Option<LuaType>,
    idx: int,
    v: spec_fn(LuaType, LuaType) -> TypeCheckResult,
) -> Seq<TypeMismatch>
    decreases ps.len() - idx,
{
    if idx < 0 || idx >= ps.len() {
        seq![]
    } else if ps[idx].0 == "..."@ {
        match ps[idx].1 {
            Some(vt) => spec_variadic_mismatches(vt, args.skip(idx), ranges.skip(idx), v),
            None => seq![],
        }
    } else {
        match ps[idx].1 {
            None => spec_param_mismatches(ps, args, ranges, source, idx + 1, v),
            Some(pt) => match v(spec_checked_param_type(pt, idx, source), spec_arg_at(args, idx)) {
                Ok(_) => spec_param_mismatches(ps, args, ranges, source, idx + 1, v),
                Err(reason) => if idx < ranges.len() {
                    seq![
                        TypeMismatch {
                            range: ranges[idx],
                            expected: pt,
                            found: spec_arg_at(args, idx),
                            reason,
                        },
                    ] + spec_param_mismatches(ps, args, ranges, source, idx + 1, v)
                } else {
                    seq![]
                },
            },
        }
    }
}

/// The checking reaches a variadic parameter that lies past the arguments
/// plus one, whose remaining arguments cannot be taken.
pub open spec fn spec_param_check_overruns(
    ps: Seq<(Seq<char>, Option<LuaType>)>,
    args: Seq<LuaType>,
    ranges: Seq<TextRange>,
    source: Option<LuaType>,
    idx: int,
    v: spec_fn(LuaType, LuaType) -> TypeCheckResult,
) -> bool
    decreases ps.len() - idx,
{
    if idx < 0 || idx >= ps.len() {
        false
    } else if ps[idx].0 == "..."@ {
        ps[idx].1 is Some && idx > args.len()
    } else {
        match ps[idx].1 {
            None => spec_param_check_overruns(ps, args, ranges, source, idx + 1, v),
            Some(pt) => match v(spec_checked_param_type(pt, idx, source), spec_arg_at(args, idx)) {
                Ok(_) => spec_param_check_overruns(ps, args, ranges, source, idx + 1, v),
                Err(_) => idx < ranges.len() && spec_param_check_overruns(
                    ps,
                    args,
                    ranges,
                    source,
                    idx + 1,
                    v,
                ),
            },
        }
    }
}

/// The parameters of a call once `self` is made explicit: a function
/// defined with `:` and called with `.` takes `self` first.
pub open spec fn spec_call_params(
    params: Seq<(String, Option<LuaType>)>,
    colon_call: bool,
    colon_define: bool,
) -> Seq<(Seq<char>, Option<LuaType>)> {
    if !colon_call && colon_define {
        seq![("self"@, Some(LuaType::SelfInfer))] + param_views(params)
    } else {
        param_views(params)
    }
}

/// The arguments of a call once `self` is made explicit: a function
/// defined with `.` and called with `:` gets the caller first.
pub open spec fn spec_call_args(args: Seq<LuaType>, colon_call: bool, colon_define: bool, source: Option<
    LuaType,
>) -> Seq<LuaType> {
    if colon_call && !colon_define {
        seq![source->Some_0] + args
    } else {
        args
    }
}

/// The ranges of the arguments once `self` is made explicit: the caller's
/// is that of the `:`.
pub open spec fn spec_call_ranges(
    ranges: Seq<TextRange>,
    colon_call: bool,
    colon_define: bool,
    colon_range: Option<TextRange>,
) -> Seq<TextRange> {
    if colon_call && !colon_define {
        seq![colon_range->Some_0] + ranges
    } else {
        ranges
    }
}

/// A call with `:` of a function defined with `.` whose caller's type or
/// `:` cannot be found is not checked.
pub open spec fn spec_call_unchecked(
    colon_call: bool,
    colon_define: bool,
    source: Option<LuaType>,
    colon_range: Option<TextRange>,
) -> bool {
    colon_call && !colon_define && (source is None || colon_range is None)
}

fn clone_params(params: &Vec<(String, Option<LuaType>)>) -> (r: Vec<(String, Option<LuaType>)>)
    ensures
        r@ == params@,
{
    let mut r: Vec<(String, Option<LuaType>)> = Vec::new();
    let mut i: usize = 0;
    while i < params.len()
        invariant
            0 <= i <= params@.len(),
            r@ == params@.take(i as int),
        decreases params@.len() - i,
    {
        let t = match &params[i].1 {
            Some(t) => Some(t.clone()),
            None => None,
        };
        r.push((params[i].0.clone(), t));
        proof {
            assert(r@ =~= params@.take(i + 1));
        }
        i = i + 1;
    }
    proof {
        assert(params@.take(i as int) =~= params@);
    }
    r
}

fn copy_ranges(ranges: &Vec<TextRange>) -> (r: Vec<TextRange>)
    ensures
        r@ == ranges@,
{
    let mut r: Vec<TextRange> = Vec::new();
    let mut i: usize = 0;
    while i < ranges.len()
        invariant
            0 <= i <= ranges@.len(),
            r@ == ranges@.take(i as int),
        decreases ranges@.len() - i,
    {
        r.push(ranges[i]);
        proof {
            assert(r@ =~= ranges@.take(i + 1));
        }
        i = i + 1;
    }
    proof {
        assert(ranges@.take(i as int) =~= ranges@);
    }
    r
}

/// The mismatches' ranges are taken from `ranges` in order: the `i`-th
/// mismatch has the range at place `ks[i]`, the places rise, and none lies
/// before `lo`.
#[verifier::opaque]
pub open spec fn ranges_taken_in_order(
    ms: Seq<TypeMismatch>,
    ranges: Seq<TextRange>,
    ks: Seq<int>,
    lo: int,
) -> bool {
    &&& ks.len() == ms.len()
    &&& forall|i: int|
        0 <= i < ks.len() ==> lo <= #[trigger] ks[i] < ranges.len() && ms[i].range == ranges[ks[i]]
    &&& forall|i: int, j: int| 0 <= i < j < ks.len() ==> ks[i] < ks[j]
}

/// No mismatch takes no range.
proof fn lemma_no_ranges_taken(ms: Seq<TypeMismatch>, ranges: Seq<TextRange>, lo: int)
    requires
        ms.len() == 0,
    ensures
        ranges_taken_in_order(ms, ranges, seq![], lo),
{
    reveal(ranges_taken_in_order);
}

/// A mismatch added with the range at a later place keeps the order.
proof fn lemma_ranges_taken_push(
    ms: Seq<TypeMismatch>,
    ranges: Seq<TextRange>,
    ks: Seq<int>,
    lo: int,
    k: int,
    m: TypeMismatch,
)
    requires
        ranges_taken_in_order(ms, ranges, ks, lo),
        forall|i: int| 0 <= i < ks.len() ==> #[trigger] ks[i] < k,
        lo <= k < ranges.len(),
        m.range == ranges[k],
    ensures
        ranges_taken_in_order(ms.push(m), ranges, ks.push(k), lo),
{
    reveal(ranges_taken_in_order);
    let ks2 = ks.push(k);
    let ms2 = ms.push(m);
    assert forall|i: int| 0 <= i < ks2.len() implies lo <= #[trigger] ks2[i] < ranges.len()
        && ms2[i].range == ranges[ks2[i]] by {
        if i < ks.len() {
            assert(ks2[i] == ks[i] && ms2[i] == ms[i]);
        }
    }
    assert forall|a: int, b: int| 0 <= a < b < ks2.len() implies ks2[a] < ks2[b] by {
        assert(ks2[a] == ks[a]);
        if b < ks.len() {
            assert(ks2[b] == ks[b]);
        }
    }
}

/// Mismatches whose ranges all lie at or after place `k`, added after ones
/// whose ranges lie before it, keep the order.
proof fn lemma_ranges_taken_concat(
    ms1: Seq<TypeMismatch>,
    ks1: Seq<int>,
    ms2: Seq<TypeMismatch>,
    ks2: Seq<int>,
    ranges: Seq<TextRange>,
    lo: int,
    k: int,
)
    requires
        ranges_taken_in_order(ms1, ranges, ks1, lo),
        forall|i: int| 0 <= i < ks1.len() ==> #[trigger] ks1[i] < k,
        ranges_taken_in_order(ms2, ranges, ks2, k),
        lo <= k,
    ensures
        ranges_taken_in_order(ms1 + ms2, ranges, ks1 + ks2, lo),
{
    reveal(ranges_taken_in_order);
    let ks = ks1 + ks2;
    let ms = ms1 + ms2;
    assert forall|i: int| 0 <= i < ks.len() implies lo <= #[trigger] ks[i] < ranges.len()
        && ms[i].range == ranges[ks[i]] by {
        if i < ks1.len() {
            assert(ks[i] == ks1[i] && ms[i] == ms1[i]);
        } else {
            assert(ks[i] == ks2[i - ks1.len()] && ms[i] == ms2[i - ks1.len()]);
        }
    }
    assert forall|a: int, b: int| 0 <= a < b < ks.len() implies ks[a] < ks[b] by {
        if b < ks1.len() {
            assert(ks[a] == ks1[a] && ks[b] == ks1[b]);
        } else if a < ks1.len() {
            assert(ks[a] == ks1[a] && ks[b] == ks2[b - ks1.len()]);
        } else {
            assert(ks[a] == ks2[a - ks1.len()] && ks[b] == ks2[b - ks1.len()]);
        }
    }
}

/// Checks the remaining arguments against a variadic parameter of type
/// `vt`, from argument `start` on.
#[verifier::rlimit(40)]
fn check_variadic_args<F: Fn(&LuaType, &LuaType) -> TypeCheckResult>(
    type_check: &F,
    vt: &LuaType,
    args: &Vec<LuaType>,
    ranges: &Vec<TextRange>,
    start: usize,
) -> (r: Vec<TypeMismatch>)
    requires
        forall|a: &LuaType, b: &LuaType| type_check.requires((a, b)),
        start <= args@.len(),
        args@.len() == ranges@.len(),
    ensures
        exists|ks: Seq<int>| #[trigger] ranges_taken_in_order(r@, ranges@, ks, start as int),
        forall|v: spec_fn(LuaType, LuaType) -> TypeCheckResult|
            check_verdicts(*type_check, v) ==> r@ == #[trigger] spec_variadic_mismatches(
                *vt,
                args@.skip(start as int),
                ranges@.skip(start as int),
                v,
            ),
{
    let mut out: Vec<TypeMismatch> = Vec::new();
    let mut j: usize = start;
    let ghost mut ks: Seq<int> = seq![];
    proof {
        lemma_no_ranges_taken(out@, ranges@, start as int);
    }
    while j < args.len()
        invariant
            start <= j <= args@.len(),
            args@.len() == ranges@.len(),
            ranges_taken_in_order(out@, ranges@, ks, start as int),
            forall|i: int| 0 <= i < ks.len() ==> #[trigger] ks[i] < j,
            forall|a: &LuaType, b: &LuaType| type_check.requires((a, b)),
            forall|v: spec_fn(LuaType, LuaType) -> TypeCheckResult|
                check_verdicts(*type_check, v) ==> #[trigger] spec_variadic_mismatches(
                    *vt,
                    args@.skip(start as int),
                    ranges@.skip(start as int),
                    v,
                ) == out@ + spec_variadic_mismatches(
                    *vt,
                    args@.skip(j as int),
                    ranges@.skip(j as int),
                    v,
                ),
        decreases args@.len() - j,
    {
        let res = type_check(vt, &args[j]);
        let ghost before = out@;
        match res {
            Ok(_) => {},
            Err(reason) => {
                out.push(
                    TypeMismatch {
                        range: ranges[j],
                        expected: vt.clone(),
                        found: args[j].clone(),
                        reason,
                    },
                );
                proof {
                    assert(ranges_taken_in_order(out@, ranges@, ks.push(j as int), start as int)) by {
                        lemma_ranges_taken_push(before, ranges@, ks, start as int, j as int, out@.last());
                        assert(out@ =~= before.push(out@.last()));
                    }
                    ks = ks.push(j as int);
                }
            },
        }
        proof {
            assert forall|v: spec_fn(LuaType, LuaType) -> TypeCheckResult|
                check_verdicts(*type_check, v) implies #[trigger] spec_variadic_mismatches(
                *vt,
                args@.skip(start as int),
                ranges@.skip(start as int),
                v,
            ) == out@ + spec_variadic_mismatches(
                *vt,
                args@.skip(j + 1),
                ranges@.skip(j + 1),
                v,
            ) by {
                let sa = args@.skip(j as int);
                let sr = ranges@.skip(j as int);
                assert(sa[0] == args@[j as int]);
                assert(sr[0] == ranges@[j as int]);
                assert(sa.drop_first() =~= args@.skip(j + 1));
                assert(sr.drop_first() =~= ranges@.skip(j + 1));
                assert(v(*vt, args@[j as int]) == res);
                let rest = spec_variadic_mismatches(*vt, args@.skip(j + 1), ranges@.skip(j + 1), v);
                match res {
                    Ok(_) => {
                        assert(spec_variadic_mismatches(*vt, sa, sr, v) =~= rest);
                    },
                    Err(reason) => {
                        assert(spec_variadic_mismatches(*vt, sa, sr, v) =~= seq![
                            TypeMismatch {
                                range: ranges@[j as int],
                                expected: *vt,
                                found: args@[j as int],
                                reason,
                            },
                        ] + rest);
                        assert(out@ =~= before.push(
                            TypeMismatch {
                                range: ranges@[j as int],
                                expected: *vt,
                                found: args@[j as int],
                                reason,
                            },
                        ));
                    },
                }
            }
        }
        j = j + 1;
    }
    proof {
        assert forall|v: spec_fn(LuaType, LuaType) -> TypeCheckResult|
            check_verdicts(*type_check, v) implies out@ == #[trigger] spec_variadic_mismatches(
            *vt,
            args@.skip(start as int),
            ranges@.skip(start as int),
            v,
        ) by {
            assert(args@.skip(j as int).len() == 0);
            assert(out@ + seq![] =~= out@);
        }
    }
    out
}


/// What a call's parameter check reports for the verdicts `v`: nothing
/// when the call cannot be checked, else the mismatches of the arguments
/// once `self` is made explicit.
pub open spec fn spec_check_call_params(
    params: Seq<(String, Option<LuaType>)>,
    args: Seq<LuaType>,
    ranges: Seq<TextRange>,
    colon_call: bool,
    colon_define: bool,
    source: Option<LuaType>,
    colon_range: Option<TextRange>,
    v: spec_fn(LuaType, LuaType) -> TypeCheckResult,
) -> Seq<TypeMismatch> {
    if spec_call_unchecked(colon_call, colon_define, source, colon_range) {
        seq![]
    } else {
        spec_param_mismatches(
            spec_call_params(params, colon_call, colon_define),
            spec_call_args(args, colon_call, colon_define, source),
            spec_call_ranges(ranges, colon_call, colon_define, colon_range),
            source,
            0,
            v,
        )
    }
}

/// The check would take the arguments left for a variadic parameter that
/// lies past them.
pub open spec fn spec_check_call_overruns(
    params: Seq<(String, Option<LuaType>)>,
    args: Seq<LuaType>,
    ranges: Seq<TextRange>,
    colon_call: bool,
    colon_define: bool,
    source: Option<LuaType>,
    colon_range: Option<TextRange>,
    v: spec_fn(LuaType, LuaType) -> TypeCheckResult,
) -> bool {
    !spec_call_unchecked(colon_call, colon_define, source, colon_range) && spec_param_check_overruns(
        spec_call_params(params, colon_call, colon_define),
        spec_call_args(args, colon_call, colon_define, source),
        spec_call_ranges(ranges, colon_call, colon_define, colon_range),
        source,
        0,
        v,
    )
}

/// Checks the arguments of a call against the parameters of the called
/// function, with `type_check(expected, found)` deciding each pair.
/// `arg_types` and `arg_ranges` are the arguments' types and ranges;
/// `call_source_type` is the type of the caller of a call through an
/// index (`a.f()` or `a:f()`), and `colon_token_range` the range of its
/// `:`.
#[verifier::rlimit(80)]
#[verifier::spinoff_prover]
pub fn check_call_params<F: Fn(&LuaType, &LuaType) -> TypeCheckResult>(
    type_check: &F,
    params: &Vec<(String, Option<LuaType>)>,
    arg_types: &Vec<LuaType>,
    arg_ranges: &Vec<TextRange>,
    colon_call: bool,
    colon_define: bool,
    call_source_type: Option<LuaType>,
    colon_token_range: Option<TextRange>,
) -> (r: Vec<TypeMismatch>)
    requires
        forall|a: &LuaType, b: &LuaType| type_check.requires((a, b)),
        arg_types@.len() == arg_ranges@.len(),
        forall|v: spec_fn(LuaType, LuaType) -> TypeCheckResult|
            check_verdicts(*type_check, v) ==> !#[trigger] spec_check_call_overruns(
                params@,
                arg_types@,
                arg_ranges@,
                colon_call,
                colon_define,
                call_source_type,
                colon_token_range,
                v,
            ),
    ensures
        spec_call_unchecked(colon_call, colon_define, call_source_type, colon_token_range) ==> r@.len()
            == 0,
        exists|ks: Seq<int>|
            #[trigger] ranges_taken_in_order(
                r@,
                spec_call_ranges(arg_ranges@, colon_call, colon_define, colon_token_range),
                ks,
                0,
            ),
        forall|v: spec_fn(LuaType, LuaType) -> TypeCheckResult|
            check_verdicts(*type_check, v) ==> r@ == #[trigger] spec_check_call_params(
                params@,
                arg_types@,
                arg_ranges@,
                colon_call,
                colon_define,
                call_source_type,
                colon_token_range,
                v,
            ),
{
    let mut out: Vec<TypeMismatch> = Vec::new();
    proof {
        lemma_no_ranges_taken(
            out@,
            spec_call_ranges(arg_ranges@, colon_call, colon_define, colon_token_range),
            0,
        );
    }
    if colon_call && !colon_define && (call_source_type.is_none() || colon_token_range.is_none()) {
        return out;
    }
    let mut ps = clone_params(params);
    let mut args = clone_types(arg_types);
    let mut ranges = copy_ranges(arg_ranges);
    if !colon_call && colon_define {
        ps.insert(0, (String::from_str("self"), Some(LuaType::SelfInfer)));
    } else if colon_call && !colon_define {
        let src = match &call_source_type {
            Some(t) => t.clone(),
            None => LuaType::Any,
        };
        args.insert(0, src);
        let cr = match colon_token_range {
            Some(c) => c,
            None => {
                return out;
            },
        };
        ranges.insert(0, cr);
    }
    let ghost psv = param_views(ps@);
    proof {
        assert(psv =~= spec_call_params(params@, colon_call, colon_define));
        assert(args@ =~= spec_call_args(arg_types@, colon_call, colon_define, call_source_type));
        assert(ranges@ =~= spec_call_ranges(
            arg_ranges@,
            colon_call,
            colon_define,
            colon_token_range,
        ));
    }
    proof {
        assert forall|v: spec_fn(LuaType, LuaType) -> TypeCheckResult|
            check_verdicts(*type_check, v) implies #[trigger] spec_param_mismatches(
            psv,
            args@,
            ranges@,
            call_source_type,
            0,
            v,
        ) == out@ + spec_param_mismatches(psv, args@, ranges@, call_source_type, 0, v)
            && !spec_param_check_overruns(psv, args@, ranges@, call_source_type, 0, v) by {
            assert(out@ + spec_param_mismatches(psv, args@, ranges@, call_source_type, 0, v)
                =~= spec_param_mismatches(psv, args@, ranges@, call_source_type, 0, v));
            assert(!spec_check_call_overruns(
                params@,
                arg_types@,
                arg_ranges@,
                colon_call,
                colon_define,
                call_source_type,
                colon_token_range,
                v,
            ));
        }
    }
    let mut idx: usize = 0;
    let ghost mut ks: Seq<int> = seq![];
    proof {
        lemma_no_ranges_taken(out@, ranges@, 0);
    }
    while idx < ps.len()
        invariant
            0 <= idx <= ps@.len(),
            ranges_taken_in_order(out@, ranges@, ks, 0),
            forall|i: int| 0 <= i < ks.len() ==> #[trigger] ks[i] < idx,
            psv == param_views(ps@),
            psv == spec_call_params(params@, colon_call, colon_define),
            args@ == spec_call_args(arg_types@, colon_call, colon_define, call_source_type),
            ranges@ == spec_call_ranges(arg_ranges@, colon_call, colon_define, colon_token_range),
            !spec_call_unchecked(colon_call, colon_define, call_source_type, colon_token_range),
            args@.len() == ranges@.len(),
            forall|a: &LuaType, b: &LuaType| type_check.requires((a, b)),
            forall|v: spec_fn(LuaType, LuaType) -> TypeCheckResult|
                check_verdicts(*type_check, v) ==> #[trigger] spec_param_mismatches(
                    psv,
                    args@,
                    ranges@,
                    call_source_type,
                    0,
                    v,
                ) == out@ + spec_param_mismatches(psv, args@, ranges@, call_source_type, idx as int, v)
                    && !spec_param_check_overruns(
                    psv,
                    args@,
                    ranges@,
                    call_source_type,
                    idx as int,
                    v,
                ),
        decreases ps@.len() - idx,
    {
        assert(psv[idx as int] == (ps@[idx as int].0@, ps@[idx as int].1));
        if str_eq(ps[idx].0.as_str(), "...") {
            match &ps[idx].1 {
                Some(vt) => {
                    if idx > args.len() {
                        return out;
                    }
                    let mut rest = check_variadic_args(type_check, vt, &args, &ranges, idx);
                    let ghost before = out@;
                    let ghost rest_v = rest@;
                    out.append(&mut rest);
                    proof {
                        let ks2 = choose|ks2: Seq<int>|
                            #[trigger] ranges_taken_in_order(rest_v, ranges@, ks2, idx as int);
                        lemma_ranges_taken_concat(before, ks, rest_v, ks2, ranges@, 0, idx as int);
                        assert(out@ =~= before + rest_v);
                        ks = ks + ks2;
                    }
                },
                None => {},
            }
            proof {
                assert forall|v: spec_fn(LuaType, LuaType) -> TypeCheckResult|
                    check_verdicts(*type_check, v) implies #[trigger] spec_param_mismatches(
                    psv,
                    args@,
                    ranges@,
                    call_source_type,
                    0,
                    v,
                ) == out@ by {
                    match ps@[idx as int].1 {
                        Some(vt) => {},
                        None => {
                            assert(out@ + seq![] =~= out@);
                        },
                    }
                }
            }
            return out;
        }
        match &ps[idx].1 {
            None => {
                proof {
                    assert forall|v: spec_fn(LuaType, LuaType) -> TypeCheckResult|
                        check_verdicts(*type_check, v) implies #[trigger] spec_param_mismatches(
                        psv,
                        args@,
                        ranges@,
                        call_source_type,
                        0,
                        v,
                    ) == out@ + spec_param_mismatches(
                        psv,
                        args@,
                        ranges@,
                        call_source_type,
                        idx + 1,
                        v,
                    ) && !spec_param_check_overruns(
                        psv,
                        args@,
                        ranges@,
                        call_source_type,
                        idx + 1,
                        v,
                    ) by {
                        assert(spec_param_mismatches(psv, args@, ranges@, call_source_type, idx as int, v)
                            == spec_param_mismatches(psv, args@, ranges@, call_source_type, idx + 1, v));
                        assert(spec_param_check_overruns(
                            psv,
                            args@,
                            ranges@,
                            call_source_type,
                            idx as int,
                            v,
                        ) == spec_param_check_overruns(
                            psv,
                            args@,
                            ranges@,
                            call_source_type,
                            idx + 1,
                            v,
                        ));
                    }
                }
            },
            Some(pt) => {
                let at = if idx < args.len() {
                    args[idx].clone()
                } else {
                    LuaType::Any
                };
                let ct = if idx == 0 && pt.is_self_infer() && call_source_type.is_some() {
                    match &call_source_type {
                        Some(t) => t.clone(),
                        None => pt.clone(),
                    }
                } else {
                    pt.clone()
                };
                let res = type_check(&ct, &at);
                assert(ct == spec_checked_param_type(*pt, idx as int, call_source_type));
                assert(at == spec_arg_at(args@, idx as int));
                match res {
                    Ok(_) => {
                        proof {
                            assert forall|v: spec_fn(LuaType, LuaType) -> TypeCheckResult|
                                check_verdicts(*type_check, v) implies #[trigger] spec_param_mismatches(
                                psv,
                                args@,
                                ranges@,
                                call_source_type,
                                0,
                                v,
                            ) == out@ + spec_param_mismatches(
                                psv,
                                args@,
                                ranges@,
                                call_source_type,
                                idx + 1,
                                v,
                            ) && !spec_param_check_overruns(
                                psv,
                                args@,
                                ranges@,
                                call_source_type,
                                idx + 1,
                                v,
                            ) by {
                                assert(spec_param_mismatches(
                                    psv,
                                    args@,
                                    ranges@,
                                    call_source_type,
                                    0,
                                    v,
                                ) == out@ + spec_param_mismatches(
                                    psv,
                                    args@,
                                    ranges@,
                                    call_source_type,
                                    idx as int,
                                    v,
                                ));
                                assert(!spec_param_check_overruns(
                                    psv,
                                    args@,
                                    ranges@,
                                    call_source_type,
                                    idx as int,
                                    v,
                                ));
                                assert(type_check.ensures((&ct, &at), res));
                                assert(v(ct, at) is Ok);
                                assert(spec_param_check_overruns(
                                    psv,
                                    args@,
                                    ranges@,
                                    call_source_type,
                                    idx as int,
                                    v,
                                ) == spec_param_check_overruns(
                                    psv,
                                    args@,
                                    ranges@,
                                    call_source_type,
                                    idx + 1,
                                    v,
                                ));
                                assert(spec_param_mismatches(
                                    psv,
                                    args@,
                                    ranges@,
                                    call_source_type,
                                    idx as int,
                                    v,
                                ) == spec_param_mismatches(
                                    psv,
                                    args@,
                                    ranges@,
                                    call_source_type,
                                    idx + 1,
                                    v,
                                ));
                            }
                        }
                    },
                    Err(reason) => {
                        if idx < ranges.len() {
                            let ghost before = out@;
                            let ghost reason_v = reason;
                            out.push(
                                TypeMismatch { range: ranges[idx], expected: pt.clone(), found: at, reason },
                            );
                            proof {
                                assert forall|v: spec_fn(LuaType, LuaType) -> TypeCheckResult|
                                    check_verdicts(*type_check, v) implies #[trigger] spec_param_mismatches(
                                    psv,
                                    args@,
                                    ranges@,
                                    call_source_type,
                                    0,
                                    v,
                                ) == out@ + spec_param_mismatches(
                                    psv,
                                    args@,
                                    ranges@,
                                    call_source_type,
                                    idx + 1,
                                    v,
                                ) by {
                                    assert(v(ct, at) == Err::<(), TypeCheckFailReason>(reason_v));
                                    assert(out@ =~= before + seq![
                                        TypeMismatch {
                                            range: ranges@[idx as int],
                                            expected: *pt,
                                            found: spec_arg_at(args@, idx as int),
                                            reason: reason_v,
                                        },
                                    ]);
                                }
                            }
                            proof {
                                assert forall|v: spec_fn(LuaType, LuaType) -> TypeCheckResult|
                                    check_verdicts(*type_check, v) implies !#[trigger] spec_param_check_overruns(
                                    psv,
                                    args@,
                                    ranges@,
                                    call_source_type,
                                    idx + 1,
                                    v,
                                ) by {
                                    let _ = spec_param_mismatches(
                                        psv,
                                        args@,
                                        ranges@,
                                        call_source_type,
                                        0,
                                        v,
                                    );
                                    assert(!spec_param_check_overruns(
                                        psv,
                                        args@,
                                        ranges@,
                                        call_source_type,
                                        idx as int,
                                        v,
                                    ));
                                    assert(v(ct, at) == Err::<(), TypeCheckFailReason>(reason_v));
                                }
                                assert(ranges_taken_in_order(out@, ranges@, ks.push(idx as int), 0)) by {
                                    lemma_ranges_taken_push(before, ranges@, ks, 0, idx as int, out@.last());
                                    assert(out@ =~= before.push(out@.last()));
                                }
                                ks = ks.push(idx as int);
                            }
                        } else {
                            proof {
                                assert forall|v: spec_fn(LuaType, LuaType) -> TypeCheckResult|
                                    check_verdicts(*type_check, v) implies #[trigger] spec_param_mismatches(
                                    psv,
                                    args@,
                                    ranges@,
                                    call_source_type,
                                    0,
                                    v,
                                ) == out@ by {
                                    assert(v(ct, at) is Err);
                                    assert(out@ + seq![] =~= out@);
                                }
                            }
                            return out;
                        }
                    },
                }
            },
        }
        idx = idx + 1;
    }
    proof {
        assert forall|v: spec_fn(LuaType, LuaType) -> TypeCheckResult|
            check_verdicts(*type_check, v) implies #[trigger] spec_param_mismatches(
            psv,
            args@,
            ranges@,
            call_source_type,
            0,
            v,
        ) == out@ by {
            assert(out@ + seq![] =~= out@);
        }
    }
    out
}


/// The type is a table type.
pub open spec fn spec_is_table(t: LuaType) -> bool {
    t is Table || t is TableGeneric || t is TableConst
}

/// An assignment that is not checked: an optional value where `nil` is
/// allowed; a place of a declared class type that does not get one; a
/// table literal given to a reference or a tuple (its fields are checked
/// instead); a `nil` place; an instance of a table given to a reference.
pub open spec fn spec_assign_check_skipped(
    source: LuaType,
    value: LuaType,
    allow_nil: bool,
    value_is_optional: bool,
) -> bool {
    if allow_nil && value_is_optional {
        true
    } else {
        match source {
            LuaType::Def(_) => !(value is Def),
            LuaType::Ref(_) => value is TableConst || (value matches LuaType::Instance(i)
                && spec_is_table((*i).base)),
            LuaType::Tuple(_) => value is TableConst,
            LuaType::Nil => true,
            _ => false,
        }
    }
}

/// What the check of assigning a value of type `value` to a place of type
/// `source` reports, for the verdicts `v`.
pub open spec fn spec_assign_mismatch(
    range: TextRange,
    source: LuaType,
    value: LuaType,
    allow_nil: bool,
    value_is_optional: bool,
    v: spec_fn(LuaType, LuaType) -> TypeCheckResult,
) -> Option<TypeMismatch> {
    if spec_assign_check_skipped(source, value, allow_nil, value_is_optional) {
        None
    } else {
        match v(source, value) {
            Ok(_) => None,
            Err(reason) => Some(TypeMismatch { range, expected: source, found: value, reason }),
        }
    }
}

/// The assignments that are checked are reported exactly when the verdict
/// rejects them: unless `nil` is allowed and the value may be `nil`, a value
/// given to any place but `nil` is a mismatch exactly when the verdict on
/// the place's type and the value's type is an error, with that error as its
/// reason. This holds of a tuple or reference place for every value but a
/// table literal (and, for a reference, an instance of a table), and of a
/// declared class place for a declared class value.
pub proof fn lemma_assign_reported_exactly_on_rejection(
    range: TextRange,
    source: LuaType,
    value: LuaType,
    allow_nil: bool,
    value_is_optional: bool,
    v: spec_fn(LuaType, LuaType) -> TypeCheckResult,
)
    requires
        !(allow_nil && value_is_optional),
        !(source is Nil),
        source is Tuple ==> !(value is TableConst),
        source is Ref ==> !(value is TableConst) && !(value is Instance),
        source is Def ==> value is Def,
    ensures
        spec_assign_mismatch(range, source, value, allow_nil, value_is_optional, v) is Some
            <==> v(source, value) is Err,
        forall|reason: TypeCheckFailReason|
            v(source, value) == Err::<(), TypeCheckFailReason>(reason) ==> spec_assign_mismatch(
                range,
                source,
                value,
                allow_nil,
                value_is_optional,
                v,
            ) == Some(TypeMismatch { range, expected: source, found: value, reason }),
{
}

/// Some assignments are left out of the check and never reported: a value
/// that may be `nil` where `nil` is allowed, any value for a `nil` place, a
/// table literal for a tuple or a reference, and a value that is not a
/// declared class for a declared class place. A value that the verdict
/// accepts is not reported either.
pub proof fn lemma_assign_not_reported(
    range: TextRange,
    source: LuaType,
    value: LuaType,
    allow_nil: bool,
    value_is_optional: bool,
    v: spec_fn(LuaType, LuaType) -> TypeCheckResult,
)
    ensures
        (allow_nil && value_is_optional) ==> spec_assign_mismatch(
            range,
            source,
            value,
            allow_nil,
            value_is_optional,
            v,
        ) is None,
        source is Nil ==> spec_assign_mismatch(
            range,
            source,
            value,
            allow_nil,
            value_is_optional,
            v,
        ) is None,
        ((source is Tuple || source is Ref) && value is TableConst) ==> spec_assign_mismatch(
            range,
            source,
            value,
            allow_nil,
            value_is_optional,
            v,
        ) is None,
        (source is Def && !(value is Def)) ==> spec_assign_mismatch(
            range,
            source,
            value,
            allow_nil,
            value_is_optional,
            v,
        ) is None,
        v(source, value) is Ok ==> spec_assign_mismatch(
            range,
            source,
            value,
            allow_nil,
            value_is_optional,
            v,
        ) is None,
{
}

/// The type, or `any` when it is not known.
pub open spec fn spec_or_any(t: Option<LuaType>) -> LuaType {
    match t {
        Some(t) => t,
        None => LuaType::Any,
    }
}

/// Checks the assignment of a value to a place at `range`; an unknown type
/// counts as `any`. `value_is_optional` tells whether the value's type
/// admits `nil`.
pub fn check_assign_type_mismatch<F: Fn(&LuaType, &LuaType) -> TypeCheckResult>(
    type_check: &F,
    range: TextRange,
    source_type: Option<LuaType>,
    value_type: Option<LuaType>,
    allow_nil: bool,
    value_is_optional: bool,
) -> (r: Option<TypeMismatch>)
    requires
        forall|a: &LuaType, b: &LuaType| type_check.requires((a, b)),
    ensures
        spec_assign_check_skipped(
            spec_or_any(source_type),
            spec_or_any(value_type),
            allow_nil,
            value_is_optional,
        ) ==> r is None,
        r matches Some(m) ==> m.range == range && m.expected == spec_or_any(source_type)
            && m.found == spec_or_any(value_type),
        forall|v: spec_fn(LuaType, LuaType) -> TypeCheckResult|
            check_verdicts(*type_check, v) ==> r == #[trigger] spec_assign_mismatch(
                range,
                spec_or_any(source_type),
                spec_or_any(value_type),
                allow_nil,
                value_is_optional,
                v,
            ),
{
    let source = match source_type {
        Some(t) => t,
        None => LuaType::Any,
    };
    let value = match value_type {
        Some(t) => t,
        None => LuaType::Any,
    };
    if allow_nil && value_is_optional {
        return None;
    }
    match &source {
        LuaType::Def(_) => {
            if !matches!(value, LuaType::Def(_)) {
                return None;
            }
        },
        LuaType::Ref(_) => {
            match &value {
                LuaType::TableConst(_) => {
                    return None;
                },
                LuaType::Instance(inst) => {
                    if inst.base.is_table() {
                        return None;
                    }
                },
                _ => {},
            }
        },
        LuaType::Tuple(_) => {
            if matches!(value, LuaType::TableConst(_)) {
                return None;
            }
        },
        LuaType::Nil => {
            return None;
        },
        _ => {},
    }
    let res = type_check(&source, &value);
    match res {
        Ok(_) => None,
        Err(reason) => Some(TypeMismatch { range, expected: source, found: value, reason }),
    }
}

/// A field of a table literal assigned to a place of a known type.
#[derive(Debug)]
pub struct TableFieldValue {
    pub range: TextRange,
    /// The field's key as a member path, `None` for a field without key.
    pub key_path: Option<String>,
    /// The field's value: `None` without a value expression, else its
    /// inferred type, `None` where inference fails.
    pub value_type: Option<Option<LuaType>>,
    /// The value's type admits `nil`.
    pub value_is_optional: bool,
}

/// The type of the first member whose path is `path`.
pub open spec fn spec_member_type(infos: Seq<(String, LuaType)>, path: Seq<char>) -> Option<LuaType>
    decreases infos.len(),
{
    if infos.len() == 0 {
        None
    } else if infos[0].0@ == path {
        Some(infos[0].1)
    } else {
        spec_member_type(infos.drop_first(), path)
    }
}

/// What the check of one field of a table literal reports.
pub open spec fn spec_field_mismatch(
    table_type: LuaType,
    infos: Seq<(String, LuaType)>,
    f: TableFieldValue,
    v: spec_fn(LuaType, LuaType) -> TypeCheckResult,
) -> Option<TypeMismatch> {
    match (f.key_path, f.value_type) {
        (Some(path), Some(t)) => spec_assign_mismatch(
            f.range,
            spec_or_any(spec_member_type(infos, path@)),
            spec_or_any(t),
            table_type is Array,
            f.value_is_optional,
            v,
        ),
        _ => None,
    }
}

/// What the checks of the fields of a table literal report, in order.
pub open spec fn spec_table_field_mismatches(
    table_type: LuaType,
    infos: Seq<(String, LuaType)>,
    fields: Seq<TableFieldValue>,
    v: spec_fn(LuaType, LuaType) -> TypeCheckResult,
) -> Seq<TypeMismatch>
    decreases fields.len(),
{
    if fields.len() == 0 {
        seq![]
    } else {
        let rest = spec_table_field_mismatches(table_type, infos, fields.drop_last(), v);
        match spec_field_mismatch(table_type, infos, fields.last(), v) {
            Some(m) => rest.push(m),
            None => rest,
        }
    }
}

fn find_member_type(infos: &Vec<(String, LuaType)>, path: &str) -> (r: Option<LuaType>)
    ensures
        r == spec_member_type(infos@, path@),
{
    let mut i: usize = 0;
    proof {
        assert(infos@.skip(0) =~= infos@);
    }
    while i < infos.len()
        invariant
            0 <= i <= infos@.len(),
            spec_member_type(infos@, path@) == spec_member_type(infos@.skip(i as int), path@),
        decreases infos@.len() - i,
    {
        proof {
            assert(infos@.skip(i as int).drop_first() =~= infos@.skip(i + 1));
            assert(infos@.skip(i as int)[0] == infos@[i as int]);
        }
        if str_eq(infos[i].0.as_str(), path) {
            return Some(infos[i].1.clone());
        }
        i = i + 1;
    }
    None
}

/// Checks the fields of a table literal given to a place of type
/// `table_type`, whose members are `member_infos` (by path); nothing is
/// checked when either is unknown. A list type allows `nil` values.
#[verifier::rlimit(40)]
pub fn handle_value_is_table_expr<F: Fn(&LuaType, &LuaType) -> TypeCheckResult>(
    type_check: &F,
    table_type: Option<&LuaType>,
    member_infos: Option<&Vec<(String, LuaType)>>,
    fields: &Vec<TableFieldValue>,
) -> (r: Vec<TypeMismatch>)
    requires
        forall|a: &LuaType, b: &LuaType| type_check.requires((a, b)),
    ensures
        table_type is None || member_infos is None ==> r@.len() == 0,
        forall|v: spec_fn(LuaType, LuaType) -> TypeCheckResult|
            check_verdicts(*type_check, v) && table_type is Some && member_infos is Some ==> r@
                == #[trigger] spec_table_field_mismatches(
                *table_type->Some_0,
                member_infos->Some_0@,
                fields@,
                v,
            ),
{
    let mut out: Vec<TypeMismatch> = Vec::new();
    let tt = match table_type {
        Some(t) => t,
        None => {
            return out;
        },
    };
    let infos = match member_infos {
        Some(m) => m,
        None => {
            return out;
        },
    };
    let allow_nil = matches!(tt, LuaType::Array(_));
    let mut i: usize = 0;
    while i < fields.len()
        invariant
            0 <= i <= fields@.len(),
            allow_nil == (*tt is Array),
            forall|a: &LuaType, b: &LuaType| type_check.requires((a, b)),
            forall|v: spec_fn(LuaType, LuaType) -> TypeCheckResult|
                check_verdicts(*type_check, v) ==> out@ == #[trigger] spec_table_field_mismatches(
                    *tt,
                    infos@,
                    fields@.take(i as int),
                    v,
                ),
        decreases fields@.len() - i,
    {
        let f = &fields[i];
        let ghost before = out@;
        let m = match (&f.key_path, &f.value_type) {
            (Some(path), Some(t)) => {
                let source = find_member_type(infos, path.as_str());
                let value = match t {
                    Some(x) => Some(x.clone()),
                    None => None,
                };
                check_assign_type_mismatch(
                    type_check,
                    f.range,
                    source,
                    value,
                    allow_nil,
                    f.value_is_optional,
                )
            },
            _ => None,
        };
        match m {
            Some(mm) => {
                out.push(mm);
            },
            None => {},
        }
        proof {
            assert forall|v: spec_fn(LuaType, LuaType) -> TypeCheckResult|
                check_verdicts(*type_check, v) implies out@ == #[trigger] spec_table_field_mismatches(
                *tt,
                infos@,
                fields@.take(i + 1),
                v,
            ) by {
                assert(fields@.take(i + 1).drop_last() =~= fields@.take(i as int));
                assert(fields@.take(i + 1).last() == fields@[i as int]);
                assert(m == spec_field_mismatch(*tt, infos@, fields@[i as int], v));
                assert(before == spec_table_field_mismatches(*tt, infos@, fields@.take(i as int), v));
                match m {
                    Some(x) => {
                        assert(out@ == before.push(x));
                    },
                    None => {
                        assert(out@ == before);
                    },
                }
            }
        }
        i = i + 1;
    }
    proof {
        assert(fields@.take(i as int) =~= fields@);
    }
    out
}

/// A function around a call, as far as the async check looks at it.
#[derive(Debug, Clone, Copy, PartialEq, Eq, Structural)]
pub struct EnclosingClosure {
    /// The function is documented as async.
    pub is_async: bool,
    /// The function is passed to `pcall` or `xpcall`.
    pub in_pcall: bool,
}

/// A call is in an async function when one of the functions around it is
/// async and every nearer one is handed to `pcall` or `xpcall`.
pub open spec fn spec_in_async(closures: Seq<EnclosingClosure>) -> bool {
    exists|i: int|
        0 <= i < closures.len() && closures[i].is_async && forall|j: int|
            0 <= j < i ==> #[trigger] closures[j].in_pcall
}

/// Whether a call is in an async function, given the functions around it
/// from the nearest outwards.
pub fn check_call_is_in_async_function(closures: &Vec<EnclosingClosure>) -> (r: bool)
    ensures
        r == spec_in_async(closures@),
{
    let mut i: usize = 0;
    while i < closures.len()
        invariant
            0 <= i <= closures@.len(),
            forall|j: int| 0 <= j < i ==> #[trigger] closures@[j].in_pcall,
            forall|j: int| 0 <= j < i ==> !(#[trigger] closures@[j]).is_async,
        decreases closures@.len() - i,
    {
        if closures[i].is_async {
            return true;
        }
        if !closures[i].in_pcall {
            proof {
                assert forall|k: int|
                    0 <= k < closures@.len() && closures@[k].is_async implies !(forall|j: int|
                    0 <= j < k ==> #[trigger] closures@[j].in_pcall) by {
                    assert(k > i);
                    assert(!closures@[i as int].in_pcall);
                }
            }
            return false;
        }
        i = i + 1;
    }
    false
}

/// The function is called by the name `pcall` or `xpcall`.
pub fn is_in_pcall_or_xpcall(callee_name: Option<&str>) -> (r: bool)
    ensures
        r == (callee_name matches Some(n) && (n@ == "pcall"@ || n@ == "xpcall"@)),
{
    match callee_name {
        Some(n) => str_eq(n, "pcall") || str_eq(n, "xpcall"),
        None => false,
    }
}

/// Whether the function handed to `pcall`/`xpcall` is async: a doc
/// function says so itself, a function with a signature by what its
/// documentation says (`signature_is_async`); of other types nothing is
/// known.
pub fn pcall_arg_is_async(arg_type: &LuaType, signature_is_async: Option<bool>) -> (r: Option<bool>)
    ensures
        match *arg_type {
            LuaType::DocFunction(f) => r == Some(f.is_async),
            LuaType::Signature(_) => r == signature_is_async,
            _ => r is None,
        },
{
    match arg_type {
        LuaType::DocFunction(f) => Some(f.is_async()),
        LuaType::Signature(_) => signature_is_async,
        _ => None,
    }
}

/// A call of an async function outside an async function is reported.
pub fn is_await_in_sync(callee_is_async: bool, closures: &Vec<EnclosingClosure>) -> (r: bool)
    ensures
        r == (callee_is_async && !spec_in_async(closures@)),
{
    callee_is_async && !check_call_is_in_async_function(closures)
}


/// Whether the caller of a call with `:` fits the `self` type of a
/// function not defined with `:`. Only a `self_type` other than `self` and
/// `any` is checked, and only for a call through an index expression
/// (`index_prefix` is `Some`): against the type of the indexed expression
/// (`self` when it cannot be inferred), or failing when that expression is
/// missing.
pub fn check_first_param_colon_call<F: Fn(&LuaType, &LuaType) -> TypeCheckResult>(
    type_check: &F,
    self_type: &LuaType,
    index_prefix: Option<Option<Option<LuaType>>>,
) -> (r: TypeCheckResult)
    requires
        forall|a: &LuaType, b: &LuaType| type_check.requires((a, b)),
    ensures
        (*self_type is SelfInfer || *self_type is Any || index_prefix is None) ==> r is Ok,
        !(*self_type is SelfInfer || *self_type is Any) ==> match index_prefix {
            Some(None) => r matches Err(TypeCheckFailReason::TypeNotMatch),
            Some(Some(t)) => type_check.ensures((self_type, &spec_or_self(t)), r),
            None => true,
        },
{
    if !matches!(self_type, LuaType::SelfInfer | LuaType::Any) {
        match index_prefix {
            Some(prefix) => {
                return match prefix {
                    Some(t) => {
                        let expr_type = match t {
                            Some(x) => x,
                            None => LuaType::SelfInfer,
                        };
                        type_check(self_type, &expr_type)
                    },
                    None => Err(TypeCheckFailReason::TypeNotMatch),
                };
            },
            None => {},
        }
    }
    Ok(())
}

/// The type, or `self` when it is not known.
pub open spec fn spec_or_self(t: Option<LuaType>) -> LuaType {
    match t {
        Some(t) => t,
        None => LuaType::SelfInfer,
    }
}


/// The message of a parameter mismatch: the check's own reason, the
/// localized "expected `..` but found `..`" with the two types rendered,
/// or "type recursion".
#[derive(Debug)]
pub enum ParamMismatchMessage {
    Reason(String),
    ExpectedButFound,
    TypeRecursion,
}

/// Which message a parameter mismatch gets.
pub fn param_mismatch_message(reason: TypeCheckFailReason) -> (r: ParamMismatchMessage)
    ensures
        match reason {
            TypeCheckFailReason::TypeNotMatchWithReason(s) => r matches ParamMismatchMessage::Reason(
                t,
            ) && t == s,
            TypeCheckFailReason::TypeNotMatch => r is ExpectedButFound,
            TypeCheckFailReason::TypeRecursion => r is TypeRecursion,
        },
{
    match reason {
        TypeCheckFailReason::TypeNotMatchWithReason(s) => ParamMismatchMessage::Reason(s),
        TypeCheckFailReason::TypeNotMatch => ParamMismatchMessage::ExpectedButFound,
        TypeCheckFailReason::TypeRecursion => ParamMismatchMessage::TypeRecursion,
    }
}

/// The reason that ends the message of an assignment mismatch: the
/// check's own reason, or nothing.
pub fn assign_mismatch_reason(reason: TypeCheckFailReason) -> (r: String)
    ensures
        reason matches TypeCheckFailReason::TypeNotMatchWithReason(s) ==> r == s,
        !(reason is TypeNotMatchWithReason) ==> r@ == Seq::<char>::empty(),
{
    match reason {
        TypeCheckFailReason::TypeNotMatchWithReason(s) => s,
        _ => String::new(),
    }
}


/// A table literal assigned to a place: the members of the place's type
/// (`None` when they cannot be listed) and the literal's fields.
#[derive(Debug)]
pub struct TableValue {
    pub member_infos: Option<Vec<(String, LuaType)>>,
    pub fields: Vec<TableFieldValue>,
}

/// What checking a value assigned to a place of type `place` at `range`
/// reports: the value against the place, then the fields of a table
/// literal against the place's members.
pub open spec fn spec_target_mismatches(
    range: TextRange,
    place: Option<LuaType>,
    value: LuaType,
    value_is_optional: bool,
    allow_nil: bool,
    table: Option<TableValue>,
    v: spec_fn(LuaType, LuaType) -> TypeCheckResult,
) -> Seq<TypeMismatch> {
    (match spec_assign_mismatch(range, spec_or_any(place), value, allow_nil, value_is_optional, v) {
        Some(m) => seq![m],
        None => seq![],
    }) + match (table, place) {
        (Some(tv), Some(p)) => match tv.member_infos {
            Some(infos) => spec_table_field_mismatches(p, infos@, tv.fields@, v),
            None => seq![],
        },
        _ => seq![],
    }
}

/// The value behind an optional reference.
pub open spec fn deref_opt(p: Option<&LuaType>) -> Option<LuaType> {
    match p {
        Some(x) => Some(*x),
        None => None,
    }
}

fn check_target<F: Fn(&LuaType, &LuaType) -> TypeCheckResult>(
    type_check: &F,
    range: TextRange,
    place: Option<&LuaType>,
    value: &LuaType,
    value_is_optional: bool,
    allow_nil: bool,
    table: &Option<TableValue>,
) -> (r: Vec<TypeMismatch>)
    requires
        forall|a: &LuaType, b: &LuaType| type_check.requires((a, b)),
    ensures
        forall|v: spec_fn(LuaType, LuaType) -> TypeCheckResult|
            check_verdicts(*type_check, v) ==> r@ == #[trigger] spec_target_mismatches(
                range,
                deref_opt(place),
                *value,
                value_is_optional,
                allow_nil,
                *table,
                v,
            ),
{
    let mut out: Vec<TypeMismatch> = Vec::new();
    let source = match place {
        Some(p) => Some(p.clone()),
        None => None,
    };
    let m = check_assign_type_mismatch(
        type_check,
        range,
        source,
        Some(value.clone()),
        allow_nil,
        value_is_optional,
    );
    match m {
        Some(mm) => {
            out.push(mm);
        },
        None => {},
    }
    let ghost first = out@;
    let mut fields_out = match table {
        Some(tv) => match place {
            Some(_) => handle_value_is_table_expr(
                type_check,
                place,
                tv.member_infos.as_ref(),
                &tv.fields,
            ),
            None => Vec::new(),
        },
        None => Vec::new(),
    };
    let ghost second = fields_out@;
    out.append(&mut fields_out);
    proof {
        assert forall|v: spec_fn(LuaType, LuaType) -> TypeCheckResult|
            check_verdicts(*type_check, v) implies out@ == #[trigger] spec_target_mismatches(
            range,
            deref_opt(place),
            *value,
            value_is_optional,
            allow_nil,
            *table,
            v,
        ) by {
            assert(spec_or_any(Some(*value)) == *value);
            assert(first =~= match spec_assign_mismatch(
                range,
                spec_or_any(deref_opt(place)),
                *value,
                allow_nil,
                value_is_optional,
                v,
            ) {
                Some(m) => seq![m],
                None => seq![],
            });
            match (table, place) {
                (Some(tv), Some(p)) => {
                    match tv.member_infos {
                        Some(infos) => {},
                        None => {
                            assert(second.len() == 0);
                        },
                    }
                },
                _ => {
                    assert(second.len() == 0);
                },
            }
        }
    }
    out
}

/// A place assigned to by an assignment statement.
#[derive(Debug)]
pub enum AssignTarget {
    /// An indexed place, with the type of the member, `None` when it
    /// cannot be found (the place is then not checked).
    Index { range: TextRange, member_type: Option<LuaType>, table: Option<TableValue> },
    /// A name: `None` when it refers to nothing known (the place is then
    /// not checked), else the declared type of the declaration it names,
    /// if any.
    Name { range: TextRange, owner: Option<Option<LuaType>>, table: Option<TableValue> },
}

/// What the checks of the places of an assignment report, from place
/// `i` on: each place against the value of the same position, until the
/// values run out.
pub open spec fn spec_assign_stat_from(
    targets: Seq<AssignTarget>,
    values: Seq<LuaType>,
    optional: Seq<bool>,
    i: int,
    v: spec_fn(LuaType, LuaType) -> TypeCheckResult,
) -> Seq<TypeMismatch>
    decreases targets.len() - i,
{
    if i < 0 || i >= targets.len() || i >= values.len() || i >= optional.len() {
        seq![]
    } else {
        (match targets[i] {
            AssignTarget::Index { range, member_type, table } => match member_type {
                Some(t) => spec_target_mismatches(range, Some(t), values[i], optional[i], true, table, v),
                None => seq![],
            },
            AssignTarget::Name { range, owner, table } => match owner {
                Some(origin) => spec_target_mismatches(
                    range,
                    origin,
                    values[i],
                    optional[i],
                    false,
                    table,
                    v,
                ),
                None => seq![],
            },
        }) + spec_assign_stat_from(targets, values, optional, i + 1, v)
    }
}

/// Checks the places of an assignment statement against the types of its
/// values (`value_types`, with whether each admits `nil` in
/// `value_optional`): an indexed place allows `nil` values, a name does
/// not; a table literal's fields are checked against the place's members.
#[verifier::rlimit(40)]
pub fn check_assign_stat<F: Fn(&LuaType, &LuaType) -> TypeCheckResult>(
    type_check: &F,
    targets: &Vec<AssignTarget>,
    value_types: &Vec<LuaType>,
    value_optional: &Vec<bool>,
) -> (r: Vec<TypeMismatch>)
    requires
        forall|a: &LuaType, b: &LuaType| type_check.requires((a, b)),
    ensures
        forall|v: spec_fn(LuaType, LuaType) -> TypeCheckResult|
            check_verdicts(*type_check, v) ==> r@ == #[trigger] spec_assign_stat_from(
                targets@,
                value_types@,
                value_optional@,
                0,
                v,
            ),
{
    let mut out: Vec<TypeMismatch> = Vec::new();
    let mut i: usize = 0;
    while i < targets.len() && i < value_types.len() && i < value_optional.len()
        invariant
            0 <= i <= targets@.len(),
            forall|a: &LuaType, b: &LuaType| type_check.requires((a, b)),
            forall|v: spec_fn(LuaType, LuaType) -> TypeCheckResult|
                check_verdicts(*type_check, v) ==> #[trigger] spec_assign_stat_from(
                    targets@,
                    value_types@,
                    value_optional@,
                    0,
                    v,
                ) == out@ + spec_assign_stat_from(targets@, value_types@, value_optional@, i as int, v),
        decreases targets@.len() - i,
    {
        let value = &value_types[i];
        let opt = value_optional[i];
        let ghost before = out@;
        let mut part = match &targets[i] {
            AssignTarget::Index { range, member_type, table } => match member_type {
                Some(t) => check_target(type_check, *range, Some(t), value, opt, true, table),
                None => Vec::new(),
            },
            AssignTarget::Name { range, owner, table } => match owner {
                Some(origin) => check_target(
                    type_check,
                    *range,
                    origin.as_ref(),
                    value,
                    opt,
                    false,
                    table,
                ),
                None => Vec::new(),
            },
        };
        let ghost p = part@;
        out.append(&mut part);
        proof {
            assert forall|v: spec_fn(LuaType, LuaType) -> TypeCheckResult|
                check_verdicts(*type_check, v) implies #[trigger] spec_assign_stat_from(
                targets@,
                value_types@,
                value_optional@,
                0,
                v,
            ) == out@ + spec_assign_stat_from(targets@, value_types@, value_optional@, i + 1, v) by {
                assert(spec_assign_stat_from(targets@, value_types@, value_optional@, 0, v) == before
                    + spec_assign_stat_from(targets@, value_types@, value_optional@, i as int, v));
                match targets@[i as int] {
                    AssignTarget::Index { range, member_type, table } => match member_type {
                        Some(t) => {},
                        None => {
                            assert(p.len() == 0);
                        },
                    },
                    AssignTarget::Name { range, owner, table } => match owner {
                        Some(origin) => {},
                        None => {
                            assert(p.len() == 0);
                        },
                    },
                }
                assert(out@ == before + p);
            }
        }
        i = i + 1;
    }
    proof {
        assert forall|v: spec_fn(LuaType, LuaType) -> TypeCheckResult|
            check_verdicts(*type_check, v) implies out@ == #[trigger] spec_assign_stat_from(
            targets@,
            value_types@,
            value_optional@,
            0,
            v,
        ) by {
            assert(out@ + seq![] =~= out@);
        }
    }
    out
}

/// A local variable declared by a local statement: its declared range and
/// type, `None` when the name, its declaration or its type cannot be
/// found (which ends the checking); and the table literal it is given.
#[derive(Debug)]
pub struct LocalTarget {
    pub decl: Option<(TextRange, LuaType)>,
    pub table: Option<TableValue>,
}

/// What the checks of the variables of a local statement report, from
/// variable `i` on: each variable against the value of the same position,
/// until a variable without declared type or the values run out.
pub open spec fn spec_local_stat_from(
    targets: Seq<LocalTarget>,
    values: Seq<LuaType>,
    optional: Seq<bool>,
    i: int,
    v: spec_fn(LuaType, LuaType) -> TypeCheckResult,
) -> Seq<TypeMismatch>
    decreases targets.len() - i,
{
    if i < 0 || i >= targets.len() || i >= values.len() || i >= optional.len() {
        seq![]
    } else {
        match targets[i].decl {
            None => seq![],
            Some(d) => spec_target_mismatches(
                d.0,
                Some(d.1),
                values[i],
                optional[i],
                false,
                targets[i].table,
                v,
            ) + spec_local_stat_from(targets, values, optional, i + 1, v),
        }
    }
}

/// Checks the variables of a local statement against the types of its
/// values; a table literal's fields are checked against the variable's
/// members.
#[verifier::rlimit(40)]
pub fn check_local_stat<F: Fn(&LuaType, &LuaType) -> TypeCheckResult>(
    type_check: &F,
    targets: &Vec<LocalTarget>,
    value_types: &Vec<LuaType>,
    value_optional: &Vec<bool>,
) -> (r: Vec<TypeMismatch>)
    requires
        forall|a: &LuaType, b: &LuaType| type_check.requires((a, b)),
    ensures
        forall|v: spec_fn(LuaType, LuaType) -> TypeCheckResult|
            check_verdicts(*type_check, v) ==> r@ == #[trigger] spec_local_stat_from(
                targets@,
                value_types@,
                value_optional@,
                0,
                v,
            ),
{
    let mut out: Vec<TypeMismatch> = Vec::new();
    let mut i: usize = 0;
    while i < targets.len() && i < value_types.len() && i < value_optional.len()
        invariant
            0 <= i <= targets@.len(),
            forall|a: &LuaType, b: &LuaType| type_check.requires((a, b)),
            forall|v: spec_fn(LuaType, LuaType) -> TypeCheckResult|
                check_verdicts(*type_check, v) ==> #[trigger] spec_local_stat_from(
                    targets@,
                    value_types@,
                    value_optional@,
                    0,
                    v,
                ) == out@ + spec_local_stat_from(targets@, value_types@, value_optional@, i as int, v),
        decreases targets@.len() - i,
    {
        let (range, t) = match &targets[i].decl {
            Some(d) => (d.0, &d.1),
            None => {
                proof {
                    assert forall|v: spec_fn(LuaType, LuaType) -> TypeCheckResult|
                        check_verdicts(*type_check, v) implies out@ == #[trigger] spec_local_stat_from(
                        targets@,
                        value_types@,
                        value_optional@,
                        0,
                        v,
                    ) by {
                        assert(out@ + seq![] =~= out@);
                    }
                }
                return out;
            },
        };
        let ghost before = out@;
        let mut part = check_target(
            type_check,
            range,
            Some(t),
            &value_types[i],
            value_optional[i],
            false,
            &targets[i].table,
        );
        let ghost p = part@;
        out.append(&mut part);
        proof {
            assert forall|v: spec_fn(LuaType, LuaType) -> TypeCheckResult|
                check_verdicts(*type_check, v) implies #[trigger] spec_local_stat_from(
                targets@,
                value_types@,
                value_optional@,
                0,
                v,
            ) == out@ + spec_local_stat_from(targets@, value_types@, value_optional@, i + 1, v) by {
                assert(spec_local_stat_from(targets@, value_types@, value_optional@, 0, v) == before
                    + spec_local_stat_from(targets@, value_types@, value_optional@, i as int, v));
                assert(out@ == before + p);
            }
        }
        i = i + 1;
    }
    proof {
        assert forall|v: spec_fn(LuaType, LuaType) -> TypeCheckResult|
            check_verdicts(*type_check, v) implies out@ == #[trigger] spec_local_stat_from(
            targets@,
            value_types@,
            value_optional@,
            0,
            v,
        ) by {
            assert(out@ + seq![] =~= out@);
        }
    }
    out
}

/// The verdicts accept every pair of types.
pub open spec fn accepts_all(v: spec_fn(LuaType, LuaType) -> TypeCheckResult) -> bool {
    forall|a: LuaType, b: LuaType| (#[trigger] v(a, b)) is Ok
}

/// Where the verdicts accept everything, no field of a table literal is
/// reported.
pub proof fn lemma_accepted_fields_not_reported(
    table_type: LuaType,
    infos: Seq<(String, LuaType)>,
    fields: Seq<TableFieldValue>,
    v: spec_fn(LuaType, LuaType) -> TypeCheckResult,
)
    requires
        accepts_all(v),
    ensures
        spec_table_field_mismatches(table_type, infos, fields, v).len() == 0,
    decreases fields.len(),
{
    if fields.len() > 0 {
        lemma_accepted_fields_not_reported(table_type, infos, fields.drop_last(), v);
    }
}

/// Where the verdicts accept everything, no place given a value is
/// reported, nor any field of a table literal given to it.
pub proof fn lemma_accepted_target_not_reported(
    range: TextRange,
    place: Option<LuaType>,
    value: LuaType,
    value_is_optional: bool,
    allow_nil: bool,
    table: Option<TableValue>,
    v: spec_fn(LuaType, LuaType) -> TypeCheckResult,
)
    requires
        accepts_all(v),
    ensures
        spec_target_mismatches(range, place, value, value_is_optional, allow_nil, table, v).len() == 0,
{
    assert(v(spec_or_any(place), value) is Ok);
    match (table, place) {
        (Some(tv), Some(p)) => match tv.member_infos {
            Some(infos) => lemma_accepted_fields_not_reported(p, infos@, tv.fields@, v),
            None => {},
        },
        _ => {},
    }
}

/// Where the verdicts accept everything, an assignment statement reports
/// nothing, from any place on.
pub proof fn lemma_accepted_assign_stat_not_reported(
    targets: Seq<AssignTarget>,
    values: Seq<LuaType>,
    optional: Seq<bool>,
    i: int,
    v: spec_fn(LuaType, LuaType) -> TypeCheckResult,
)
    requires
        accepts_all(v),
    ensures
        spec_assign_stat_from(targets, values, optional, i, v).len() == 0,
    decreases targets.len() - i,
{
    if !(i < 0 || i >= targets.len() || i >= values.len() || i >= optional.len()) {
        lemma_accepted_assign_stat_not_reported(targets, values, optional, i + 1, v);
        match targets[i] {
            AssignTarget::Index { range, member_type, table } => match member_type {
                Some(t) => lemma_accepted_target_not_reported(
                    range,
                    Some(t),
                    values[i],
                    optional[i],
                    true,
                    table,
                    v,
                ),
                None => {},
            },
            AssignTarget::Name { range, owner, table } => match owner {
                Some(origin) => lemma_accepted_target_not_reported(
                    range,
                    origin,
                    values[i],
                    optional[i],
                    false,
                    table,
                    v,
                ),
                None => {},
            },
        }
    }
}

/// Where the verdicts accept everything, a local statement reports
/// nothing; and whatever the verdicts, nothing is reported from a variable
/// without declared type on.
pub proof fn lemma_local_stat_reports(
    targets: Seq<LocalTarget>,
    values: Seq<LuaType>,
    optional: Seq<bool>,
    i: int,
    v: spec_fn(LuaType, LuaType) -> TypeCheckResult,
)
    ensures
        accepts_all(v) ==> spec_local_stat_from(targets, values, optional, i, v).len() == 0,
        (0 <= i < targets.len() && targets[i].decl is None) ==> spec_local_stat_from(
            targets,
            values,
            optional,
            i,
            v,
        ).len() == 0,
    decreases targets.len() - i,
{
    if !(i < 0 || i >= targets.len() || i >= values.len() || i >= optional.len()) {
        lemma_local_stat_reports(targets, values, optional, i + 1, v);
        match targets[i].decl {
            None => {},
            Some(d) => {
                if accepts_all(v) {
                    lemma_accepted_target_not_reported(
                        d.0,
                        Some(d.1),
                        values[i],
                        optional[i],
                        false,
                        targets[i].table,
                        v,
                    );
                }
            },
        }
    }
}

/// A field of a table literal is checked against the member of its path,
/// or against `any` where the type has none; in a list type a value that
/// may be `nil` is never reported; a field without key path or value is
/// never reported.
pub proof fn lemma_table_field_checked_against_member(
    table_type: LuaType,
    infos: Seq<(String, LuaType)>,
    f: TableFieldValue,
    v: spec_fn(LuaType, LuaType) -> TypeCheckResult,
)
    ensures
        (f.key_path is None || f.value_type is None) ==> spec_field_mismatch(table_type, infos, f, v)
            is None,
        (table_type is Array && f.value_is_optional) ==> spec_field_mismatch(
            table_type,
            infos,
            f,
            v,
        ) is None,
        (f.key_path is Some && f.value_type is Some && spec_field_mismatch(table_type, infos, f, v)
            is Some) ==> spec_field_mismatch(table_type, infos, f, v)->Some_0.range == f.range
            && spec_field_mismatch(table_type, infos, f, v)->Some_0.expected == spec_or_any(
            spec_member_type(infos, f.key_path->Some_0@),
        ) && spec_field_mismatch(table_type, infos, f, v)->Some_0.found == spec_or_any(
            f.value_type->Some_0,
        ),
{
}

} // verus!
