use std::sync::Arc;

use emmylua_code_analysis::base::{FileId, InFiled, TextRange};
use emmylua_code_analysis::type_check::{check_simple_type_compact, TypeCheckFailReason, TypeCheckGuard};
use emmylua_code_analysis::types::{
    LuaFloat, LuaIndexAccessKey, LuaMemberKey, LuaMultiReturn, LuaObjectType, LuaStringTplType,
    LuaTupleType, LuaType, LuaTypeDeclId, LuaUnionType,
};
use emmylua_code_analysis::member::{get_buildin_type_map_type_id, without_index_operator, without_members};

#[test]
fn text_range_bounds_and_length() {
    let r = TextRange::new(3, 10);
    assert_eq!(r.start(), 3);
    assert_eq!(r.end(), 10);
    assert_eq!(r.len(), 7);
}

#[test]
fn type_decl_id_keeps_its_name() {
    let id = LuaTypeDeclId::new("Foo");
    assert_eq!(id.get_name(), "Foo");
    assert!(id == LuaTypeDeclId::new("Foo"));
    assert!(id != LuaTypeDeclId::new("Bar"));
}

#[test]
fn string_template_type_accessors() {
    let t = LuaStringTplType::new("prefix.".to_string(), 2);
    assert_eq!(t.get_prefix(), "prefix.");
    assert_eq!(t.get_usize(), 2);
}

#[test]
fn equality_of_value_types() {
    assert!(LuaType::Integer.eq(&LuaType::Integer));
    assert!(!LuaType::Integer.eq(&LuaType::Number));
    assert!(LuaType::StringConst("a".to_string()).eq(&LuaType::StringConst("a".to_string())));
    assert!(!LuaType::IntegerConst(1).eq(&LuaType::IntegerConst(2)));
    let arr1 = LuaType::Array(Arc::new(LuaType::String));
    let arr2 = LuaType::Array(Arc::new(LuaType::String));
    assert!(arr1.eq(&arr2));
    let t1 = LuaType::Tuple(Arc::new(LuaTupleType::new(vec![LuaType::Integer, LuaType::Nil])));
    let t2 = LuaType::Tuple(Arc::new(LuaTupleType::new(vec![LuaType::Integer, LuaType::Nil])));
    assert!(t1.eq(&t2));
}

#[test]
fn equality_of_floats_follows_ieee() {
    let nan = LuaType::FloatConst(LuaFloat { bits: f64::NAN.to_bits() });
    assert!(!nan.eq(&nan));
    let pz = LuaType::FloatConst(LuaFloat { bits: (0.0f64).to_bits() });
    let nz = LuaType::FloatConst(LuaFloat { bits: (-0.0f64).to_bits() });
    assert!(pz.eq(&nz));
    let one = LuaType::FloatConst(LuaFloat { bits: (1.5f64).to_bits() });
    assert!(one.eq(&LuaType::FloatConst(LuaFloat { bits: (1.5f64).to_bits() })));
}

#[test]
fn union_types_compare_by_identity() {
    let u = Arc::new(LuaUnionType::new(vec![LuaType::Integer, LuaType::String]));
    let a = LuaType::Union(u.clone());
    let b = LuaType::Union(u);
    assert!(a.eq(&b));
    let c = LuaType::Union(Arc::new(LuaUnionType::new(vec![LuaType::Integer, LuaType::String])));
    assert!(!a.eq(&c));
}

#[test]
fn type_predicates() {
    assert!(LuaType::Nil.is_nil());
    assert!(LuaType::BooleanConst(true).is_boolean());
    assert!(LuaType::IntegerConst(3).is_integer());
    assert!(LuaType::IntegerConst(3).is_number());
    assert!(LuaType::Ref(LuaTypeDeclId::new("A")).is_custom_type());
    assert!(LuaType::Function.is_function());
    assert!(LuaType::StringConst("x".to_string()).is_const());
    assert!(!LuaType::String.is_const());
    assert!(LuaType::TableConst(InFiled::new(FileId::new(1), TextRange::new(0, 4))).is_table());
}

#[test]
fn object_type_later_entry_replaces_earlier() {
    let obj = LuaObjectType::new(vec![
        (LuaIndexAccessKey::String("a".to_string()), LuaType::Integer),
        (LuaIndexAccessKey::Integer(1), LuaType::String),
        (LuaIndexAccessKey::String("a".to_string()), LuaType::Boolean),
        (LuaIndexAccessKey::Type(LuaType::String), LuaType::Number),
    ]);
    assert!(matches!(obj.get_field(&LuaMemberKey::Name("a".to_string())), Some(LuaType::Boolean)));
    assert!(matches!(obj.get_field(&LuaMemberKey::Integer(1)), Some(LuaType::String)));
    assert!(obj.get_field(&LuaMemberKey::Name("b".to_string())).is_none());
    assert_eq!(obj.get_index_access().len(), 1);
    assert_eq!(obj.get_fields().len(), 2);
}

#[test]
fn multi_return_value_types() {
    let m = LuaMultiReturn::Multi(vec![LuaType::Integer, LuaType::String]);
    assert!(matches!(m.get_type(1), Some(LuaType::String)));
    assert!(m.get_type(2).is_none());
    let b = LuaMultiReturn::Base(LuaType::Number);
    assert!(matches!(b.get_type(7), Some(LuaType::Number)));
}

#[test]
fn simple_check_passes_any_and_rejects_mismatch() {
    let no_ref = |_: &LuaType, _: &LuaType, _: &TypeCheckGuard| false;
    let guard = TypeCheckGuard::new(5);
    assert!(check_simple_type_compact(&no_ref, &LuaType::Any, &LuaType::Integer, guard).is_ok());
    assert!(check_simple_type_compact(&no_ref, &LuaType::Nil, &LuaType::Nil, guard).is_ok());
    assert!(check_simple_type_compact(&no_ref, &LuaType::Boolean, &LuaType::BooleanConst(false), guard).is_ok());
    let r = check_simple_type_compact(&no_ref, &LuaType::Thread, &LuaType::String, guard);
    assert!(matches!(r, Err(TypeCheckFailReason::TypeNotMatch)));
}

#[test]
fn guard_runs_out_of_levels() {
    let g = TypeCheckGuard::new(0);
    assert!(matches!(g.next_level(), Err(TypeCheckFailReason::TypeRecursion)));
    let g1 = TypeCheckGuard::new(2).next_level();
    assert!(matches!(g1, Ok(TypeCheckGuard { remaining: 1 })));
}

#[test]
fn member_lookups_of_builtin_types() {
    assert!(without_members(&LuaType::Nil));
    assert!(without_members(&LuaType::Table));
    assert!(!without_members(&LuaType::String));
    assert!(without_index_operator(&LuaType::Nil));
    let id = get_buildin_type_map_type_id(&LuaType::String);
    assert!(matches!(id, Some(ref i) if i.get_name() == "string"));
    assert!(get_buildin_type_map_type_id(&LuaType::Nil).is_none());
}

#[test]
fn equality_is_symmetric_on_examples() {
    let samples = vec![
        LuaType::Integer,
        LuaType::IntegerConst(4),
        LuaType::StringConst("s".to_string()),
        LuaType::Array(Arc::new(LuaType::Integer)),
        LuaType::Nullable(Arc::new(LuaType::String)),
        LuaType::Ref(LuaTypeDeclId::new("A")),
    ];
    for a in &samples {
        for b in &samples {
            assert_eq!(a.eq(b), b.eq(a));
        }
        assert!(a.eq(a));
    }
}

#[test]
fn equality_is_transitive_on_examples() {
    let a = LuaType::Array(Arc::new(LuaType::IntegerConst(1)));
    let b = LuaType::Array(Arc::new(LuaType::IntegerConst(1)));
    let c = LuaType::Array(Arc::new(LuaType::IntegerConst(1)));
    assert!(a.eq(&b) && b.eq(&c) && a.eq(&c));
}

#[test]
fn union_passes_only_when_every_member_passes() {
    let no_ref = |_: &LuaType, _: &LuaType, _: &TypeCheckGuard| false;
    let guard = TypeCheckGuard::new(5);
    let ints = LuaType::Union(Arc::new(LuaUnionType::new(vec![LuaType::Integer, LuaType::IntegerConst(3)])));
    assert!(check_simple_type_compact(&no_ref, &LuaType::Integer, &ints, guard).is_ok());
    let mixed = LuaType::Union(Arc::new(LuaUnionType::new(vec![LuaType::Integer, LuaType::String])));
    let r = check_simple_type_compact(&no_ref, &LuaType::Integer, &mixed, guard);
    assert!(matches!(r, Err(TypeCheckFailReason::TypeNotMatch)));
    let empty = LuaType::Union(Arc::new(LuaUnionType::new(vec![])));
    assert!(check_simple_type_compact(&no_ref, &LuaType::Thread, &empty, TypeCheckGuard::new(0)).is_ok());
    let r0 = check_simple_type_compact(&no_ref, &LuaType::Integer, &ints, TypeCheckGuard::new(0));
    assert!(matches!(r0, Err(TypeCheckFailReason::TypeRecursion)));
}

#[test]
fn variadic_source_checks_its_element() {
    let no_ref = |_: &LuaType, _: &LuaType, _: &TypeCheckGuard| false;
    let guard = TypeCheckGuard::new(5);
    let ints = LuaType::Variadic(Arc::new(LuaType::Integer));
    let consts = LuaType::Variadic(Arc::new(LuaType::IntegerConst(1)));
    assert!(check_simple_type_compact(&no_ref, &ints, &consts, guard).is_ok());
    assert!(check_simple_type_compact(&no_ref, &ints, &LuaType::IntegerConst(2), guard).is_ok());
    let r = check_simple_type_compact(&no_ref, &ints, &LuaType::String, guard);
    assert!(matches!(r, Err(TypeCheckFailReason::TypeNotMatch)));
    let r0 = check_simple_type_compact(&no_ref, &ints, &consts, TypeCheckGuard::new(0));
    assert!(matches!(r0, Err(TypeCheckFailReason::TypeRecursion)));
}

#[test]
fn string_template_types_compare_by_prefix_and_number() {
    let a = LuaStringTplType::new("prefix.".to_string(), 2);
    let b = LuaStringTplType::new("prefix.".to_string(), 2);
    assert!(a == b);
    assert!(a != LuaStringTplType::new("prefix.".to_string(), 3));
    assert!(a != LuaStringTplType::new("other.".to_string(), 2));
    let c = a.clone();
    assert!(c == a && c.get_prefix() == "prefix." && c.get_usize() == 2);
}

#[test]
fn multiple_returns_compare_and_clone() {
    let m = LuaMultiReturn::Multi(vec![LuaType::Integer, LuaType::String]);
    let same = LuaMultiReturn::Multi(vec![LuaType::Integer, LuaType::String]);
    assert!(m.eq(&same));
    assert!(!m.eq(&LuaMultiReturn::Multi(vec![LuaType::Integer])));
    assert!(!m.eq(&LuaMultiReturn::Base(LuaType::Integer)));
    let c = m.clone();
    assert!(c.eq(&m));
    assert!(matches!(c.get_type(1), Some(LuaType::String)));
    let b = LuaMultiReturn::Base(LuaType::Nil);
    assert!(b.clone().eq(&b));
}
