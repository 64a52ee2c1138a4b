//! The model of Lua types used by every analysis: `LuaType` and the values
//! it carries (tuples, function signatures, object shapes, unions, ...).
use std::sync::Arc;
use vstd::prelude::*;
use vstd::std_specs::cmp::PartialEqSpec;

use crate::base::{FileId, InFiled, TextRange, TextSize};
use crate::signature::LuaSignatureId;

verus! {

/// Makes another handle to the value behind an `Arc`.
///
/// Trusted: `Arc::clone` (std) returns a pointer to the same allocation, so
/// the value seen through it is the same.
#[verifier::external_body]
pub(crate) fn arc_clone<T>(a: &Arc<T>) -> (r: Arc<T>)
    ensures
        *r == **a,
{
    Arc::clone(a)
}

/// The name of a declared type (class, enum or alias).
#[derive(Debug, Hash)]
pub struct LuaTypeDeclId {
    id: String,
}

impl View for LuaTypeDeclId {
    type V = Seq<char>;

    closed spec fn view(&self) -> Seq<char> {
        self.id@
    }
}

impl LuaTypeDeclId {
    pub fn new(name: &str) -> (r: LuaTypeDeclId)
        ensures
            r@ == name@,
    {
        LuaTypeDeclId { id: String::from_str(name) }
    }

    /// Names the type by the given string, which the id takes over.
    pub fn from_string(name: String) -> (r: LuaTypeDeclId)
        ensures
            r == spec_decl_id(name),
            r@ == name@,
    {
        LuaTypeDeclId { id: name }
    }

    pub fn get_name(&self) -> (r: &str)
        ensures
            r@ == self@,
    {
        self.id.as_str()
    }
}

/// The id that names a type by the given string.
pub closed spec fn spec_decl_id(name: String) -> LuaTypeDeclId {
    LuaTypeDeclId { id: name }
}

/// The id made from a string shows that string.
pub proof fn lemma_decl_id_view(name: String)
    ensures
        spec_decl_id(name)@ == name@,
{
}

impl Clone for LuaTypeDeclId {
    fn clone(&self) -> (r: Self)
        ensures
            r == *self,
    {
        LuaTypeDeclId { id: self.id.clone() }
    }
}

impl PartialEq for LuaTypeDeclId {
    fn eq(&self, other: &Self) -> (r: bool) {
        self.id == other.id
    }
}

impl vstd::std_specs::cmp::PartialEqSpecImpl for LuaTypeDeclId {
    open spec fn obeys_eq_spec() -> bool {
        true
    }

    open spec fn eq_spec(&self, other: &Self) -> bool {
        self@ == other@
    }
}

/// The plain-value form of a member key, used in contracts.
pub enum MemberKeyView {
    NoneKey,
    Name(Seq<char>),
    Integer(i64),
}

/// The key under which a member of a table or class is found.
#[derive(Debug, Hash)]
pub enum LuaMemberKey {
    NoneKey,
    Name(String),
    Integer(i64),
}

impl View for LuaMemberKey {
    type V = MemberKeyView;

    open spec fn view(&self) -> MemberKeyView {
        match self {
            LuaMemberKey::NoneKey => MemberKeyView::NoneKey,
            LuaMemberKey::Name(s) => MemberKeyView::Name(s@),
            LuaMemberKey::Integer(i) => MemberKeyView::Integer(*i),
        }
    }
}

impl Clone for LuaMemberKey {
    fn clone(&self) -> (r: Self)
        ensures
            r == *self,
    {
        match self {
            LuaMemberKey::NoneKey => LuaMemberKey::NoneKey,
            LuaMemberKey::Name(s) => LuaMemberKey::Name(s.clone()),
            LuaMemberKey::Integer(i) => LuaMemberKey::Integer(*i),
        }
    }
}

impl PartialEq for LuaMemberKey {
    fn eq(&self, other: &Self) -> (r: bool) {
        match self {
            LuaMemberKey::NoneKey => matches!(other, LuaMemberKey::NoneKey),
            LuaMemberKey::Name(a) => match other {
                LuaMemberKey::Name(b) => *a == *b,
                _ => false,
            },
            LuaMemberKey::Integer(a) => match other {
                LuaMemberKey::Integer(b) => *a == *b,
                _ => false,
            },
        }
    }
}

impl vstd::std_specs::cmp::PartialEqSpecImpl for LuaMemberKey {
    open spec fn obeys_eq_spec() -> bool {
        true
    }

    open spec fn eq_spec(&self, other: &Self) -> bool {
        self@ == other@
    }
}

/// A float constant, kept as the bit pattern of its IEEE 754 double.
#[derive(Debug, Clone, Copy, PartialEq, Eq, Structural, Hash)]
pub struct LuaFloat {
    pub bits: u64,
}

/// The bit pattern is a NaN: all exponent bits set and a non-zero fraction.
pub open spec fn float_bits_is_nan(bits: u64) -> bool {
    &&& bits & 0x7ff0_0000_0000_0000u64 == 0x7ff0_0000_0000_0000u64
    &&& bits & 0x000f_ffff_ffff_ffffu64 != 0
}

/// The bit pattern is `+0.0` or `-0.0`.
pub open spec fn float_bits_is_zero(bits: u64) -> bool {
    bits & 0x7fff_ffff_ffff_ffffu64 == 0
}

/// IEEE 754 equality of two doubles given by their bit patterns: NaN equals
/// nothing, the two zeros are equal, all other values are equal when their
/// bits are.
pub open spec fn float_bits_eq(a: u64, b: u64) -> bool {
    !float_bits_is_nan(a) && !float_bits_is_nan(b) && (a == b || (float_bits_is_zero(a)
        && float_bits_is_zero(b)))
}

impl LuaFloat {
    /// `==` on the two doubles.
    pub fn float_eq(&self, other: &LuaFloat) -> (r: bool)
        ensures
            r == float_bits_eq(self.bits, other.bits),
    {
        let a = self.bits;
        let b = other.bits;
        let a_nan = (a & 0x7ff0_0000_0000_0000u64) == 0x7ff0_0000_0000_0000u64 && (a
            & 0x000f_ffff_ffff_ffffu64) != 0;
        let b_nan = (b & 0x7ff0_0000_0000_0000u64) == 0x7ff0_0000_0000_0000u64 && (b
            & 0x000f_ffff_ffff_ffffu64) != 0;
        let a_zero = (a & 0x7fff_ffff_ffff_ffffu64) == 0;
        let b_zero = (b & 0x7fff_ffff_ffff_ffffu64) == 0;
        !a_nan && !b_nan && (a == b || (a_zero && b_zero))
    }
}

} // verus!

verus! {

/// A Lua type as the analysis sees it.
#[derive(Debug, Hash)]
pub enum LuaType {
    Unknown,
    Any,
    Nil,
    Table,
    Userdata,
    Function,
    Thread,
    Boolean,
    String,
    Integer,
    Number,
    Io,
    SelfInfer,
    Global,
    BooleanConst(bool),
    StringConst(String),
    IntegerConst(i64),
    FloatConst(LuaFloat),
    TableConst(InFiled<TextRange>),
    DocStringConst(String),
    DocIntegerConst(i64),
    DocBooleanConst(bool),
    Ref(LuaTypeDeclId),
    Def(LuaTypeDeclId),
    Module(Arc<String>),
    Namespace(String),
    Array(Arc<LuaType>),
    KeyOf(Arc<LuaType>),
    Nullable(Arc<LuaType>),
    Variadic(Arc<LuaType>),
    Tuple(Arc<LuaTupleType>),
    DocFunction(Arc<LuaFunctionType>),
    Object(Arc<LuaObjectType>),
    Union(Arc<LuaUnionType>),
    Intersection(Arc<LuaIntersectionType>),
    Extends(Arc<LuaExtendedType>),
    Generic(Arc<LuaGenericType>),
    TableGeneric(Arc<Vec<LuaType>>),
    TplRef(usize),
    StrTplRef(Arc<LuaStringTplType>),
    MuliReturn(Arc<LuaMultiReturn>),
    ExistField(Arc<LuaExistFieldType>),
    Instance(Arc<LuaInstanceType>),
    Signature(LuaSignatureId),
}

impl Clone for LuaType {
    fn clone(&self) -> (r: Self)
        ensures
            r == *self,
    {
        match self {
            LuaType::Unknown => LuaType::Unknown,
            LuaType::Any => LuaType::Any,
            LuaType::Nil => LuaType::Nil,
            LuaType::Table => LuaType::Table,
            LuaType::Userdata => LuaType::Userdata,
            LuaType::Function => LuaType::Function,
            LuaType::Thread => LuaType::Thread,
            LuaType::Boolean => LuaType::Boolean,
            LuaType::String => LuaType::String,
            LuaType::Integer => LuaType::Integer,
            LuaType::Number => LuaType::Number,
            LuaType::Io => LuaType::Io,
            LuaType::SelfInfer => LuaType::SelfInfer,
            LuaType::Global => LuaType::Global,
            LuaType::BooleanConst(a) => LuaType::BooleanConst(*a),
            LuaType::IntegerConst(a) => LuaType::IntegerConst(*a),
            LuaType::FloatConst(a) => LuaType::FloatConst(*a),
            LuaType::TableConst(a) => LuaType::TableConst(*a),
            LuaType::DocIntegerConst(a) => LuaType::DocIntegerConst(*a),
            LuaType::DocBooleanConst(a) => LuaType::DocBooleanConst(*a),
            LuaType::TplRef(a) => LuaType::TplRef(*a),
            LuaType::Signature(a) => LuaType::Signature(*a),
            LuaType::StringConst(a) => LuaType::StringConst(a.clone()),
            LuaType::DocStringConst(a) => LuaType::DocStringConst(a.clone()),
            LuaType::Namespace(a) => LuaType::Namespace(a.clone()),
            LuaType::Ref(a) => LuaType::Ref(a.clone()),
            LuaType::Def(a) => LuaType::Def(a.clone()),
            LuaType::Module(a) => LuaType::Module(arc_clone(a)),
            LuaType::Array(a) => LuaType::Array(arc_clone(a)),
            LuaType::KeyOf(a) => LuaType::KeyOf(arc_clone(a)),
            LuaType::Nullable(a) => LuaType::Nullable(arc_clone(a)),
            LuaType::Variadic(a) => LuaType::Variadic(arc_clone(a)),
            LuaType::Tuple(a) => LuaType::Tuple(arc_clone(a)),
            LuaType::DocFunction(a) => LuaType::DocFunction(arc_clone(a)),
            LuaType::Object(a) => LuaType::Object(arc_clone(a)),
            LuaType::Union(a) => LuaType::Union(arc_clone(a)),
            LuaType::Intersection(a) => LuaType::Intersection(arc_clone(a)),
            LuaType::Extends(a) => LuaType::Extends(arc_clone(a)),
            LuaType::Generic(a) => LuaType::Generic(arc_clone(a)),
            LuaType::TableGeneric(a) => LuaType::TableGeneric(arc_clone(a)),
            LuaType::StrTplRef(a) => LuaType::StrTplRef(arc_clone(a)),
            LuaType::MuliReturn(a) => LuaType::MuliReturn(arc_clone(a)),
            LuaType::ExistField(a) => LuaType::ExistField(arc_clone(a)),
            LuaType::Instance(a) => LuaType::Instance(arc_clone(a)),
        }
    }
}

} // verus!

verus! {

/// A fixed-length list of element types, `[integer, string]`.
#[derive(Debug, Hash)]
pub struct LuaTupleType {
    pub types: Vec<LuaType>,
}

impl LuaTupleType {
    pub fn new(types: Vec<LuaType>) -> (r: LuaTupleType)
        ensures
            r.types@ == types@,
    {
        LuaTupleType { types }
    }

    pub fn get_types(&self) -> (r: &[LuaType])
        ensures
            r@ == self.types@,
    {
        self.types.as_slice()
    }

    pub fn get_type(&self, idx: usize) -> (r: Option<&LuaType>)
        ensures
            idx < self.types@.len() ==> r == Some(&self.types@[idx as int]),
            idx >= self.types@.len() ==> r is None,
    {
        if idx < self.types.len() {
            Some(&self.types[idx])
        } else {
            None
        }
    }
}

/// A function type written in a doc comment: `fun(a: integer): string`.
#[derive(Debug, Hash)]
pub struct LuaFunctionType {
    pub is_async: bool,
    pub params: Vec<(String, Option<LuaType>)>,
    pub ret: Vec<LuaType>,
}

impl LuaFunctionType {
    pub fn new(is_async: bool, params: Vec<(String, Option<LuaType>)>, ret: Vec<LuaType>) -> (r:
        LuaFunctionType)
        ensures
            r.is_async == is_async,
            r.params@ == params@,
            r.ret@ == ret@,
    {
        LuaFunctionType { is_async, params, ret }
    }

    pub fn is_async(&self) -> (r: bool)
        ensures
            r == self.is_async,
    {
        self.is_async
    }

    pub fn get_params(&self) -> (r: &[(String, Option<LuaType>)])
        ensures
            r@ == self.params@,
    {
        self.params.as_slice()
    }

    pub fn get_ret(&self) -> (r: &[LuaType])
        ensures
            r@ == self.ret@,
    {
        self.ret.as_slice()
    }
}

/// The key of an entry of a table type literal.
#[derive(Debug, Hash)]
pub enum LuaIndexAccessKey {
    Integer(i64),
    String(String),
    Type(LuaType),
}

/// No two entries of `fields` have the same key.
pub open spec fn keys_distinct(fields: Seq<(LuaMemberKey, LuaType)>) -> bool {
    forall|i: int, j: int|
        0 <= i < fields.len() && 0 <= j < fields.len() && i != j ==> fields[i].0@ != fields[j].0@
}

/// The fields of an object type as a map from key to value type.
pub open spec fn fields_map(fields: Seq<(LuaMemberKey, LuaType)>) -> Map<MemberKeyView, LuaType>
    decreases fields.len(),
{
    if fields.len() == 0 {
        Map::empty()
    } else {
        fields_map(fields.drop_last()).insert(fields.last().0@, fields.last().1)
    }
}

/// Entry `j` of `fields` is in the map, with its value.
pub proof fn lemma_fields_map_entry(fields: Seq<(LuaMemberKey, LuaType)>, j: int)
    requires
        keys_distinct(fields),
        0 <= j < fields.len(),
    ensures
        fields_map(fields).dom().contains(fields[j].0@),
        fields_map(fields)[fields[j].0@] == fields[j].1,
    decreases fields.len(),
{
    if j < fields.len() - 1 {
        lemma_fields_map_entry(fields.drop_last(), j);
    }
}

/// A key that no entry has is not in the map.
pub proof fn lemma_fields_map_absent(fields: Seq<(LuaMemberKey, LuaType)>, k: MemberKeyView)
    requires
        forall|j: int| 0 <= j < fields.len() ==> fields[j].0@ != k,
    ensures
        !fields_map(fields).dom().contains(k),
    decreases fields.len(),
{
    if fields.len() > 0 {
        lemma_fields_map_absent(fields.drop_last(), k);
    }
}

/// Replacing the value of entry `i` replaces the value under its key.
proof fn lemma_fields_map_set(
    fields: Seq<(LuaMemberKey, LuaType)>,
    i: int,
    entry: (LuaMemberKey, LuaType),
)
    requires
        keys_distinct(fields),
        0 <= i < fields.len(),
        entry.0@ == fields[i].0@,
    ensures
        keys_distinct(fields.update(i, entry)),
        fields_map(fields.update(i, entry)) == fields_map(fields).insert(entry.0@, entry.1),
    decreases fields.len(),
{
    let u = fields.update(i, entry);
    if i == fields.len() - 1 {
        assert(u.drop_last() =~= fields.drop_last());
        assert(fields_map(u) =~= fields_map(fields).insert(entry.0@, entry.1));
    } else {
        assert(u.drop_last() =~= fields.drop_last().update(i, entry));
        lemma_fields_map_set(fields.drop_last(), i, entry);
        assert(fields_map(u) =~= fields_map(fields).insert(entry.0@, entry.1));
    }
}

/// The fields that a table type literal with these entries has: integer
/// and string keys, a later entry for a key replacing an earlier one.
pub open spec fn object_fields_map(entries: Seq<(LuaIndexAccessKey, LuaType)>) -> Map<
    MemberKeyView,
    LuaType,
>
    decreases entries.len(),
{
    if entries.len() == 0 {
        Map::empty()
    } else {
        let before = object_fields_map(entries.drop_last());
        match entries.last().0 {
            LuaIndexAccessKey::Integer(i) => before.insert(MemberKeyView::Integer(i), entries.last().1),
            LuaIndexAccessKey::String(s) => before.insert(MemberKeyView::Name(s@), entries.last().1),
            LuaIndexAccessKey::Type(_) => before,
        }
    }
}

/// The `[K]: V` entries among these entries, in order.
pub open spec fn object_index_access(entries: Seq<(LuaIndexAccessKey, LuaType)>) -> Seq<
    (LuaType, LuaType),
>
    decreases entries.len(),
{
    if entries.len() == 0 {
        Seq::empty()
    } else {
        let before = object_index_access(entries.drop_last());
        match entries.last().0 {
            LuaIndexAccessKey::Type(t) => before.push((t, entries.last().1)),
            _ => before,
        }
    }
}

/// A table type literal: `{ x: integer, [string]: boolean }`.
///
/// The fields are an association list with no key twice (the type's
/// invariant) rather than a hash map: a member key may be a name, and a hash
/// map keyed by names lets the verifier prove nothing about lookups. The list
/// also keeps the fields in a fixed order.
#[derive(Debug, Hash)]
pub struct LuaObjectType {
    fields: Vec<(LuaMemberKey, LuaType)>,
    index_access: Vec<(LuaType, LuaType)>,
}

impl LuaObjectType {
    #[verifier::type_invariant]
    spec fn well_formed(self) -> bool {
        keys_distinct(self.fields@)
    }

    /// The named and integer-keyed fields.
    pub closed spec fn spec_fields(self) -> Seq<(LuaMemberKey, LuaType)> {
        self.fields@
    }

    /// The `[K]: V` entries, in their order.
    pub closed spec fn spec_index_access(self) -> Seq<(LuaType, LuaType)> {
        self.index_access@
    }

    /// Puts `value` under `key`: it replaces the value of the entry with that
    /// key, or is added at the end.
    fn insert_field(fields: &mut Vec<(LuaMemberKey, LuaType)>, key: LuaMemberKey, value: LuaType)
        requires
            keys_distinct(old(fields)@),
        ensures
            keys_distinct(final(fields)@),
            fields_map(final(fields)@) == fields_map(old(fields)@).insert(key@, value),
    {
        let mut i: usize = 0;
        while i < fields.len()
            invariant
                0 <= i <= fields@.len(),
                fields@ == old(fields)@,
                keys_distinct(fields@),
                forall|j: int| 0 <= j < i ==> fields@[j].0@ != key@,
            decreases fields@.len() - i,
        {
            if fields[i].0 == key {
                let ghost before = fields@;
                fields.set(i, (key, value));
                proof {
                    lemma_fields_map_set(before, i as int, (key, value));
                    assert(fields@ == before.update(i as int, (key, value)));
                }
                return;
            }
            i = i + 1;
        }
        let ghost before = fields@;
        fields.push((key, value));
        proof {
            assert(fields@.drop_last() =~= before);
        }
    }

    /// Collects the entries of a table type literal: integer and string keys
    /// become fields (a later entry for a key replaces an earlier one), type
    /// keys become index access entries.
    pub fn new(object_fields: Vec<(LuaIndexAccessKey, LuaType)>) -> (r: LuaObjectType)
        ensures
            fields_map(r.spec_fields()) == object_fields_map(object_fields@),
            r.spec_index_access() == object_index_access(object_fields@),
    {
        let mut fields: Vec<(LuaMemberKey, LuaType)> = Vec::new();
        let mut index_access: Vec<(LuaType, LuaType)> = Vec::new();
        let mut i: usize = 0;
        while i < object_fields.len()
            invariant
                0 <= i <= object_fields@.len(),
                keys_distinct(fields@),
                fields_map(fields@) == object_fields_map(object_fields@.take(i as int)),
                index_access@ == object_index_access(object_fields@.take(i as int)),
            decreases object_fields@.len() - i,
        {
            proof {
                assert(object_fields@.take(i + 1).drop_last() =~= object_fields@.take(i as int));
            }
            let value = object_fields[i].1.clone();
            match &object_fields[i].0 {
                LuaIndexAccessKey::Integer(n) => {
                    LuaObjectType::insert_field(&mut fields, LuaMemberKey::Integer(*n), value);
                },
                LuaIndexAccessKey::String(s) => {
                    LuaObjectType::insert_field(&mut fields, LuaMemberKey::Name(s.clone()), value);
                },
                LuaIndexAccessKey::Type(t) => {
                    index_access.push((t.clone(), value));
                },
            }
            i = i + 1;
        }
        proof {
            assert(object_fields@.take(i as int) =~= object_fields@);
        }
        LuaObjectType { fields, index_access }
    }

    /// Builds an object type from fields whose keys are distinct.
    pub fn new_with_fields(
        fields: Vec<(LuaMemberKey, LuaType)>,
        index_access: Vec<(LuaType, LuaType)>,
    ) -> (r: LuaObjectType)
        requires
            keys_distinct(fields@),
        ensures
            r.spec_fields() == fields@,
            r.spec_index_access() == index_access@,
    {
        LuaObjectType { fields, index_access }
    }

    pub fn get_fields(&self) -> (r: &Vec<(LuaMemberKey, LuaType)>)
        ensures
            r@ == self.spec_fields(),
            keys_distinct(r@),
    {
        proof {
            use_type_invariant(self);
        }
        &self.fields
    }

    pub fn get_index_access(&self) -> (r: &[(LuaType, LuaType)])
        ensures
            r@ == self.spec_index_access(),
    {
        self.index_access.as_slice()
    }

    /// The type of the field under `key`, if there is one.
    pub fn get_field(&self, key: &LuaMemberKey) -> (r: Option<&LuaType>)
        ensures
            fields_map(self.spec_fields()).dom().contains(key@) ==> r == Some(
                &fields_map(self.spec_fields())[key@],
            ),
            !fields_map(self.spec_fields()).dom().contains(key@) ==> r is None,
    {
        proof {
            use_type_invariant(self);
        }
        let mut i: usize = 0;
        while i < self.fields.len()
            invariant
                0 <= i <= self.fields@.len(),
                keys_distinct(self.fields@),
                forall|j: int| 0 <= j < i ==> self.fields@[j].0@ != key@,
            decreases self.fields@.len() - i,
        {
            if self.fields[i].0 == *key {
                proof {
                    lemma_fields_map_entry(self.fields@, i as int);
                }
                return Some(&self.fields[i].1);
            }
            i = i + 1;
        }
        proof {
            lemma_fields_map_absent(self.fields@, key@);
        }
        None
    }
}

/// A union of types: `integer | string`.
#[derive(Debug, Hash)]
pub struct LuaUnionType {
    pub types: Vec<LuaType>,
}

impl LuaUnionType {
    pub fn new(types: Vec<LuaType>) -> (r: LuaUnionType)
        ensures
            r.types@ == types@,
    {
        LuaUnionType { types }
    }

    pub fn get_types(&self) -> (r: &[LuaType])
        ensures
            r@ == self.types@,
    {
        self.types.as_slice()
    }

    pub(crate) fn into_types(&self) -> (r: Vec<LuaType>)
        ensures
            r@ == self.types@,
    {
        clone_types(&self.types)
    }
}

/// An intersection of types: `A & B`.
#[derive(Debug, Hash)]
pub struct LuaIntersectionType {
    pub types: Vec<LuaType>,
}

impl LuaIntersectionType {
    pub fn new(types: Vec<LuaType>) -> (r: LuaIntersectionType)
        ensures
            r.types@ == types@,
    {
        LuaIntersectionType { types }
    }

    pub fn get_types(&self) -> (r: &[LuaType])
        ensures
            r@ == self.types@,
    {
        self.types.as_slice()
    }

    pub(crate) fn into_types(&self) -> (r: Vec<LuaType>)
        ensures
            r@ == self.types@,
    {
        clone_types(&self.types)
    }
}

/// A copy of a list of types.
pub fn clone_types(types: &Vec<LuaType>) -> (r: Vec<LuaType>)
    ensures
        r@ == types@,
{
    let mut r: Vec<LuaType> = Vec::new();
    let mut i: usize = 0;
    while i < types.len()
        invariant
            0 <= i <= types@.len(),
            r@ == types@.take(i as int),
        decreases types@.len() - i,
    {
        r.push(types[i].clone());
        proof {
            assert(r@ =~= types@.take(i + 1));
        }
        i = i + 1;
    }
    proof {
        assert(types@.take(i as int) =~= types@);
    }
    r
}

/// A type extending another: `base` with `ext`.
#[derive(Debug, Hash)]
pub struct LuaExtendedType {
    pub base: LuaType,
    pub ext: LuaType,
}

impl LuaExtendedType {
    pub fn new(base: LuaType, ext: LuaType) -> (r: LuaExtendedType)
        ensures
            r.base == base,
            r.ext == ext,
    {
        LuaExtendedType { base, ext }
    }

    pub fn get_base(&self) -> (r: &LuaType)
        ensures
            *r == self.base,
    {
        &self.base
    }

    pub fn get_ext(&self) -> (r: &LuaType)
        ensures
            *r == self.ext,
    {
        &self.ext
    }
}

/// A generic class applied to arguments: `List<integer>`.
#[derive(Debug, Hash)]
pub struct LuaGenericType {
    pub base: LuaTypeDeclId,
    pub params: Vec<LuaType>,
}

impl LuaGenericType {
    pub fn new(base: LuaTypeDeclId, params: Vec<LuaType>) -> (r: LuaGenericType)
        ensures
            r.base == base,
            r.params@ == params@,
    {
        LuaGenericType { base, params }
    }

    /// The generic class itself, as a reference to its declaration.
    pub fn get_base_type(&self) -> (r: LuaType)
        ensures
            r == LuaType::Ref(self.base),
    {
        LuaType::Ref(self.base.clone())
    }

    pub fn get_params(&self) -> (r: &Vec<LuaType>)
        ensures
            r@ == self.params@,
    {
        &self.params
    }
}

/// A string template parameter: `` `prefix`T `` refers to template `usize`.
#[derive(Debug, Hash)]
pub struct LuaStringTplType {
    pub prefix: String,
    pub usize: usize,
}

impl LuaStringTplType {
    pub fn new(prefix: String, usize: usize) -> (r: LuaStringTplType)
        ensures
            r.prefix@ == prefix@,
            r.usize == usize,
    {
        LuaStringTplType { prefix, usize }
    }

    pub fn get_prefix(&self) -> (r: &str)
        ensures
            r@ == self.prefix@,
    {
        self.prefix.as_str()
    }

    pub fn get_usize(&self) -> (r: usize)
        ensures
            r == self.usize,
    {
        self.usize
    }
}

impl Clone for LuaStringTplType {
    fn clone(&self) -> (r: Self)
        ensures
            r == *self,
    {
        LuaStringTplType { prefix: self.prefix.clone(), usize: self.usize }
    }
}

impl PartialEq for LuaStringTplType {
    fn eq(&self, other: &Self) -> (r: bool) {
        self.prefix == other.prefix && self.usize == other.usize
    }
}

impl vstd::std_specs::cmp::PartialEqSpecImpl for LuaStringTplType {
    open spec fn obeys_eq_spec() -> bool {
        true
    }

    open spec fn eq_spec(&self, other: &Self) -> bool {
        self.prefix@ == other.prefix@ && self.usize == other.usize
    }
}

impl Eq for LuaStringTplType {
}

/// The values of a call: several types, or one type that repeats.
#[derive(Debug, Hash)]
pub enum LuaMultiReturn {
    Multi(Vec<LuaType>),
    Base(LuaType),
}

impl LuaMultiReturn {
    /// The type of value `idx`: the `idx`-th of several, or the repeated one.
    pub fn get_type(&self, idx: usize) -> (r: Option<&LuaType>)
        ensures
            r matches Some(t) ==> multi_return_get(*self, idx as int) == Some(*t),
            r is None ==> multi_return_get(*self, idx as int) is None,
    {
        match self {
            LuaMultiReturn::Multi(types) => {
                if idx < types.len() {
                    Some(&types[idx])
                } else {
                    None
                }
            },
            LuaMultiReturn::Base(t) => Some(t),
        }
    }
}

impl Clone for LuaMultiReturn {
    fn clone(&self) -> (r: Self)
        ensures
            match (r, *self) {
                (LuaMultiReturn::Multi(x), LuaMultiReturn::Multi(y)) => x@ == y@,
                (LuaMultiReturn::Base(x), LuaMultiReturn::Base(y)) => x == y,
                _ => false,
            },
    {
        match self {
            LuaMultiReturn::Multi(types) => LuaMultiReturn::Multi(clone_types(types)),
            LuaMultiReturn::Base(t) => LuaMultiReturn::Base(t.clone()),
        }
    }
}

impl LuaMultiReturn {
    /// Equality of multiple returns: the same variant with equal types. Types
    /// held in shared allocations compare equal when they share one, so the
    /// result is bounded from both sides.
    pub fn eq(&self, other: &LuaMultiReturn) -> (r: bool)
        ensures
            multi_return_eq_lower(*self, *other) ==> r,
            r ==> multi_return_eq_upper(*self, *other),
    {
        match (self, other) {
            (LuaMultiReturn::Multi(x), LuaMultiReturn::Multi(y)) => types_eq(x, y),
            (LuaMultiReturn::Base(x), LuaMultiReturn::Base(y)) => x.eq(y),
            _ => false,
        }
    }
}

/// The type of value `idx` of a multiple return, if it has one.
pub open spec fn multi_return_get(m: LuaMultiReturn, idx: int) -> Option<LuaType> {
    match m {
        LuaMultiReturn::Multi(types) => if 0 <= idx < types@.len() {
            Some(types@[idx])
        } else {
            None
        },
        LuaMultiReturn::Base(t) => Some(t),
    }
}

/// A type narrowed by the presence of a field: `origin` known to have `field`.
#[derive(Debug, Hash)]
pub struct LuaExistFieldType {
    pub field: LuaMemberKey,
    pub origin: LuaType,
}

impl LuaExistFieldType {
    pub fn new(field: LuaMemberKey, origin: LuaType) -> (r: LuaExistFieldType)
        ensures
            r.field == field,
            r.origin == origin,
    {
        LuaExistFieldType { field, origin }
    }

    pub fn get_field(&self) -> (r: &LuaMemberKey)
        ensures
            *r == self.field,
    {
        &self.field
    }

    pub fn get_origin(&self) -> (r: &LuaType)
        ensures
            *r == self.origin,
    {
        &self.origin
    }
}

/// A particular value of a type, such as one table constructor.
#[derive(Debug, Hash)]
pub struct LuaInstanceType {
    pub base: LuaType,
}

impl LuaInstanceType {
    pub fn new(base: LuaType) -> (r: LuaInstanceType)
        ensures
            r.base == base,
    {
        LuaInstanceType { base }
    }

    pub fn get_base(&self) -> (r: &LuaType)
        ensures
            *r == self.base,
    {
        &self.base
    }
}

} // verus!

verus! {

impl LuaType {
    pub fn is_unknown(&self) -> (r: bool)
        ensures
            r == (self is Unknown),
    {
        matches!(self, LuaType::Unknown)
    }

    pub fn is_nil(&self) -> (r: bool)
        ensures
            r == (self is Nil),
    {
        matches!(self, LuaType::Nil)
    }

    pub fn is_table(&self) -> (r: bool)
        ensures
            r == (self is Table || self is TableGeneric || self is TableConst),
    {
        matches!(self, LuaType::Table | LuaType::TableGeneric(_) | LuaType::TableConst(_))
    }

    pub fn is_userdata(&self) -> (r: bool)
        ensures
            r == (self is Userdata),
    {
        matches!(self, LuaType::Userdata)
    }

    pub fn is_thread(&self) -> (r: bool)
        ensures
            r == (self is Thread),
    {
        matches!(self, LuaType::Thread)
    }

    pub fn is_boolean(&self) -> (r: bool)
        ensures
            r == (self is BooleanConst || self is Boolean),
    {
        matches!(self, LuaType::BooleanConst(_) | LuaType::Boolean)
    }

    pub fn is_string(&self) -> (r: bool)
        ensures
            r == (self is StringConst || self is String),
    {
        matches!(self, LuaType::StringConst(_) | LuaType::String)
    }

    pub fn is_integer(&self) -> (r: bool)
        ensures
            r == (self is IntegerConst || self is Integer),
    {
        matches!(self, LuaType::IntegerConst(_) | LuaType::Integer)
    }

    pub fn is_number(&self) -> (r: bool)
        ensures
            r == (self is Number || self is Integer || self is IntegerConst || self is FloatConst),
    {
        matches!(self, LuaType::Number | LuaType::Integer | LuaType::IntegerConst(_) | LuaType::FloatConst(_))
    }

    pub fn is_io(&self) -> (r: bool)
        ensures
            r == (self is Io),
    {
        matches!(self, LuaType::Io)
    }

    pub fn is_ref(&self) -> (r: bool)
        ensures
            r == (self is Ref),
    {
        matches!(self, LuaType::Ref(_))
    }

    pub fn is_def(&self) -> (r: bool)
        ensures
            r == (self is Def),
    {
        matches!(self, LuaType::Def(_))
    }

    pub fn is_custom_type(&self) -> (r: bool)
        ensures
            r == (self is Ref || self is Def),
    {
        matches!(self, LuaType::Ref(_) | LuaType::Def(_))
    }

    pub fn is_array(&self) -> (r: bool)
        ensures
            r == (self is Array),
    {
        matches!(self, LuaType::Array(_))
    }

    pub fn is_key_of(&self) -> (r: bool)
        ensures
            r == (self is KeyOf),
    {
        matches!(self, LuaType::KeyOf(_))
    }

    pub fn is_nullable(&self) -> (r: bool)
        ensures
            r == (self is Nullable),
    {
        matches!(self, LuaType::Nullable(_))
    }

    pub fn is_tuple(&self) -> (r: bool)
        ensures
            r == (self is Tuple),
    {
        matches!(self, LuaType::Tuple(_))
    }

    pub fn is_function(&self) -> (r: bool)
        ensures
            r == (self is DocFunction || self is Function),
    {
        matches!(self, LuaType::DocFunction(_) | LuaType::Function)
    }

    pub fn is_object(&self) -> (r: bool)
        ensures
            r == (self is Object),
    {
        matches!(self, LuaType::Object(_))
    }

    pub fn is_union(&self) -> (r: bool)
        ensures
            r == (self is Union),
    {
        matches!(self, LuaType::Union(_))
    }

    pub fn is_intersection(&self) -> (r: bool)
        ensures
            r == (self is Intersection),
    {
        matches!(self, LuaType::Intersection(_))
    }

    pub fn is_extends(&self) -> (r: bool)
        ensures
            r == (self is Extends),
    {
        matches!(self, LuaType::Extends(_))
    }

    pub fn is_generic(&self) -> (r: bool)
        ensures
            r == (self is Generic || self is TableGeneric),
    {
        matches!(self, LuaType::Generic(_) | LuaType::TableGeneric(_))
    }

    pub fn is_table_generic(&self) -> (r: bool)
        ensures
            r == (self is TableGeneric),
    {
        matches!(self, LuaType::TableGeneric(_))
    }

    pub fn is_tpl_ref(&self) -> (r: bool)
        ensures
            r == (self is TplRef),
    {
        matches!(self, LuaType::TplRef(_))
    }

    pub fn is_str_tpl_ref(&self) -> (r: bool)
        ensures
            r == (self is StrTplRef),
    {
        matches!(self, LuaType::StrTplRef(_))
    }

    pub fn is_self_infer(&self) -> (r: bool)
        ensures
            r == (self is SelfInfer),
    {
        matches!(self, LuaType::SelfInfer)
    }

    pub fn is_any(&self) -> (r: bool)
        ensures
            r == (self is Any),
    {
        matches!(self, LuaType::Any)
    }

    pub fn is_const(&self) -> (r: bool)
        ensures
            r == (self is BooleanConst || self is StringConst || self is IntegerConst || self is FloatConst || self is TableConst),
    {
        matches!(self, LuaType::BooleanConst(_) | LuaType::StringConst(_) | LuaType::IntegerConst(_) | LuaType::FloatConst(_) | LuaType::TableConst(_))
    }

    pub fn is_module(&self) -> (r: bool)
        ensures
            r == (self is Module),
    {
        matches!(self, LuaType::Module(_))
    }

    pub fn is_multi_return(&self) -> (r: bool)
        ensures
            r == (self is MuliReturn),
    {
        matches!(self, LuaType::MuliReturn(_))
    }

    pub fn is_exist_field(&self) -> (r: bool)
        ensures
            r == (self is ExistField),
    {
        matches!(self, LuaType::ExistField(_))
    }
}

} // verus!

verus! {

/// What `eq` returns at least: `true` for types equal as values when no
/// comparison by identity is needed.
pub open spec fn type_eq_lower(a: LuaType, b: LuaType) -> bool
    decreases a,
{
    match (a, b) {
        (LuaType::Unknown, LuaType::Unknown) => true,
        (LuaType::Any, LuaType::Any) => true,
        (LuaType::Nil, LuaType::Nil) => true,
        (LuaType::Table, LuaType::Table) => true,
        (LuaType::Userdata, LuaType::Userdata) => true,
        (LuaType::Function, LuaType::Function) => true,
        (LuaType::Thread, LuaType::Thread) => true,
        (LuaType::Boolean, LuaType::Boolean) => true,
        (LuaType::String, LuaType::String) => true,
        (LuaType::Integer, LuaType::Integer) => true,
        (LuaType::Number, LuaType::Number) => true,
        (LuaType::Io, LuaType::Io) => true,
        (LuaType::SelfInfer, LuaType::SelfInfer) => true,
        (LuaType::Global, LuaType::Global) => true,
        (LuaType::BooleanConst(x), LuaType::BooleanConst(y)) => x == y,
        (LuaType::StringConst(x), LuaType::StringConst(y)) => x@ == y@,
        (LuaType::IntegerConst(x), LuaType::IntegerConst(y)) => x == y,
        (LuaType::FloatConst(x), LuaType::FloatConst(y)) => float_bits_eq(x.bits, y.bits),
        (LuaType::TableConst(x), LuaType::TableConst(y)) => x == y,
        (LuaType::DocStringConst(x), LuaType::DocStringConst(y)) => x@ == y@,
        (LuaType::DocIntegerConst(x), LuaType::DocIntegerConst(y)) => x == y,
        (LuaType::DocBooleanConst(x), LuaType::DocBooleanConst(y)) => x == y,
        (LuaType::Ref(x), LuaType::Ref(y)) => x@ == y@,
        (LuaType::Def(x), LuaType::Def(y)) => x@ == y@,
        (LuaType::Module(x), LuaType::Module(y)) => (*x)@ == (*y)@,
        (LuaType::Namespace(x), LuaType::Namespace(y)) => x@ == y@,
        (LuaType::Array(x), LuaType::Array(y)) => type_eq_lower(*x, *y),
        (LuaType::KeyOf(x), LuaType::KeyOf(y)) => type_eq_lower(*x, *y),
        (LuaType::Nullable(x), LuaType::Nullable(y)) => type_eq_lower(*x, *y),
        (LuaType::Variadic(x), LuaType::Variadic(y)) => type_eq_lower(*x, *y),
        (LuaType::Tuple(x), LuaType::Tuple(y)) => types_eq_lower(x.types@, y.types@),
        (LuaType::DocFunction(x), LuaType::DocFunction(y)) => x.is_async == y.is_async && params_eq_lower(x.params@, y.params@) && types_eq_lower(x.ret@, y.ret@),
        (LuaType::Object(x), LuaType::Object(y)) => false,
        (LuaType::Union(x), LuaType::Union(y)) => false,
        (LuaType::Intersection(x), LuaType::Intersection(y)) => false,
        (LuaType::Extends(x), LuaType::Extends(y)) => false,
        (LuaType::Generic(x), LuaType::Generic(y)) => false,
        (LuaType::TableGeneric(x), LuaType::TableGeneric(y)) => types_eq_lower((*x)@, (*y)@),
        (LuaType::TplRef(x), LuaType::TplRef(y)) => x == y,
        (LuaType::StrTplRef(x), LuaType::StrTplRef(y)) => false,
        (LuaType::MuliReturn(x), LuaType::MuliReturn(y)) => false,
        (LuaType::ExistField(x), LuaType::ExistField(y)) => x.field@ == y.field@ && type_eq_lower(x.origin, y.origin),
        (LuaType::Instance(x), LuaType::Instance(y)) => type_eq_lower(x.base, y.base),
        (LuaType::Signature(x), LuaType::Signature(y)) => x == y,
        _ => false,
    }
}

pub open spec fn types_eq_lower(a: Seq<LuaType>, b: Seq<LuaType>) -> bool
    decreases a,
{
    a.len() == b.len() && (a.len() == 0 || (types_eq_lower(a.drop_last(), b.drop_last())
        && type_eq_lower(a.last(), b.last())))
}

pub open spec fn params_eq_lower(a: Seq<(String, Option<LuaType>)>, b: Seq<(String, Option<LuaType>)>) -> bool
    decreases a,
{
    a.len() == b.len() && (a.len() == 0 || (params_eq_lower(a.drop_last(), b.drop_last())
        && param_eq_lower(a.last(), b.last())))
}

pub open spec fn param_eq_lower(a: (String, Option<LuaType>), b: (String, Option<LuaType>)) -> bool
    decreases a,
{
    a.0@ == b.0@ && match (a.1, b.1) {
        (Some(x), Some(y)) => type_eq_lower(x, y),
        (None, None) => true,
        _ => false,
    }
}

/// What `eq` returns at most: values compared by identity (objects, unions
/// and the like) can only be equal when they are the same value.
pub open spec fn type_eq_upper(a: LuaType, b: LuaType) -> bool
    decreases a,
{
    match (a, b) {
        (LuaType::Unknown, LuaType::Unknown) => true,
        (LuaType::Any, LuaType::Any) => true,
        (LuaType::Nil, LuaType::Nil) => true,
        (LuaType::Table, LuaType::Table) => true,
        (LuaType::Userdata, LuaType::Userdata) => true,
        (LuaType::Function, LuaType::Function) => true,
        (LuaType::Thread, LuaType::Thread) => true,
        (LuaType::Boolean, LuaType::Boolean) => true,
        (LuaType::String, LuaType::String) => true,
        (LuaType::Integer, LuaType::Integer) => true,
        (LuaType::Number, LuaType::Number) => true,
        (LuaType::Io, LuaType::Io) => true,
        (LuaType::SelfInfer, LuaType::SelfInfer) => true,
        (LuaType::Global, LuaType::Global) => true,
        (LuaType::BooleanConst(x), LuaType::BooleanConst(y)) => x == y,
        (LuaType::StringConst(x), LuaType::StringConst(y)) => x@ == y@,
        (LuaType::IntegerConst(x), LuaType::IntegerConst(y)) => x == y,
        (LuaType::FloatConst(x), LuaType::FloatConst(y)) => float_bits_eq(x.bits, y.bits),
        (LuaType::TableConst(x), LuaType::TableConst(y)) => x == y,
        (LuaType::DocStringConst(x), LuaType::DocStringConst(y)) => x@ == y@,
        (LuaType::DocIntegerConst(x), LuaType::DocIntegerConst(y)) => x == y,
        (LuaType::DocBooleanConst(x), LuaType::DocBooleanConst(y)) => x == y,
        (LuaType::Ref(x), LuaType::Ref(y)) => x@ == y@,
        (LuaType::Def(x), LuaType::Def(y)) => x@ == y@,
        (LuaType::Module(x), LuaType::Module(y)) => (*x)@ == (*y)@,
        (LuaType::Namespace(x), LuaType::Namespace(y)) => x@ == y@,
        (LuaType::Array(x), LuaType::Array(y)) => (*x == *y || type_eq_upper(*x, *y)),
        (LuaType::KeyOf(x), LuaType::KeyOf(y)) => (*x == *y || type_eq_upper(*x, *y)),
        (LuaType::Nullable(x), LuaType::Nullable(y)) => (*x == *y || type_eq_upper(*x, *y)),
        (LuaType::Variadic(x), LuaType::Variadic(y)) => (*x == *y || type_eq_upper(*x, *y)),
        (LuaType::Tuple(x), LuaType::Tuple(y)) => (*x == *y || types_eq_upper(x.types@, y.types@)),
        (LuaType::DocFunction(x), LuaType::DocFunction(y)) => (*x == *y || x.is_async == y.is_async && params_eq_upper(x.params@, y.params@) && types_eq_upper(x.ret@, y.ret@)),
        (LuaType::Object(x), LuaType::Object(y)) => *x == *y,
        (LuaType::Union(x), LuaType::Union(y)) => *x == *y,
        (LuaType::Intersection(x), LuaType::Intersection(y)) => *x == *y,
        (LuaType::Extends(x), LuaType::Extends(y)) => *x == *y,
        (LuaType::Generic(x), LuaType::Generic(y)) => *x == *y,
        (LuaType::TableGeneric(x), LuaType::TableGeneric(y)) => (*x == *y || types_eq_upper((*x)@, (*y)@)),
        (LuaType::TplRef(x), LuaType::TplRef(y)) => x == y,
        (LuaType::StrTplRef(x), LuaType::StrTplRef(y)) => *x == *y,
        (LuaType::MuliReturn(x), LuaType::MuliReturn(y)) => *x == *y,
        (LuaType::ExistField(x), LuaType::ExistField(y)) => (*x == *y || x.field@ == y.field@ && type_eq_upper(x.origin, y.origin)),
        (LuaType::Instance(x), LuaType::Instance(y)) => (*x == *y || type_eq_upper(x.base, y.base)),
        (LuaType::Signature(x), LuaType::Signature(y)) => x == y,
        _ => false,
    }
}

pub open spec fn types_eq_upper(a: Seq<LuaType>, b: Seq<LuaType>) -> bool
    decreases a,
{
    a.len() == b.len() && (a.len() == 0 || (types_eq_upper(a.drop_last(), b.drop_last())
        && type_eq_upper(a.last(), b.last())))
}

pub open spec fn params_eq_upper(a: Seq<(String, Option<LuaType>)>, b: Seq<(String, Option<LuaType>)>) -> bool
    decreases a,
{
    a.len() == b.len() && (a.len() == 0 || (params_eq_upper(a.drop_last(), b.drop_last())
        && param_eq_upper(a.last(), b.last())))
}

pub open spec fn param_eq_upper(a: (String, Option<LuaType>), b: (String, Option<LuaType>)) -> bool
    decreases a,
{
    a.0@ == b.0@ && match (a.1, b.1) {
        (Some(x), Some(y)) => type_eq_upper(x, y),
        (None, None) => true,
        _ => false,
    }
}

} // verus!

verus! {

/// Whether two `Arc`s point to the same allocation.
///
/// Trusted: `Arc::ptr_eq` (std) is `true` only for two pointers to one
/// allocation, which then hold the same value; nothing is stated when it is
/// `false`.
#[verifier::external_body]
fn arc_ptr_eq<T>(a: &Arc<T>, b: &Arc<T>) -> (r: bool)
    ensures
        r ==> **a == **b,
{
    Arc::ptr_eq(a, b)
}

/// Types equal at every position are equal at position `j`.
proof fn lemma_types_eq_lower_at(a: Seq<LuaType>, b: Seq<LuaType>, j: int)
    requires
        types_eq_lower(a, b),
        0 <= j < a.len(),
    ensures
        type_eq_lower(a[j], b[j]),
    decreases a.len(),
{
    if j < a.len() - 1 {
        lemma_types_eq_lower_at(a.drop_last(), b.drop_last(), j);
    }
}

/// Parameter lists equal at every position are equal at position `j`.
proof fn lemma_params_eq_lower_at(
    a: Seq<(String, Option<LuaType>)>,
    b: Seq<(String, Option<LuaType>)>,
    j: int,
)
    requires
        params_eq_lower(a, b),
        0 <= j < a.len(),
    ensures
        param_eq_lower(a[j], b[j]),
    decreases a.len(),
{
    if j < a.len() - 1 {
        lemma_params_eq_lower_at(a.drop_last(), b.drop_last(), j);
    }
}

/// Element-wise `eq` of two lists of types.
pub(crate) fn types_eq(a: &Vec<LuaType>, b: &Vec<LuaType>) -> (r: bool)
    ensures
        types_eq_lower(a@, b@) ==> r,
        r ==> types_eq_upper(a@, b@),
    decreases a@,
{
    if a.len() != b.len() {
        return false;
    }
    let mut i: usize = 0;
    while i < a.len()
        invariant
            a@.len() == b@.len(),
            0 <= i <= a@.len(),
            types_eq_upper(a@.take(i as int), b@.take(i as int)),
        decreases a@.len() - i,
    {
        proof {
            assert(decreases_to!(a@ => a@[i as int]));
        }
        if !a[i].eq(&b[i]) {
            proof {
                if types_eq_lower(a@, b@) {
                    lemma_types_eq_lower_at(a@, b@, i as int);
                }
            }
            return false;
        }
        proof {
            assert(a@.take(i + 1).drop_last() =~= a@.take(i as int));
            assert(b@.take(i + 1).drop_last() =~= b@.take(i as int));
        }
        i = i + 1;
    }
    proof {
        assert(a@.take(i as int) =~= a@);
        assert(b@.take(i as int) =~= b@);
    }
    true
}

/// Element-wise comparison of two parameter lists: names and types.
fn params_eq(a: &Vec<(String, Option<LuaType>)>, b: &Vec<(String, Option<LuaType>)>) -> (r: bool)
    ensures
        params_eq_lower(a@, b@) ==> r,
        r ==> params_eq_upper(a@, b@),
    decreases a@,
{
    if a.len() != b.len() {
        return false;
    }
    let mut i: usize = 0;
    while i < a.len()
        invariant
            a@.len() == b@.len(),
            0 <= i <= a@.len(),
            params_eq_upper(a@.take(i as int), b@.take(i as int)),
        decreases a@.len() - i,
    {
        let same_name = a[i].0 == b[i].0;
        let same = same_name && match &a[i].1 {
            Some(x) => match &b[i].1 {
                Some(y) => {
                    proof {
                        assert(decreases_to!(a@ => a@[i as int]));
                        assert(decreases_to!(a@[i as int] => a@[i as int].1));
                    }
                    x.eq(y)
                },
                None => false,
            },
            None => b[i].1.is_none(),
        };
        if !same {
            proof {
                if params_eq_lower(a@, b@) {
                    lemma_params_eq_lower_at(a@, b@, i as int);
                }
            }
            return false;
        }
        proof {
            assert(param_eq_upper(a@[i as int], b@[i as int]));
            assert(a@.take(i + 1).drop_last() =~= a@.take(i as int));
            assert(b@.take(i + 1).drop_last() =~= b@.take(i as int));
        }
        i = i + 1;
    }
    proof {
        assert(a@.take(i as int) =~= a@);
        assert(b@.take(i as int) =~= b@);
    }
    true
}

impl LuaType {
    /// Whether two types are equal. Object, union, intersection, extends,
    /// generic, string template and multiple-return types are equal only when
    /// they are the same allocation; the other types are compared by value,
    /// an `Arc` being equal to itself before its contents are compared.
    pub fn eq(&self, other: &LuaType) -> (r: bool)
        ensures
            type_eq_lower(*self, *other) ==> r,
            r ==> type_eq_upper(*self, *other),
        decreases *self,
    {
        match (self, other) {
            (LuaType::Unknown, LuaType::Unknown) => true,
            (LuaType::Any, LuaType::Any) => true,
            (LuaType::Nil, LuaType::Nil) => true,
            (LuaType::Table, LuaType::Table) => true,
            (LuaType::Userdata, LuaType::Userdata) => true,
            (LuaType::Function, LuaType::Function) => true,
            (LuaType::Thread, LuaType::Thread) => true,
            (LuaType::Boolean, LuaType::Boolean) => true,
            (LuaType::String, LuaType::String) => true,
            (LuaType::Integer, LuaType::Integer) => true,
            (LuaType::Number, LuaType::Number) => true,
            (LuaType::Io, LuaType::Io) => true,
            (LuaType::SelfInfer, LuaType::SelfInfer) => true,
            (LuaType::Global, LuaType::Global) => true,
            (LuaType::BooleanConst(x), LuaType::BooleanConst(y)) => *x == *y,
            (LuaType::StringConst(x), LuaType::StringConst(y)) => *x == *y,
            (LuaType::IntegerConst(x), LuaType::IntegerConst(y)) => *x == *y,
            (LuaType::FloatConst(x), LuaType::FloatConst(y)) => x.float_eq(y),
            (LuaType::TableConst(x), LuaType::TableConst(y)) => *x == *y,
            (LuaType::DocStringConst(x), LuaType::DocStringConst(y)) => *x == *y,
            (LuaType::DocIntegerConst(x), LuaType::DocIntegerConst(y)) => *x == *y,
            (LuaType::DocBooleanConst(x), LuaType::DocBooleanConst(y)) => *x == *y,
            (LuaType::Ref(x), LuaType::Ref(y)) => *x == *y,
            (LuaType::Def(x), LuaType::Def(y)) => *x == *y,
            (LuaType::Module(x), LuaType::Module(y)) => arc_ptr_eq(x, y) || **x == **y,
            (LuaType::Namespace(x), LuaType::Namespace(y)) => *x == *y,
            (LuaType::Array(x), LuaType::Array(y)) => arc_ptr_eq(x, y) || (**x).eq(&**y),
            (LuaType::KeyOf(x), LuaType::KeyOf(y)) => arc_ptr_eq(x, y) || (**x).eq(&**y),
            (LuaType::Nullable(x), LuaType::Nullable(y)) => arc_ptr_eq(x, y) || (**x).eq(&**y),
            (LuaType::Variadic(x), LuaType::Variadic(y)) => arc_ptr_eq(x, y) || (**x).eq(&**y),
            (LuaType::Tuple(x), LuaType::Tuple(y)) => arc_ptr_eq(x, y) || types_eq(&x.types, &y.types),
            (LuaType::DocFunction(x), LuaType::DocFunction(y)) => arc_ptr_eq(x, y) || (x.is_async
                == y.is_async && params_eq(&x.params, &y.params) && types_eq(&x.ret, &y.ret)),
            (LuaType::Object(x), LuaType::Object(y)) => arc_ptr_eq(x, y),
            (LuaType::Union(x), LuaType::Union(y)) => arc_ptr_eq(x, y),
            (LuaType::Intersection(x), LuaType::Intersection(y)) => arc_ptr_eq(x, y),
            (LuaType::Extends(x), LuaType::Extends(y)) => arc_ptr_eq(x, y),
            (LuaType::Generic(x), LuaType::Generic(y)) => arc_ptr_eq(x, y),
            (LuaType::TableGeneric(x), LuaType::TableGeneric(y)) => arc_ptr_eq(x, y) || types_eq(
                &**x,
                &**y,
            ),
            (LuaType::TplRef(x), LuaType::TplRef(y)) => *x == *y,
            (LuaType::StrTplRef(x), LuaType::StrTplRef(y)) => arc_ptr_eq(x, y),
            (LuaType::MuliReturn(x), LuaType::MuliReturn(y)) => arc_ptr_eq(x, y),
            (LuaType::ExistField(x), LuaType::ExistField(y)) => arc_ptr_eq(x, y) || (x.field
                == y.field && x.origin.eq(&y.origin)),
            (LuaType::Instance(x), LuaType::Instance(y)) => arc_ptr_eq(x, y) || x.base.eq(&y.base),
            (LuaType::Signature(x), LuaType::Signature(y)) => *x == *y,
            _ => false,
        }
    }
}

} // verus!

verus! {

/// What comparing two multiple returns gives at least.
pub open spec fn multi_return_eq_lower(a: LuaMultiReturn, b: LuaMultiReturn) -> bool {
    match (a, b) {
        (LuaMultiReturn::Multi(x), LuaMultiReturn::Multi(y)) => types_eq_lower(x@, y@),
        (LuaMultiReturn::Base(x), LuaMultiReturn::Base(y)) => type_eq_lower(x, y),
        _ => false,
    }
}

/// What comparing two multiple returns gives at most.
pub open spec fn multi_return_eq_upper(a: LuaMultiReturn, b: LuaMultiReturn) -> bool {
    a == b || match (a, b) {
        (LuaMultiReturn::Multi(x), LuaMultiReturn::Multi(y)) => types_eq_upper(x@, y@),
        (LuaMultiReturn::Base(x), LuaMultiReturn::Base(y)) => type_eq_upper(x, y),
        _ => false,
    }
}

/// `==` on two shared multiple returns: the same allocation, or equal
/// variants with equal types.
pub fn multi_return_arc_eq(a: &Arc<LuaMultiReturn>, b: &Arc<LuaMultiReturn>) -> (r: bool)
    ensures
        multi_return_eq_lower(**a, **b) ==> r,
        r ==> multi_return_eq_upper(**a, **b),
{
    if arc_ptr_eq(a, b) {
        return true;
    }
    match (&**a, &**b) {
        (LuaMultiReturn::Multi(x), LuaMultiReturn::Multi(y)) => types_eq(x, y),
        (LuaMultiReturn::Base(x), LuaMultiReturn::Base(y)) => x.eq(y),
        _ => false,
    }
}


/// The value behind an `Arc`.
#[verifier::inline]
pub open spec fn arc_value<T>(x: Arc<T>) -> T {
    *x
}

/// `eq` is symmetric: the bounds of `eq(a, b)` and of `eq(b, a)` agree.
pub proof fn lemma_type_eq_symmetric(a: LuaType, b: LuaType)
    ensures
        type_eq_lower(a, b) == type_eq_lower(b, a),
        type_eq_upper(a, b) == type_eq_upper(b, a),
    decreases a,
{
    match (a, b) {
        (LuaType::Array(x), LuaType::Array(y)) => {
            lemma_type_eq_symmetric(arc_value(x), arc_value(y));
        },
        (LuaType::KeyOf(x), LuaType::KeyOf(y)) => {
            lemma_type_eq_symmetric(arc_value(x), arc_value(y));
        },
        (LuaType::Nullable(x), LuaType::Nullable(y)) => {
            lemma_type_eq_symmetric(arc_value(x), arc_value(y));
        },
        (LuaType::Variadic(x), LuaType::Variadic(y)) => {
            lemma_type_eq_symmetric(arc_value(x), arc_value(y));
        },
        (LuaType::Tuple(x), LuaType::Tuple(y)) => {
            lemma_types_eq_symmetric(arc_value(x).types@, arc_value(y).types@);
        },
        (LuaType::DocFunction(x), LuaType::DocFunction(y)) => {
            lemma_params_eq_symmetric(arc_value(x).params@, arc_value(y).params@);
            lemma_types_eq_symmetric(arc_value(x).ret@, arc_value(y).ret@);
        },
        (LuaType::TableGeneric(x), LuaType::TableGeneric(y)) => {
            lemma_types_eq_symmetric(arc_value(x)@, arc_value(y)@);
        },
        (LuaType::ExistField(x), LuaType::ExistField(y)) => {
            lemma_type_eq_symmetric(arc_value(x).origin, arc_value(y).origin);
        },
        (LuaType::Instance(x), LuaType::Instance(y)) => {
            lemma_type_eq_symmetric(arc_value(x).base, arc_value(y).base);
        },
        _ => {},
    }
}

/// Element-wise `eq` of lists of types is symmetric.
pub proof fn lemma_types_eq_symmetric(a: Seq<LuaType>, b: Seq<LuaType>)
    ensures
        types_eq_lower(a, b) == types_eq_lower(b, a),
        types_eq_upper(a, b) == types_eq_upper(b, a),
    decreases a,
{
    if a.len() == b.len() && a.len() > 0 {
        lemma_types_eq_symmetric(a.drop_last(), b.drop_last());
        lemma_type_eq_symmetric(a.last(), b.last());
    }
}

/// Element-wise `eq` of parameter lists is symmetric.
pub proof fn lemma_params_eq_symmetric(
    a: Seq<(String, Option<LuaType>)>,
    b: Seq<(String, Option<LuaType>)>,
)
    ensures
        params_eq_lower(a, b) == params_eq_lower(b, a),
        params_eq_upper(a, b) == params_eq_upper(b, a),
    decreases a,
{
    if a.len() == b.len() && a.len() > 0 {
        lemma_params_eq_symmetric(a.drop_last(), b.drop_last());
        let (x, y) = (a.last(), b.last());
        match (x.1, y.1) {
            (Some(p), Some(q)) => {
                lemma_type_eq_symmetric(p, q);
            },
            _ => {},
        }
        assert(param_eq_lower(x, y) == param_eq_lower(y, x));
        assert(param_eq_upper(x, y) == param_eq_upper(y, x));
    }
}

/// A value may equal itself: the upper bound of `eq(a, a)` holds, but for
/// a NaN float constant, which equals nothing.
pub proof fn lemma_type_eq_upper_reflexive(a: LuaType)
    requires
        !(a matches LuaType::FloatConst(f) && float_bits_is_nan(f.bits)),
    ensures
        type_eq_upper(a, a),
{
}


/// `eq` is transitive: the bounds of `eq(a, b)` and `eq(b, c)` give those
/// of `eq(a, c)`.
pub proof fn lemma_type_eq_transitive(a: LuaType, b: LuaType, c: LuaType)
    ensures
        type_eq_lower(a, b) && type_eq_lower(b, c) ==> type_eq_lower(a, c),
        type_eq_upper(a, b) && type_eq_upper(b, c) ==> type_eq_upper(a, c),
    decreases a,
{
    match (a, b, c) {
        (LuaType::Array(x), LuaType::Array(y), LuaType::Array(z)) => {
            lemma_type_eq_transitive(arc_value(x), arc_value(y), arc_value(z));
        },
        (LuaType::KeyOf(x), LuaType::KeyOf(y), LuaType::KeyOf(z)) => {
            lemma_type_eq_transitive(arc_value(x), arc_value(y), arc_value(z));
        },
        (LuaType::Nullable(x), LuaType::Nullable(y), LuaType::Nullable(z)) => {
            lemma_type_eq_transitive(arc_value(x), arc_value(y), arc_value(z));
        },
        (LuaType::Variadic(x), LuaType::Variadic(y), LuaType::Variadic(z)) => {
            lemma_type_eq_transitive(arc_value(x), arc_value(y), arc_value(z));
        },
        (LuaType::Tuple(x), LuaType::Tuple(y), LuaType::Tuple(z)) => {
            lemma_types_eq_transitive(arc_value(x).types@, arc_value(y).types@, arc_value(z).types@);
        },
        (LuaType::DocFunction(x), LuaType::DocFunction(y), LuaType::DocFunction(z)) => {
            lemma_params_eq_transitive(
                arc_value(x).params@,
                arc_value(y).params@,
                arc_value(z).params@,
            );
            lemma_types_eq_transitive(arc_value(x).ret@, arc_value(y).ret@, arc_value(z).ret@);
        },
        (LuaType::TableGeneric(x), LuaType::TableGeneric(y), LuaType::TableGeneric(z)) => {
            lemma_types_eq_transitive(arc_value(x)@, arc_value(y)@, arc_value(z)@);
        },
        (LuaType::ExistField(x), LuaType::ExistField(y), LuaType::ExistField(z)) => {
            lemma_type_eq_transitive(arc_value(x).origin, arc_value(y).origin, arc_value(z).origin);
        },
        (LuaType::Instance(x), LuaType::Instance(y), LuaType::Instance(z)) => {
            lemma_type_eq_transitive(arc_value(x).base, arc_value(y).base, arc_value(z).base);
        },
        _ => {},
    }
}

/// Element-wise `eq` of lists of types is transitive.
pub proof fn lemma_types_eq_transitive(a: Seq<LuaType>, b: Seq<LuaType>, c: Seq<LuaType>)
    ensures
        types_eq_lower(a, b) && types_eq_lower(b, c) ==> types_eq_lower(a, c),
        types_eq_upper(a, b) && types_eq_upper(b, c) ==> types_eq_upper(a, c),
    decreases a,
{
    if a.len() == b.len() && b.len() == c.len() && a.len() > 0 {
        lemma_types_eq_transitive(a.drop_last(), b.drop_last(), c.drop_last());
        lemma_type_eq_transitive(a.last(), b.last(), c.last());
    }
}

/// Element-wise `eq` of parameter lists is transitive.
pub proof fn lemma_params_eq_transitive(
    a: Seq<(String, Option<LuaType>)>,
    b: Seq<(String, Option<LuaType>)>,
    c: Seq<(String, Option<LuaType>)>,
)
    ensures
        params_eq_lower(a, b) && params_eq_lower(b, c) ==> params_eq_lower(a, c),
        params_eq_upper(a, b) && params_eq_upper(b, c) ==> params_eq_upper(a, c),
    decreases a,
{
    if a.len() == b.len() && b.len() == c.len() && a.len() > 0 {
        lemma_params_eq_transitive(a.drop_last(), b.drop_last(), c.drop_last());
        let (x, y, z) = (a.last(), b.last(), c.last());
        match (x.1, y.1, z.1) {
            (Some(p), Some(q), Some(w)) => {
                lemma_type_eq_transitive(p, q, w);
            },
            _ => {},
        }
        assert(param_eq_lower(x, y) && param_eq_lower(y, z) ==> param_eq_lower(x, z));
        assert(param_eq_upper(x, y) && param_eq_upper(y, z) ==> param_eq_upper(x, z));
    }
}

} // verus!
