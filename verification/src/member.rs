//! Which types have members, or can be indexed.
use vstd::prelude::*;

use crate::types::{LuaType, LuaTypeDeclId};

verus! {

/// The types whose values have no members to look up.
pub open spec fn spec_without_members(t: LuaType) -> bool {
    t is Nil || t is Boolean || t is BooleanConst || t is Integer || t is IntegerConst
        || t is Number || t is FloatConst || t is Function || t is DocFunction || t is Table
        || t is TableGeneric || t is Userdata || t is Thread || t is Unknown || t is Any
        || t is SelfInfer || t is Extends || t is StrTplRef || t is TplRef || t is Array
        || t is MuliReturn
}

/// The types whose values cannot be indexed by an operator.
pub open spec fn spec_without_index_operator(t: LuaType) -> bool {
    t is Nil || t is Boolean || t is BooleanConst || t is Integer || t is IntegerConst
        || t is Number || t is FloatConst || t is Function || t is DocFunction || t is Table
        || t is Userdata || t is Thread || t is Unknown || t is String || t is StringConst
        || t is Io || t is Any || t is Extends || t is StrTplRef || t is TplRef || t is KeyOf
        || t is MuliReturn
}

pub fn without_members(type_: &LuaType) -> (r: bool)
    ensures
        r == spec_without_members(*type_),
{
    match type_ {
        LuaType::Nil
        | LuaType::Boolean
        | LuaType::BooleanConst(_)
        | LuaType::Integer
        | LuaType::IntegerConst(_)
        | LuaType::Number
        | LuaType::FloatConst(_)
        | LuaType::Function
        | LuaType::DocFunction(_)
        | LuaType::Table
        | LuaType::TableGeneric(_)
        | LuaType::Userdata
        | LuaType::Thread
        | LuaType::Unknown
        | LuaType::Any
        | LuaType::SelfInfer
        | LuaType::Extends(_)
        | LuaType::StrTplRef(_)
        | LuaType::TplRef(_)
        | LuaType::Array(_)
        | LuaType::MuliReturn(_) => true,
        _ => false,
    }
}

pub fn without_index_operator(type_: &LuaType) -> (r: bool)
    ensures
        r == spec_without_index_operator(*type_),
{
    match type_ {
        LuaType::Nil
        | LuaType::Boolean
        | LuaType::BooleanConst(_)
        | LuaType::Integer
        | LuaType::IntegerConst(_)
        | LuaType::Number
        | LuaType::FloatConst(_)
        | LuaType::Function
        | LuaType::DocFunction(_)
        | LuaType::Table
        | LuaType::Userdata
        | LuaType::Thread
        | LuaType::Unknown
        | LuaType::String
        | LuaType::StringConst(_)
        | LuaType::Io
        | LuaType::Any
        | LuaType::Extends(_)
        | LuaType::StrTplRef(_)
        | LuaType::TplRef(_)
        | LuaType::KeyOf(_)
        | LuaType::MuliReturn(_) => true,
        _ => false,
    }
}

/// The declared type that holds the methods of a built-in type: `string`
/// for strings, `io` for the io type.
pub fn get_buildin_type_map_type_id(type_: &LuaType) -> (r: Option<LuaTypeDeclId>)
    ensures
        (type_ is String || type_ is StringConst) ==> (r matches Some(id) && id@ == "string"@),
        type_ is Io ==> (r matches Some(id) && id@ == "io"@),
        !(type_ is String || type_ is StringConst || type_ is Io) ==> r is None,
{
    match type_ {
        LuaType::String | LuaType::StringConst(_) => Some(LuaTypeDeclId::new("string")),
        LuaType::Io => Some(LuaTypeDeclId::new("io")),
        _ => None,
    }
}

} // verus!
