//! Identifier casing and the rendered name of every type shape.
use vstd::prelude::*;

use crate::ast::{BuiltinType, IntRepr, NamedType, Type, TypeRef, TypeRefV, TypeV, WasmType};

verus! {

/// The UpperCamelCase form of an identifier, as the case-conversion library
/// computes it; a function of the characters alone.
pub uninterp spec fn camel_of(s: Seq<char>) -> Seq<char>;

/// The lowerCamelCase form of an identifier, as the case-conversion library
/// computes it; a function of the characters alone.
pub uninterp spec fn mixed_of(s: Seq<char>) -> Seq<char>;

/// Relies on heck's str::to_upper_camel_case: the result depends on the
/// input characters alone.
#[verifier::external_body]
fn to_camel(s: &str) -> (r: String)
    ensures
        r@ == camel_of(s@),
{
    heck::ToUpperCamelCase::to_upper_camel_case(s)
}

/// Relies on heck's str::to_lower_camel_case: the result depends on the
/// input characters alone.
#[verifier::external_body]
fn to_mixed(s: &str) -> (r: String)
    ensures
        r@ == mixed_of(s@),
{
    heck::ToLowerCamelCase::to_lower_camel_case(s)
}

/// Relies on str's PartialEq: two string slices compare equal exactly when
/// their characters are equal.
#[verifier::external_body]
pub(crate) fn str_eq(a: &str, b: &str) -> (r: bool)
    ensures
        r == (a@ == b@),
{
    a == b
}

/// An identifier in implementation position: lowerCamelCase, except that a
/// name colliding with a keyword of the target language gets a trailing
/// underscore.
pub open spec fn ident_of(s: Seq<char>) -> Seq<char> {
    if s == "type"@ {
        "type_"@
    } else {
        mixed_of(s)
    }
}

pub fn ident_name(s: &str) -> (r: String)
    ensures
        r@ == ident_of(s@),
{
    if str_eq(s, "type") {
        String::from_str("type_")
    } else {
        to_mixed(s)
    }
}

/// An identifier in exported position: UpperCamelCase.
pub fn export_ident_name(s: &str) -> (r: String)
    ensures
        r@ == camel_of(s@),
{
    to_camel(s)
}

/// The target-language name of each builtin scalar. A C-character byte has
/// no name of its own and is rejected upstream.
pub open spec fn builtin_name_of(b: BuiltinType) -> Seq<char> {
    match b {
        BuiltinType::U8 => "uint8"@,
        BuiltinType::Char8 => Seq::empty(),
        BuiltinType::U16 => "uint16"@,
        BuiltinType::U32 => "uint32"@,
        BuiltinType::Usize => "uint32"@,
        BuiltinType::U64 => "uint64"@,
        BuiltinType::S8 => "int8"@,
        BuiltinType::S16 => "int16"@,
        BuiltinType::S32 => "int32"@,
        BuiltinType::S64 => "int64"@,
        BuiltinType::F32 => "float32"@,
        BuiltinType::F64 => "float64"@,
        BuiltinType::Char => "rune"@,
    }
}

pub fn builtin_type_name(b: BuiltinType) -> (r: &'static str)
    requires
        !(b is Char8),
    ensures
        r@ == builtin_name_of(b),
{
    match b {
        BuiltinType::U8 => "uint8",
        BuiltinType::Char8 => "uint8",
        BuiltinType::U16 => "uint16",
        BuiltinType::U32 | BuiltinType::Usize => "uint32",
        BuiltinType::U64 => "uint64",
        BuiltinType::S8 => "int8",
        BuiltinType::S16 => "int16",
        BuiltinType::S32 => "int32",
        BuiltinType::S64 => "int64",
        BuiltinType::F32 => "float32",
        BuiltinType::F64 => "float64",
        BuiltinType::Char => "rune",
    }
}

pub open spec fn intrepr_name_of(r: IntRepr) -> Seq<char> {
    match r {
        IntRepr::U8 => "uint8"@,
        IntRepr::U16 => "uint16"@,
        IntRepr::U32 => "uint32"@,
        IntRepr::U64 => "uint64"@,
    }
}

pub fn intrepr_name(r: IntRepr) -> (s: &'static str)
    ensures
        s@ == intrepr_name_of(r),
{
    match r {
        IntRepr::U8 => "uint8",
        IntRepr::U16 => "uint16",
        IntRepr::U32 => "uint32",
        IntRepr::U64 => "uint64",
    }
}

pub open spec fn wasm_type_name_of(w: WasmType) -> Seq<char> {
    match w {
        WasmType::I32 => "int32"@,
        WasmType::I64 => "int64"@,
        WasmType::F32 => "float32"@,
        WasmType::F64 => "float64"@,
    }
}

pub fn wasm_type(w: WasmType) -> (s: &'static str)
    ensures
        s@ == wasm_type_name_of(w),
{
    match w {
        WasmType::I32 => "int32",
        WasmType::I64 => "int64",
        WasmType::F32 => "float32",
        WasmType::F64 => "float64",
    }
}

/// The rendered name of an anonymous type: aggregates name their opaque
/// representation, builtins their scalar name.
pub open spec fn type_name_of(t: TypeV) -> Seq<char> {
    match t {
        TypeV::List(_) => "list"@,
        TypeV::Builtin(b) => builtin_name_of(b),
        TypeV::Pointer(_) => "pointer"@,
        TypeV::ConstPointer(_) => "pointer"@,
        TypeV::Handle => "handle"@,
        TypeV::Variant(_) => "variant"@,
        TypeV::Record(_) => "record"@,
    }
}

/// The rendered name of a named type: pointers and lists are opaque, all
/// else carries the exported name.
pub open spec fn namedtype_name_of(name: Seq<char>, resolved: TypeV) -> Seq<char> {
    match resolved {
        TypeV::Pointer(_) => "pointer"@,
        TypeV::ConstPointer(_) => "pointer"@,
        TypeV::List(_) => "list"@,
        _ => "wasi"@ + camel_of(name),
    }
}

pub open spec fn typeref_name_of(t: TypeRefV) -> Seq<char> {
    match t {
        TypeRefV::Name(nt) => namedtype_name_of(nt.name, nt.tref.resolved()),
        TypeRefV::Value(ty) => type_name_of(*ty),
    }
}

/// A type shape whose rendered name exists: only an inline C-character byte
/// has none.
pub open spec fn nameable_tref(t: TypeRefV) -> bool {
    match t {
        TypeRefV::Name(_) => true,
        TypeRefV::Value(ty) => !(*ty is Builtin && ty->Builtin_0 is Char8),
    }
}

impl TypeRef {
    /// The underlying shape, resolving through named types.
    pub fn type_(&self) -> (t: &Type)
        ensures
            t.dv() == self.dv().resolved(),
        decreases self,
    {
        match self {
            TypeRef::Name(nt) => nt.tref.type_(),
            TypeRef::Value(t) => t,
        }
    }
}

impl NamedType {
    pub fn type_(&self) -> (t: &Type)
        ensures
            t.dv() == self.tref.dv().resolved(),
    {
        self.tref.type_()
    }
}

pub fn namedtype_name(nt: &NamedType) -> (r: String)
    ensures
        r@ == namedtype_name_of(nt.name@, nt.tref.dv().resolved()),
{
    match nt.type_() {
        Type::Pointer(_) | Type::ConstPointer(_) => String::from_str("pointer"),
        Type::List(_) => String::from_str("list"),
        _ => {
            let mut r = String::from_str("wasi");
            let c = to_camel(nt.name.as_str());
            r.append(c.as_str());
            r
        },
    }
}

pub fn anon_type_name(t: &Type) -> (r: String)
    requires
        !(t.dv() is Builtin && t.dv()->Builtin_0 is Char8),
    ensures
        r@ == type_name_of(t.dv()),
{
    match t {
        Type::List(_) => String::from_str("list"),
        Type::Builtin(b) => String::from_str(builtin_type_name(*b)),
        Type::Pointer(_) | Type::ConstPointer(_) => String::from_str("pointer"),
        Type::Handle => String::from_str("handle"),
        Type::Variant(_) => String::from_str("variant"),
        Type::Record(_) => String::from_str("record"),
    }
}

pub fn typeref_name(t: &TypeRef) -> (r: String)
    requires
        nameable_tref(t.dv()),
    ensures
        r@ == typeref_name_of(t.dv()),
{
    match t {
        TypeRef::Name(nt) => namedtype_name(nt),
        TypeRef::Value(ty) => anon_type_name(ty),
    }
}

} // verus!
