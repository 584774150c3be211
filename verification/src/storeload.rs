//! Rendering the fixed-width memory write and read statements: any type with
//! a scalar encoding becomes one direct byte/half/word/double-word access;
//! a named aggregate delegates to its own generated store/load routine.
use vstd::prelude::*;

use crate::ast::{NamedType, NamedTypeV, TypeRef, TypeRefV, TypeV};
use crate::layout::scalar_size;
use crate::names::{namedtype_name, namedtype_name_of, anon_type_name, type_name_of,
    nameable_tref};
use crate::text::{dec_of, push_dec_usize};

verus! {

/// Widths with a direct memory access primitive.
pub open spec fn sized_width_ok(size: nat) -> bool {
    size == 1 || size == 2 || size == 4 || size == 8
}

/// Every scalar encoding is one of the four primitive widths.
pub proof fn lemma_scalar_size_width(t: TypeV)
    ensures
        scalar_size(t) matches Some(s) ==> sized_width_ok(s),
{
}

/// A shape the store/load renderer accepts: named types delegate, inline
/// types must have a scalar encoding.
pub open spec fn storable_tref(t: TypeRefV) -> bool {
    match t {
        TypeRefV::Name(_) => true,
        TypeRefV::Value(ty) => scalar_size(*ty) is Some,
    }
}

pub open spec fn sized_store_text(
    size: nat,
    mem: Seq<char>,
    value: Seq<char>,
    pointer: Seq<char>,
    offset: nat,
) -> Seq<char> {
    let head = if size == 1 {
        ".PutByte(byte("@
    } else if size == 2 {
        ".PutUint16(uint16("@
    } else if size == 4 {
        ".PutUint32(uint32("@
    } else {
        ".PutUint64(uint64("@
    };
    mem + head + value + "), uint32("@ + pointer + "), "@ + dec_of(offset) + ")\n"@
}

/// A direct fixed-width write of `value` at `pointer + offset`.
pub fn print_sized_store(
    ret: &mut String,
    size: usize,
    mem: &str,
    value: &str,
    pointer: &str,
    offset: usize,
)
    requires
        sized_width_ok(size as nat),
    ensures
        final(ret)@ == old(ret)@ + sized_store_text(size as nat, mem@, value@, pointer@, offset as nat),
{
    ret.append(mem);
    if size == 1 {
        ret.append(".PutByte(byte(");
    } else if size == 2 {
        ret.append(".PutUint16(uint16(");
    } else if size == 4 {
        ret.append(".PutUint32(uint32(");
    } else {
        ret.append(".PutUint64(uint64(");
    }
    ret.append(value);
    ret.append("), uint32(");
    ret.append(pointer);
    ret.append("), ");
    push_dec_usize(ret, offset);
    ret.append(")\n");
}

pub open spec fn named_store_text(
    nt: NamedTypeV,
    mem: Seq<char>,
    value: Seq<char>,
    pointer: Seq<char>,
    offset: nat,
) -> Seq<char> {
    match scalar_size(nt.tref.resolved()) {
        Some(size) => sized_store_text(size, mem, value, pointer, offset),
        None => value + ".store("@ + mem + ", uint32("@ + pointer + "), "@ + dec_of(offset)
            + ")\n"@,
    }
}

/// Store a value of a named type: scalars are written directly, aggregates
/// call their own generated store routine.
pub fn print_named_store(
    ret: &mut String,
    ty: &NamedType,
    mem: &str,
    value: &str,
    pointer: &str,
    offset: usize,
)
    ensures
        final(ret)@ == old(ret)@ + named_store_text(ty.dv(), mem@, value@, pointer@, offset as nat),
{
    proof {
        lemma_scalar_size_width(ty.tref.dv().resolved());
    }
    match crate::layout::mem_size(ty.type_()) {
        None => {
            ret.append(value);
            ret.append(".store(");
            ret.append(mem);
            ret.append(", uint32(");
            ret.append(pointer);
            ret.append("), ");
            push_dec_usize(ret, offset);
            ret.append(")\n");
        },
        Some(size) => print_sized_store(ret, size, mem, value, pointer, offset),
    }
}

pub open spec fn store_text(
    t: TypeRefV,
    mem: Seq<char>,
    value: Seq<char>,
    pointer: Seq<char>,
    offset: nat,
) -> Seq<char> {
    match t {
        TypeRefV::Name(nt) => named_store_text(*nt, mem, value, pointer, offset),
        TypeRefV::Value(ty) => sized_store_text(
            scalar_size(*ty)->Some_0,
            mem,
            value,
            pointer,
            offset,
        ),
    }
}

pub fn print_store(
    ret: &mut String,
    ty: &TypeRef,
    mem: &str,
    value: &str,
    pointer: &str,
    offset: usize,
)
    requires
        storable_tref(ty.dv()),
    ensures
        final(ret)@ == old(ret)@ + store_text(ty.dv(), mem@, value@, pointer@, offset as nat),
{
    match ty {
        TypeRef::Name(nt) => print_named_store(ret, nt, mem, value, pointer, offset),
        TypeRef::Value(t) => {
            proof {
                lemma_scalar_size_width(t.dv());
            }
            match crate::layout::mem_size(t) {
                Some(size) => print_sized_store(ret, size, mem, value, pointer, offset),
                None => proof {
                    assert(false);
                },
            }
        },
    }
}

pub open spec fn typed_load_text(
    lvalue_type: Seq<char>,
    size: nat,
    mem: Seq<char>,
    lvalue: Seq<char>,
    pointer: Seq<char>,
    offset: nat,
) -> Seq<char> {
    let head = if size == 1 {
        ".Byte(uint32("@
    } else if size == 2 {
        ".Uint16(uint32("@
    } else if size == 4 {
        ".Uint32(uint32("@
    } else {
        ".Uint64(uint32("@
    };
    lvalue + " = "@ + lvalue_type + "("@ + mem + head + pointer + "), "@ + dec_of(offset)
        + "))\n"@
}

/// A direct fixed-width read into `lvalue`, cast to its declared type.
pub fn print_typed_load(
    ret: &mut String,
    lvalue_type: &str,
    size: usize,
    mem: &str,
    lvalue: &str,
    pointer: &str,
    offset: usize,
)
    requires
        sized_width_ok(size as nat),
    ensures
        final(ret)@ == old(ret)@ + typed_load_text(
            lvalue_type@,
            size as nat,
            mem@,
            lvalue@,
            pointer@,
            offset as nat,
        ),
{
    ret.append(lvalue);
    ret.append(" = ");
    ret.append(lvalue_type);
    ret.append("(");
    ret.append(mem);
    if size == 1 {
        ret.append(".Byte(uint32(");
    } else if size == 2 {
        ret.append(".Uint16(uint32(");
    } else if size == 4 {
        ret.append(".Uint32(uint32(");
    } else {
        ret.append(".Uint64(uint32(");
    }
    ret.append(pointer);
    ret.append("), ");
    push_dec_usize(ret, offset);
    ret.append("))\n");
}

pub open spec fn named_load_text(
    nt: NamedTypeV,
    mem: Seq<char>,
    lvalue: Seq<char>,
    pointer: Seq<char>,
    offset: nat,
) -> Seq<char> {
    match scalar_size(nt.tref.resolved()) {
        Some(size) => typed_load_text(
            namedtype_name_of(nt.name, nt.tref.resolved()),
            size,
            mem,
            lvalue,
            pointer,
            offset,
        ),
        None => lvalue + ".load("@ + mem + ", uint32("@ + pointer + "), "@ + dec_of(offset)
            + ")\n"@,
    }
}

pub fn print_named_load(
    ret: &mut String,
    ty: &NamedType,
    mem: &str,
    lvalue: &str,
    pointer: &str,
    offset: usize,
)
    ensures
        final(ret)@ == old(ret)@ + named_load_text(ty.dv(), mem@, lvalue@, pointer@, offset as nat),
{
    proof {
        lemma_scalar_size_width(ty.tref.dv().resolved());
    }
    match crate::layout::mem_size(ty.type_()) {
        None => {
            ret.append(lvalue);
            ret.append(".load(");
            ret.append(mem);
            ret.append(", uint32(");
            ret.append(pointer);
            ret.append("), ");
            push_dec_usize(ret, offset);
            ret.append(")\n");
        },
        Some(size) => {
            let name = namedtype_name(ty);
            print_typed_load(ret, name.as_str(), size, mem, lvalue, pointer, offset);
        },
    }
}

pub open spec fn load_text(
    t: TypeRefV,
    mem: Seq<char>,
    lvalue: Seq<char>,
    pointer: Seq<char>,
    offset: nat,
) -> Seq<char> {
    match t {
        TypeRefV::Name(nt) => named_load_text(*nt, mem, lvalue, pointer, offset),
        TypeRefV::Value(ty) => typed_load_text(
            type_name_of(*ty),
            scalar_size(*ty)->Some_0,
            mem,
            lvalue,
            pointer,
            offset,
        ),
    }
}

pub fn print_load(
    ret: &mut String,
    ty: &TypeRef,
    mem: &str,
    lvalue: &str,
    pointer: &str,
    offset: usize,
)
    requires
        storable_tref(ty.dv()),
        nameable_tref(ty.dv()),
    ensures
        final(ret)@ == old(ret)@ + load_text(ty.dv(), mem@, lvalue@, pointer@, offset as nat),
{
    match ty {
        TypeRef::Name(nt) => print_named_load(ret, nt, mem, lvalue, pointer, offset),
        TypeRef::Value(t) => {
            proof {
                lemma_scalar_size_width(t.dv());
            }
            match crate::layout::mem_size(t) {
                Some(size) => {
                    let name = anon_type_name(t);
                    print_typed_load(ret, name.as_str(), size, mem, lvalue, pointer, offset);
                },
                None => proof {
                    assert(false);
                },
            }
        },
    }
}

} // verus!
