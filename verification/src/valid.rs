//! What the loader guarantees of a document before generation: the shapes
//! the emitter is defined on. Malformed shapes are the loader's to reject.
use vstd::prelude::*;

use crate::ast::{Document, InterfaceFunc, MemberV, Module, NamedTypeV, Param, RecordV, TypeRefV,
    TypeV, VariantV};
use crate::layout::{layout_ok_tref, layout_ok_type};
use crate::names::nameable_tref;
use crate::storeload::storable_tref;

verus! {

/// Shapes an alias declaration may refer to: scalars with an opaque or
/// builtin name.
pub open spec fn alias_ok(resolved: TypeV) -> bool {
    match resolved {
        TypeV::Builtin(b) => !(b is Char8),
        TypeV::Pointer(_) => true,
        TypeV::ConstPointer(_) => true,
        TypeV::Handle => true,
        _ => false,
    }
}

/// A record member the emitter can declare, store and load.
pub open spec fn member_ok(m: MemberV) -> bool {
    nameable_tref(m.tref) && storable_tref(m.tref)
}

/// A record declaration the emitter is defined on: packed flag sets fit
/// their widest integer; plain records lay out and their members can be
/// named, stored and loaded.
pub open spec fn record_print_ok(r: RecordV) -> bool {
    if r.kind is Bitflags {
        r.members.len() <= 64
    } else {
        layout_ok_type(TypeV::Record(r)) && (forall|i: int|
            0 <= i < r.members.len() ==> member_ok(#[trigger] r.members[i]))
    }
}

/// A variant declaration the emitter is defined on: an enum, or a laid-out
/// tagged union whose payloads can be named, stored and loaded.
pub open spec fn variant_print_ok(v: VariantV) -> bool {
    v.is_enum() || (layout_ok_type(TypeV::Variant(v)) && (forall|i: int|
        0 <= i < v.cases.len() ==> match (#[trigger] v.cases[i]).tref {
            Some(p) => nameable_tref(p) && storable_tref(p),
            None => true,
        }))
}

/// A list element the emitter is defined on.
pub open spec fn list_print_ok(e: TypeRefV) -> bool {
    layout_ok_tref(e) && nameable_tref(e) && storable_tref(e)
}

/// A named type declaration the emitter is defined on.
pub open spec fn datatype_ok(nt: NamedTypeV) -> bool {
    match nt.tref {
        TypeRefV::Name(_) => alias_ok(nt.tref.resolved()),
        TypeRefV::Value(ty) => match *ty {
            TypeV::Builtin(b) => !(b is Char8),
            TypeV::Pointer(_) => true,
            TypeV::ConstPointer(_) => true,
            TypeV::Handle => true,
            TypeV::Record(r) => record_print_ok(r),
            TypeV::Variant(v) => variant_print_ok(v),
            TypeV::List(e) => list_print_ok(*e),
        },
    }
}

/// The payload of a result's ok case: nameable, and if it is an inline
/// positional record, so is each of its members.
pub open spec fn ok_payload_ok(ok: TypeRefV) -> bool {
    &&& nameable_tref(ok)
    &&& match ok {
        TypeRefV::Value(ty) => match *ty {
            TypeV::Record(r) => !r.is_tuple() || (forall|i: int|
                0 <= i < r.members.len() ==> nameable_tref((#[trigger] r.members[i]).tref)),
            _ => true,
        },
        _ => true,
    }
}

/// A result-shaped variant the stub printer is defined on: ok and err cases,
/// the err payload present and nameable.
pub open spec fn expected_ok(v: VariantV) -> bool {
    &&& v.is_expected()
    &&& v.cases[1].tref is Some
    &&& nameable_tref(v.cases[1].tref->Some_0)
    &&& match v.cases[0].tref {
        Some(ok) => ok_payload_ok(ok),
        None => true,
    }
}

/// A declared function result: a variant, either enum-shaped or
/// result-shaped.
pub open spec fn result_ok(t: TypeRefV) -> bool {
    &&& nameable_tref(t)
    &&& match t.resolved() {
        TypeV::Variant(v) => v.is_enum() || expected_ok(v),
        _ => false,
    }
}

pub open spec fn param_ok(p: Param) -> bool {
    nameable_tref(p.tref.dv())
}

/// A function declaration the stub and adapter printers are defined on. More
/// than one declared result is not excluded here: it aborts generation with
/// an error instead.
pub open spec fn func_ok(f: InterfaceFunc) -> bool {
    &&& forall|i: int| 0 <= i < f.params@.len() ==> param_ok(#[trigger] f.params@[i])
    &&& f.results@.len() == 1 ==> result_ok(f.results@[0].tref.dv())
}

pub open spec fn module_ok(m: Module) -> bool {
    forall|i: int| 0 <= i < m.funcs@.len() ==> func_ok(#[trigger] m.funcs@[i])
}

/// What generation requires of a loaded document.
pub open spec fn doc_ok(doc: Document) -> bool {
    &&& forall|i: int|
        0 <= i < doc.typenames@.len() ==> datatype_ok((#[trigger] doc.typenames@[i]).dv())
    &&& forall|i: int| 0 <= i < doc.modules@.len() ==> module_ok(#[trigger] doc.modules@[i])
}

} // verus!
