//! The code emitter: renders each named-type declaration, preceded by its
//! documentation, with its generated layout, store and load routines.
use vstd::prelude::*;

use crate::ast::{lemma_cases_dv, lemma_members_dv, Case, CaseV, Constant, MemberV, NamedType, NamedTypeV,
    RecordDatatype, RecordKind, RecordV, Type, TypeRef, TypeRefV, TypeV, Variant, VariantV};
use crate::layout::{align_to, intrepr_mem_size, layout_ok_tref, layout_ok_type, member_offset,
    payload_offset, record_align, record_size, spec_align_to, tref_align, tref_size,
    bitflags_repr_of, bitflags_repr_for};
use crate::names::{builtin_name_of, builtin_type_name, camel_of, export_ident_name,
    ident_name, ident_of, intrepr_name, intrepr_name_of, nameable_tref, typeref_name,
    typeref_name_of};
use crate::storeload::{load_text, print_load, print_sized_store, print_store, print_typed_load,
    sized_store_text, storable_tref, store_text, typed_load_text};
use crate::text::{dec_of, push_dec_usize};
use crate::valid::{alias_ok, datatype_ok, member_ok};

verus! {

// ---------------------------------------------------------------------------
// Documentation comments
// ---------------------------------------------------------------------------

/// One `// ` comment line per line of documentation, each after `prefix`.
pub open spec fn doc_lines_text(docs: Seq<Seq<char>>, prefix: Seq<char>) -> Seq<char>
    decreases docs,
{
    if docs.len() == 0 {
        Seq::empty()
    } else {
        doc_lines_text(docs.drop_last(), prefix) + prefix + "// "@ + docs.last() + "\n"@
    }
}

pub fn push_doc_lines(ret: &mut String, docs: &Vec<String>, prefix: &str)
    ensures
        final(ret)@ == old(ret)@ + doc_lines_text(docs.deep_view(), prefix@),
{
    let ghost dv = docs.deep_view();
    proof {
        assert(dv.take(0) =~= Seq::<Seq<char>>::empty());
    }
    let n = docs.len();
    for i in 0..n
        invariant
            n == docs.len(),
            dv == docs.deep_view(),
            dv.len() == n,
            ret@ == old(ret)@ + doc_lines_text(dv.take(i as int), prefix@),
        decreases n - i,
    {
        ret.append(prefix);
        ret.append("// ");
        ret.append(docs[i].as_str());
        ret.append("\n");
        proof {
            assert(dv.take(i + 1).drop_last() =~= dv.take(i as int));
            assert(dv.take(i + 1).last() == dv[i as int]);
            assert(dv[i as int] == docs@[i as int]@);
        }
    }
    proof {
        assert(dv.take(n as int) =~= dv);
    }
}

// ---------------------------------------------------------------------------
// Aliases
// ---------------------------------------------------------------------------

pub open spec fn alias_type_text(resolved: TypeV) -> Seq<char> {
    match resolved {
        TypeV::Builtin(b) => builtin_name_of(b),
        TypeV::Pointer(_) => "pointer"@,
        TypeV::ConstPointer(_) => "pointer"@,
        TypeV::Handle => "handle"@,
        _ => Seq::empty(),
    }
}

pub open spec fn alias_text(name: Seq<char>, dest: TypeRefV) -> Seq<char> {
    "type wasi"@ + camel_of(name) + " = "@ + alias_type_text(dest.resolved()) + "\n\n"@
}

/// A transparent alias to the opaque or builtin representation name.
pub fn print_alias(ret: &mut String, name: &str, dest: &TypeRef)
    requires
        alias_ok(dest.dv().resolved()),
    ensures
        final(ret)@ == old(ret)@ + alias_text(name@, dest.dv()),
{
    let type_: &str = match dest.type_() {
        Type::Builtin(b) => builtin_type_name(*b),
        Type::Pointer(_) | Type::ConstPointer(_) => "pointer",
        Type::Handle => "handle",
        _ => {
            proof {
                assert(false);
            }
            ""
        },
    };
    ret.append("type wasi");
    let e = export_ident_name(name);
    ret.append(e.as_str());
    ret.append(" = ");
    ret.append(type_);
    ret.append("\n\n");
}

// ---------------------------------------------------------------------------
// Enums
// ---------------------------------------------------------------------------

/// The `const` lines for the first `n` cases of an enum, each holding its
/// zero-based ordinal.
pub open spec fn enum_cases_text(name: Seq<char>, cs: Seq<CaseV>, n: int) -> Seq<char>
    decreases n,
{
    if n <= 0 {
        Seq::empty()
    } else {
        enum_cases_text(name, cs, n - 1) + doc_lines_text(cs[n - 1].docs, Seq::empty())
            + "const wasi"@ + camel_of(name) + camel_of(cs[n - 1].name) + " = "@ + dec_of(
            (n - 1) as nat,
        ) + "\n"@
    }
}

pub open spec fn enum_text(name: Seq<char>, v: VariantV) -> Seq<char> {
    "type wasi"@ + camel_of(name) + " = "@ + intrepr_name_of(v.tag_repr) + "\n"@
        + enum_cases_text(name, v.cases, v.cases.len() as int) + "\n"@
}

/// An enum becomes an alias of its tag's integer type plus one doc-commented
/// constant per case holding the case's ordinal.
pub fn print_enum(ret: &mut String, name: &str, v: &Variant)
    ensures
        final(ret)@ == old(ret)@ + enum_text(name@, v.dv()),
{
    let ghost cs = v.dv().cases;
    proof {
        lemma_cases_dv(v.cases@);
    }
    ret.append("type wasi");
    let e = export_ident_name(name);
    ret.append(e.as_str());
    ret.append(" = ");
    ret.append(intrepr_name(v.tag_repr));
    ret.append("\n");
    let ghost mid = ret@;
    let n = v.cases.len();
    for i in 0..n
        invariant
            n == v.cases.len(),
            cs == v.dv().cases,
            cs.len() == n,
            forall|k: int| 0 <= k < n ==> cs[k] == v.cases@[k].dv(),
            e@ == camel_of(name@),
            ret@ == mid + enum_cases_text(name@, cs, i as int),
        decreases n - i,
    {
        proof {
            reveal_strlit("");
            assert(""@ =~= Seq::<char>::empty());
        }
        push_doc_lines(ret, &v.cases[i].docs, "");
        ret.append("const wasi");
        ret.append(e.as_str());
        let ce = export_ident_name(v.cases[i].name.as_str());
        ret.append(ce.as_str());
        ret.append(" = ");
        push_dec_usize(ret, i);
        ret.append("\n");
        proof {
            assert(v.cases@[i as int].dv().docs == v.cases@[i as int].docs.deep_view());
            assert(v.cases@[i as int].dv().name == v.cases@[i as int].name@);
        }
    }
    ret.append("\n");
}

// ---------------------------------------------------------------------------
// Constants
// ---------------------------------------------------------------------------

pub open spec fn constant_text(c: Constant) -> Seq<char> {
    doc_lines_text(c.docs.deep_view(), Seq::empty()) + "const "@ + ident_of(c.name@) + " = "@
        + dec_of(c.value as nat) + "\n\n"@
}

/// An independent constant, doc-commented, as `name = value`.
pub fn print_constant(ret: &mut String, c: &Constant)
    ensures
        final(ret)@ == old(ret)@ + constant_text(*c),
{
    proof {
        reveal_strlit("");
        assert(""@ =~= Seq::<char>::empty());
    }
    push_doc_lines(ret, &c.docs, "");
    ret.append("const ");
    let id = ident_name(c.name.as_str());
    ret.append(id.as_str());
    ret.append(" = ");
    crate::text::push_dec(ret, c.value);
    ret.append("\n\n");
    proof {
        assert(ret@ =~= old(ret)@ + constant_text(*c));
    }
}

} // verus!

verus! {

// ---------------------------------------------------------------------------
// Records
// ---------------------------------------------------------------------------

/// The packed-flag constants for the first `n` members: member `i` holds
/// `1 << i`.
pub open spec fn bitflags_consts_text(name: Seq<char>, ms: Seq<MemberV>, n: int) -> Seq<char>
    decreases n,
{
    if n <= 0 {
        Seq::empty()
    } else {
        bitflags_consts_text(name, ms, n - 1) + doc_lines_text(ms[n - 1].docs, ""@)
            + "const wasi"@ + camel_of(name) + camel_of(ms[n - 1].name) + " = 1 << "@ + dec_of(
            (n - 1) as nat,
        ) + "\n"@
    }
}

pub open spec fn bitflags_text(name: Seq<char>, r: RecordV) -> Seq<char> {
    "type wasi"@ + camel_of(name) + " = "@ + intrepr_name_of(bitflags_repr_of(r.members.len()))
        + "\n"@ + bitflags_consts_text(name, r.members, r.members.len() as int) + "\n"@
}

/// The field declaration lines of a plain record.
pub open spec fn record_members_decl_text(ms: Seq<MemberV>, n: int) -> Seq<char>
    decreases n,
{
    if n <= 0 {
        Seq::empty()
    } else {
        record_members_decl_text(ms, n - 1) + doc_lines_text(ms[n - 1].docs, "\t"@) + "\t"@
            + ident_of(ms[n - 1].name) + " "@ + typeref_name_of(ms[n - 1].tref) + "\n"@
    }
}

/// The store statements of a plain record: every member is written at its
/// layout offset.
pub open spec fn record_members_store_text(ms: Seq<MemberV>, n: int) -> Seq<char>
    decreases n,
{
    if n <= 0 {
        Seq::empty()
    } else {
        record_members_store_text(ms, n - 1) + store_text(
            ms[n - 1].tref,
            "mem"@,
            "v."@ + ident_of(ms[n - 1].name),
            "base"@,
            member_offset(ms, n - 1),
        )
    }
}

pub open spec fn record_members_load_text(ms: Seq<MemberV>, n: int) -> Seq<char>
    decreases n,
{
    if n <= 0 {
        Seq::empty()
    } else {
        record_members_load_text(ms, n - 1) + load_text(
            ms[n - 1].tref,
            "mem"@,
            "v."@ + ident_of(ms[n - 1].name),
            "base"@,
            member_offset(ms, n - 1),
        )
    }
}

/// The struct declaration and layout routine of a plain record.
pub open spec fn record_head_text(name: Seq<char>, r: RecordV) -> Seq<char> {
    "type wasi"@ + camel_of(name) + " struct {\n"@ + record_members_decl_text(
        r.members,
        r.members.len() as int,
    ) + "}\n\nfunc (v *wasi"@ + camel_of(name) + ") layout() (uint32, uint32) {\n    return "@
        + dec_of(record_size(r)) + ", "@ + dec_of(record_align(r)) + "\n}\n\nfunc (v *wasi"@
        + camel_of(name) + ") store(mem *exec.Memory, addr, offset uint32) {\n    base := addr + offset\n"@
}

/// The store routine of a plain record and the head of its load routine.
pub open spec fn record_store_sec_text(name: Seq<char>, r: RecordV) -> Seq<char> {
    record_members_store_text(r.members, r.members.len() as int) + "}\n\nfunc (v *wasi"@
        + camel_of(name) + ") load(mem *exec.Memory, addr, offset uint32) {\n    base := addr + offset\n"@
}

pub open spec fn record_load_sec_text(r: RecordV) -> Seq<char> {
    record_members_load_text(r.members, r.members.len() as int) + "}\n\n"@
}

pub open spec fn record_struct_text(name: Seq<char>, r: RecordV) -> Seq<char> {
    record_head_text(name, r) + record_store_sec_text(name, r) + record_load_sec_text(r)
}

pub open spec fn record_text(name: Seq<char>, r: RecordV) -> Seq<char> {
    if r.kind is Bitflags {
        bitflags_text(name, r)
    } else {
        record_struct_text(name, r)
    }
}

/// The packed integer alias and one `1 << i` constant per member.
#[verifier::rlimit(40)]
fn print_record_bitflags(ret: &mut String, name: &str, s: &RecordDatatype)
    requires
        s.dv().kind is Bitflags,
    ensures
        final(ret)@ == old(ret)@ + bitflags_text(name@, s.dv()),
{
    let ghost ms = s.dv().members;
    proof {
        lemma_members_dv(s.members@);
    }
    let e = export_ident_name(name);
    let repr = bitflags_repr_for(s.members.len());
    ret.append("type wasi");
    ret.append(e.as_str());
    ret.append(" = ");
    ret.append(intrepr_name(repr));
    ret.append("\n");
    let ghost mid = ret@;
    let n = s.members.len();
    for i in 0..n
        invariant
            n == s.members.len(),
            ms == s.dv().members,
            ms.len() == n,
            forall|k: int| 0 <= k < n ==> ms[k] == s.members@[k].dv(),
            e@ == camel_of(name@),
            ret@ == mid + bitflags_consts_text(name@, ms, i as int),
        decreases n - i,
    {
        push_doc_lines(ret, &s.members[i].docs, "");
        ret.append("const wasi");
        ret.append(e.as_str());
        let me = export_ident_name(s.members[i].name.as_str());
        ret.append(me.as_str());
        ret.append(" = 1 << ");
        push_dec_usize(ret, i);
        ret.append("\n");
        proof {
            assert(ret@ =~= mid + bitflags_consts_text(name@, ms, i + 1));
        }
    }
    ret.append("\n");
}

/// The doc-commented field declaration lines of a plain record.
fn print_record_decls(ret: &mut String, s: &RecordDatatype)
    requires
        crate::valid::record_print_ok(s.dv()),
        !(s.dv().kind is Bitflags),
    ensures
        final(ret)@ == old(ret)@ + record_members_decl_text(
            s.dv().members,
            s.dv().members.len() as int,
        ),
{
    let ghost ms = s.dv().members;
    proof {
        lemma_members_dv(s.members@);
    }
    let n = s.members.len();
    for i in 0..n
        invariant
            n == s.members.len(),
            ms == s.dv().members,
            ms.len() == n,
            forall|k: int| 0 <= k < n ==> ms[k] == s.members@[k].dv(),
            forall|k: int| 0 <= k < n ==> member_ok(#[trigger] ms[k]),
            ret@ == old(ret)@ + record_members_decl_text(ms, i as int),
        decreases n - i,
    {
        proof {
            assert(ms[i as int].tref == s.members@[i as int].tref.dv());
        }
        push_doc_lines(ret, &s.members[i].docs, "\t");
        ret.append("\t");
        let id = ident_name(s.members[i].name.as_str());
        ret.append(id.as_str());
        ret.append(" ");
        let tn = typeref_name(&s.members[i].tref);
        ret.append(tn.as_str());
        ret.append("\n");
    }
}

/// The store (or load) statements of a plain record, one member per line at
/// its layout offset.
fn print_record_accesses(ret: &mut String, s: &RecordDatatype, is_store: bool)
    requires
        crate::valid::record_print_ok(s.dv()),
        !(s.dv().kind is Bitflags),
    ensures
        final(ret)@ == old(ret)@ + if is_store {
            record_members_store_text(s.dv().members, s.dv().members.len() as int)
        } else {
            record_members_load_text(s.dv().members, s.dv().members.len() as int)
        },
{
    let ghost ms = s.dv().members;
    proof {
        lemma_members_dv(s.members@);
    }
    let offsets = s.member_layout();
    let n = s.members.len();
    for i in 0..n
        invariant
            n == s.members.len(),
            ms == s.dv().members,
            ms.len() == n,
            forall|k: int| 0 <= k < n ==> ms[k] == s.members@[k].dv(),
            forall|k: int| 0 <= k < n ==> member_ok(#[trigger] ms[k]),
            offsets.len() == n,
            forall|k: int| 0 <= k < n ==> offsets[k] == member_offset(ms, k),
            ret@ == old(ret)@ + if is_store {
                record_members_store_text(ms, i as int)
            } else {
                record_members_load_text(ms, i as int)
            },
        decreases n - i,
    {
        proof {
            assert(ms[i as int].tref == s.members@[i as int].tref.dv());
            assert(ms[i as int].name == s.members@[i as int].name@);
        }
        let mut value = String::from_str("v.");
        let id = ident_name(s.members[i].name.as_str());
        value.append(id.as_str());
        if is_store {
            print_store(ret, &s.members[i].tref, "mem", value.as_str(), "base", offsets[i]);
        } else {
            print_load(ret, &s.members[i].tref, "mem", value.as_str(), "base", offsets[i]);
        }
    }
}

/// A record declaration: a bitflags record becomes the packed integer alias
/// and one constant per member; a plain record becomes a struct with layout,
/// store and load routines over its member offsets.
#[verifier::rlimit(100)]
pub fn print_record(ret: &mut String, name: &str, s: &RecordDatatype)
    requires
        crate::valid::record_print_ok(s.dv()),
    ensures
        final(ret)@ == old(ret)@ + record_text(name@, s.dv()),
{
    proof {
        lemma_members_dv(s.members@);
    }
    if matches!(s.kind, RecordKind::Bitflags) {
        print_record_bitflags(ret, name, s);
        return ;
    }
    print_record_head(ret, name, s);
    print_record_store_sec(ret, name, s);
    print_record_accesses(ret, s, false);
    ret.append("}\n\n");
    proof {
        let o = old(ret)@;
        let h = record_head_text(name@, s.dv());
        let st = record_store_sec_text(name@, s.dv());
        let lda = record_members_load_text(s.dv().members, s.dv().members.len() as int);
        let tail = "}\n\n"@;
        assert((o + h) + st =~= o + (h + st));
        assert((o + (h + st)) + lda =~= o + ((h + st) + lda));
        assert((o + ((h + st) + lda)) + tail =~= o + (((h + st) + lda) + tail));
        assert(record_load_sec_text(s.dv()) == lda + tail);
        assert(((h + st) + lda) + tail =~= h + st + (lda + tail));
    }
}

#[verifier::rlimit(100)]
fn print_record_head(ret: &mut String, name: &str, s: &RecordDatatype)
    requires
        crate::valid::record_print_ok(s.dv()),
        !(s.dv().kind is Bitflags),
    ensures
        final(ret)@ == old(ret)@ + record_head_text(name@, s.dv()),
{
    let e = export_ident_name(name);
    ret.append("type wasi");
    ret.append(e.as_str());
    ret.append(" struct {\n");
    print_record_decls(ret, s);
    let (size, align) = s.mem_size_align();
    ret.append("}\n\nfunc (v *wasi");
    ret.append(e.as_str());
    ret.append(") layout() (uint32, uint32) {\n    return ");
    push_dec_usize(ret, size);
    ret.append(", ");
    push_dec_usize(ret, align);
    ret.append("\n}\n\nfunc (v *wasi");
    ret.append(e.as_str());
    ret.append(") store(mem *exec.Memory, addr, offset uint32) {\n    base := addr + offset\n");
    proof {
        assert(ret@ =~= old(ret)@ + record_head_text(name@, s.dv()));
    }
}

#[verifier::rlimit(100)]
fn print_record_store_sec(ret: &mut String, name: &str, s: &RecordDatatype)
    requires
        crate::valid::record_print_ok(s.dv()),
        !(s.dv().kind is Bitflags),
    ensures
        final(ret)@ == old(ret)@ + record_store_sec_text(name@, s.dv()),
{
    let e = export_ident_name(name);
    print_record_accesses(ret, s, true);
    ret.append("}\n\nfunc (v *wasi");
    ret.append(e.as_str());
    ret.append(") load(mem *exec.Memory, addr, offset uint32) {\n    base := addr + offset\n");
    proof {
        assert(ret@ =~= old(ret)@ + record_store_sec_text(name@, s.dv()));
    }
}

} // verus!

verus! {

// ---------------------------------------------------------------------------
// Variants
// ---------------------------------------------------------------------------

/// The field declaration lines of a tagged union: one per payload-carrying
/// case.
pub open spec fn variant_cases_decl_text(cs: Seq<CaseV>, n: int) -> Seq<char>
    decreases n,
{
    if n <= 0 {
        Seq::empty()
    } else {
        variant_cases_decl_text(cs, n - 1) + match cs[n - 1].tref {
            Some(p) => doc_lines_text(cs[n - 1].docs, "\t"@) + "\t"@ + ident_of(cs[n - 1].name)
                + " "@ + typeref_name_of(p) + "\n"@,
            None => Seq::empty(),
        }
    }
}

/// The switch arms of a variant's store routine: each case writes only its
/// own payload, at the payload offset.
pub open spec fn variant_cases_store_text(tag: crate::ast::IntRepr, cs: Seq<CaseV>, n: int) -> Seq<
    char,
>
    decreases n,
{
    if n <= 0 {
        Seq::empty()
    } else {
        variant_cases_store_text(tag, cs, n - 1) + "\tcase "@ + dec_of((n - 1) as nat) + ":\n"@
            + match cs[n - 1].tref {
            Some(p) => store_text(
                p,
                "mem"@,
                "v."@ + ident_of(cs[n - 1].name),
                "base"@,
                payload_offset(tag, p),
            ),
            None => Seq::empty(),
        }
    }
}

pub open spec fn variant_cases_load_text(tag: crate::ast::IntRepr, cs: Seq<CaseV>, n: int) -> Seq<
    char,
>
    decreases n,
{
    if n <= 0 {
        Seq::empty()
    } else {
        variant_cases_load_text(tag, cs, n - 1) + "\tcase "@ + dec_of((n - 1) as nat) + ":\n"@
            + match cs[n - 1].tref {
            Some(p) => load_text(
                p,
                "mem"@,
                "v."@ + ident_of(cs[n - 1].name),
                "base"@,
                payload_offset(tag, p),
            ),
            None => Seq::empty(),
        }
    }
}

/// The struct declaration and layout routine of a tagged union.
pub open spec fn variant_head_text(name: Seq<char>, v: VariantV) -> Seq<char> {
    "type wasi"@ + camel_of(name) + " struct {\n"@ + "\ttag "@ + intrepr_name_of(v.tag_repr)
        + "\n\n"@ + variant_cases_decl_text(v.cases, v.cases.len() as int)
        + "}\n\nfunc (v *wasi"@ + camel_of(name) + ") layout() (uint32, uint32) {\n    return "@
        + dec_of(crate::layout::variant_size(v)) + ", "@ + dec_of(crate::layout::variant_align(v))
        + "\n}\n\nfunc (v *wasi"@ + camel_of(name)
        + ") store(mem *exec.Memory, addr, offset uint32) {\n    base := addr + offset\n"@
}

/// The store routine of a tagged union: the tag first, then a switch writing
/// only the active case's payload.
pub open spec fn variant_store_sec_text(name: Seq<char>, v: VariantV) -> Seq<char> {
    sized_store_text(intrepr_mem_size(v.tag_repr), "mem"@, "v.tag"@, "base"@, 0)
        + "\tswitch v.tag {\n"@ + variant_cases_store_text(v.tag_repr, v.cases, v.cases.len() as int)
        + "   }\n}\n\nfunc (v *wasi"@ + camel_of(name)
        + ") load(mem *exec.Memory, addr, offset uint32) {\n    base := addr + offset\n"@
}

/// The mirrored load routine.
pub open spec fn variant_load_sec_text(v: VariantV) -> Seq<char> {
    typed_load_text(
        intrepr_name_of(v.tag_repr),
        intrepr_mem_size(v.tag_repr),
        "mem"@,
        "v.tag"@,
        "base"@,
        0,
    ) + "\tswitch v.tag {\n"@ + variant_cases_load_text(v.tag_repr, v.cases, v.cases.len() as int)
        + "    }\n}\n\n"@
}

pub open spec fn variant_struct_text(name: Seq<char>, v: VariantV) -> Seq<char> {
    variant_head_text(name, v) + variant_store_sec_text(name, v) + variant_load_sec_text(v)
}

/// A variant declaration: an enum collapses to its tag, anything else becomes
/// a tagged struct whose store and load handle the tag first and then switch
/// on it.
pub open spec fn variant_text(name: Seq<char>, v: VariantV) -> Seq<char> {
    if v.is_enum() {
        enum_text(name, v)
    } else {
        variant_struct_text(name, v)
    }
}

/// The doc-commented payload field declarations of a tagged union.
#[verifier::rlimit(80)]
fn print_variant_decls(ret: &mut String, v: &Variant)
    requires
        crate::valid::variant_print_ok(v.dv()),
        !v.dv().is_enum(),
    ensures
        final(ret)@ == old(ret)@ + variant_cases_decl_text(v.dv().cases, v.dv().cases.len() as int),
{
    let ghost cs = v.dv().cases;
    proof {
        lemma_cases_dv(v.cases@);
    }
    let n = v.cases.len();
    for i in 0..n
        invariant
            n == v.cases.len(),
            cs == v.dv().cases,
            cs.len() == n,
            forall|k: int| 0 <= k < n ==> cs[k] == v.cases@[k].dv(),
            forall|k: int|
                0 <= k < n ==> match (#[trigger] cs[k]).tref {
                    Some(p) => nameable_tref(p) && storable_tref(p),
                    None => true,
                },
            ret@ == old(ret)@ + variant_cases_decl_text(cs, i as int),
        decreases n - i,
    {
        if let Some(tref) = &v.cases[i].tref {
            proof {
                assert(cs[i as int].tref == Some(tref.dv()));
                assert(cs[i as int].name == v.cases@[i as int].name@);
            }
            push_doc_lines(ret, &v.cases[i].docs, "\t");
            ret.append("\t");
            let id = ident_name(v.cases[i].name.as_str());
            ret.append(id.as_str());
            ret.append(" ");
            let tn = typeref_name(tref);
            ret.append(tn.as_str());
            ret.append("\n");
        }
        proof {
            assert(ret@ =~= old(ret)@ + variant_cases_decl_text(cs, i + 1));
        }
    }
}

/// One switch arm: the case label, and the active payload's access if the
/// case carries one.
#[verifier::rlimit(100)]
fn print_variant_case_access(
    ret: &mut String,
    tag_size: usize,
    idx: usize,
    case: &Case,
    is_store: bool,
)
    requires
        tag_size == intrepr_mem_size(spec_tag_of(tag_size)),
        match case.dv().tref {
            Some(p) => nameable_tref(p) && storable_tref(p) && layout_ok_tref(p),
            None => true,
        },
    ensures
        final(ret)@ == old(ret)@ + "\tcase "@ + dec_of(idx as nat) + ":\n"@ + (match case.dv().tref {
            Some(p) => if is_store {
                store_text(p, "mem"@, "v."@ + ident_of(case.dv().name), "base"@, payload_offset(
                    spec_tag_of(tag_size),
                    p,
                ))
            } else {
                load_text(p, "mem"@, "v."@ + ident_of(case.dv().name), "base"@, payload_offset(
                    spec_tag_of(tag_size),
                    p,
                ))
            },
            None => Seq::empty(),
        }),
{
    ret.append("\tcase ");
    push_dec_usize(ret, idx);
    ret.append(":\n");
    if let Some(payload) = &case.tref {
        proof {
            crate::layout::lemma_align_range_tref(payload.dv());
        }
        let pal = payload.mem_align();
        let offset = align_to(tag_size, pal);
        let mut value = String::from_str("v.");
        let id = ident_name(case.name.as_str());
        value.append(id.as_str());
        if is_store {
            print_store(ret, payload, "mem", value.as_str(), "base", offset);
        } else {
            print_load(ret, payload, "mem", value.as_str(), "base", offset);
        }
        proof {
            assert(ret@ =~= old(ret)@ + "\tcase "@ + dec_of(idx as nat) + ":\n"@ + (if is_store {
                store_text(payload.dv(), "mem"@, "v."@ + ident_of(case.dv().name), "base"@,
                    payload_offset(spec_tag_of(tag_size), payload.dv()))
            } else {
                load_text(payload.dv(), "mem"@, "v."@ + ident_of(case.dv().name), "base"@,
                    payload_offset(spec_tag_of(tag_size), payload.dv()))
            }));
        }
    }
}

/// The tag width written back as a tag representation; the widths are
/// distinct, so this inverts the width function on its range.
pub open spec fn spec_tag_of(tag_size: usize) -> crate::ast::IntRepr {
    if tag_size == 1 {
        crate::ast::IntRepr::U8
    } else if tag_size == 2 {
        crate::ast::IntRepr::U16
    } else if tag_size == 4 {
        crate::ast::IntRepr::U32
    } else {
        crate::ast::IntRepr::U64
    }
}

/// The switch arms writing only the active case's payload.
#[verifier::rlimit(100)]
fn print_variant_stores(ret: &mut String, v: &Variant)
    requires
        crate::valid::variant_print_ok(v.dv()),
        !v.dv().is_enum(),
    ensures
        final(ret)@ == old(ret)@ + variant_cases_store_text(
            v.dv().tag_repr,
            v.dv().cases,
            v.dv().cases.len() as int,
        ),
{
    let ghost cs = v.dv().cases;
    let ghost tag = v.dv().tag_repr;
    proof {
        lemma_cases_dv(v.cases@);
    }
    let tag_size = v.tag_repr.mem_size();
    let n = v.cases.len();
    for i in 0..n
        invariant
            n == v.cases.len(),
            cs == v.dv().cases,
            tag == v.dv().tag_repr,
            tag_size == intrepr_mem_size(tag),
            tag == spec_tag_of(tag_size),
            cs.len() == n,
            forall|k: int| 0 <= k < n ==> cs[k] == v.cases@[k].dv(),
            forall|k: int|
                0 <= k < n ==> match (#[trigger] cs[k]).tref {
                    Some(p) => nameable_tref(p) && storable_tref(p) && layout_ok_tref(p),
                    None => true,
                },
            ret@ == old(ret)@ + variant_cases_store_text(tag, cs, i as int),
        decreases n - i,
    {
        proof {
            assert(cs[i as int] == v.cases@[i as int].dv());
        }
        print_variant_case_access(ret, tag_size, i, &v.cases[i], true);
        proof {
            assert(ret@ =~= old(ret)@ + variant_cases_store_text(tag, cs, i + 1));
        }
    }
}

/// The switch arms reading only the active case's payload.
#[verifier::rlimit(100)]
fn print_variant_loads(ret: &mut String, v: &Variant)
    requires
        crate::valid::variant_print_ok(v.dv()),
        !v.dv().is_enum(),
    ensures
        final(ret)@ == old(ret)@ + variant_cases_load_text(
            v.dv().tag_repr,
            v.dv().cases,
            v.dv().cases.len() as int,
        ),
{
    let ghost cs = v.dv().cases;
    let ghost tag = v.dv().tag_repr;
    proof {
        lemma_cases_dv(v.cases@);
    }
    let tag_size = v.tag_repr.mem_size();
    let n = v.cases.len();
    for i in 0..n
        invariant
            n == v.cases.len(),
            cs == v.dv().cases,
            tag == v.dv().tag_repr,
            tag_size == intrepr_mem_size(tag),
            tag == spec_tag_of(tag_size),
            cs.len() == n,
            forall|k: int| 0 <= k < n ==> cs[k] == v.cases@[k].dv(),
            forall|k: int|
                0 <= k < n ==> match (#[trigger] cs[k]).tref {
                    Some(p) => nameable_tref(p) && storable_tref(p) && layout_ok_tref(p),
                    None => true,
                },
            ret@ == old(ret)@ + variant_cases_load_text(tag, cs, i as int),
        decreases n - i,
    {
        proof {
            assert(cs[i as int] == v.cases@[i as int].dv());
        }
        print_variant_case_access(ret, tag_size, i, &v.cases[i], false);
        proof {
            assert(ret@ =~= old(ret)@ + variant_cases_load_text(tag, cs, i + 1));
        }
    }
}

/// The struct declaration and layout routine of a tagged union.
#[verifier::rlimit(80)]
fn print_variant_head(ret: &mut String, name: &str, v: &Variant)
    requires
        crate::valid::variant_print_ok(v.dv()),
        !v.dv().is_enum(),
    ensures
        final(ret)@ == old(ret)@ + variant_head_text(name@, v.dv()),
{
    let e = export_ident_name(name);
    ret.append("type wasi");
    ret.append(e.as_str());
    ret.append(" struct {\n");
    ret.append("\ttag ");
    ret.append(intrepr_name(v.tag_repr));
    ret.append("\n\n");
    print_variant_decls(ret, v);
    let (size, align) = v.mem_size_align();
    ret.append("}\n\nfunc (v *wasi");
    ret.append(e.as_str());
    ret.append(") layout() (uint32, uint32) {\n    return ");
    push_dec_usize(ret, size);
    ret.append(", ");
    push_dec_usize(ret, align);
    ret.append("\n}\n\nfunc (v *wasi");
    ret.append(e.as_str());
    ret.append(") store(mem *exec.Memory, addr, offset uint32) {\n    base := addr + offset\n");
    proof {
        assert(ret@ =~= old(ret)@ + variant_head_text(name@, v.dv()));
    }
}

/// The store routine of a tagged union and the head of its load routine.
#[verifier::rlimit(80)]
fn print_variant_store_sec(ret: &mut String, name: &str, v: &Variant)
    requires
        crate::valid::variant_print_ok(v.dv()),
        !v.dv().is_enum(),
    ensures
        final(ret)@ == old(ret)@ + variant_store_sec_text(name@, v.dv()),
{
    let e = export_ident_name(name);
    print_sized_store(ret, v.tag_repr.mem_size(), "mem", "v.tag", "base", 0);
    ret.append("\tswitch v.tag {\n");
    print_variant_stores(ret, v);
    ret.append("   }\n}\n\nfunc (v *wasi");
    ret.append(e.as_str());
    ret.append(") load(mem *exec.Memory, addr, offset uint32) {\n    base := addr + offset\n");
    proof {
        assert(ret@ =~= old(ret)@ + variant_store_sec_text(name@, v.dv()));
    }
}

/// The body of a tagged union's load routine.
#[verifier::rlimit(80)]
fn print_variant_load_sec(ret: &mut String, v: &Variant)
    requires
        crate::valid::variant_print_ok(v.dv()),
        !v.dv().is_enum(),
    ensures
        final(ret)@ == old(ret)@ + variant_load_sec_text(v.dv()),
{
    let tname = intrepr_name(v.tag_repr);
    print_typed_load(ret, tname, v.tag_repr.mem_size(), "mem", "v.tag", "base", 0);
    ret.append("\tswitch v.tag {\n");
    print_variant_loads(ret, v);
    ret.append("    }\n}\n\n");
    proof {
        assert(ret@ =~= old(ret)@ + variant_load_sec_text(v.dv()));
    }
}

/// A variant declaration, dispatching enums to the enum form.
pub fn print_variant(ret: &mut String, name: &str, v: &Variant)
    requires
        crate::valid::variant_print_ok(v.dv()),
    ensures
        final(ret)@ == old(ret)@ + variant_text(name@, v.dv()),
{
    if v.is_enum() {
        print_enum(ret, name, v);
        return ;
    }
    print_variant_head(ret, name, v);
    print_variant_store_sec(ret, name, v);
    print_variant_load_sec(ret, v);
    proof {
        let o = old(ret)@;
        let h = variant_head_text(name@, v.dv());
        let st = variant_store_sec_text(name@, v.dv());
        let ld = variant_load_sec_text(v.dv());
        assert((o + h) + st =~= o + (h + st));
        assert((o + (h + st)) + ld =~= o + ((h + st) + ld));
    }
}

} // verus!

verus! {

// ---------------------------------------------------------------------------
// Lists
// ---------------------------------------------------------------------------

/// The stride of a list: the element size rounded up to the element
/// alignment.
pub open spec fn element_stride(e: TypeRefV) -> nat {
    spec_align_to(tref_size(e), tref_align(e))
}

pub open spec fn list_head_text(name: Seq<char>, e: TypeRefV) -> Seq<char> {
    "type wasi"@ + camel_of(name) + " list\n\nfunc (v *wasi"@ + camel_of(name)
        + ") elementSize() uint32 {\n    return "@ + dec_of(element_stride(e))
        + "\n}\n\nfunc (l *wasi"@ + camel_of(name)
        + ") storeIndex(mem *exec.Memory, index int, value "@ + typeref_name_of(e)
        + ") {\n    addr := uint32(l.pointer) + "@ + dec_of(element_stride(e))
        + " * uint32(index)\n"@
}

pub open spec fn list_mid_text(name: Seq<char>, e: TypeRefV) -> Seq<char> {
    "}\n\nfunc (l *wasi"@ + camel_of(name) + ") loadIndex(mem *exec.Memory, index int) "@
        + typeref_name_of(e) + " {\n    var value "@ + typeref_name_of(e)
        + "\n    addr := uint32(l.pointer) + uint32(index) * "@ + dec_of(element_stride(e))
        + "\n"@
}

/// A list declaration: an opaque list type, an element-size accessor, and
/// indexed store/load over `base + index * element_size`.
pub open spec fn list_text(name: Seq<char>, e: TypeRefV) -> Seq<char> {
    list_head_text(name, e) + store_text(e, "mem"@, "value"@, "addr"@, 0) + list_mid_text(name, e)
        + load_text(e, "mem"@, "value"@, "addr"@, 0) + "    return value\n}\n\n"@
}

#[verifier::rlimit(80)]
fn print_list_head(ret: &mut String, name: &str, element: &TypeRef)
    requires
        crate::valid::list_print_ok(element.dv()),
    ensures
        final(ret)@ == old(ret)@ + list_head_text(name@, element.dv()),
{
    proof {
        crate::layout::lemma_align_range_tref(element.dv());
        crate::layout::lemma_tref_size_bound(element.dv());
    }
    let (esz, eal) = element.mem_size_align();
    let element_size = align_to(esz, eal);
    let e = export_ident_name(name);
    let ename = typeref_name(element);
    ret.append("type wasi");
    ret.append(e.as_str());
    ret.append(" list\n\nfunc (v *wasi");
    ret.append(e.as_str());
    ret.append(") elementSize() uint32 {\n    return ");
    push_dec_usize(ret, element_size);
    ret.append("\n}\n\nfunc (l *wasi");
    ret.append(e.as_str());
    ret.append(") storeIndex(mem *exec.Memory, index int, value ");
    ret.append(ename.as_str());
    ret.append(") {\n    addr := uint32(l.pointer) + ");
    push_dec_usize(ret, element_size);
    ret.append(" * uint32(index)\n");
    proof {
        assert(ret@ =~= old(ret)@ + list_head_text(name@, element.dv()));
    }
}

#[verifier::rlimit(80)]
fn print_list_mid(ret: &mut String, name: &str, element: &TypeRef)
    requires
        crate::valid::list_print_ok(element.dv()),
    ensures
        final(ret)@ == old(ret)@ + list_mid_text(name@, element.dv()),
{
    proof {
        crate::layout::lemma_align_range_tref(element.dv());
        crate::layout::lemma_tref_size_bound(element.dv());
    }
    let (esz, eal) = element.mem_size_align();
    let element_size = align_to(esz, eal);
    let e = export_ident_name(name);
    let ename = typeref_name(element);
    ret.append("}\n\nfunc (l *wasi");
    ret.append(e.as_str());
    ret.append(") loadIndex(mem *exec.Memory, index int) ");
    ret.append(ename.as_str());
    ret.append(" {\n    var value ");
    ret.append(ename.as_str());
    ret.append("\n    addr := uint32(l.pointer) + uint32(index) * ");
    push_dec_usize(ret, element_size);
    ret.append("\n");
    proof {
        assert(ret@ =~= old(ret)@ + list_mid_text(name@, element.dv()));
    }
}

pub fn print_list(ret: &mut String, name: &str, element: &TypeRef)
    requires
        crate::valid::list_print_ok(element.dv()),
    ensures
        final(ret)@ == old(ret)@ + list_text(name@, element.dv()),
{
    print_list_head(ret, name, element);
    print_store(ret, element, "mem", "value", "addr", 0);
    print_list_mid(ret, name, element);
    print_load(ret, element, "mem", "value", "addr", 0);
    ret.append("    return value\n}\n\n");
    proof {
        let o = old(ret)@;
        let a = list_head_text(name@, element.dv());
        let b = store_text(element.dv(), "mem"@, "value"@, "addr"@, 0);
        let c = list_mid_text(name@, element.dv());
        let d = load_text(element.dv(), "mem"@, "value"@, "addr"@, 0);
        let e = "    return value\n}\n\n"@;
        assert((o + a) + b =~= o + (a + b));
        assert((o + (a + b)) + c =~= o + ((a + b) + c));
        assert((o + ((a + b) + c)) + d =~= o + (((a + b) + c) + d));
        assert((o + (((a + b) + c) + d)) + e =~= o + ((((a + b) + c) + d) + e));
    }
}

// ---------------------------------------------------------------------------
// Named type declarations
// ---------------------------------------------------------------------------

pub open spec fn datatype_decl_text(nt: NamedTypeV) -> Seq<char> {
    match nt.tref {
        TypeRefV::Value(ty) => match *ty {
            TypeV::Record(r) => record_text(nt.name, r),
            TypeV::Variant(v) => variant_text(nt.name, v),
            TypeV::List(e) => list_text(nt.name, *e),
            _ => alias_text(nt.name, nt.tref),
        },
        TypeRefV::Name(_) => alias_text(nt.name, nt.tref),
    }
}

/// A named type declaration, preceded by its documentation.
pub open spec fn datatype_text(nt: NamedTypeV) -> Seq<char> {
    doc_lines_text(nt.docs, ""@) + datatype_decl_text(nt)
}

#[verifier::rlimit(100)]
pub fn print_datatype(ret: &mut String, nt: &NamedType)
    requires
        datatype_ok(nt.dv()),
    ensures
        final(ret)@ == old(ret)@ + datatype_text(nt.dv()),
{
    push_doc_lines(ret, &nt.docs, "");
    match &nt.tref {
        TypeRef::Value(v) => match &**v {
            Type::Record(s) => print_record(ret, nt.name.as_str(), s),
            Type::Variant(v) => print_variant(ret, nt.name.as_str(), v),
            Type::List(l) => print_list(ret, nt.name.as_str(), l),
            Type::Builtin(_) | Type::Pointer(_) | Type::ConstPointer(_) | Type::Handle => {
                print_alias(ret, nt.name.as_str(), &nt.tref)
            },
        },
        TypeRef::Name(_) => print_alias(ret, nt.name.as_str(), &nt.tref),
    }
    proof {
        let o = old(ret)@;
        let d = doc_lines_text(nt.dv().docs, ""@);
        let b = datatype_decl_text(nt.dv());
        assert(ret@ == (o + d) + b);
        assert((o + d) + b =~= o + (d + b));
    }
}

} // verus!
