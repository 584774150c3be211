//! The module and function composer: per-module, per-function emission
//! order, implementation stubs, ABI adapters, and the name-to-adapter
//! dispatch table.
use vstd::prelude::*;

use crate::ast::{Constant, Document, GenError, GenErrorV, Generated, InterfaceFunc, Module,
    ModuleImport, ModuleImportVariant, NamedType, Param, Type, TypeRef, TypeRefV, TypeV, WasmType};
use crate::emit::{constant_text, datatype_text, doc_lines_text, print_constant, print_datatype,
    push_doc_lines};
use crate::lower::{empty_state, new_state, run_instrs, spec_run, StateV};
use crate::names::{camel_of, export_ident_name, ident_name, ident_of, intrepr_name_of,
    nameable_tref, str_eq, typeref_name, typeref_name_of, wasm_type, wasm_type_name_of};
use crate::text::{dec_of, push_dec_usize};
use crate::valid::{doc_ok, expected_ok, func_ok, module_ok, result_ok};

verus! {

// ---------------------------------------------------------------------------
// Implementation stubs
// ---------------------------------------------------------------------------

/// The stub's parameter list: `p<name> <type>`, comma separated.
pub open spec fn stub_params_text(ps: Seq<Param>, n: int) -> Seq<char>
    decreases n,
{
    if n <= 0 {
        Seq::empty()
    } else {
        stub_params_text(ps, n - 1) + (if n > 1 {
            ", "@
        } else {
            Seq::empty()
        }) + "p"@ + ident_of(ps[n - 1].name@) + " "@ + typeref_name_of(ps[n - 1].tref.dv())
    }
}

/// The named returns of a stub whose ok payload is a positional record:
/// `r<i> <type>, ` for each member.
pub open spec fn stub_tuple_results_text(ms: Seq<crate::ast::MemberV>, n: int) -> Seq<char>
    decreases n,
{
    if n <= 0 {
        Seq::empty()
    } else {
        stub_tuple_results_text(ms, n - 1) + "r"@ + dec_of((n - 1) as nat) + " "@
            + typeref_name_of(ms[n - 1].tref) + ", "@
    }
}

/// Whether a result type is an inline positional record, exposing its
/// members.
pub open spec fn as_tuple_v(t: TypeRefV) -> Option<Seq<crate::ast::MemberV>> {
    match t {
        TypeRefV::Value(ty) => match *ty {
            TypeV::Record(r) => if r.is_tuple() {
                Some(r.members)
            } else {
                None
            },
            _ => None,
        },
        _ => None,
    }
}

/// The declared result list of a stub: ok/err temporaries for a
/// result-shaped variant, one value for a plain enum.
pub open spec fn stub_results_text(f: InterfaceFunc) -> Seq<char> {
    if f.results@.len() == 0 {
        Seq::empty()
    } else {
        let t = f.results@[0].tref.dv();
        match t.resolved() {
            TypeV::Variant(v) => if !v.is_enum() {
                let err = v.cases[1].tref->Some_0;
                " ("@ + (match v.cases[0].tref {
                    Some(ok) => (match as_tuple_v(ok) {
                        Some(ms) => stub_tuple_results_text(ms, ms.len() as int),
                        None => "rv "@ + typeref_name_of(ok) + ", "@,
                    }) + "err "@ + typeref_name_of(err),
                    None => "err "@ + typeref_name_of(err),
                }) + ")"@
            } else {
                "(rv "@ + typeref_name_of(t) + ")"@
            },
            _ => Seq::empty(),
        }
    }
}

/// A stub declaration: the doc comment, one parameter per declared
/// parameter, the named result convention, and an empty body.
pub open spec fn func_stub_text(f: InterfaceFunc, module_name: Seq<char>) -> Seq<char> {
    doc_lines_text(f.docs.deep_view(), ""@) + "func (m *"@ + ident_of(module_name) + "Impl) "@
        + ident_of(f.name@) + "("@ + stub_params_text(f.params@, f.params@.len() as int) + ")"@
        + stub_results_text(f) + " {\n    return\n}\n\n"@
}

fn print_stub_params(ret: &mut String, f: &InterfaceFunc)
    requires
        func_ok(*f),
    ensures
        final(ret)@ == old(ret)@ + stub_params_text(f.params@, f.params@.len() as int),
{
    let n = f.params.len();
    for i in 0..n
        invariant
            n == f.params@.len(),
            func_ok(*f),
            ret@ == old(ret)@ + stub_params_text(f.params@, i as int),
        decreases n - i,
    {
        if i > 0 {
            ret.append(", ");
        }
        ret.append("p");
        let id = ident_name(f.params[i].name.as_str());
        ret.append(id.as_str());
        ret.append(" ");
        proof {
            assert(crate::valid::param_ok(f.params@[i as int]));
        }
        let tn = typeref_name(&f.params[i].tref);
        ret.append(tn.as_str());
        proof {
            assert(ret@ =~= old(ret)@ + stub_params_text(f.params@, i + 1));
        }
    }
}

/// The named returns of a result whose ok payload is a positional record.
fn print_stub_tuple_results(ret: &mut String, rec: &crate::ast::RecordDatatype)
    requires
        forall|i: int|
            0 <= i < rec.dv().members.len() ==> nameable_tref(
                (#[trigger] rec.dv().members[i]).tref,
            ),
    ensures
        final(ret)@ == old(ret)@ + stub_tuple_results_text(
            rec.dv().members,
            rec.dv().members.len() as int,
        ),
{
    proof {
        crate::ast::lemma_members_dv(rec.members@);
    }
    let ghost ms = rec.dv().members;
    let n = rec.members.len();
    for i in 0..n
        invariant
            n == rec.members.len(),
            ms == rec.dv().members,
            ms.len() == n,
            forall|k: int| 0 <= k < n ==> ms[k] == rec.members@[k].dv(),
            forall|k: int| 0 <= k < n ==> nameable_tref((#[trigger] ms[k]).tref),
            ret@ == old(ret)@ + stub_tuple_results_text(ms, i as int),
        decreases n - i,
    {
        ret.append("r");
        push_dec_usize(ret, i);
        ret.append(" ");
        proof {
            assert(ms[i as int].tref == rec.members@[i as int].tref.dv());
        }
        let tn = typeref_name(&rec.members[i].tref);
        ret.append(tn.as_str());
        ret.append(", ");
        proof {
            assert(ret@ =~= old(ret)@ + stub_tuple_results_text(ms, i + 1));
        }
    }
}

/// A stub declaration in the implementation record.
#[verifier::rlimit(100)]
pub fn print_func_stub(ret: &mut String, f: &InterfaceFunc, module_name: &str) -> (r: Result<
    (),
    GenError,
>)
    requires
        func_ok(*f),
    ensures
        (match r {
            Ok(_) => f.results@.len() <= 1 && final(ret)@ == old(ret)@ + func_stub_text(
                *f,
                module_name@,
            ),
            Err(e) => f.results@.len() > 1 && e.dv() == GenErrorV::TooManyResults,
        }),
{
    if f.results.len() > 1 {
        return Err(GenError::TooManyResults);
    }
    push_doc_lines(ret, &f.docs, "");
    ret.append("func (m *");
    let mid = ident_name(module_name);
    ret.append(mid.as_str());
    ret.append("Impl) ");
    let fid = ident_name(f.name.as_str());
    ret.append(fid.as_str());
    ret.append("(");
    print_stub_params(ret, f);
    ret.append(")");
    if f.results.len() == 1 {
        let tref = &f.results[0].tref;
        proof {
            assert(result_ok(f.results@[0].tref.dv()));
        }
        match tref.type_() {
            Type::Variant(v) => {
                let ghost vv = v.dv();
                proof {
                    crate::ast::lemma_cases_dv(v.cases@);
                }
                if !v.is_enum() {
                    proof {
                        assert(expected_ok(vv));
                        assert(vv.cases[0] == v.cases@[0].dv());
                        assert(vv.cases[1] == v.cases@[1].dv());
                    }
                    ret.append(" (");
                    let err = match &v.cases[1].tref {
                        Some(e) => e,
                        None => {
                            proof {
                                assert(false);
                            }
                            return Err(GenError::OperandDefect);
                        },
                    };
                    match &v.cases[0].tref {
                        Some(ok) => {
                            let mut tuple_done = false;
                            match ok {
                                TypeRef::Value(t) => match &**t {
                                    Type::Record(rec) => {
                                        if rec.is_tuple() {
                                            proof {
                                                assert(crate::valid::ok_payload_ok(ok.dv()));
                                            }
                                            print_stub_tuple_results(ret, rec);
                                            tuple_done = true;
                                        }
                                    },
                                    _ => {},
                                },
                                _ => {},
                            }
                            if !tuple_done {
                                ret.append("rv ");
                                let tn = typeref_name(ok);
                                ret.append(tn.as_str());
                                ret.append(", ");
                            }
                            ret.append("err ");
                            let en = typeref_name(err);
                            ret.append(en.as_str());
                        },
                        None => {
                            ret.append("err ");
                            let en = typeref_name(err);
                            ret.append(en.as_str());
                        },
                    }
                    ret.append(")");
                } else {
                    ret.append("(rv ");
                    let tn = typeref_name(tref);
                    ret.append(tn.as_str());
                    ret.append(")");
                }
            },
            _ => {
                proof {
                    assert(false);
                }
                return Err(GenError::OperandDefect);
            },
        }
    }
    ret.append(" {\n    return\n}\n\n");
    proof {
        assert(ret@ =~= old(ret)@ + func_stub_text(*f, module_name@));
    }
    Ok(())
}

// ---------------------------------------------------------------------------
// ABI adapters
// ---------------------------------------------------------------------------

/// The adapter's parameter list over the canonical machine-word types.
pub open spec fn wasm_params_text(ws: Seq<WasmType>, n: int) -> Seq<char>
    decreases n,
{
    if n <= 0 {
        Seq::empty()
    } else {
        wasm_params_text(ws, n - 1) + (if n > 1 {
            ", "@
        } else {
            Seq::empty()
        }) + "p"@ + dec_of((n - 1) as nat) + " "@ + wasm_type_name_of(ws[n - 1])
    }
}

/// The adapter's signature: restricted to the four canonical machine-word
/// types.
pub open spec fn adapter_sig_text(f: InterfaceFunc, module_name: Seq<char>) -> Seq<char> {
    "func (m *"@ + ident_of(module_name) + ") wasi"@ + camel_of(f.name@) + "("@
        + wasm_params_text(f.wasm_params@, f.wasm_params@.len() as int) + ")"@ + (if f
        .wasm_results@.len() == 1 {
        "("@ + wasm_type_name_of(f.wasm_results@[0]) + ")"@
    } else {
        Seq::empty()
    }) + " {\n"@
}

/// An ABI adapter: the machine-word signature, then the code generated by
/// running the lowering engine over the function's instruction stream.
pub open spec fn spec_func_source(f: InterfaceFunc, module_name: Seq<char>) -> Result<
    Seq<char>,
    GenErrorV,
> {
    if f.wasm_results@.len() > 1 {
        Err(GenErrorV::TooManyResults)
    } else {
        match spec_run(empty_state(), f.instrs@, f.instrs@.len() as int) {
            Err(e) => Err(e),
            Ok(g) => Ok(
                doc_lines_text(f.docs.deep_view(), ""@) + adapter_sig_text(f, module_name) + g.src
                    + "}\n\n"@,
            ),
        }
    }
}

#[verifier::rlimit(100)]
fn print_adapter_sig(ret: &mut String, f: &InterfaceFunc, module_name: &str)
    requires
        f.wasm_results@.len() <= 1,
    ensures
        final(ret)@ == old(ret)@ + adapter_sig_text(*f, module_name@),
{
    ret.append("func (m *");
    let mid = ident_name(module_name);
    ret.append(mid.as_str());
    ret.append(") wasi");
    let fe = export_ident_name(f.name.as_str());
    ret.append(fe.as_str());
    ret.append("(");
    let n = f.wasm_params.len();
    for i in 0..n
        invariant
            n == f.wasm_params@.len(),
            ret@ == old(ret)@ + "func (m *"@ + ident_of(module_name@) + ") wasi"@ + camel_of(
                f.name@,
            ) + "("@ + wasm_params_text(f.wasm_params@, i as int),
        decreases n - i,
    {
        if i > 0 {
            ret.append(", ");
        }
        ret.append("p");
        push_dec_usize(ret, i);
        ret.append(" ");
        ret.append(wasm_type(f.wasm_params[i]));
        proof {
            assert(ret@ =~= old(ret)@ + "func (m *"@ + ident_of(module_name@) + ") wasi"@
                + camel_of(f.name@) + "("@ + wasm_params_text(f.wasm_params@, i + 1));
        }
    }
    ret.append(")");
    if f.wasm_results.len() == 1 {
        ret.append("(");
        ret.append(wasm_type(f.wasm_results[0]));
        ret.append(")");
    }
    ret.append(" {\n");
    proof {
        assert(ret@ =~= old(ret)@ + adapter_sig_text(*f, module_name@));
    }
}

#[verifier::rlimit(100)]
pub fn print_func_source(ret: &mut String, f: &InterfaceFunc, module_name: &str) -> (r: Result<
    (),
    GenError,
>)
    ensures
        (match spec_func_source(*f, module_name@) {
            Ok(t) => r is Ok && final(ret)@ == old(ret)@ + t,
            Err(e) => r is Err && r->Err_0.dv() == e,
        }),
{
    if f.wasm_results.len() > 1 {
        return Err(GenError::TooManyResults);
    }
    let mut state = new_state();
    let run = run_instrs(&mut state, &f.instrs);
    if let Err(e) = run {
        return Err(e);
    }
    push_doc_lines(ret, &f.docs, "");
    print_adapter_sig(ret, f, module_name);
    ret.append(state.src.as_str());
    ret.append("}\n\n");
    proof {
        let o = old(ret)@;
        let d = doc_lines_text(f.docs.deep_view(), ""@);
        let sig = adapter_sig_text(*f, module_name@);
        let g = spec_run(empty_state(), f.instrs@, f.instrs@.len() as int)->Ok_0;
        let tail = "}\n\n"@;
        assert((o + d) + sig =~= o + (d + sig));
        assert((o + (d + sig)) + g.src =~= o + ((d + sig) + g.src));
        assert((o + ((d + sig) + g.src)) + tail =~= o + (((d + sig) + g.src) + tail));
    }
    Ok(())
}

} // verus!

verus! {

// ---------------------------------------------------------------------------
// Module definition and instance
// ---------------------------------------------------------------------------

/// The definition type exposing the import list and the allocate entry
/// point.
pub open spec fn module_def_text(name: Seq<char>) -> Seq<char> {
    "type "@ + ident_of(name) + "Definition int\n\n"@ + "func (def "@ + ident_of(name)
        + "Definition) GetImports() []wasm.ImportEntry {\n"@ + "\treturn []wasm.ImportEntry{\n"@
        + "\t}\n"@ + "}\n\n"@ + "func (def "@ + ident_of(name)
        + "Definition) Allocate(name string) (exec.AllocatedModule, error) {\n    m := allocated"@
        + camel_of(name) + "{\n        "@ + ident_of(name) + ": &"@ + ident_of(name)
        + "{name: name},\n    }\n    return &m, nil\n}\n\n"@
}

#[verifier::rlimit(100)]
pub fn print_module_def(ret: &mut String, m: &Module)
    ensures
        final(ret)@ == old(ret)@ + module_def_text(m.name@),
{
    let id = ident_name(m.name.as_str());
    let e = export_ident_name(m.name.as_str());
    ret.append("type ");
    ret.append(id.as_str());
    ret.append("Definition int\n\n");
    ret.append("func (def ");
    ret.append(id.as_str());
    ret.append("Definition) GetImports() []wasm.ImportEntry {\n");
    ret.append("\treturn []wasm.ImportEntry{\n");
    ret.append("\t}\n");
    ret.append("}\n\n");
    ret.append("func (def ");
    ret.append(id.as_str());
    ret.append("Definition) Allocate(name string) (exec.AllocatedModule, error) {\n    m := allocated");
    ret.append(e.as_str());
    ret.append("{\n        ");
    ret.append(id.as_str());
    ret.append(": &");
    ret.append(id.as_str());
    ret.append("{name: name},\n    }\n    return &m, nil\n}\n\n");
    proof {
        assert(ret@ =~= old(ret)@ + module_def_text(m.name@));
    }
}

/// One memory-import field per import.
pub open spec fn import_fields_text(is: Seq<ModuleImport>, n: int) -> Seq<char>
    decreases n,
{
    if n <= 0 {
        Seq::empty()
    } else {
        import_fields_text(is, n - 1) + "\t"@ + ident_of(is[n - 1].name@) + " *exec.Memory\n"@
    }
}

/// One resolve statement per memory import.
pub open spec fn import_resolve_text(is: Seq<ModuleImport>, n: int) -> Seq<char>
    decreases n,
{
    if n <= 0 {
        Seq::empty()
    } else {
        import_resolve_text(is, n - 1) + "m."@ + ident_of(is[n - 1].name@)
            + ", err = imports.ResolveMemory(\"\", \""@ + is[n - 1].name@
            + "\", wasm.Memory{})\nif err != nil {\n    return nil, err\n}\n"@
    }
}

/// The dispatch table: each declared function name maps to its adapter.
pub open spec fn dispatch_text(fs: Seq<InterfaceFunc>, n: int) -> Seq<char>
    decreases n,
{
    if n <= 0 {
        Seq::empty()
    } else {
        dispatch_text(fs, n - 1) + "case \""@ + fs[n - 1].name@
            + "\":\n    return exec.NewHostFunction(m, "@ + dec_of((n - 1) as nat)
            + ", reflect.ValueOf(m.wasi"@ + camel_of(fs[n - 1].name@) + ")), nil\n"@
    }
}

pub open spec fn instance_head_text(m: Module) -> Seq<char> {
    "type "@ + ident_of(m.name@) + " struct {\n    name string\n    impl *"@ + ident_of(m.name@)
        + "Impl\n"@ + import_fields_text(m.imports@, m.imports@.len() as int)
        + "}\n\ntype allocated"@ + camel_of(m.name@) + " struct {\n    *"@ + ident_of(m.name@)
        + "\n}\n\nfunc (m *allocated"@ + camel_of(m.name@)
        + ") Instantiate(imports exec.ImportResolver) (mod exec.Module, err error) {\n"@
}

pub open spec fn instance_mid_text(m: Module) -> Seq<char> {
    "\n    return m."@ + ident_of(m.name@) + ", nil\n}\n\nfunc (m *"@ + ident_of(m.name@)
        + ") Name() string {\n    return m.name\n}\n\nfunc (m *"@ + ident_of(m.name@)
        + ") GetTable(name string) (*exec.Table, error) {\n\treturn nil, errors.New(\"unknown table\")\n}\n\nfunc (m *"@
        + ident_of(m.name@)
        + ") GetMemory(name string) (*exec.Memory, error) {\n\treturn nil, errors.New(\"unknown memory\")\n}\n\nfunc (m *"@
        + ident_of(m.name@)
        + ") GetGlobal(name string) (*exec.Global, error) {\n\treturn nil, errors.New(\"unknown global\")\n}\n\nfunc (m *"@
        + ident_of(m.name@) + ") GetFunction(name string) (exec.Function, error) {\n    switch name {\n"@
}

pub open spec fn instance_tail_text(m: Module) -> Seq<char> {
    "default:\n        return nil, errors.New(\"unknown function\")\n    }\n}\n\nfunc (m *"@
        + ident_of(m.name@) + ") mem() *exec.Memory {\n"@ + (if m.imports@.len() > 0 {
        "\treturn m."@ + ident_of(m.imports@[0].name@) + "\n"@
    } else {
        "\treturn nil\n"@
    }) + "}\n\n"@
}

/// The instance: resolved imports, the accessor set, the dispatch table, and
/// the memory accessor.
pub open spec fn module_instance_text(m: Module) -> Seq<char> {
    instance_head_text(m) + import_resolve_text(m.imports@, m.imports@.len() as int)
        + instance_mid_text(m) + dispatch_text(m.funcs@, m.funcs@.len() as int)
        + instance_tail_text(m)
}

#[verifier::rlimit(100)]
fn print_instance_head(ret: &mut String, m: &Module)
    ensures
        final(ret)@ == old(ret)@ + instance_head_text(*m),
{
    let id = ident_name(m.name.as_str());
    let e = export_ident_name(m.name.as_str());
    ret.append("type ");
    ret.append(id.as_str());
    ret.append(" struct {\n    name string\n    impl *");
    ret.append(id.as_str());
    ret.append("Impl\n");
    let n = m.imports.len();
    for i in 0..n
        invariant
            n == m.imports@.len(),
            ret@ == old(ret)@ + "type "@ + ident_of(m.name@) + " struct {\n    name string\n    impl *"@
                + ident_of(m.name@) + "Impl\n"@ + import_fields_text(m.imports@, i as int),
        decreases n - i,
    {
        ret.append("\t");
        let iid = ident_name(m.imports[i].name.as_str());
        ret.append(iid.as_str());
        ret.append(" *exec.Memory\n");
        proof {
            assert(ret@ =~= old(ret)@ + "type "@ + ident_of(m.name@)
                + " struct {\n    name string\n    impl *"@ + ident_of(m.name@) + "Impl\n"@
                + import_fields_text(m.imports@, i + 1));
        }
    }
    ret.append("}\n\ntype allocated");
    ret.append(e.as_str());
    ret.append(" struct {\n    *");
    ret.append(id.as_str());
    ret.append("\n}\n\nfunc (m *allocated");
    ret.append(e.as_str());
    ret.append(") Instantiate(imports exec.ImportResolver) (mod exec.Module, err error) {\n");
    proof {
        assert(ret@ =~= old(ret)@ + instance_head_text(*m));
    }
}

#[verifier::rlimit(100)]
fn print_instance_resolves(ret: &mut String, m: &Module)
    ensures
        final(ret)@ == old(ret)@ + import_resolve_text(m.imports@, m.imports@.len() as int),
{
    let n = m.imports.len();
    for i in 0..n
        invariant
            n == m.imports@.len(),
            ret@ == old(ret)@ + import_resolve_text(m.imports@, i as int),
        decreases n - i,
    {
        match m.imports[i].variant {
            ModuleImportVariant::Memory => {
                ret.append("m.");
                let iid = ident_name(m.imports[i].name.as_str());
                ret.append(iid.as_str());
                ret.append(", err = imports.ResolveMemory(\"\", \"");
                ret.append(m.imports[i].name.as_str());
                ret.append("\", wasm.Memory{})\nif err != nil {\n    return nil, err\n}\n");
            },
        }
        proof {
            assert(ret@ =~= old(ret)@ + import_resolve_text(m.imports@, i + 1));
        }
    }
}

#[verifier::rlimit(100)]
fn print_instance_mid(ret: &mut String, m: &Module)
    ensures
        final(ret)@ == old(ret)@ + instance_mid_text(*m),
{
    let id = ident_name(m.name.as_str());
    ret.append("\n    return m.");
    ret.append(id.as_str());
    ret.append(", nil\n}\n\nfunc (m *");
    ret.append(id.as_str());
    ret.append(") Name() string {\n    return m.name\n}\n\nfunc (m *");
    ret.append(id.as_str());
    ret.append(") GetTable(name string) (*exec.Table, error) {\n\treturn nil, errors.New(\"unknown table\")\n}\n\nfunc (m *");
    ret.append(id.as_str());
    ret.append(") GetMemory(name string) (*exec.Memory, error) {\n\treturn nil, errors.New(\"unknown memory\")\n}\n\nfunc (m *");
    ret.append(id.as_str());
    ret.append(") GetGlobal(name string) (*exec.Global, error) {\n\treturn nil, errors.New(\"unknown global\")\n}\n\nfunc (m *");
    ret.append(id.as_str());
    ret.append(") GetFunction(name string) (exec.Function, error) {\n    switch name {\n");
    proof {
        assert(ret@ =~= old(ret)@ + instance_mid_text(*m));
    }
}

#[verifier::rlimit(100)]
fn print_instance_dispatch(ret: &mut String, m: &Module)
    ensures
        final(ret)@ == old(ret)@ + dispatch_text(m.funcs@, m.funcs@.len() as int),
{
    let n = m.funcs.len();
    for i in 0..n
        invariant
            n == m.funcs@.len(),
            ret@ == old(ret)@ + dispatch_text(m.funcs@, i as int),
        decreases n - i,
    {
        ret.append("case \"");
        ret.append(m.funcs[i].name.as_str());
        ret.append("\":\n    return exec.NewHostFunction(m, ");
        push_dec_usize(ret, i);
        ret.append(", reflect.ValueOf(m.wasi");
        let fe = export_ident_name(m.funcs[i].name.as_str());
        ret.append(fe.as_str());
        ret.append(")), nil\n");
        proof {
            assert(ret@ =~= old(ret)@ + dispatch_text(m.funcs@, i + 1));
        }
    }
}

#[verifier::rlimit(100)]
fn print_instance_tail(ret: &mut String, m: &Module)
    ensures
        final(ret)@ == old(ret)@ + instance_tail_text(*m),
{
    let id = ident_name(m.name.as_str());
    ret.append("default:\n        return nil, errors.New(\"unknown function\")\n    }\n}\n\nfunc (m *");
    ret.append(id.as_str());
    ret.append(") mem() *exec.Memory {\n");
    if m.imports.len() > 0 {
        ret.append("\treturn m.");
        let iid = ident_name(m.imports[0].name.as_str());
        ret.append(iid.as_str());
        ret.append("\n");
    } else {
        ret.append("\treturn nil\n");
    }
    ret.append("}\n\n");
    proof {
        assert(ret@ =~= old(ret)@ + instance_tail_text(*m));
    }
}

/// The module instance with its resolved imports and dispatch table.
pub fn print_module_instance(ret: &mut String, m: &Module)
    ensures
        final(ret)@ == old(ret)@ + module_instance_text(*m),
{
    print_instance_head(ret, m);
    print_instance_resolves(ret, m);
    print_instance_mid(ret, m);
    print_instance_dispatch(ret, m);
    print_instance_tail(ret, m);
    proof {
        let o = old(ret)@;
        let a = instance_head_text(*m);
        let b = import_resolve_text(m.imports@, m.imports@.len() as int);
        let c = instance_mid_text(*m);
        let d = dispatch_text(m.funcs@, m.funcs@.len() as int);
        let e = instance_tail_text(*m);
        assert((o + a) + b =~= o + (a + b));
        assert((o + (a + b)) + c =~= o + ((a + b) + c));
        assert((o + ((a + b) + c)) + d =~= o + (((a + b) + c) + d));
        assert((o + (((a + b) + c) + d)) + e =~= o + ((((a + b) + c) + d) + e));
    }
}

} // verus!

verus! {

// ---------------------------------------------------------------------------
// Whole modules and the document
// ---------------------------------------------------------------------------

/// The adapter and stub texts of the first `n` functions of a module.
pub open spec fn funcs_texts(fs: Seq<InterfaceFunc>, module_name: Seq<char>, n: int) -> Result<
    (Seq<char>, Seq<char>),
    GenErrorV,
>
    decreases n,
{
    if n <= 0 {
        Ok((Seq::empty(), Seq::empty()))
    } else {
        match funcs_texts(fs, module_name, n - 1) {
            Err(e) => Err(e),
            Ok(p) => if fs[n - 1].results@.len() > 1 {
                Err(GenErrorV::TooManyResults)
            } else {
                match spec_func_source(fs[n - 1], module_name) {
                    Err(e) => Err(e),
                    Ok(src) => Ok(
                        (p.0 + src, p.1 + func_stub_text(fs[n - 1], module_name)),
                    ),
                }
            },
        }
    }
}

/// The module text and the stub text of one module.
pub open spec fn spec_module_texts(m: Module) -> Result<(Seq<char>, Seq<char>), GenErrorV> {
    match funcs_texts(m.funcs@, m.name@, m.funcs@.len() as int) {
        Err(e) => Err(e),
        Ok(p) => Ok(
            (
                doc_lines_text(m.docs.deep_view(), ""@) + module_def_text(m.name@)
                    + module_instance_text(m) + p.0,
                doc_lines_text(m.docs.deep_view(), ""@) + "type "@ + ident_of(m.name@)
                    + "Impl struct {\n}\n\n"@ + p.1,
            ),
        ),
    }
}

/// Once a function fails, the whole fold fails with its error.
pub proof fn lemma_funcs_err(fs: Seq<InterfaceFunc>, module_name: Seq<char>, j: int, m: int)
    requires
        0 <= j <= m,
        funcs_texts(fs, module_name, j) is Err,
    ensures
        funcs_texts(fs, module_name, m) == funcs_texts(fs, module_name, j),
    decreases m - j,
{
    if m > j {
        lemma_funcs_err(fs, module_name, j, m - 1);
    }
}

/// One module: its documentation on both outputs, the definition and
/// instance, the implementation record, and per function a stub and an
/// adapter.
#[verifier::rlimit(100)]
pub fn print_module(module: &mut String, stubs: &mut String, m: &Module) -> (r: Result<
    (),
    GenError,
>)
    requires
        module_ok(*m),
    ensures
        (match spec_module_texts(*m) {
            Ok(p) => r is Ok && final(module)@ == old(module)@ + p.0 && final(stubs)@ == old(stubs)@
                + p.1,
            Err(e) => r is Err && r->Err_0.dv() == e,
        }),
{
    push_doc_lines(module, &m.docs, "");
    push_doc_lines(stubs, &m.docs, "");
    print_module_def(module, m);
    print_module_instance(module, m);
    stubs.append("type ");
    let id = ident_name(m.name.as_str());
    stubs.append(id.as_str());
    stubs.append("Impl struct {\n}\n\n");
    let ghost mmid = module@;
    let ghost smid = stubs@;
    let n = m.funcs.len();
    for i in 0..n
        invariant
            n == m.funcs@.len(),
            module_ok(*m),
            mmid == old(module)@ + doc_lines_text(m.docs.deep_view(), ""@) + module_def_text(
                m.name@,
            ) + module_instance_text(*m),
            smid == old(stubs)@ + doc_lines_text(m.docs.deep_view(), ""@) + "type "@ + ident_of(
                m.name@,
            ) + "Impl struct {\n}\n\n"@,
            funcs_texts(m.funcs@, m.name@, i as int) matches Ok(p) && module@ == mmid + p.0
                && stubs@ == smid + p.1,
        decreases n - i,
    {
        proof {
            assert(func_ok(m.funcs@[i as int]));
        }
        let rs = print_func_stub(stubs, &m.funcs[i], m.name.as_str());
        if let Err(e) = rs {
            proof {
                assert(funcs_texts(m.funcs@, m.name@, i + 1) == Err::<(Seq<char>, Seq<char>),
                    GenErrorV>(GenErrorV::TooManyResults));
                lemma_funcs_err(m.funcs@, m.name@, i + 1, n as int);
            }
            return Err(e);
        }
        let rf = print_func_source(module, &m.funcs[i], m.name.as_str());
        if let Err(e) = rf {
            proof {
                lemma_funcs_err(m.funcs@, m.name@, i + 1, n as int);
            }
            return Err(e);
        }
        proof {
            let p = funcs_texts(m.funcs@, m.name@, i as int)->Ok_0;
            assert(module@ =~= mmid + (p.0 + spec_func_source(
                m.funcs@[i as int],
                m.name@,
            )->Ok_0));
            assert(stubs@ =~= smid + (p.1 + func_stub_text(m.funcs@[i as int], m.name@)));
        }
    }
    proof {
        let p = funcs_texts(m.funcs@, m.name@, n as int)->Ok_0;
        assert(module@ =~= old(module)@ + (doc_lines_text(m.docs.deep_view(), ""@)
            + module_def_text(m.name@) + module_instance_text(*m) + p.0));
        assert(stubs@ =~= old(stubs)@ + (doc_lines_text(m.docs.deep_view(), ""@) + "type "@
            + ident_of(m.name@) + "Impl struct {\n}\n\n"@ + p.1));
    }
    Ok(())
}

/// The constants owned by one named type, in document order.
pub open spec fn constants_for_text(cs: Seq<Constant>, ty: Seq<char>, n: int) -> Seq<char>
    decreases n,
{
    if n <= 0 {
        Seq::empty()
    } else {
        constants_for_text(cs, ty, n - 1) + (if cs[n - 1].ty@ == ty {
            constant_text(cs[n - 1])
        } else {
            Seq::empty()
        })
    }
}

/// Every named type declaration in document order, each followed by its
/// adjacent constants.
pub open spec fn typenames_text(nts: Seq<NamedType>, cs: Seq<Constant>, n: int) -> Seq<char>
    decreases n,
{
    if n <= 0 {
        Seq::empty()
    } else {
        typenames_text(nts, cs, n - 1) + datatype_text(nts[n - 1].dv()) + constants_for_text(
            cs,
            nts[n - 1].name@,
            cs.len() as int,
        )
    }
}

/// The module and stub texts of the first `n` modules.
pub open spec fn modules_texts(ms: Seq<Module>, n: int) -> Result<
    (Seq<char>, Seq<char>),
    GenErrorV,
>
    decreases n,
{
    if n <= 0 {
        Ok((Seq::empty(), Seq::empty()))
    } else {
        match modules_texts(ms, n - 1) {
            Err(e) => Err(e),
            Ok(p) => match spec_module_texts(ms[n - 1]) {
                Err(e) => Err(e),
                Ok(q) => Ok((p.0 + q.0, p.1 + q.1)),
            },
        }
    }
}

fn print_constants_for(ret: &mut String, cs: &Vec<Constant>, ty: &str)
    ensures
        final(ret)@ == old(ret)@ + constants_for_text(cs@, ty@, cs@.len() as int),
{
    let n = cs.len();
    for i in 0..n
        invariant
            n == cs@.len(),
            ret@ == old(ret)@ + constants_for_text(cs@, ty@, i as int),
        decreases n - i,
    {
        if str_eq(cs[i].ty.as_str(), ty) {
            print_constant(ret, &cs[i]);
        }
        proof {
            assert(ret@ =~= old(ret)@ + constants_for_text(cs@, ty@, i + 1));
        }
    }
}

} // verus!

verus! {

#[verifier::ext_equal]
pub struct GeneratedV {
    pub module: Seq<char>,
    pub types: Seq<char>,
    pub stubs: Seq<char>,
}

impl Generated {
    pub open spec fn dv(&self) -> GeneratedV {
        GeneratedV { module: self.module@, types: self.types@, stubs: self.stubs@ }
    }
}

/// The provenance header of the module output.
pub open spec fn module_header_text(inputs: Seq<char>) -> Seq<char> {
    "// THIS FILE IS AUTO-GENERATED from the following files:\n//\n//   "@ + inputs
        + "\n//\n// To regenerate this file execute:\n//\n//     cargo run --manifest-path gen-wasi/Cargo.toml generate-api\n//\n// Modifications to this file will cause CI to fail, the code generator tool\n// must be modified to change this file.\n//\n// This file describes the [WASI] interface, consisting of functions, types,\n// and defined values (macros).\n//\n// The interface described here is greatly inspired by [CloudABI]'s clean,\n// thoughtfully-designed, capability-oriented, POSIX-style API.\n//\n// [CloudABI]: https://github.com/NuxiNL/cloudlibc\n// [WASI]: https://github.com/WebAssembly/WASI/\n\npackage wasi\n\nimport (\n    \"errors\"\n    \"reflect\"\n\n    \"github.com/pgavlin/warp/exec\"\n    \"github.com/pgavlin/warp/wasm\"\n)\n\n"@
}

/// The provenance header of the types output.
pub open spec fn types_header_text(inputs: Seq<char>) -> Seq<char> {
    "// THIS FILE IS AUTO-GENERATED from the following files:\n//\n//   "@ + inputs
        + "\n//\n// To regenerate this file execute:\n//\n//     cargo run --manifest-path gen-wasi/Cargo.toml generate-api\n//\n// Modifications to this file will cause CI to fail, the code generator tool\n// must be modified to change this file.\n//\n// This file describes the [WASI] interface, consisting of functions, types,\n// and defined values (macros).\n//\n// The interface described here is greatly inspired by [CloudABI]'s clean,\n// thoughtfully-designed, capability-oriented, POSIX-style API.\n//\n// [CloudABI]: https://github.com/NuxiNL/cloudlibc\n// [WASI]: https://github.com/WebAssembly/WASI/\n\npackage wasi\n\nimport (\n    \"github.com/pgavlin/warp/exec\"\n)\n\n"@
}

/// Once a module fails, the whole fold fails with its error.
pub proof fn lemma_modules_err(ms: Seq<Module>, j: int, m: int)
    requires
        0 <= j <= m,
        modules_texts(ms, j) is Err,
    ensures
        modules_texts(ms, m) == modules_texts(ms, j),
    decreases m - j,
{
    if m > j {
        lemma_modules_err(ms, j, m - 1);
    }
}

/// What generation produces: the three output texts, or the first fatal
/// error.
pub open spec fn spec_to_go(doc: Document, inputs: Seq<char>) -> Result<GeneratedV, GenErrorV> {
    match modules_texts(doc.modules@, doc.modules@.len() as int) {
        Err(e) => Err(e),
        Ok(p) => Ok(
            GeneratedV {
                module: module_header_text(inputs) + p.0,
                types: types_header_text(inputs) + typenames_text(
                    doc.typenames@,
                    doc.constants@,
                    doc.typenames@.len() as int,
                ),
                stubs: "package wasi\n\n"@ + p.1,
            },
        ),
    }
}

/// Every module of the document, in document order.
#[verifier::rlimit(100)]
fn print_modules(module: &mut String, stubs: &mut String, doc: &Document) -> (r: Result<
    (),
    GenError,
>)
    requires
        doc_ok(*doc),
    ensures
        (match modules_texts(doc.modules@, doc.modules@.len() as int) {
            Ok(p) => r is Ok && final(module)@ == old(module)@ + p.0 && final(stubs)@ == old(
                stubs,
            )@ + p.1,
            Err(e) => r is Err && r->Err_0.dv() == e,
        }),
{
    let nm = doc.modules.len();
    for i in 0..nm
        invariant
            nm == doc.modules@.len(),
            doc_ok(*doc),
            modules_texts(doc.modules@, i as int) matches Ok(p) && module@ == old(module)@ + p.0
                && stubs@ == old(stubs)@ + p.1,
        decreases nm - i,
    {
        proof {
            assert(module_ok(doc.modules@[i as int]));
        }
        let rm = print_module(module, stubs, &doc.modules[i]);
        if let Err(e) = rm {
            proof {
                lemma_modules_err(doc.modules@, i + 1, nm as int);
            }
            return Err(e);
        }
        proof {
            let p = modules_texts(doc.modules@, i as int)->Ok_0;
            let q = spec_module_texts(doc.modules@[i as int])->Ok_0;
            assert(module@ =~= old(module)@ + (p.0 + q.0));
            assert(stubs@ =~= old(stubs)@ + (p.1 + q.1));
        }
    }
    Ok(())
}

/// Generate the three output texts for one document. `inputs_str` names the
/// source documents for the provenance header.
#[verifier::rlimit(100)]
pub fn to_go(doc: &Document, inputs_str: &str) -> (r: Result<Generated, GenError>)
    requires
        doc_ok(*doc),
    ensures
        (match spec_to_go(*doc, inputs_str@) {
            Ok(g) => r matches Ok(gen) && gen.dv() == g,
            Err(e) => r matches Err(ge) && ge.dv() == e,
        }),
{
    let mut module = String::from_str(
        "// THIS FILE IS AUTO-GENERATED from the following files:\n//\n//   ",
    );
    module.append(inputs_str);
    module.append(
        "\n//\n// To regenerate this file execute:\n//\n//     cargo run --manifest-path gen-wasi/Cargo.toml generate-api\n//\n// Modifications to this file will cause CI to fail, the code generator tool\n// must be modified to change this file.\n//\n// This file describes the [WASI] interface, consisting of functions, types,\n// and defined values (macros).\n//\n// The interface described here is greatly inspired by [CloudABI]'s clean,\n// thoughtfully-designed, capability-oriented, POSIX-style API.\n//\n// [CloudABI]: https://github.com/NuxiNL/cloudlibc\n// [WASI]: https://github.com/WebAssembly/WASI/\n\npackage wasi\n\nimport (\n    \"errors\"\n    \"reflect\"\n\n    \"github.com/pgavlin/warp/exec\"\n    \"github.com/pgavlin/warp/wasm\"\n)\n\n",
    );
    let mut types = String::from_str(
        "// THIS FILE IS AUTO-GENERATED from the following files:\n//\n//   ",
    );
    types.append(inputs_str);
    types.append(
        "\n//\n// To regenerate this file execute:\n//\n//     cargo run --manifest-path gen-wasi/Cargo.toml generate-api\n//\n// Modifications to this file will cause CI to fail, the code generator tool\n// must be modified to change this file.\n//\n// This file describes the [WASI] interface, consisting of functions, types,\n// and defined values (macros).\n//\n// The interface described here is greatly inspired by [CloudABI]'s clean,\n// thoughtfully-designed, capability-oriented, POSIX-style API.\n//\n// [CloudABI]: https://github.com/NuxiNL/cloudlibc\n// [WASI]: https://github.com/WebAssembly/WASI/\n\npackage wasi\n\nimport (\n    \"github.com/pgavlin/warp/exec\"\n)\n\n",
    );
    let mut stubs = String::from_str("package wasi\n\n");
    proof {
        assert(module@ == module_header_text(inputs_str@));
        assert(types@ == types_header_text(inputs_str@));
    }
    let nt = doc.typenames.len();
    for i in 0..nt
        invariant
            nt == doc.typenames@.len(),
            doc_ok(*doc),
            module@ == module_header_text(inputs_str@),
            stubs@ == "package wasi\n\n"@,
            types@ == types_header_text(inputs_str@) + typenames_text(
                doc.typenames@,
                doc.constants@,
                i as int,
            ),
        decreases nt - i,
    {
        print_datatype(&mut types, &doc.typenames[i]);
        print_constants_for(&mut types, &doc.constants, doc.typenames[i].name.as_str());
        proof {
            assert(types@ =~= types_header_text(inputs_str@) + typenames_text(
                doc.typenames@,
                doc.constants@,
                i + 1,
            ));
        }
    }
    let rm = print_modules(&mut module, &mut stubs, doc);
    if let Err(e) = rm {
        return Err(e);
    }
    Ok(Generated { module, types, stubs })
}

} // verus!
