use gen_wasi::ast::{BuiltinType, CalledFunc, Case, Constant, Document, GenError, Instruction,
    IntRepr, InterfaceFunc, Module, ModuleImport, ModuleImportVariant, NamedType, Param,
    RecordDatatype, RecordKind, RecordMember, Type, TypeRef, Variant, WasmType};
use gen_wasi::to_go;

fn errno_variant() -> Variant {
    Variant {
        tag_repr: IntRepr::U16,
        cases: vec![
            Case { name: "success".to_string(), tref: None, docs: Vec::new() },
            Case { name: "badf".to_string(), tref: None, docs: Vec::new() },
        ],
    }
}

fn errno_named() -> NamedType {
    NamedType {
        name: "errno".to_string(),
        tref: TypeRef::Value(Box::new(Type::Variant(errno_variant()))),
        docs: vec!["Error codes.".to_string()],
    }
}

fn result_tref() -> TypeRef {
    // result<unit, errno>: ok carries no payload, err carries the errno enum
    TypeRef::Value(Box::new(Type::Variant(Variant {
        tag_repr: IntRepr::U16,
        cases: vec![
            Case { name: "ok".to_string(), tref: None, docs: Vec::new() },
            Case {
                name: "err".to_string(),
                tref: Some(TypeRef::Name(Box::new(errno_named()))),
                docs: Vec::new(),
            },
        ],
    })))
}

fn foo_func() -> InterfaceFunc {
    InterfaceFunc {
        name: "foo".to_string(),
        docs: Vec::new(),
        params: vec![Param {
            name: "x".to_string(),
            tref: TypeRef::Value(Box::new(Type::Builtin(BuiltinType::U32))),
        }],
        results: vec![Param { name: "error".to_string(), tref: result_tref() }],
        instrs: vec![
            Instruction::GetArg { nth: 0 },
            Instruction::U32FromI32,
            Instruction::CallInterface {
                func: CalledFunc {
                    name: "foo".to_string(),
                    nparams: 1,
                    results: vec![Param { name: "error".to_string(), tref: result_tref() }],
                },
            },
            Instruction::OpenBlock,
            Instruction::CloseBlock { yields: false },
            Instruction::OpenBlock,
            Instruction::VariantPayload,
            Instruction::EnumLower,
            Instruction::CloseBlock { yields: true },
            Instruction::ResultLower,
            Instruction::Return { amt: 1 },
        ],
        wasm_params: vec![WasmType::I32],
        wasm_results: vec![WasmType::I32],
    }
}

fn scenario_doc() -> Document {
    Document {
        typenames: vec![errno_named()],
        constants: Vec::new(),
        modules: vec![Module {
            name: "test_module".to_string(),
            docs: vec!["A module.".to_string()],
            imports: vec![ModuleImport {
                name: "memory".to_string(),
                variant: ModuleImportVariant::Memory,
            }],
            funcs: vec![foo_func()],
        }],
    }
}

#[test]
fn generation_is_idempotent() {
    // identical input documents yield byte-identical output across runs
    let a = to_go(&scenario_doc(), "test.witx").expect("generation succeeds");
    let b = to_go(&scenario_doc(), "test.witx").expect("generation succeeds");
    assert_eq!(a.module, b.module);
    assert_eq!(a.types, b.types);
    assert_eq!(a.stubs, b.stubs);
}

#[test]
fn module_adapter_signature_and_dispatch() {
    // the adapter takes one 32-bit word and returns one 32-bit word, and the
    // dispatch table maps "foo" to it
    let g = to_go(&scenario_doc(), "test.witx").expect("generation succeeds");
    assert!(g.module.contains("func (m *testModule) wasiFoo(p0 int32)(int32) {\n"));
    assert!(g.module.contains(
        "case \"foo\":\n    return exec.NewHostFunction(m, 0, reflect.ValueOf(m.wasiFoo)), nil\n"
    ));
    assert!(g.module.contains(
        "m.memory, err = imports.ResolveMemory(\"\", \"memory\", wasm.Memory{})"
    ));
}

#[test]
fn stub_signature_follows_err_convention() {
    // with no ok payload the stub declares a single named err return
    let g = to_go(&scenario_doc(), "test.witx").expect("generation succeeds");
    assert!(g.stubs.contains("func (m *testModuleImpl) foo(px uint32) (err wasiErrno) {\n    return\n}\n"));
    assert!(g.stubs.starts_with("package wasi\n\n"));
}

#[test]
fn result_lowering_without_ok_block() {
    // with no ok-block, the code is success unless the discriminant signals
    // an error; the err-block's expression becomes the code
    let g = to_go(&scenario_doc(), "test.witx").expect("generation succeeds");
    assert!(g.module.contains(
        "\terr := m.impl.foo(uint32(p0))\nres := int32(wasiErrnoSuccess)\nif err != wasiErrnoSuccess {\n\tres = int32(err)\n}\n\treturn res\n"
    ));
}

#[test]
fn two_results_abort_generation() {
    // a function declaring two results aborts generation with an
    // unsupported-result-count error
    let mut f = foo_func();
    f.results.push(Param { name: "second".to_string(), tref: result_tref() });
    let doc = Document {
        typenames: Vec::new(),
        constants: Vec::new(),
        modules: vec![Module {
            name: "m".to_string(),
            docs: Vec::new(),
            imports: Vec::new(),
            funcs: vec![f],
        }],
    };
    match to_go(&doc, "test.witx") {
        Err(GenError::TooManyResults) => {},
        _ => panic!("expected the unsupported-result-count error"),
    }
}

#[test]
fn unrecognized_instruction_aborts_generation() {
    let mut f = foo_func();
    f.instrs = vec![Instruction::Other { name: "AddrOf".to_string() }];
    let doc = Document {
        typenames: Vec::new(),
        constants: Vec::new(),
        modules: vec![Module {
            name: "m".to_string(),
            docs: Vec::new(),
            imports: Vec::new(),
            funcs: vec![f],
        }],
    };
    match to_go(&doc, "test.witx") {
        Err(GenError::UnrecognizedInstruction { name }) => assert_eq!(name, "AddrOf"),
        _ => panic!("expected the unrecognized-instruction error"),
    }
}

#[test]
fn types_output_for_record_and_flags() {
    let record = NamedType {
        name: "point".to_string(),
        tref: TypeRef::Value(Box::new(Type::Record(RecordDatatype {
            kind: RecordKind::Other,
            members: vec![
                RecordMember {
                    name: "a".to_string(),
                    tref: TypeRef::Value(Box::new(Type::Builtin(BuiltinType::U8))),
                    docs: Vec::new(),
                },
                RecordMember {
                    name: "b".to_string(),
                    tref: TypeRef::Value(Box::new(Type::Builtin(BuiltinType::U32))),
                    docs: Vec::new(),
                },
            ],
        }))),
        docs: Vec::new(),
    };
    let flags = NamedType {
        name: "rights".to_string(),
        tref: TypeRef::Value(Box::new(Type::Record(RecordDatatype {
            kind: RecordKind::Bitflags,
            members: vec![
                RecordMember {
                    name: "read".to_string(),
                    tref: TypeRef::Value(Box::new(Type::Builtin(BuiltinType::U8))),
                    docs: Vec::new(),
                },
                RecordMember {
                    name: "write".to_string(),
                    tref: TypeRef::Value(Box::new(Type::Builtin(BuiltinType::U8))),
                    docs: Vec::new(),
                },
            ],
        }))),
        docs: Vec::new(),
    };
    let doc = Document {
        typenames: vec![record, flags],
        constants: vec![Constant {
            ty: "rights".to_string(),
            name: "rights_all".to_string(),
            value: 3,
            docs: vec!["All rights.".to_string()],
        }],
        modules: Vec::new(),
    };
    let g = to_go(&doc, "a.witx, b.witx").expect("generation succeeds");
    // the plain record: declaration, layout, and fixed-width accesses at the
    // computed offsets
    assert!(g.types.contains("type wasiPoint struct {\n\ta uint8\n\tb uint32\n}\n"));
    assert!(g.types.contains("func (v *wasiPoint) layout() (uint32, uint32) {\n    return 8, 4\n}"));
    assert!(g.types.contains("mem.PutByte(byte(v.a), uint32(base), 0)\n"));
    assert!(g.types.contains("mem.PutUint32(uint32(v.b), uint32(base), 4)\n"));
    assert!(g.types.contains("v.b = uint32(mem.Uint32(uint32(base), 4))\n"));
    // the bitflags record: the packed alias and one `1 << i` constant per
    // member, with the owned constant printed right after
    assert!(g.types.contains("type wasiRights = uint8\n"));
    assert!(g.types.contains("const wasiRightsRead = 1 << 0\n"));
    assert!(g.types.contains("const wasiRightsWrite = 1 << 1\n"));
    assert!(g.types.contains("// All rights.\nconst rightsAll = 3\n"));
    // the provenance header names the inputs
    assert!(g.types.starts_with("// THIS FILE IS AUTO-GENERATED from the following files:\n//\n//   a.witx, b.witx\n"));
}

#[test]
fn enum_output_with_ordinals() {
    let doc = Document {
        typenames: vec![errno_named()],
        constants: Vec::new(),
        modules: Vec::new(),
    };
    let g = to_go(&doc, "test.witx").expect("generation succeeds");
    assert!(g.types.contains("// Error codes.\ntype wasiErrno = uint16\n"));
    assert!(g.types.contains("const wasiErrnoSuccess = 0\n"));
    assert!(g.types.contains("const wasiErrnoBadf = 1\n"));
}

#[test]
fn api_paths() {
    assert_eq!(gen_wasi::wasi_api_module(), "../module_definition.go");
    assert_eq!(gen_wasi::wasi_api_types(), "../types.go");
    assert_eq!(gen_wasi::wasi_api_stubs(), "../stubs.go");
}
