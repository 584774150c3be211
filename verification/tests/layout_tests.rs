use gen_wasi::ast::{BuiltinType, Case, IntRepr, RecordDatatype, RecordKind, RecordMember, Type,
    TypeRef, Variant};

fn member(name: &str, ty: BuiltinType) -> RecordMember {
    RecordMember {
        name: name.to_string(),
        tref: TypeRef::Value(Box::new(Type::Builtin(ty))),
        docs: Vec::new(),
    }
}

#[test]
fn record_u8_u32_layout() {
    // a record {a: u8, b: u32} is 8 bytes, aligned to 4, with `a` at offset 0
    // and `b` at offset 4 after 3 bytes of padding
    let r = RecordDatatype {
        kind: RecordKind::Other,
        members: vec![member("a", BuiltinType::U8), member("b", BuiltinType::U32)],
    };
    let (size, align) = r.mem_size_align();
    assert_eq!(size, 8);
    assert_eq!(align, 4);
    let offsets = r.member_layout();
    assert_eq!(offsets, vec![0, 4]);
}

#[test]
fn record_trailing_padding() {
    // {a: u32, b: u8} ends at byte 5 and is padded up to 8
    let r = RecordDatatype {
        kind: RecordKind::Other,
        members: vec![member("a", BuiltinType::U32), member("b", BuiltinType::U8)],
    };
    let (size, align) = r.mem_size_align();
    assert_eq!(size, 8);
    assert_eq!(align, 4);
    assert_eq!(r.member_layout(), vec![0, 4]);
}

#[test]
fn builtin_widths() {
    assert_eq!(BuiltinType::U8.mem_size(), 1);
    assert_eq!(BuiltinType::Char8.mem_size(), 1);
    assert_eq!(BuiltinType::S16.mem_size(), 2);
    assert_eq!(BuiltinType::Char.mem_size(), 4);
    assert_eq!(BuiltinType::F32.mem_size(), 4);
    assert_eq!(BuiltinType::U64.mem_size(), 8);
    assert_eq!(BuiltinType::F64.mem_size(), 8);
}

#[test]
fn bitflags_packed_widths() {
    // the packed width is the smallest power-of-two byte count holding all bits
    for (n, expect) in [
        (0usize, 1usize),
        (1, 1),
        (8, 1),
        (9, 2),
        (16, 2),
        (17, 4),
        (32, 4),
        (33, 8),
        (64, 8),
    ] {
        let members = (0..n).map(|i| member(&format!("f{}", i), BuiltinType::U8)).collect();
        let r = RecordDatatype { kind: RecordKind::Bitflags, members };
        let repr = r.bitflags_repr().expect("bitflags record has a packed repr");
        assert_eq!(repr.mem_size(), expect, "width for {} members", n);
    }
}

#[test]
fn variant_layout_payload_offset() {
    // a u8-tagged variant with a u32 payload places the payload at offset 4
    // and occupies 8 bytes aligned to 4
    let v = Variant {
        tag_repr: IntRepr::U8,
        cases: vec![
            Case { name: "none".to_string(), tref: None, docs: Vec::new() },
            Case {
                name: "some".to_string(),
                tref: Some(TypeRef::Value(Box::new(Type::Builtin(BuiltinType::U32)))),
                docs: Vec::new(),
            },
        ],
    };
    let (size, align) = v.mem_size_align();
    assert_eq!(size, 8);
    assert_eq!(align, 4);
}

#[test]
fn enum_layout_is_tag_only() {
    let v = Variant {
        tag_repr: IntRepr::U16,
        cases: vec![
            Case { name: "a".to_string(), tref: None, docs: Vec::new() },
            Case { name: "b".to_string(), tref: None, docs: Vec::new() },
        ],
    };
    assert!(v.is_enum());
    let (size, align) = v.mem_size_align();
    assert_eq!(size, 2);
    assert_eq!(align, 2);
}

#[test]
fn list_scalar_size() {
    // a list is always a 4-byte pointer plus a 4-byte length
    let l = Type::List(Box::new(TypeRef::Value(Box::new(Type::Builtin(BuiltinType::U64)))));
    assert_eq!(gen_wasi::layout::mem_size(&l), Some(8));
    let plain = Type::Record(RecordDatatype {
        kind: RecordKind::Other,
        members: vec![member("a", BuiltinType::U8)],
    });
    assert_eq!(gen_wasi::layout::mem_size(&plain), None);
}
