use asl::memory::PointerKind;
use asl::registry::PathRegistry;
use asl::schema::{
    asl_state, collect_offsets, compile_field, is_white_space, kind_for_type, parse_pointer,
    plan_field, split_commas, trim, FieldDecl, SchemaError,
};

fn decl(name: &str, ty: &str, pointer: &str) -> FieldDecl {
    FieldDecl { name: name.to_string(), ty: ty.to_string(), pointer: pointer.to_string() }
}

#[test]
fn registry_gives_fresh_handles() {
    let mut r = PathRegistry::new();
    assert_eq!(r.len(), 0);
    assert!(r.get(0).is_none());
    let a = r.push_pointer_path("game.exe", &[0x10, -8], PointerKind::I32);
    let b = r.push_pointer_path("game.exe", &[0x10, -8], PointerKind::I32);
    assert_eq!(a, 0);
    assert_eq!(b, 1);
    assert_eq!(r.len(), 2);
    let pa = r.get(a).unwrap();
    assert_eq!(pa.id, 0);
    assert_eq!(pa.module, "game.exe");
    assert_eq!(pa.offsets, vec![0x10i64, -8]);
    assert_eq!(pa.kind, PointerKind::I32);
    assert_eq!(r.get(b).unwrap().id, 1);
}

#[test]
fn registry_retracts_one_handle_only() {
    let mut r = PathRegistry::new();
    let a = r.push_pointer_path("a.dll", &[1], PointerKind::U8);
    let b = r.push_pointer_path("b.dll", &[2, 3], PointerKind::F64);
    r.pop_pointer_path(a);
    assert!(r.get(a).is_none());
    let pb = r.get(b).unwrap();
    assert_eq!(pb.module, "b.dll");
    assert_eq!(pb.offsets, vec![2i64, 3]);
    assert_eq!(pb.kind, PointerKind::F64);
    // A retracted handle is not given out again.
    let c = r.push_pointer_path("c.dll", &[], PointerKind::String);
    assert_eq!(c, 2);
    assert!(r.get(a).is_none());
    assert_eq!(r.get(c).unwrap().offsets, Vec::<i64>::new());
    // Retracting what is not live changes nothing.
    r.pop_pointer_path(a);
    r.pop_pointer_path(17);
    assert_eq!(r.len(), 3);
    assert_eq!(r.get(b).unwrap().module, "b.dll");
    assert_eq!(r.get(c).unwrap().module, "c.dll");
}

#[test]
fn blanks_are_recognised() {
    for c in [' ', '\t', '\n', '\r', '\u{0B}', '\u{0C}', '\u{85}', '\u{A0}', '\u{2003}', '\u{3000}'] {
        assert!(is_white_space(c));
        assert_eq!(is_white_space(c), c.is_whitespace());
    }
    for c in ['a', '0', ',', '_', '\u{200B}', '\u{08}', '\u{0E}'] {
        assert!(!is_white_space(c));
    }
}

#[test]
fn trim_drops_blanks_at_both_ends() {
    assert_eq!(trim("  game.dll \t"), "game.dll");
    assert_eq!(trim("a b"), "a b");
    assert_eq!(trim(""), "");
    assert_eq!(trim("   "), "");
    assert_eq!(trim("\u{3000}0x10\n"), "0x10");
    assert_eq!(trim(" é "), "é");
}

#[test]
fn split_cuts_at_every_comma() {
    assert_eq!(split_commas(""), vec![""]);
    assert_eq!(split_commas("abc"), vec!["abc"]);
    assert_eq!(split_commas("a,b"), vec!["a", "b"]);
    assert_eq!(split_commas(",a,,b,"), vec!["", "a", "", "b", ""]);
    assert_eq!(split_commas("m, 0x10 ,é"), vec!["m", " 0x10 ", "é"]);
}

#[test]
fn pointer_text_is_taken_apart() {
    let (module, offsets) = parse_pointer(" game.dll , 0x10, -4,1_000 , 0b101, 0o17");
    assert_eq!(module, "game.dll");
    assert_eq!(offsets, vec![Some(16), Some(-4), Some(1000), Some(5), Some(15)]);
    let (module, offsets) = parse_pointer("hl2.exe");
    assert_eq!(module, "hl2.exe");
    assert_eq!(offsets, Vec::<Option<i64>>::new());
}

#[test]
fn unreadable_offsets_are_marked() {
    let (_, offsets) = parse_pointer("m, 12, twelve, , 1.5, 99999999999999999999, 7 8, 0x7fffffffffffffff");
    assert_eq!(
        offsets,
        vec![Some(12), None, None, None, None, None, Some(i64::MAX)]
    );
    let (_, offsets) = parse_pointer("m,-9223372036854775808");
    assert_eq!(offsets, vec![Some(i64::MIN)]);
}

#[test]
fn offsets_collect_or_name_the_first_gap() {
    assert_eq!(collect_offsets(&vec![]), Ok(vec![]));
    assert_eq!(collect_offsets(&vec![Some(1), Some(-2)]), Ok(vec![1, -2]));
    assert_eq!(collect_offsets(&vec![None]), Err(0));
    assert_eq!(collect_offsets(&vec![Some(1), None, Some(3), None]), Err(1));
}

#[test]
fn type_names_map_to_kinds() {
    assert_eq!(kind_for_type("u8"), Some(PointerKind::U8));
    assert_eq!(kind_for_type("u16"), Some(PointerKind::U16));
    assert_eq!(kind_for_type("u32"), Some(PointerKind::U32));
    assert_eq!(kind_for_type("u64"), Some(PointerKind::U64));
    assert_eq!(kind_for_type("i8"), Some(PointerKind::I8));
    assert_eq!(kind_for_type("i16"), Some(PointerKind::I16));
    assert_eq!(kind_for_type("i32"), Some(PointerKind::I32));
    assert_eq!(kind_for_type("i64"), Some(PointerKind::I64));
    assert_eq!(kind_for_type("f32"), Some(PointerKind::F32));
    assert_eq!(kind_for_type("f64"), Some(PointerKind::F64));
    assert_eq!(kind_for_type("String"), None);
    assert_eq!(kind_for_type("usize"), None);
    assert_eq!(kind_for_type(""), None);
    assert_eq!(kind_for_type(" u8"), None);
}

#[test]
fn field_compiles_to_its_plan() {
    let plan = compile_field(3, &decl("total", "i32", "server.dll, 0x1A0, 8")).unwrap();
    assert_eq!(plan.name, "total");
    assert_eq!(plan.index, 3);
    assert_eq!(plan.module, "server.dll");
    assert_eq!(plan.offsets, vec![0x1A0i64, 8]);
    assert_eq!(plan.kind, PointerKind::I32);
}

#[test]
fn field_errors_name_field_and_offset() {
    assert_eq!(
        compile_field(2, &decl("x", "u8", "m, 1, zz, yy")),
        Err(SchemaError::BadOffset { field: 2, offset: 1 })
    );
    assert_eq!(
        compile_field(4, &decl("x", "bool", "m, 1")),
        Err(SchemaError::UnsupportedType { field: 4 })
    );
    // An unreadable offset is reported before an unsupported type.
    assert_eq!(
        compile_field(0, &decl("x", "bool", "m, q")),
        Err(SchemaError::BadOffset { field: 0, offset: 0 })
    );
}

#[test]
fn layout_compiles_field_by_field() {
    let fields = vec![
        decl("total", "i32", "sar.dll, 0x10"),
        decl("ipt", "f32", "sar.dll, 0x14"),
        decl("action", "u32", "sar.dll, 0x18, -4"),
    ];
    let schema = asl_state("hl2.exe", &fields).unwrap();
    assert_eq!(schema.process, "hl2.exe");
    assert_eq!(schema.fields.len(), 3);
    assert_eq!(schema.fields[0].name, "total");
    assert_eq!(schema.fields[1].kind, PointerKind::F32);
    assert_eq!(schema.fields[2].offsets, vec![0x18i64, -4]);
    for (i, plan) in schema.fields.iter().enumerate() {
        assert_eq!(plan.index, i);
        assert_eq!(plan.module, "sar.dll");
    }
    let empty = asl_state("p", &vec![]).unwrap();
    assert_eq!(empty.process, "p");
    assert!(empty.fields.is_empty());
}

#[test]
fn layout_reports_the_first_refused_field() {
    let fields = vec![
        decl("a", "u8", "m, 1"),
        decl("b", "char", "m, 2"),
        decl("c", "u8", "m, nope"),
    ];
    assert_eq!(asl_state("p", &fields), Err(SchemaError::UnsupportedType { field: 1 }));
    let fields = vec![
        decl("a", "u8", "m, 1, 2, x"),
        decl("b", "char", "m, 2"),
    ];
    assert_eq!(asl_state("p", &fields), Err(SchemaError::BadOffset { field: 0, offset: 2 }));
}

#[test]
fn layout_registers_its_paths_in_order() {
    let fields = vec![
        decl("total", "i32", "sar.dll, 0x10"),
        decl("action", "u32", "sar.dll, 0x18, -4"),
    ];
    let schema = asl_state("hl2.exe", &fields).unwrap();
    let mut registry = PathRegistry::new();
    schema.configure(&mut registry);
    assert_eq!(registry.len(), 2);
    for plan in schema.fields.iter() {
        let path = registry.get(plan.index).unwrap();
        assert_eq!(path.id, plan.index);
        assert_eq!(path.module, plan.module);
        assert_eq!(path.offsets, plan.offsets);
        assert_eq!(path.kind, plan.kind);
    }
    // In a registry that already holds paths the handles are shifted.
    let mut used = PathRegistry::new();
    used.push_pointer_path("hl2.exe", &[0], PointerKind::U32);
    schema.configure(&mut used);
    assert_eq!(used.len(), 3);
    assert_eq!(used.get(0).unwrap().module, "hl2.exe");
    assert_eq!(used.get(1).unwrap().offsets, vec![0x10i64]);
    assert_eq!(used.get(2).unwrap().kind, PointerKind::U32);
}

#[test]
fn blanks_are_the_white_space_characters() {
    for code in 0u32..=0x10FFFF {
        if let Some(c) = char::from_u32(code) {
            assert_eq!(is_white_space(c), c.is_whitespace());
        }
    }
}

#[test]
fn trim_agrees_with_the_standard_trim() {
    for text in ["", " ", "a", " a", "a ", "\t a b \n", "\u{2003}x\u{2003}", " , ", "\u{200B} a"] {
        assert_eq!(trim(text), text.trim());
    }
}

#[test]
fn plan_is_built_from_parsed_parts() {
    let plan = plan_field(1, "ipt", "f32", "sar.dll", &vec![Some(4), Some(-12)]).unwrap();
    assert_eq!(plan.name, "ipt");
    assert_eq!(plan.index, 1);
    assert_eq!(plan.module, "sar.dll");
    assert_eq!(plan.offsets, vec![4i64, -12]);
    assert_eq!(plan.kind, PointerKind::F32);
    assert_eq!(
        plan_field(1, "ipt", "f32", "sar.dll", &vec![Some(4), None]),
        Err(SchemaError::BadOffset { field: 1, offset: 1 })
    );
    assert_eq!(
        plan_field(6, "ipt", "f16", "sar.dll", &vec![]),
        Err(SchemaError::UnsupportedType { field: 6 })
    );
}
