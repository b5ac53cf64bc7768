use struct_field_offsets::{
    expand_decl, expand_parsed, field_names, field_offset_table, field_offsets_derive, read_decl,
    Decl, DeclShape, DeriveError,
};

const DATA: &str = "#[repr(C)]
struct Data {
    x: i32,
    y: i32,
    label: [u8;8]
}";

fn names(list: &[&str]) -> Vec<String> {
    list.iter().map(|s| s.to_string()).collect()
}

/// The position of each field's entry in the generated accessor, in the
/// order of `fields`.
fn entry_positions(code: &str, ty: &str, fields: &[&str]) -> Vec<usize> {
    fields
        .iter()
        .map(|f| {
            let entry = format!("(stringify!({f}), std::mem::offset_of!({ty}, {f}))");
            code.find(entry.as_str()).unwrap()
        })
        .collect()
}

#[test]
fn test_struct_field_offsets() {
    let code = field_offsets_derive(DATA).unwrap();
    assert!(code.starts_with("impl Data { pub fn field_offsets() -> [(&'static str, usize); 3]"));
    let at = entry_positions(&code, "Data", &["x", "y", "label"]);
    assert!(at[0] < at[1] && at[1] < at[2]);
    // The generated accessor pairs each name with the compiler's offset;
    // `#[repr(C)]` gives these fields the offsets 0, 4 and 8.
    let fields = field_names(&read_decl(DATA).unwrap().shape).unwrap();
    let offsets = field_offset_table(&fields, &vec![0, 4, 8]);
    for (name, offset) in &offsets {
        println!("{name}: {offset}");
    }
    assert_eq!(("x", 0), (offsets[0].0.as_str(), offsets[0].1));
    assert_eq!(("y", 4), (offsets[1].0.as_str(), offsets[1].1));
    assert_eq!(("label", 8), (offsets[2].0.as_str(), offsets[2].1));
}

#[test]
fn generated_accessor_for_data() {
    let code = field_offsets_derive(DATA).unwrap();
    assert_eq!(
        code,
        "impl Data { pub fn field_offsets() -> [(&'static str, usize); 3] { [\
         (stringify!(x), std::mem::offset_of!(Data, x)), \
         (stringify!(y), std::mem::offset_of!(Data, y)), \
         (stringify!(label), std::mem::offset_of!(Data, label))\
         ] } }"
    );
}

#[test]
fn read_decl_keeps_name_and_field_order() {
    let decl = read_decl("struct Point3 { z: u8, a: u64, m: u16 }").unwrap();
    assert_eq!(decl.name, "Point3");
    match decl.shape {
        DeclShape::NamedStruct(v) => assert_eq!(v, names(&["z", "a", "m"])),
        _ => panic!("expected named fields"),
    }
}

#[test]
fn read_decl_shapes() {
    assert!(matches!(read_decl("struct P(u8, u16, u32);").unwrap().shape, DeclShape::TupleStruct(3)));
    assert!(matches!(read_decl("struct U;").unwrap().shape, DeclShape::UnitStruct));
    assert!(matches!(read_decl("enum E { A, B }").unwrap().shape, DeclShape::Enum));
    assert!(matches!(read_decl("union W { a: u32, b: f32 }").unwrap().shape, DeclShape::Union));
}

#[test]
fn enum_is_refused() {
    assert_eq!(field_offsets_derive("enum E { A, B(u8) }"), Err(DeriveError::NotAStruct));
}

#[test]
fn union_is_refused() {
    assert_eq!(field_offsets_derive("union W { a: u32, b: u64 }"), Err(DeriveError::NotAStruct));
}

#[test]
fn tuple_struct_is_refused() {
    assert_eq!(field_offsets_derive("struct P(u8, u16);"), Err(DeriveError::FieldsNotNamed));
}

#[test]
fn unit_struct_is_refused() {
    assert_eq!(field_offsets_derive("struct U;"), Err(DeriveError::FieldsNotNamed));
}

#[test]
fn text_that_is_no_declaration_is_refused() {
    for text in ["fn f() {}", "struct {", ""] {
        let message = match syn::parse_str::<syn::DeriveInput>(text) {
            Ok(_) => panic!("{text:?} parsed"),
            Err(e) => e.to_string(),
        };
        assert!(!message.is_empty());
        assert_eq!(field_offsets_derive(text), Err(DeriveError::Unparsable(message.clone())));
        assert!(matches!(read_decl(text), Err(DeriveError::Unparsable(m)) if m == message));
    }
}

#[test]
fn expand_parsed_passes_parser_message_on() {
    assert_eq!(
        expand_parsed(Err("expected `struct`".to_string())),
        Err(DeriveError::Unparsable("expected `struct`".to_string()))
    );
    assert_eq!(
        expand_parsed(Ok(Decl { name: "E".to_string(), shape: DeclShape::Enum })),
        Err(DeriveError::NotAStruct)
    );
    let decl = Decl { name: "Pair".to_string(), shape: DeclShape::NamedStruct(names(&["l", "r"])) };
    assert_eq!(
        expand_parsed(Ok(decl)).unwrap(),
        "impl Pair { pub fn field_offsets() -> [(&'static str, usize); 2] { [\
         (stringify!(l), std::mem::offset_of!(Pair, l)), \
         (stringify!(r), std::mem::offset_of!(Pair, r))] } }"
    );
}

#[test]
fn struct_without_fields_gets_empty_table() {
    assert_eq!(
        field_offsets_derive("struct Empty {}").unwrap(),
        "impl Empty { pub fn field_offsets() -> [(&'static str, usize); 0] { [] } }"
    );
}

#[test]
fn length_with_two_digits() {
    let decl = Decl {
        name: "Wide".to_string(),
        shape: DeclShape::NamedStruct(names(&[
            "a", "b", "c", "d", "e", "f", "g", "h", "i", "j", "k", "l",
        ])),
    };
    let code = expand_decl(&decl).unwrap();
    assert!(code.starts_with("impl Wide { pub fn field_offsets() -> [(&'static str, usize); 12] { ["));
    assert!(code.ends_with("(stringify!(l), std::mem::offset_of!(Wide, l))] } }"));
}

#[test]
fn single_field_has_no_separator() {
    let decl = Decl { name: "One".to_string(), shape: DeclShape::NamedStruct(names(&["v"])) };
    assert_eq!(
        expand_decl(&decl).unwrap(),
        "impl One { pub fn field_offsets() -> [(&'static str, usize); 1] { [\
         (stringify!(v), std::mem::offset_of!(One, v))] } }"
    );
}

#[test]
fn field_names_by_shape() {
    assert_eq!(field_names(&DeclShape::NamedStruct(names(&["q", "r"]))), Ok(names(&["q", "r"])));
    assert_eq!(field_names(&DeclShape::TupleStruct(2)), Err(DeriveError::FieldsNotNamed));
    assert_eq!(field_names(&DeclShape::UnitStruct), Err(DeriveError::FieldsNotNamed));
    assert_eq!(field_names(&DeclShape::Enum), Err(DeriveError::NotAStruct));
    assert_eq!(field_names(&DeclShape::Union), Err(DeriveError::NotAStruct));
}

#[test]
fn table_of_no_fields_is_empty() {
    assert!(field_offset_table(&Vec::new(), &Vec::new()).is_empty());
}

#[test]
fn table_pairs_in_order() {
    let t = field_offset_table(&names(&["b", "a"]), &vec![16, 0]);
    assert_eq!(t, vec![("b".to_string(), 16), ("a".to_string(), 0)]);
}
