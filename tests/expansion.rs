use enum_utility::expand::{expand, generate_enum_helper};
use enum_utility::item::{Access, Body, Fallback, Pattern};
use enum_utility::naming::{snake_case_from_marks, variant_snake_case_name};
use enum_utility::options::{parse_options, OptionError, Options};
use enum_utility::shape::{Attribute, DeriveItem, Field, GenericParam, Shape, SumType, Variant};

const ALL: [&str; 12] = [
    "TagEnum", "RefEnum", "MutEnum", "is", "unwrap", "get", "to_tag", "unwrap_ref", "unwrap_mut", "as_ref",
    "as_mut", "get_mut",
];

fn tokens(list: &[&str]) -> Vec<String> {
    list.iter().map(|t| t.to_string()).collect()
}

fn positional(name: &str, tys: &[&str]) -> Variant {
    Variant {
        attrs: vec![],
        name: name.to_string(),
        shape: Shape::Positional,
        fields: tys.iter().map(|t| Field { ident: String::new(), ty: t.to_string() }).collect(),
        discriminant: None,
    }
}

fn named(name: &str, fields: &[(&str, &str)]) -> Variant {
    Variant {
        attrs: vec![],
        name: name.to_string(),
        shape: Shape::Named,
        fields: fields.iter().map(|(i, t)| Field { ident: i.to_string(), ty: t.to_string() }).collect(),
        discriminant: None,
    }
}

fn unit(name: &str) -> Variant {
    Variant { attrs: vec![], name: name.to_string(), shape: Shape::Unit, fields: vec![], discriminant: None }
}

fn type_param(name: &str) -> GenericParam {
    GenericParam {
        is_lifetime: false,
        name: name.to_string(),
        declaration: name.to_string(),
        impl_declaration: name.to_string(),
    }
}

fn derive(names: &[&str]) -> Attribute {
    Attribute::Derive(names.iter().map(|n| DeriveItem { path: n.to_string(), name: n.to_string() }).collect())
}

fn sum(name: &str, variants: Vec<Variant>) -> SumType {
    SumType {
        attrs: vec![],
        vis: String::new(),
        name: name.to_string(),
        generics: vec![],
        where_clause: String::new(),
        variants,
    }
}

fn generate(list: &[&str], t: &SumType) -> String {
    match generate_enum_helper(&tokens(list), t, &"enum MyEnum {}\n".to_string()) {
        Ok(s) => s,
        Err(e) => panic!("unexpected {e:?}"),
    }
}

fn has(out: &str, piece: &str) {
    assert!(out.contains(piece), "missing:\n{piece}\nin:\n{out}");
}

fn method(header: &str, arms: &[&str]) -> String {
    let mut s = format!("    {header} {{\n        match self {{\n");
    for a in arms {
        s.push_str(&format!("            {a},\n"));
    }
    s.push_str("        }\n    }\n");
    s
}

fn named_enum() -> SumType {
    sum(
        "MyEnum",
        vec![
            named("Int32", &[("int", "i32")]),
            named("Float", &[("float", "f32")]),
            named("Double", &[("double", "f64")]),
        ],
    )
}

#[test]
fn named_enum_test_tag_enum() {
    let out = generate(&ALL, &named_enum());
    assert!(out.starts_with("enum MyEnum {}\n"));
    // t1 == v1.to_tag(), t2 == v2.to_tag(), t3 == v3.to_tag()
    has(
        &out,
        &method(
            "fn to_tag(&self) -> MyEnumTag",
            &[
                "MyEnum::Int32 { .. } => MyEnumTag::Int32",
                "MyEnum::Float { .. } => MyEnumTag::Float",
                "MyEnum::Double { .. } => MyEnumTag::Double",
            ],
        ),
    );
    has(&out, "#[derive(Clone, Copy, Debug, PartialEq, Eq, Hash)]\nenum MyEnumTag {\n    Int32,\n    Float,\n    Double,\n}\n");
    // MyEnumRef::Int32 { int: &0 } and MyEnumMut::Int32 { int: &mut 0 }
    has(&out, "enum MyEnumRef<'reb> {\n    Int32 { int: &'reb i32 },\n    Float { float: &'reb f32 },\n    Double { double: &'reb f64 },\n}\n");
    has(&out, "enum MyEnumMut<'reb> {\n    Int32 { int: &'reb mut i32 },\n    Float { float: &'reb mut f32 },\n    Double { double: &'reb mut f64 },\n}\n");
    // m1.unwrap_int32(): &mut i32
    has(&out, &method("fn unwrap_int32(&'reb mut self) -> &'reb mut i32", &["MyEnumMut::Int32 { int } => int", "_ => panic!()"]));
    // v1.is_int32(), !v1.is_double(), !v1.is_float()
    has(&out, &method("fn is_int32(&self) -> bool", &["MyEnum::Int32 { .. } => true", "_ => false"]));
    has(&out, &method("fn is_double(&self) -> bool", &["MyEnum::Double { .. } => true", "_ => false"]));
    has(&out, &method("fn is_float(&self) -> bool", &["MyEnum::Float { .. } => true", "_ => false"]));
    // unwrap_ref_int32(): &i32, unwrap_ref_float(): &f32, unwrap_ref_double(): &f64
    has(&out, &method("fn unwrap_ref_int32(&self) -> &i32", &["MyEnum::Int32 { int } => int", "_ => panic!()"]));
    has(&out, &method("fn unwrap_ref_float(&self) -> &f32", &["MyEnum::Float { float } => float", "_ => panic!()"]));
    has(&out, &method("fn unwrap_ref_double(&self) -> &f64", &["MyEnum::Double { double } => double", "_ => panic!()"]));
    // v1.as_mut().get_int32().unwrap(): &mut i32
    has(
        &out,
        &method(
            "fn as_mut(&mut self) -> MyEnumMut<'_>",
            &[
                "MyEnum::Int32 { int } => MyEnumMut::Int32 { int }",
                "MyEnum::Float { float } => MyEnumMut::Float { float }",
                "MyEnum::Double { double } => MyEnumMut::Double { double }",
            ],
        ),
    );
    has(&out, "impl<'reb> MyEnumMut<'reb> {\n");
    has(&out, &method("fn get_int32(&'reb mut self) -> Option<&'reb mut i32>", &["MyEnumMut::Int32 { int } => Some(int)", "_ => None"]));
    has(&out, &method("fn get_double(&'reb mut self) -> Option<&'reb mut f64>", &["MyEnumMut::Double { double } => Some(double)", "_ => None"]));
}

#[test]
fn named_multifield_test_tag_enum() {
    let t = sum(
        "MyEnum",
        vec![
            named("Int32", &[("int1", "i32"), ("int2", "i16"), ("int3", "u8")]),
            named("Float", &[("float", "f32"), ("double", "f64")]),
            named("String", &[("string", "String"), ("slice", "&'static str"), ("bytes", "&'static [u8]")]),
        ],
    );
    let out = generate(&ALL, &t);
    has(&out, "MyEnum::String { .. } => MyEnumTag::String,\n");
    has(&out, "    String { string: &'reb String, slice: &'reb &'static str, bytes: &'reb &'static [u8] },\n");
    has(&out, &method("fn is_string(&self) -> bool", &["MyEnum::String { .. } => true", "_ => false"]));
    has(
        &out,
        &method(
            "fn unwrap_ref_int32(&self) -> (&i32, &i16, &u8)",
            &["MyEnum::Int32 { int1, int2, int3 } => (int1, int2, int3)", "_ => panic!()"],
        ),
    );
    has(
        &out,
        &method(
            "fn unwrap_ref_string(&self) -> (&String, &&'static str, &&'static [u8])",
            &["MyEnum::String { string, slice, bytes } => (string, slice, bytes)", "_ => panic!()"],
        ),
    );
    has(
        &out,
        &method(
            "fn get_float(&'reb mut self) -> Option<(&'reb mut f32, &'reb mut f64)>",
            &["MyEnumMut::Float { float, double } => Some((float, double))", "_ => None"],
        ),
    );
}

fn unnamed_enum() -> SumType {
    sum(
        "MyEnum",
        vec![
            positional("Int32", &["i32"]),
            positional("Float", &["f32"]),
            positional("Double", &["f64"]),
            positional("CamelCase", &["char"]),
        ],
    )
}

#[test]
fn unnamed_enum_test() {
    let out = generate(&ALL, &unnamed_enum());
    has(&out, "MyEnum::Int32(_) => MyEnumTag::Int32,\n");
    has(&out, "MyEnum::Float(_) => MyEnumTag::Float,\n");
    has(&out, "MyEnum::Double(_) => MyEnumTag::Double,\n");
    has(&out, "enum MyEnumRef<'reb> {\n    Int32(&'reb i32),\n    Float(&'reb f32),\n    Double(&'reb f64),\n    CamelCase(&'reb char),\n}\n");
    has(&out, "enum MyEnumMut<'reb> {\n    Int32(&'reb mut i32),\n");
    has(&out, &method("fn is_int32(&self) -> bool", &["MyEnum::Int32(_) => true", "_ => false"]));
    has(&out, &method("fn is_double(&self) -> bool", &["MyEnum::Double(_) => true", "_ => false"]));
    has(&out, &method("fn is_float(&self) -> bool", &["MyEnum::Float(_) => true", "_ => false"]));
    has(&out, &method("fn is_camel_case(&self) -> bool", &["MyEnum::CamelCase(_) => true", "_ => false"]));
    has(&out, &method("fn unwrap_ref_int32(&self) -> &i32", &["MyEnum::Int32(e0) => e0", "_ => panic!()"]));
    has(&out, &method("fn unwrap_ref_float(&self) -> &f32", &["MyEnum::Float(e0) => e0", "_ => panic!()"]));
    has(&out, &method("fn unwrap_ref_double(&self) -> &f64", &["MyEnum::Double(e0) => e0", "_ => panic!()"]));
    has(&out, "            MyEnum::Int32(e0) => MyEnumMut::Int32(e0),\n");
    has(&out, &method("fn get_int32(&'reb mut self) -> Option<&'reb mut i32>", &["MyEnumMut::Int32(e0) => Some(e0)", "_ => None"]));
}

#[test]
fn unnamed_enum_attributes_test() {
    let mut t = sum(
        "MyEnum",
        vec![positional("Int32", &["i32"]), positional("Float", &["f32"]), positional("Double", &["f64"])],
    );
    t.attrs = vec![derive(&["Clone", "Debug", "PartialEq"])];
    let out = generate(&ALL, &t);
    // m1.as_ref() can be printed with {:?}
    has(&out, "#[derive(Clone, Debug, PartialEq)]\nenum MyEnumRef<'reb> {\n");
    // m1.as_mut() can be printed with {:?}, and holds no Clone
    has(&out, "#[derive(Debug, PartialEq)]\nenum MyEnumMut<'reb> {\n");
    // let MyEnumMut::Int32(i) = m1.as_mut(); *i = 5 changes m1
    has(&out, "    Int32(&'reb mut i32),\n");
    has(
        &out,
        &method(
            "fn as_mut(&mut self) -> MyEnumMut<'_>",
            &[
                "MyEnum::Int32(e0) => MyEnumMut::Int32(e0)",
                "MyEnum::Float(e0) => MyEnumMut::Float(e0)",
                "MyEnum::Double(e0) => MyEnumMut::Double(e0)",
            ],
        ),
    );
}

#[test]
fn unnamed_generic_enum_test_tag_enum() {
    let mut t = sum(
        "MyEnum",
        vec![
            positional("Int32", &["i32"]),
            positional("Float", &["f32"]),
            positional("Double", &["f64"]),
            positional("Template", &["T"]),
            positional("Generic", &["G"]),
        ],
    );
    t.generics = vec![type_param("T"), type_param("G")];
    let out = generate(&ALL, &t);
    has(&out, "impl<T, G> MyEnum<T, G> {\n");
    has(&out, "MyEnum::Int32(_) => MyEnumTag::Int32,\n");
    has(&out, "enum MyEnumTag {\n");
    has(&out, "enum MyEnumRef<'reb, T, G> {\n    Int32(&'reb i32),\n    Float(&'reb f32),\n    Double(&'reb f64),\n    Template(&'reb T),\n    Generic(&'reb G),\n}\n");
    has(&out, "enum MyEnumMut<'reb, T, G> {\n");
    has(&out, "impl<'reb, T, G> MyEnumRef<'reb, T, G> {\n");
    has(&out, "impl<'reb, T, G> MyEnumMut<'reb, T, G> {\n");
    has(&out, &method("fn is_int32(&self) -> bool", &["MyEnum::Int32(_) => true", "_ => false"]));
    has(&out, &method("fn unwrap_ref_double(&self) -> &f64", &["MyEnum::Double(e0) => e0", "_ => panic!()"]));
    has(&out, "    fn as_mut(&mut self) -> MyEnumMut<'_, T, G> {\n");
    has(&out, "    fn as_ref(&self) -> MyEnumRef<'_, T, G> {\n");
    has(&out, &method("fn get_float(&'reb mut self) -> Option<&'reb mut f32>", &["MyEnumMut::Float(e0) => Some(e0)", "_ => None"]));
}

#[test]
fn unnamed_multifields_test_tag_enum() {
    let t = sum(
        "MyEnum",
        vec![
            positional("Int32", &["i32", "i16", "u8"]),
            positional("Float", &["f32", "f32", "f64"]),
            positional("String", &["String", "&'static str", "&'static [u8]"]),
        ],
    );
    let out = generate(&ALL, &t);
    has(&out, "MyEnum::Int32(_, _, _) => MyEnumTag::Int32,\n");
    has(&out, "    Int32(&'reb i32, &'reb i16, &'reb u8),\n");
    has(&out, "    String(&'reb mut String, &'reb mut &'static str, &'reb mut &'static [u8]),\n");
    has(&out, &method("fn is_string(&self) -> bool", &["MyEnum::String(_, _, _) => true", "_ => false"]));
    has(&out, &method("fn unwrap_ref_int32(&self) -> (&i32, &i16, &u8)", &["MyEnum::Int32(e0, e1, e2) => (e0, e1, e2)", "_ => panic!()"]));
    has(&out, &method("fn unwrap_ref_float(&self) -> (&f32, &f32, &f64)", &["MyEnum::Float(e0, e1, e2) => (e0, e1, e2)", "_ => panic!()"]));
    has(
        &out,
        &method(
            "fn get_string(&'reb mut self) -> Option<(&'reb mut String, &'reb mut &'static str, &'reb mut &'static [u8])>",
            &["MyEnumMut::String(e0, e1, e2) => Some((e0, e1, e2))", "_ => None"],
        ),
    );
}

#[test]
fn snake_case_names() {
    let cases = [
        ("CamelCase", "camel_case"),
        ("Int32", "int32"),
        ("already_snake", "already_snake"),
        ("HTTPServer", "h_t_t_p_server"),
        ("A_B", "a__b"),
        ("", ""),
        ("x9Y", "x9_y"),
        ("\u{c4}rger\u{d6}l", "\u{c4}rger_\u{d6}l"),
    ];
    for (input, expected) in cases {
        assert_eq!(variant_snake_case_name(&input.to_string()), expected, "for {input}");
    }
}

#[test]
fn snake_case_has_no_leading_separator() {
    for name in ["Abc", "ABC", "abc", "A1B2", "Zz_Top"] {
        let word = variant_snake_case_name(&name.to_string());
        assert!(!word.starts_with('_'), "{word}");
        assert_eq!(word, word.to_lowercase());
    }
    assert_eq!(variant_snake_case_name(&"Zz_Top".to_string()), "zz__top");
}

#[test]
fn unknown_option_is_rejected() {
    let t = unnamed_enum();
    let list = tokens(&["is", "Bogus", "get", "Other"]);
    assert_eq!(parse_options(&list), Err(OptionError::Unrecognized(1)));
    assert_eq!(generate_enum_helper(&list, &t, &String::new()), Err(OptionError::Unrecognized(1)));
    assert_eq!(parse_options(&tokens(&["tag_enum"])), Err(OptionError::Unrecognized(0)));
}

#[test]
fn options_are_order_free_and_repeatable() {
    let o = parse_options(&tokens(&["get", "TagEnum", "get", "is"])).unwrap();
    let expected = Options {
        tag_enum: true,
        ref_enum: false,
        mut_enum: false,
        is: true,
        unwrap: false,
        unwrap_ref: false,
        unwrap_mut: false,
        to_tag: false,
        as_ref: false,
        as_mut: false,
        get: true,
        get_ref: false,
        get_mut: false,
    };
    assert_eq!(o, expected);
    let all = parse_options(&tokens(&ALL)).unwrap();
    assert!(all.tag_enum && all.ref_enum && all.mut_enum && all.get_mut && !all.get_ref);
}

#[test]
fn nothing_requested_leaves_the_enum_alone() {
    let item = "enum MyEnum { A }\n".to_string();
    let out = generate_enum_helper(&vec![], &unnamed_enum(), &item).unwrap();
    assert_eq!(out, item);
}

#[test]
fn tag_then_predicate_on_unit_variants() {
    let t = sum("Color", vec![unit("Red"), unit("Green"), unit("Blue")]);
    let o = parse_options(&tokens(&["TagEnum", "is", "to_tag"])).unwrap();
    let e = expand(&o, &t);
    let to_tag = &e.accessors.to_tag_fns[0];
    assert_eq!(to_tag.arms, vec![0, 1, 2]);
    assert_eq!(to_tag.body, Body::Tag);
    assert_eq!(to_tag.fallback, Fallback::Total);
    let tag = e.tag.as_ref().unwrap();
    for (j, name) in ["is_red", "is_green", "is_blue"].iter().enumerate() {
        assert_eq!(&tag.is_fns[j].name, name);
        assert_eq!(tag.is_fns[j].arms, vec![j]);
        assert_eq!(tag.is_fns[j].fallback, Fallback::No);
    }
    let out = generate(&["TagEnum", "is", "to_tag"], &t);
    has(&out, &method("fn to_tag(&self) -> ColorTag", &["Color::Red => ColorTag::Red", "Color::Green => ColorTag::Green", "Color::Blue => ColorTag::Blue"]));
    has(&out, "impl ColorTag {\n");
    has(&out, &method("fn is_green(&self) -> bool", &["ColorTag::Green => true", "_ => false"]));
}

#[test]
fn unwrap_ref_gives_one_reference_per_field() {
    let t = sum(
        "MyEnum",
        vec![
            unit("Empty"),
            positional("Zero", &[]),
            positional("One", &["u8"]),
            positional("Two", &["u8", "bool"]),
            positional("Three", &["u8", "bool", "char"]),
        ],
    );
    let out = generate(&["unwrap_ref"], &t);
    has(&out, &method("fn unwrap_ref_empty(&self) -> ()", &["MyEnum::Empty => ()", "_ => panic!()"]));
    has(&out, &method("fn unwrap_ref_zero(&self) -> ()", &["MyEnum::Zero() => ()", "_ => panic!()"]));
    has(&out, &method("fn unwrap_ref_one(&self) -> &u8", &["MyEnum::One(e0) => e0", "_ => panic!()"]));
    has(&out, &method("fn unwrap_ref_two(&self) -> (&u8, &bool)", &["MyEnum::Two(e0, e1) => (e0, e1)", "_ => panic!()"]));
    has(&out, &method("fn unwrap_ref_three(&self) -> (&u8, &bool, &char)", &["MyEnum::Three(e0, e1, e2) => (e0, e1, e2)", "_ => panic!()"]));
    let many: Vec<&str> = vec!["u8"; 12];
    let t = sum("Wide", vec![positional("Many", &many)]);
    let out = generate(&["unwrap_ref"], &t);
    has(&out, "Wide::Many(e0, e1, e2, e3, e4, e5, e6, e7, e8, e9, e10, e11) => (e0, e1, e2, e3, e4, e5, e6, e7, e8, e9, e10, e11),\n");
}

#[test]
fn get_is_present_only_for_its_variant() {
    let t = unnamed_enum();
    let o = parse_options(&tokens(&["get", "unwrap"])).unwrap();
    let e = expand(&o, &t);
    assert_eq!(e.accessors.get_fns.len(), 4);
    for i in 0..4 {
        let g = &e.accessors.get_fns[i];
        assert_eq!(g.arms, vec![i]);
        assert_eq!(g.body, Body::Present);
        assert_eq!(g.fallback, Fallback::Absent);
        assert_eq!(g.receiver, Access::Owned);
        let u = &e.accessors.unwrap_fns[i];
        assert_eq!(u.arms, vec![i]);
        assert_eq!(u.body, Body::Payload);
        assert_eq!(u.fallback, Fallback::Abort);
    }
    let out = generate(&["get", "unwrap"], &t);
    has(&out, &method("fn get_float(self) -> Option<f32>", &["MyEnum::Float(e0) => Some(e0)", "_ => None"]));
    has(&out, &method("fn unwrap_camel_case(self) -> char", &["MyEnum::CamelCase(e0) => e0", "_ => panic!()"]));
}

#[test]
fn view_round_trip_hands_back_the_fields() {
    let t = named_enum();
    let out = generate(&["RefEnum", "as_ref", "unwrap"], &t);
    has(&out, "            MyEnum::Float { float } => MyEnumRef::Float { float },\n");
    has(&out, &method("fn unwrap_float(&'reb self) -> &'reb f32", &["MyEnumRef::Float { float } => float", "_ => panic!()"]));
    let o = parse_options(&tokens(&["RefEnum", "as_ref", "unwrap"])).unwrap();
    let e = expand(&o, &t);
    let view = e.ref_view.as_ref().unwrap();
    assert_eq!(view.definition.name, "MyEnumRef");
    assert_eq!(view.definition.variants[2].fields[0].ty, "&'reb f64");
    assert_eq!(view.unwrap_fns[2].arms, vec![2]);
    assert_eq!(view.unwrap_fns[2].receiver, Access::Shared);
    assert!(view.unwrap_fns[2].receiver_lifetime);
    assert_eq!(e.accessors.as_ref_fns[0].pattern, Pattern::Bind);
    assert_eq!(e.accessors.as_ref_fns[0].arms, vec![0, 1, 2]);
}

#[test]
fn mutable_accessors_borrow_the_value() {
    let t = unnamed_enum();
    let out = generate(&["get_mut", "as_mut", "unwrap_mut", "get_ref"], &t);
    has(&out, &method("fn get_mut_int32(&mut self) -> Option<&mut i32>", &["MyEnum::Int32(e0) => Some(e0)", "_ => None"]));
    has(&out, &method("fn unwrap_mut_double(&mut self) -> &mut f64", &["MyEnum::Double(e0) => e0", "_ => panic!()"]));
    has(&out, &method("fn get_ref_float(&self) -> Option<&f32>", &["MyEnum::Float(e0) => Some(e0)", "_ => None"]));
    has(&out, "    fn as_mut(&mut self) -> MyEnumMut<'_> {\n");
    let o = parse_options(&tokens(&["get_mut"])).unwrap();
    let e = expand(&o, &t);
    assert_eq!(e.accessors.get_mut_fns[3].receiver, Access::Exclusive);
    assert_eq!(e.accessors.get_mut_fns[3].fallback, Fallback::Absent);
    assert!(e.tag.is_none() && e.ref_view.is_none() && e.mut_view.is_none());
}

#[test]
fn three_variant_named_scenario() {
    let out = generate(&ALL, &named_enum());
    has(&out, "enum MyEnumMut<'reb> {\n    Int32 { int: &'reb mut i32 },\n");
    has(&out, &method("fn get_double(self) -> Option<f64>", &["MyEnum::Double { double } => Some(double)", "_ => None"]));
    has(&out, &method("fn get_double(&'reb self) -> Option<&'reb f64>", &["MyEnumRef::Double { double } => Some(double)", "_ => None"]));
    has(&out, &method("fn to_tag(&self) -> MyEnumTag", &[
        "MyEnumRef::Int32 { .. } => MyEnumTag::Int32",
        "MyEnumRef::Float { .. } => MyEnumTag::Float",
        "MyEnumRef::Double { .. } => MyEnumTag::Double",
    ]));
}

#[test]
fn generics_lifetimes_bounds_and_where_clause() {
    let mut t = sum("Holder", vec![positional("Item", &["&'a T"]), named("Pair", &[("left", "T"), ("right", "[u8; N]")])]);
    t.generics = vec![
        GenericParam {
            is_lifetime: true,
            name: "'a".to_string(),
            declaration: "'a".to_string(),
            impl_declaration: "'a".to_string(),
        },
        GenericParam {
            is_lifetime: false,
            name: "T".to_string(),
            declaration: "T: Clone = u8".to_string(),
            impl_declaration: "T: Clone".to_string(),
        },
        GenericParam {
            is_lifetime: false,
            name: "N".to_string(),
            declaration: "const N: usize".to_string(),
            impl_declaration: "const N: usize".to_string(),
        },
    ];
    t.where_clause = "where T: Default".to_string();
    t.vis = "pub(crate)".to_string();
    let out = generate(&["RefEnum", "as_ref", "is"], &t);
    has(&out, "impl<'a, T: Clone, const N: usize> Holder<'a, T, N> where T: Default {\n");
    has(&out, "    pub(crate) fn as_ref(&self) -> HolderRef<'a, '_, T, N> {\n");
    has(&out, "pub(crate) enum HolderRef<'a, 'reb, T: Clone = u8, const N: usize> where T: Default {\n");
    has(&out, "    Item(&'reb &'a T),\n    Pair { left: &'reb T, right: &'reb [u8; N] },\n");
    has(&out, "impl<'a, 'reb, T: Clone, const N: usize> HolderRef<'a, 'reb, T, N> where T: Default {\n");
    has(&out, &method("pub(crate) fn is_pair(&self) -> bool", &["HolderRef::Pair { .. } => true", "_ => false"]));
}

#[test]
fn companion_variants_keep_attributes_and_discriminants() {
    let mut t = sum("Level", vec![unit("Low"), unit("High")]);
    t.variants[0].attrs = vec!["#[doc = \"lowest\"]".to_string()];
    t.variants[0].discriminant = Some("1".to_string());
    t.variants[1].discriminant = Some("10".to_string());
    t.attrs = vec![Attribute::Other("#[repr(u8)]".to_string()), derive(&["Clone", "Copy", "std::fmt::Debug"])];
    let out = generate(&["TagEnum", "RefEnum", "MutEnum"], &t);
    has(&out, "enum LevelTag {\n    #[doc = \"lowest\"]\n    Low = 1,\n    High = 10,\n}\n");
    has(&out, "#[repr(u8)]\n#[derive(Clone, Copy, std::fmt::Debug)]\nenum LevelRef<'reb> {\n");
    has(&out, "#[repr(u8)]\n#[derive(std::fmt::Debug)]\nenum LevelMut<'reb> {\n");
}

#[test]
fn derive_paths_are_filtered_by_last_segment() {
    let mut t = sum("Shape", vec![positional("Dot", &["u8"])]);
    t.attrs = vec![Attribute::Derive(vec![
        DeriveItem { path: "core::clone::Clone".to_string(), name: "Clone".to_string() },
        DeriveItem { path: "Hash".to_string(), name: "Hash".to_string() },
        DeriveItem { path: "::core::marker::Copy".to_string(), name: "Copy".to_string() },
    ])];
    let out = generate(&["MutEnum"], &t);
    has(&out, "#[derive(Hash)]\nenum ShapeMut<'reb> {\n");
    let out = generate(&["RefEnum"], &t);
    has(&out, "#[derive(core::clone::Clone, Hash, ::core::marker::Copy)]\nenum ShapeRef<'reb> {\n");
}

#[test]
fn snake_case_follows_the_marks() {
    let word = |name: &str, marks: &[bool]| snake_case_from_marks(&name.to_string(), &marks.to_vec());
    assert_eq!(word("aB", &[false, true]), "a_b");
    assert_eq!(word("AB", &[true, true]), "a_b");
    assert_eq!(word("AB", &[false, false]), "AB");
    assert_eq!(word("x_Y", &[false, false, true]), "x__y");
    assert_eq!(word("Q", &[true]), "q");
    assert_eq!(word("", &[]), "");
    assert_eq!(word("\u{c9}t\u{c9}", &[true, false, true]), "\u{c9}t_\u{c9}");
}
