use jtd_codegen_target_go::go::{natively_nullable, FileState, GoExprMeta, Target, TypeExpr};
use jtd_codegen_target_go::inflect::{Case, Inflector, Scope};
use jtd_codegen_target_go::metadata::{GenError, Metadata, MetadataValue};
use jtd_codegen_target_go::target::{
    Alias, Discriminator, DiscriminatorCase, DiscriminatorVariant, Enum, EnumStrategy,
    EnumVariant, Expr, ExprMeta, FilePartitioning, OptionalPropertyHandling, Struct, StructField,
};
use jtd_codegen_target_go::target::Target as _;

fn parts(ps: &[&str]) -> Vec<String> {
    ps.iter().map(|p| p.to_string()).collect()
}

fn target() -> Target {
    Target::new("jtd_codegen_e2e".to_string())
}

fn expr(s: &str) -> Expr<GoExprMeta> {
    Expr { expr: s.to_string(), meta: GoExprMeta }
}

fn field(name: &str, json: &str, optional: bool, ty: &str) -> StructField<GoExprMeta> {
    StructField {
        name: name.to_string(),
        json_name: json.to_string(),
        description: String::new(),
        optional,
        type_: expr(ty),
    }
}

fn go_type(v: MetadataValue) -> Metadata {
    Metadata { entries: vec![("goType".to_string(), v)] }
}

#[test]
fn initialisms_stay_capitalized() {
    let t = target();
    assert_eq!(t.name_type(&parts(&["user", "id"])), "UserID");
    assert_eq!(t.type_identifier(&parts(&["user", "id"])), "UserID");
    assert_eq!(t.name_type(&parts(&["api", "url"])), "APIURL");
}

#[test]
fn combining_and_tail_scopes() {
    let t = target();
    assert_eq!(t.name_type(&parts(&["order", "line_item"])), "OrderLineItem");
    assert_eq!(t.name_field(&parts(&["order", "line_item"])), "LineItem");
    assert_eq!(t.name_enum_variant(&parts(&["color", "dark-red"])), "ColorDarkRed");
}

#[test]
fn camel_case_parts_are_split() {
    let snake = Inflector { case: Case::SnakeCase, scope: Scope::Tail, keywords: vec![] };
    assert_eq!(snake.inflect(&parts(&["userId"])), "user_id");
    assert_eq!(snake.inflect(&parts(&["HTTP2Server"])), "http2_server");
}

#[test]
fn inflection_is_deterministic() {
    let t = target();
    let p = parts(&["some", "Mixed_name", "42x"]);
    assert_eq!(t.name_type(&p), t.name_type(&p));
    assert_eq!(t.name_field(&p), t.name_field(&p));
}

#[test]
fn keywords_are_avoided() {
    let snake = Inflector {
        case: Case::SnakeCase,
        scope: Scope::Tail,
        keywords: jtd_codegen_target_go::go::go_keywords(),
    };
    for w in jtd_codegen_target_go::go::go_keywords() {
        let r = snake.inflect(&vec![w.clone()]);
        assert_ne!(r, w);
        assert_eq!(r, format!("{}_", w));
    }
    let custom = Inflector {
        case: Case::PascalCase(vec![]),
        scope: Scope::Combining,
        keywords: vec!["Type".to_string()],
    };
    assert_eq!(custom.inflect(&parts(&["type"])), "Type_");
}

#[test]
fn degenerate_names_are_still_identifiers() {
    let t = target();
    assert_eq!(t.name_type(&parts(&[])), "Empty");
    assert_eq!(t.name_type(&parts(&["--"])), "Empty");
    assert_eq!(t.name_field(&parts(&["3d"])), "N3d");
}

#[test]
fn strategies() {
    let t = Target::new("MyPackage".to_string());
    match t.file_partitioning() {
        FilePartitioning::SingleFile(f) => assert_eq!(f, "my_package.go"),
        FilePartitioning::FilePerType(_) => panic!("expected a single file"),
    }
    assert!(matches!(t.enum_strategy(), EnumStrategy::Unmodularized));
}

#[test]
fn scalar_and_composed_exprs() {
    let t = target();
    let mut st = FileState::new();
    assert_eq!(t.boolean(&mut st).expr, "bool");
    let s = t.string(&mut st);
    assert_eq!(s.expr, "string");
    let n = t.nullable_of(&mut st, s);
    assert_eq!(n.expr, "*string");
    let nn = t.nullable_of(&mut st, n);
    assert_eq!(nn.expr, "**string");
    let arr = t.elements_of(&mut st, nn);
    assert_eq!(arr.expr, "[]**string");
    assert!(arr.meta == GoExprMeta::universally_usable());
    assert!(st.imports.is_empty());
    assert_eq!(t.timestamp(&mut st).expr, "time.Time");
    t.timestamp(&mut st);
    assert_eq!(st.imports, vec!["time".to_string()]);
}

#[test]
fn enum_with_two_members() {
    let t = target();
    let mut st = FileState::new();
    let mut out = String::new();
    let e = Enum {
        name: "Kind".to_string(),
        description: String::new(),
        metadata: Metadata::new(),
        variants: vec![
            EnumVariant {
                name: "Foo".to_string(),
                description: String::new(),
                json_value: "FOO".to_string(),
            },
            EnumVariant {
                name: "Bar".to_string(),
                description: String::new(),
                json_value: "BAR".to_string(),
            },
        ],
    };
    let r = t.write_enum(&mut st, &mut out, e).unwrap();
    assert_eq!(r.expr, "Kind");
    assert_eq!(
        out,
        "\ntype Kind string\n\nconst (\n\tFoo Kind = \"FOO\"\n\n\tBar Kind = \"BAR\"\n)\n\
\nfunc (v *Kind) UnmarshalJSON(b []byte) error {\n\tvar s string\n\
\tif err := json.Unmarshal(b, &s); err != nil {\n\t\treturn err\n\t}\n\n\tswitch s {\n\
\tcase \"FOO\":\n\t\t*v = Foo\n\t\treturn nil\n\
\tcase \"BAR\":\n\t\t*v = Bar\n\t\treturn nil\n\
\t}\n\n\treturn fmt.Errorf(\"bad Kind value: %s\", s)\n}\n"
    );
    assert_eq!(st.imports, parts(&["encoding/json", "fmt"]));
}

#[test]
fn enum_values_are_quoted() {
    let t = target();
    let mut out = String::new();
    let e = Enum {
        name: "Odd".to_string(),
        description: "Odd values.".to_string(),
        metadata: Metadata::new(),
        variants: vec![EnumVariant {
            name: "Q".to_string(),
            description: "A quote.".to_string(),
            json_value: "a\"b\\c\n".to_string(),
        }],
    };
    let mut st = FileState::new();
    t.render_enum(&mut st, &mut out, &e).unwrap();
    assert!(out.starts_with(
        "\n// Odd values.\ntype Odd string\n\nconst (\n\t// A quote.\n\tQ Odd = \"a\\\"b\\\\c\\n\"\n)\n"
    ));
    assert!(out.contains("\tcase \"a\\\"b\\\\c\\n\":\n\t\t*v = Q\n"));
}

#[test]
fn optional_and_nullable_fields() {
    let t = target();
    let mut st = FileState::new();
    let mut out = String::new();
    let s0 = t.string(&mut st);
    let nickname = t.nullable_of(&mut st, s0);
    let s = Struct {
        name: "User".to_string(),
        description: "A user.\nSecond line.".to_string(),
        metadata: Metadata::new(),
        has_additional: false,
        fields: vec![
            field("Age", "age", true, "int32"),
            StructField {
                name: "Nickname".to_string(),
                json_name: "nickname".to_string(),
                description: String::new(),
                optional: false,
                type_: nickname,
            },
        ],
    };
    let r = t.write_struct(&mut st, &mut out, s).unwrap();
    assert_eq!(r.expr, "User");
    assert_eq!(
        out,
        "\n// A user.\n// Second line.\ntype User struct {\n\tAge int32 `json:\"age,omitempty\"`\n\n\tNickname *string `json:\"nickname\"`\n}\n"
    );
}

#[test]
fn same_shape_twice_gives_two_declarations() {
    let t = target();
    let mut st = FileState::new();
    let mut out = String::new();
    for name in ["A", "B"] {
        let s = Struct {
            name: name.to_string(),
            description: String::new(),
            metadata: Metadata::new(),
            has_additional: false,
            fields: vec![field("X", "x", false, "string")],
        };
        assert_eq!(t.write_struct(&mut st, &mut out, s).unwrap().expr, name);
    }
    assert_eq!(
        out,
        "\ntype A struct {\n\tX string `json:\"x\"`\n}\n\ntype B struct {\n\tX string `json:\"x\"`\n}\n"
    );
}

#[test]
fn alias_declaration() {
    let t = target();
    let mut st = FileState::new();
    let mut out = String::new();
    let a = Alias {
        name: "Names".to_string(),
        description: String::new(),
        metadata: Metadata::new(),
        type_: expr("[]string"),
    };
    assert_eq!(t.write_alias(&mut st, &mut out, a).unwrap().expr, "Names");
    assert_eq!(out, "\ntype Names = []string\n");
}

#[test]
fn override_replaces_generation() {
    let t = target();
    let mut st = FileState::new();
    let mut out = String::new();
    let s = Struct {
        name: "Point".to_string(),
        description: String::new(),
        metadata: go_type(MetadataValue::Str("geo.Point".to_string())),
        has_additional: false,
        fields: vec![field("X", "x", false, "float64")],
    };
    assert_eq!(t.write_struct(&mut st, &mut out, s).unwrap().expr, "geo.Point");
    let e = Enum {
        name: "Kind".to_string(),
        description: String::new(),
        metadata: go_type(MetadataValue::Str("string".to_string())),
        variants: vec![],
    };
    assert_eq!(t.write_enum(&mut st, &mut out, e).unwrap().expr, "string");
    assert_eq!(out, "");
}

#[test]
fn malformed_override_fails() {
    let t = target();
    let mut st = FileState::new();
    let mut out = String::new();
    let a = Alias {
        name: "N".to_string(),
        description: String::new(),
        metadata: go_type(MetadataValue::Other),
        type_: expr("string"),
    };
    assert_eq!(t.write_alias(&mut st, &mut out, a).err(), Some(GenError::MalformedOverride));
    let a = Alias {
        name: "N".to_string(),
        description: String::new(),
        metadata: go_type(MetadataValue::Str(String::new())),
        type_: expr("string"),
    };
    assert_eq!(t.write_alias(&mut st, &mut out, a).err(), Some(GenError::MalformedOverride));
    assert_eq!(out, "");
}

#[test]
fn other_metadata_is_ignored() {
    let m = Metadata {
        entries: vec![
            ("description".to_string(), MetadataValue::Str("x".to_string())),
            ("goType".to_string(), MetadataValue::Str("T".to_string())),
            ("goType".to_string(), MetadataValue::Other),
        ],
    };
    assert_eq!(m.type_override("goType"), Ok(Some("T".to_string())));
    assert_eq!(m.type_override("rustType"), Ok(None));
}

fn shapes() -> Discriminator {
    Discriminator {
        name: "Shape".to_string(),
        description: String::new(),
        metadata: Metadata::new(),
        tag_field_name: "Type".to_string(),
        tag_json_name: "type".to_string(),
        variants: vec![
            DiscriminatorCase {
                field_name: "Circle".to_string(),
                variant_type: "ShapeCircle".to_string(),
                tag_value: "circle".to_string(),
            },
            DiscriminatorCase {
                field_name: "Square".to_string(),
                variant_type: "ShapeSquare".to_string(),
                tag_value: "square".to_string(),
            },
        ],
    }
}

#[test]
fn tagged_union_carrier_and_codecs() {
    let t = target();
    let mut st = FileState::new();
    let mut out = String::new();
    let r = t.write_discriminator(&mut st, &mut out, shapes()).unwrap();
    assert_eq!(r.expr, "Shape");
    let expected = "\ntype Shape struct {\n\tType string\n\n\tCircle ShapeCircle\n\n\tSquare ShapeSquare\n}\n\
\nfunc (v Shape) MarshalJSON() ([]byte, error) {\n\tswitch v.Type {\n\
\tcase \"circle\":\n\t\treturn json.Marshal(struct { T string `json:\"type\"`; ShapeCircle }{ v.Type, v.Circle })\n\
\tcase \"square\":\n\t\treturn json.Marshal(struct { T string `json:\"type\"`; ShapeSquare }{ v.Type, v.Square })\n\
\t}\n\n\treturn nil, fmt.Errorf(\"bad Type value: %s\", v.Type)\n}\n\
\nfunc (v *Shape) UnmarshalJSON(b []byte) error {\n\tvar t struct { T string `json:\"type\"` }\n\
\tif err := json.Unmarshal(b, &t); err != nil {\n\t\treturn err\n\t}\n\n\tvar err error\n\tswitch t.T {\n\
\tcase \"circle\":\n\t\terr = json.Unmarshal(b, &v.Circle)\n\
\tcase \"square\":\n\t\terr = json.Unmarshal(b, &v.Square)\n\
\tdefault:\n\t\terr = fmt.Errorf(\"bad Type value: %s\", t.T)\n\t}\n\n\
\tif err != nil {\n\t\treturn err\n\t}\n\n\tv.Type = t.T\n\treturn nil\n}\n";
    assert_eq!(out, expected);
    assert_eq!(st.imports, vec!["encoding/json".to_string(), "fmt".to_string()]);
}

#[test]
fn tagged_union_variant_leaves_out_the_tag() {
    let t = target();
    let mut st = FileState::new();
    let mut out = String::new();
    let v = DiscriminatorVariant {
        name: "ShapeCircle".to_string(),
        description: String::new(),
        metadata: Metadata::new(),
        tag_json_name: "type".to_string(),
        fields: vec![field("Type", "type", false, "string"), field("Radius", "radius", false, "float64")],
    };
    assert_eq!(t.write_discriminator_variant(&mut st, &mut out, v).unwrap().expr, "ShapeCircle");
    assert_eq!(out, "\ntype ShapeCircle struct {\n\tRadius float64 `json:\"radius\"`\n}\n");
}

#[test]
fn preamble_lists_imports() {
    let t = target();
    let mut st = FileState::new();
    let mut out = String::new();
    t.write_preamble(&mut st, &mut out);
    assert_eq!(
        out,
        "// Code generated by jtd-codegen for Go v0.1.0. DO NOT EDIT.\n\npackage jtd_codegen_e2e\n"
    );
    st.add_import("time");
    let mut out = String::new();
    t.write_preamble(&mut st, &mut out);
    assert!(out.ends_with("package jtd_codegen_e2e\n\nimport \"time\"\n"));
    st.add_import("fmt");
    st.add_import("time");
    let mut out = String::new();
    t.write_preamble(&mut st, &mut out);
    assert!(out.ends_with("package jtd_codegen_e2e\n\nimport (\n\t\"fmt\"\n\t\"time\"\n)\n"));
}

#[test]
fn enum_variant_refers_by_name() {
    let t = target();
    let mut st = FileState::new();
    let mut out = String::new();
    let v = EnumVariant {
        name: "KindFoo".to_string(),
        description: String::new(),
        json_value: "FOO".to_string(),
    };
    assert_eq!(t.write_enum_variant(&mut st, &mut out, v).unwrap().expr, "KindFoo");
    assert_eq!(out, "");
}

#[test]
fn imports_are_a_sorted_set() {
    let mut st = FileState::new();
    for p in ["time", "fmt", "encoding/json", "fmt", "time"] {
        st.add_import(p);
    }
    assert_eq!(st.imports, parts(&["encoding/json", "fmt", "time"]));
}

#[test]
fn type_exprs_render_as_go() {
    let t = target();
    let mut st = FileState::new();
    let m = Metadata::new();
    let cases = vec![
        (TypeExpr::Empty, "interface{}"),
        (TypeExpr::Boolean, "bool"),
        (TypeExpr::Int8, "int8"),
        (TypeExpr::Uint8, "uint8"),
        (TypeExpr::Int16, "int16"),
        (TypeExpr::Uint16, "uint16"),
        (TypeExpr::Int32, "int32"),
        (TypeExpr::Uint32, "uint32"),
        (TypeExpr::Float32, "float32"),
        (TypeExpr::Float64, "float64"),
        (TypeExpr::String, "string"),
        (TypeExpr::ArrayOf("Foo".to_string()), "[]Foo"),
        (TypeExpr::DictOf("Foo".to_string()), "map[string]Foo"),
        (TypeExpr::NullableOf("Foo".to_string()), "*Foo"),
    ];
    for (e, text) in cases {
        assert_eq!(t.expr(&mut st, &m, e), Ok(text.to_string()));
    }
    assert!(st.imports.is_empty());
    assert_eq!(t.expr(&mut st, &m, TypeExpr::Timestamp), Ok("time.Time".to_string()));
    assert_eq!(st.imports, parts(&["time"]));
}

#[test]
fn type_expr_override() {
    let t = target();
    let mut st = FileState::new();
    let m = go_type(MetadataValue::Str("decimal.Decimal".to_string()));
    assert_eq!(t.expr(&mut st, &m, TypeExpr::Timestamp), Ok("decimal.Decimal".to_string()));
    assert!(st.imports.is_empty());
    let bad = go_type(MetadataValue::Other);
    assert_eq!(t.expr(&mut st, &bad, TypeExpr::String), Err(GenError::MalformedOverride));
}

#[test]
fn only_slices_and_maps_are_natively_nullable() {
    assert!(natively_nullable(&TypeExpr::ArrayOf("X".to_string())));
    assert!(natively_nullable(&TypeExpr::DictOf("X".to_string())));
    assert!(!natively_nullable(&TypeExpr::NullableOf("X".to_string())));
    assert!(!natively_nullable(&TypeExpr::String));
    assert!(!natively_nullable(&TypeExpr::Timestamp));
}

#[test]
fn go_exprs_need_no_hoisting() {
    let t = target();
    let mut st = FileState::new();
    let mut out = String::new();
    let e = t.elements_of(&mut st, expr("Foo"));
    let r = jtd_codegen_target_go::target::hoist(&t, &mut st, &mut out, &parts(&["foo", "list"]), e)
        .unwrap();
    assert_eq!(r.expr, "[]Foo");
    assert_eq!(out, "");
}

#[test]
fn identifiers_are_well_formed() {
    let t = target();
    for p in [vec!["ünï-côde"], vec!["__"], vec!["9lives"], vec!["a", "", "b"], vec!["func"]] {
        for id in [t.name_type(&parts(&p)), t.name_field(&parts(&p))] {
            let first = id.chars().next().unwrap();
            assert!(!first.is_ascii_digit());
            assert!(id.chars().all(|c| c.is_ascii_alphanumeric() || c == '_'));
        }
    }
    assert_eq!(t.name_type(&parts(&["ünï-côde"])), "NCDe");
    assert_eq!(t.name_type(&parts(&["a", "", "b"])), "AB");
}

#[test]
fn package_file_is_named_after_the_package() {
    match Target::new("models".to_string()).file_partitioning() {
        FilePartitioning::SingleFile(f) => assert_eq!(f, "models.go"),
        FilePartitioning::FilePerType(_) => panic!("expected a single file"),
    }
    match Target::new("type".to_string()).file_partitioning() {
        FilePartitioning::SingleFile(f) => assert_eq!(f, "type_.go"),
        FilePartitioning::FilePerType(_) => panic!("expected a single file"),
    }
    assert!(matches!(
        target().optional_property_handling(),
        OptionalPropertyHandling::WrapWithNullable
    ));
}

#[test]
fn enum_override_adds_no_imports() {
    let t = target();
    let mut st = FileState::new();
    let mut out = String::new();
    let e = Enum {
        name: "Kind".to_string(),
        description: String::new(),
        metadata: go_type(MetadataValue::Str("string".to_string())),
        variants: vec![],
    };
    assert_eq!(t.write_enum(&mut st, &mut out, e).unwrap().expr, "string");
    assert!(st.imports.is_empty());
    assert_eq!(out, "");
}

#[test]
fn metadata_description() {
    let m = Metadata {
        entries: vec![("description".to_string(), MetadataValue::Str("Hi.".to_string()))],
    };
    assert_eq!(m.description(), "Hi.");
    assert_eq!(Metadata::new().description(), "");
    assert_eq!(go_type(MetadataValue::Other).description(), "");
}
