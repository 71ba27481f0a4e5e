//! The Go source of each kind of declaration.
use vstd::prelude::*;

use crate::go::{
    imports_grown,
    bool_expr, doc_spec, pointer_to, push_doc, push_quoted, quote_spec, slice_of, string_expr,
    time_expr, FileState, GoExprMeta, Target,
};
use crate::inflect::inflect_spec;
use crate::metadata::{override_spec, GenError, Metadata};
use crate::target::{
    Alias, Discriminator, DiscriminatorCase, DiscriminatorVariant, Enum, EnumStrategy, EnumVariant,
    Expr, FilePartitioning, OptionalPropertyHandling, Struct, StructField,
};
use crate::text::has_str;

verus! {

/// What a declaration writer does about the `goType` override: where it is
/// malformed, fail and write nothing; where it names a type, write nothing
/// and refer to that type; otherwise write `text` and refer to `name`.
pub open spec fn emitted(
    m: Metadata,
    name: Seq<char>,
    text: Seq<char>,
    before: Seq<char>,
    after: Seq<char>,
    r: Result<Expr<GoExprMeta>, GenError>,
) -> bool {
    match override_spec(m, "goType"@) {
        Err(e) => after == before && match r {
            Ok(_) => false,
            Err(f) => f == e,
        },
        Ok(Some(t)) => after == before && match r {
            Ok(x) => x.expr@ == t,
            Err(_) => false,
        },
        Ok(None) => after == before + text && match r {
            Ok(x) => x.expr@ == name,
            Err(_) => false,
        },
    }
}

/// One field of a Go struct: its comment, then its name, type and JSON tag;
/// an optional field is left out of the JSON when it holds its zero value.
pub open spec fn field_spec<T>(f: StructField<T>) -> Seq<char> {
    doc_spec(1, f.description@) + "\t"@ + f.name@ + " "@ + f.type_.expr@ + " `json:\""@
        + f.json_name@ + if f.optional {
        ",omitempty"@
    } else {
        seq![]
    } + "\"`\n"@
}

/// The fields, separated by blank lines.
pub open spec fn fields_spec<T>(fs: Seq<StructField<T>>) -> Seq<char>
    decreases fs.len(),
{
    if fs.len() == 0 {
        seq![]
    } else {
        fields_spec(fs.drop_last()) + if fs.len() > 1 {
            "\n"@
        } else {
            seq![]
        } + field_spec(fs.last())
    }
}

/// The fields whose JSON name is not `tag`.
pub open spec fn kept<T>(fs: Seq<StructField<T>>, tag: Option<Seq<char>>) -> Seq<StructField<T>>
    decreases fs.len(),
{
    if fs.len() == 0 {
        seq![]
    } else {
        kept(fs.drop_last(), tag) + if tag == Some(fs.last().json_name@) {
            seq![]
        } else {
            seq![fs.last()]
        }
    }
}

pub open spec fn struct_text<T>(
    name: Seq<char>,
    description: Seq<char>,
    fields: Seq<StructField<T>>,
) -> Seq<char> {
    "\n"@ + doc_spec(0, description) + "type "@ + name + " struct {\n"@ + fields_spec(fields)
        + "}\n"@
}

pub open spec fn alias_text(name: Seq<char>, description: Seq<char>, expr: Seq<char>) -> Seq<
    char,
> {
    "\n"@ + doc_spec(0, description) + "type "@ + name + " = "@ + expr + "\n"@
}

/// One constant of an enumeration, typed by the enumeration and holding its
/// JSON value.
pub open spec fn variant_spec(v: EnumVariant, enum_name: Seq<char>) -> Seq<char> {
    doc_spec(1, v.description@) + "\t"@ + v.name@ + " "@ + enum_name + " = "@ + quote_spec(
        v.json_value@,
    ) + "\n"@
}

pub open spec fn variants_spec(vs: Seq<EnumVariant>, enum_name: Seq<char>) -> Seq<char>
    decreases vs.len(),
{
    if vs.len() == 0 {
        seq![]
    } else {
        variants_spec(vs.drop_last(), enum_name) + if vs.len() > 1 {
            "\n"@
        } else {
            seq![]
        } + variant_spec(vs.last(), enum_name)
    }
}

/// The decoding of one member: its JSON value selects its constant.
pub open spec fn enum_case_spec(v: EnumVariant) -> Seq<char> {
    "\tcase "@ + quote_spec(v.json_value@) + ":\n"@ + "\t\t*v = "@ + v.name@
        + "\n\t\treturn nil\n"@
}

pub open spec fn enum_cases_spec(vs: Seq<EnumVariant>) -> Seq<char>
    decreases vs.len(),
{
    if vs.len() == 0 {
        seq![]
    } else {
        enum_cases_spec(vs.drop_last()) + enum_case_spec(vs.last())
    }
}

/// The decoder of an enumeration: it accepts the members' JSON values and
/// fails, naming the value, on any other string.
pub open spec fn enum_unmarshal_text(name: Seq<char>, vs: Seq<EnumVariant>) -> Seq<char> {
    "\nfunc (v *"@ + name + ") UnmarshalJSON(b []byte) error {\n"@ + "\tvar s string\n"@
        + "\tif err := json.Unmarshal(b, &s); err != nil {\n\t\treturn err\n\t}\n\n"@
        + "\tswitch s {\n"@ + enum_cases_spec(vs) + "\t}\n\n"@ + "\treturn fmt.Errorf(\"bad "@
        + name + " value: %s\", s)\n}\n"@
}

pub open spec fn enum_text(name: Seq<char>, description: Seq<char>, vs: Seq<EnumVariant>) -> Seq<
    char,
> {
    "\n"@ + doc_spec(0, description) + "type "@ + name + " string\n"@ + "\nconst (\n"@
        + variants_spec(vs, name) + ")\n"@ + enum_unmarshal_text(name, vs)
}

/// The imports that a declaration with a JSON encoder or decoder needs:
/// `encoding/json` and `fmt` are added where it is generated, and nothing
/// changes where an override stands in for it or fails.
pub open spec fn codec_imports(m: Metadata, before: Seq<String>, after: Seq<String>) -> bool {
    if override_spec(m, "goType"@) == Ok::<Option<Seq<char>>, GenError>(None) {
        imports_grown(before, after, seq!["encoding/json"@, "fmt"@])
    } else {
        after == before
    }
}

pub open spec fn tag_of(skip: Option<String>) -> Option<Seq<char>> {
    match skip {
        Some(t) => Some(t@),
        None => None,
    }
}

/// Every field is kept where no tag is given.
pub proof fn lemma_kept_all<T>(fs: Seq<StructField<T>>)
    ensures
        kept(fs, None) == fs,
    decreases fs.len(),
{
    if fs.len() > 0 {
        lemma_kept_all(fs.drop_last());
        assert(fs.drop_last().push(fs.last()) == fs);
    }
}

/// Appends one struct field.
fn push_field<T>(out: &mut String, f: &StructField<T>)
    ensures
        final(out)@ == old(out)@ + field_spec(*f),
{
    push_doc(out, 1, f.description.as_str());
    out.append("\t");
    out.append(f.name.as_str());
    out.append(" ");
    out.append(f.type_.expr.as_str());
    out.append(" `json:\"");
    out.append(f.json_name.as_str());
    if f.optional {
        out.append(",omitempty");
    }
    out.append("\"`\n");
    assert(out@ =~= old(out)@ + field_spec(*f));
}

/// Appends the fields whose JSON name is not `skip`.
fn push_fields<T>(out: &mut String, fields: &Vec<StructField<T>>, skip: &Option<String>)
    ensures
        final(out)@ == old(out)@ + fields_spec(kept(fields@, tag_of(*skip))),
{
    let ghost tag = tag_of(*skip);
    let mut i: usize = 0;
    let mut n: usize = 0;
    while i < fields.len()
        invariant
            i <= fields.len(),
            tag == tag_of(*skip),
            n == kept(fields@.subrange(0, i as int), tag).len(),
            n <= i,
            out@ == old(out)@ + fields_spec(kept(fields@.subrange(0, i as int), tag)),
        decreases fields.len() - i,
    {
        let f = &fields[i];
        let ghost k = kept(fields@.subrange(0, i as int), tag);
        assert(fields@.subrange(0, i + 1).drop_last() == fields@.subrange(0, i as int));
        let skipped = match skip {
            Some(t) => f.json_name == *t,
            None => false,
        };
        if !skipped {
            let ghost before = out@;
            if n > 0 {
                out.append("\n");
            }
            push_field(out, f);
            n = n + 1;
            assert(k.push(*f).drop_last() == k);
            assert(kept(fields@.subrange(0, i + 1), tag) == k.push(*f));
            assert(out@ =~= old(out)@ + fields_spec(k.push(*f)));
        } else {
            assert(kept(fields@.subrange(0, i + 1), tag) =~= k);
        }
        i = i + 1;
    }
    assert(fields@.subrange(0, i as int) == fields@);
}

/// Appends one constant of an enumeration.
fn push_variant(out: &mut String, v: &EnumVariant, enum_name: &String)
    ensures
        final(out)@ == old(out)@ + variant_spec(*v, enum_name@),
{
    push_doc(out, 1, v.description.as_str());
    out.append("\t");
    out.append(v.name.as_str());
    out.append(" ");
    out.append(enum_name.as_str());
    out.append(" = ");
    push_quoted(out, v.json_value.as_str());
    out.append("\n");
    assert(out@ =~= old(out)@ + variant_spec(*v, enum_name@));
}

/// Appends the constants of an enumeration.
fn push_variants(out: &mut String, vs: &Vec<EnumVariant>, enum_name: &String)
    ensures
        final(out)@ == old(out)@ + variants_spec(vs@, enum_name@),
{
    let mut i: usize = 0;
    while i < vs.len()
        invariant
            i <= vs.len(),
            out@ == old(out)@ + variants_spec(vs@.subrange(0, i as int), enum_name@),
        decreases vs.len() - i,
    {
        assert(vs@.subrange(0, i + 1).drop_last() == vs@.subrange(0, i as int));
        if i > 0 {
            out.append("\n");
        }
        push_variant(out, &vs[i], enum_name);
        i = i + 1;
        assert(out@ =~= old(out)@ + variants_spec(vs@.subrange(0, i as int), enum_name@));
    }
    assert(vs@.subrange(0, i as int) == vs@);
}

fn push_enum_unmarshal(out: &mut String, vs: &Vec<EnumVariant>, enum_name: &String)
    ensures
        final(out)@ == old(out)@ + enum_unmarshal_text(enum_name@, vs@),
{
    out.append("\nfunc (v *");
    out.append(enum_name.as_str());
    out.append(") UnmarshalJSON(b []byte) error {\n");
    out.append("\tvar s string\n");
    out.append("\tif err := json.Unmarshal(b, &s); err != nil {\n\t\treturn err\n\t}\n\n");
    out.append("\tswitch s {\n");
    let ghost head = out@;
    let mut i: usize = 0;
    while i < vs.len()
        invariant
            i <= vs.len(),
            out@ == head + enum_cases_spec(vs@.subrange(0, i as int)),
        decreases vs.len() - i,
    {
        assert(vs@.subrange(0, i + 1).drop_last() == vs@.subrange(0, i as int));
        out.append("\tcase ");
        push_quoted(out, vs[i].json_value.as_str());
        out.append(":\n");
        out.append("\t\t*v = ");
        out.append(vs[i].name.as_str());
        out.append("\n\t\treturn nil\n");
        i = i + 1;
        assert(out@ =~= head + enum_cases_spec(vs@.subrange(0, i as int)));
    }
    assert(vs@.subrange(0, i as int) == vs@);
    out.append("\t}\n\n");
    out.append("\treturn fmt.Errorf(\"bad ");
    out.append(enum_name.as_str());
    out.append(" value: %s\", s)\n}\n");
    assert(out@ =~= old(out)@ + enum_unmarshal_text(enum_name@, vs@));
}

/// Adds the imports of a JSON encoder or decoder.
fn add_codec_imports(state: &mut FileState)
    ensures
        old(state).wf() ==> final(state).wf(),
        imports_grown(old(state).imports@, final(state).imports@, seq!["encoding/json"@, "fmt"@]),
{
    state.add_import("encoding/json");
    let ghost mid = state.imports@;
    state.add_import("fmt");
    let ghost added = seq!["encoding/json"@, "fmt"@];
    assert forall|s: Seq<char>| has_str(state.imports@, s) implies has_str(old(state).imports@, s)
        || added.contains(s) by {
        if s == "encoding/json"@ {
            assert(added[0] == s);
        } else if s == "fmt"@ {
            assert(added[1] == s);
        }
    }
}

/// Returns the override under `goType`, or `None` where there is none.
fn go_override(m: &Metadata) -> (r: Result<Option<Expr<GoExprMeta>>, GenError>)
    ensures
        match (r, override_spec(*m, "goType"@)) {
            (Ok(None), Ok(None)) => true,
            (Ok(Some(x)), Ok(Some(t))) => x.expr@ == t && x.meta == GoExprMeta,
            (Err(e), Err(f)) => e == f,
            _ => false,
        },
{
    match m.type_override("goType") {
        Ok(Some(t)) => Ok(Some(Expr { expr: t, meta: GoExprMeta })),
        Ok(None) => Ok(None),
        Err(e) => Err(e),
    }
}

/// The expression that refers to a declared name.
fn named(name: &String) -> (r: Expr<GoExprMeta>)
    ensures
        r.expr@ == name@,
        r.meta == GoExprMeta,
{
    Expr { expr: name.clone(), meta: GoExprMeta }
}

impl Target {
    /// Writes `type Name = T`.
    pub fn render_alias(&self, out: &mut String, alias: &Alias<GoExprMeta>) -> (r: Result<
        Expr<GoExprMeta>,
        GenError,
    >)
        ensures
            emitted(
                alias.metadata,
                alias.name@,
                alias_text(alias.name@, alias.description@, alias.type_.expr@),
                old(out)@,
                final(out)@,
                r,
            ),
    {
        match go_override(&alias.metadata) {
            Err(e) => return Err(e),
            Ok(Some(x)) => return Ok(x),
            Ok(None) => {},
        }
        out.append("\n");
        push_doc(out, 0, alias.description.as_str());
        out.append("type ");
        out.append(alias.name.as_str());
        out.append(" = ");
        out.append(alias.type_.expr.as_str());
        out.append("\n");
        assert(out@ =~= old(out)@ + alias_text(
            alias.name@,
            alias.description@,
            alias.type_.expr@,
        ));
        Ok(named(&alias.name))
    }

    /// Writes a string type and one constant of it per variant.
    pub fn render_enum(&self, state: &mut FileState, out: &mut String, enum_: &Enum) -> (r: Result<
        Expr<GoExprMeta>,
        GenError,
    >)
        ensures
            old(state).wf() ==> final(state).wf(),
            codec_imports(enum_.metadata, old(state).imports@, final(state).imports@),
            emitted(
                enum_.metadata,
                enum_.name@,
                enum_text(enum_.name@, enum_.description@, enum_.variants@),
                old(out)@,
                final(out)@,
                r,
            ),
    {
        match go_override(&enum_.metadata) {
            Err(e) => return Err(e),
            Ok(Some(x)) => return Ok(x),
            Ok(None) => {},
        }
        out.append("\n");
        push_doc(out, 0, enum_.description.as_str());
        out.append("type ");
        out.append(enum_.name.as_str());
        out.append(" string\n");
        out.append("\nconst (\n");
        add_codec_imports(state);
        push_variants(out, &enum_.variants, &enum_.name);
        out.append(")\n");
        push_enum_unmarshal(out, &enum_.variants, &enum_.name);
        assert(out@ =~= old(out)@ + enum_text(
            enum_.name@,
            enum_.description@,
            enum_.variants@,
        ));
        Ok(named(&enum_.name))
    }

    /// Writes a struct with one field per schema field.
    pub fn render_struct(&self, out: &mut String, struct_: &Struct<GoExprMeta>) -> (r: Result<
        Expr<GoExprMeta>,
        GenError,
    >)
        ensures
            emitted(
                struct_.metadata,
                struct_.name@,
                struct_text(struct_.name@, struct_.description@, struct_.fields@),
                old(out)@,
                final(out)@,
                r,
            ),
    {
        match go_override(&struct_.metadata) {
            Err(e) => return Err(e),
            Ok(Some(x)) => return Ok(x),
            Ok(None) => {},
        }
        out.append("\n");
        push_doc(out, 0, struct_.description.as_str());
        out.append("type ");
        out.append(struct_.name.as_str());
        out.append(" struct {\n");
        push_fields(out, &struct_.fields, &None);
        proof {
            lemma_kept_all(struct_.fields@);
        }
        out.append("}\n");
        assert(out@ =~= old(out)@ + struct_text(
            struct_.name@,
            struct_.description@,
            struct_.fields@,
        ));
        Ok(named(&struct_.name))
    }
}

/// The carrier's field for one shape of a tagged union.
pub open spec fn carrier_field_spec(c: DiscriminatorCase) -> Seq<char> {
    "\n\t"@ + c.field_name@ + " "@ + c.variant_type@ + "\n"@
}

pub open spec fn carrier_fields_spec(cs: Seq<DiscriminatorCase>) -> Seq<char>
    decreases cs.len(),
{
    if cs.len() == 0 {
        seq![]
    } else {
        carrier_fields_spec(cs.drop_last()) + carrier_field_spec(cs.last())
    }
}

/// The encoding of one shape: the tag under its JSON name beside the
/// shape's own fields.
pub open spec fn marshal_case_spec(c: DiscriminatorCase, tag_field: Seq<char>, tag_json: Seq<char>) -> Seq<char> {
    "\tcase "@ + quote_spec(c.tag_value@) + ":\n"@
        + "\t\treturn json.Marshal(struct { T string `json:\""@ + tag_json + "\"`; "@
        + c.variant_type@ + " }{ v."@ + tag_field + ", v."@ + c.field_name@ + " })\n"@
}

pub open spec fn marshal_cases_spec(cs: Seq<DiscriminatorCase>, tag_field: Seq<char>, tag_json: Seq<char>) -> Seq<char>
    decreases cs.len(),
{
    if cs.len() == 0 {
        seq![]
    } else {
        marshal_cases_spec(cs.drop_last(), tag_field, tag_json) + marshal_case_spec(
            cs.last(),
            tag_field,
            tag_json,
        )
    }
}

/// The decoding of one shape, once its tag value is known.
pub open spec fn unmarshal_case_spec(c: DiscriminatorCase) -> Seq<char> {
    "\tcase "@ + quote_spec(c.tag_value@) + ":\n"@ + "\t\terr = json.Unmarshal(b, &v."@
        + c.field_name@ + ")\n"@
}

pub open spec fn unmarshal_cases_spec(cs: Seq<DiscriminatorCase>) -> Seq<char>
    decreases cs.len(),
{
    if cs.len() == 0 {
        seq![]
    } else {
        unmarshal_cases_spec(cs.drop_last()) + unmarshal_case_spec(cs.last())
    }
}

/// The carrier type: the tag and one field per shape.
pub open spec fn carrier_text(d: Discriminator) -> Seq<char> {
    "\n"@ + doc_spec(0, d.description@) + "type "@ + d.name@ + " struct {\n"@ + "\t"@
        + d.tag_field_name@ + " string\n"@ + carrier_fields_spec(d.variants@) + "}\n"@
}

/// The encoder: it switches on the tag and fails on a tag of no shape.
pub open spec fn marshal_text(d: Discriminator) -> Seq<char> {
    "\nfunc (v "@ + d.name@ + ") MarshalJSON() ([]byte, error) {\n"@ + "\tswitch v."@
        + d.tag_field_name@ + " {\n"@ + marshal_cases_spec(
        d.variants@,
        d.tag_field_name@,
        d.tag_json_name@,
    ) + "\t}\n\n"@ + "\treturn nil, fmt.Errorf(\"bad "@ + d.tag_field_name@ + " value: %s\", v."@
        + d.tag_field_name@ + ")\n}\n"@
}

/// The decoder: it reads the tag alone first, then the shape that the tag
/// selects, and fails on a tag of no shape.
pub open spec fn unmarshal_text(d: Discriminator) -> Seq<char> {
    "\nfunc (v *"@ + d.name@ + ") UnmarshalJSON(b []byte) error {\n"@
        + "\tvar t struct { T string `json:\""@ + d.tag_json_name@ + "\"` }\n"@
        + "\tif err := json.Unmarshal(b, &t); err != nil {\n\t\treturn err\n\t}\n\n"@
        + "\tvar err error\n\tswitch t.T {\n"@ + unmarshal_cases_spec(d.variants@)
        + "\tdefault:\n\t\terr = fmt.Errorf(\"bad "@ + d.tag_field_name@ + " value: %s\", t.T)\n\t}\n\n"@
        + "\tif err != nil {\n\t\treturn err\n\t}\n\n"@ + "\tv."@ + d.tag_field_name@
        + " = t.T\n\treturn nil\n}\n"@
}

pub open spec fn discriminator_text(d: Discriminator) -> Seq<char> {
    carrier_text(d) + marshal_text(d) + unmarshal_text(d)
}

/// The record of one shape, without the tag among its fields.
pub open spec fn discriminator_variant_text<T>(v: DiscriminatorVariant<T>) -> Seq<char> {
    struct_text(v.name@, v.description@, kept(v.fields@, Some(v.tag_json_name@)))
}

/// The import lines of a file.
pub open spec fn import_lines_spec(imports: Seq<String>) -> Seq<char>
    decreases imports.len(),
{
    if imports.len() == 0 {
        seq![]
    } else {
        import_lines_spec(imports.drop_last()) + "\t"@ + quote_spec(imports.last()@) + "\n"@
    }
}

pub open spec fn imports_text(imports: Seq<String>) -> Seq<char> {
    if imports.len() == 0 {
        seq![]
    } else if imports.len() == 1 {
        "\nimport "@ + quote_spec(imports[0]@) + "\n"@
    } else {
        "\nimport (\n"@ + import_lines_spec(imports) + ")\n"@
    }
}

/// The head of a file: the generated-code marker, the package clause and
/// the imports.
pub open spec fn preamble_text(package: Seq<char>, imports: Seq<String>) -> Seq<char> {
    "// Code generated by jtd-codegen for Go v0.1.0. DO NOT EDIT.\n"@ + "\n"@ + "package "@
        + package + "\n"@ + imports_text(imports)
}

fn push_carrier_fields(out: &mut String, cs: &Vec<DiscriminatorCase>)
    ensures
        final(out)@ == old(out)@ + carrier_fields_spec(cs@),
{
    let mut i: usize = 0;
    while i < cs.len()
        invariant
            i <= cs.len(),
            out@ == old(out)@ + carrier_fields_spec(cs@.subrange(0, i as int)),
        decreases cs.len() - i,
    {
        assert(cs@.subrange(0, i + 1).drop_last() == cs@.subrange(0, i as int));
        out.append("\n\t");
        out.append(cs[i].field_name.as_str());
        out.append(" ");
        out.append(cs[i].variant_type.as_str());
        out.append("\n");
        i = i + 1;
        assert(out@ =~= old(out)@ + carrier_fields_spec(cs@.subrange(0, i as int)));
    }
    assert(cs@.subrange(0, i as int) == cs@);
}

fn push_marshal_cases(out: &mut String, cs: &Vec<DiscriminatorCase>, tag_field: &String, tag_json: &String)
    ensures
        final(out)@ == old(out)@ + marshal_cases_spec(cs@, tag_field@, tag_json@),
{
    let mut i: usize = 0;
    while i < cs.len()
        invariant
            i <= cs.len(),
            out@ == old(out)@ + marshal_cases_spec(cs@.subrange(0, i as int), tag_field@, tag_json@),
        decreases cs.len() - i,
    {
        assert(cs@.subrange(0, i + 1).drop_last() == cs@.subrange(0, i as int));
        out.append("\tcase ");
        push_quoted(out, cs[i].tag_value.as_str());
        out.append(":\n");
        out.append("\t\treturn json.Marshal(struct { T string `json:\"");
        out.append(tag_json.as_str());
        out.append("\"`; ");
        out.append(cs[i].variant_type.as_str());
        out.append(" }{ v.");
        out.append(tag_field.as_str());
        out.append(", v.");
        out.append(cs[i].field_name.as_str());
        out.append(" })\n");
        i = i + 1;
        assert(out@ =~= old(out)@ + marshal_cases_spec(cs@.subrange(0, i as int), tag_field@, tag_json@));
    }
    assert(cs@.subrange(0, i as int) == cs@);
}

fn push_unmarshal_cases(out: &mut String, cs: &Vec<DiscriminatorCase>)
    ensures
        final(out)@ == old(out)@ + unmarshal_cases_spec(cs@),
{
    let mut i: usize = 0;
    while i < cs.len()
        invariant
            i <= cs.len(),
            out@ == old(out)@ + unmarshal_cases_spec(cs@.subrange(0, i as int)),
        decreases cs.len() - i,
    {
        assert(cs@.subrange(0, i + 1).drop_last() == cs@.subrange(0, i as int));
        out.append("\tcase ");
        push_quoted(out, cs[i].tag_value.as_str());
        out.append(":\n");
        out.append("\t\terr = json.Unmarshal(b, &v.");
        out.append(cs[i].field_name.as_str());
        out.append(")\n");
        i = i + 1;
        assert(out@ =~= old(out)@ + unmarshal_cases_spec(cs@.subrange(0, i as int)));
    }
    assert(cs@.subrange(0, i as int) == cs@);
}

fn push_import_lines(out: &mut String, imports: &Vec<String>)
    ensures
        final(out)@ == old(out)@ + import_lines_spec(imports@),
{
    let mut i: usize = 0;
    while i < imports.len()
        invariant
            i <= imports.len(),
            out@ == old(out)@ + import_lines_spec(imports@.subrange(0, i as int)),
        decreases imports.len() - i,
    {
        assert(imports@.subrange(0, i + 1).drop_last() == imports@.subrange(0, i as int));
        out.append("\t");
        push_quoted(out, imports[i].as_str());
        out.append("\n");
        i = i + 1;
        assert(out@ =~= old(out)@ + import_lines_spec(imports@.subrange(0, i as int)));
    }
    assert(imports@.subrange(0, i as int) == imports@);
}

fn push_carrier(out: &mut String, d: &Discriminator)
    ensures
        final(out)@ == old(out)@ + carrier_text(*d),
{
    out.append("\n");
    push_doc(out, 0, d.description.as_str());
    out.append("type ");
    out.append(d.name.as_str());
    out.append(" struct {\n");
    out.append("\t");
    out.append(d.tag_field_name.as_str());
    out.append(" string\n");
    push_carrier_fields(out, &d.variants);
    out.append("}\n");
    assert(out@ =~= old(out)@ + carrier_text(*d));
}

fn push_marshal(out: &mut String, d: &Discriminator)
    ensures
        final(out)@ == old(out)@ + marshal_text(*d),
{
    out.append("\nfunc (v ");
    out.append(d.name.as_str());
    out.append(") MarshalJSON() ([]byte, error) {\n");
    out.append("\tswitch v.");
    out.append(d.tag_field_name.as_str());
    out.append(" {\n");
    push_marshal_cases(out, &d.variants, &d.tag_field_name, &d.tag_json_name);
    out.append("\t}\n\n");
    out.append("\treturn nil, fmt.Errorf(\"bad ");
    out.append(d.tag_field_name.as_str());
    out.append(" value: %s\", v.");
    out.append(d.tag_field_name.as_str());
    out.append(")\n}\n");
    assert(out@ =~= old(out)@ + marshal_text(*d));
}

fn push_unmarshal(out: &mut String, d: &Discriminator)
    ensures
        final(out)@ == old(out)@ + unmarshal_text(*d),
{
    out.append("\nfunc (v *");
    out.append(d.name.as_str());
    out.append(") UnmarshalJSON(b []byte) error {\n");
    out.append("\tvar t struct { T string `json:\"");
    out.append(d.tag_json_name.as_str());
    out.append("\"` }\n");
    out.append("\tif err := json.Unmarshal(b, &t); err != nil {\n\t\treturn err\n\t}\n\n");
    out.append("\tvar err error\n\tswitch t.T {\n");
    push_unmarshal_cases(out, &d.variants);
    out.append("\tdefault:\n\t\terr = fmt.Errorf(\"bad ");
    out.append(d.tag_field_name.as_str());
    out.append(" value: %s\", t.T)\n\t}\n\n");
    out.append("\tif err != nil {\n\t\treturn err\n\t}\n\n");
    out.append("\tv.");
    out.append(d.tag_field_name.as_str());
    out.append(" = t.T\n\treturn nil\n}\n");
    assert(out@ =~= old(out)@ + unmarshal_text(*d));
}

impl Target {
    /// Writes the head of a file, with the imports that `state` has
    /// gathered.
    pub fn render_preamble(&self, state: &FileState, out: &mut String)
        ensures
            final(out)@ == old(out)@ + preamble_text(self.package@, state.imports@),
    {
        out.append("// Code generated by jtd-codegen for Go v0.1.0. DO NOT EDIT.\n");
        out.append("\n");
        out.append("package ");
        out.append(self.package.as_str());
        out.append("\n");
        let n = state.imports.len();
        if n == 1 {
            out.append("\nimport ");
            push_quoted(out, state.imports[0].as_str());
            out.append("\n");
        } else if n > 1 {
            out.append("\nimport (\n");
            push_import_lines(out, &state.imports);
            out.append(")\n");
        }
        assert(out@ =~= old(out)@ + preamble_text(self.package@, state.imports@));
    }

    /// Writes the carrier type of a tagged union and its JSON encoder and
    /// decoder; these need the packages `encoding/json` and `fmt`.
    pub fn render_discriminator(
        &self,
        state: &mut FileState,
        out: &mut String,
        d: &Discriminator,
    ) -> (r: Result<Expr<GoExprMeta>, GenError>)
        ensures
            old(state).wf() ==> final(state).wf(),
            emitted(d.metadata, d.name@, discriminator_text(*d), old(out)@, final(out)@, r),
            codec_imports(d.metadata, old(state).imports@, final(state).imports@),
    {
        match go_override(&d.metadata) {
            Err(e) => return Err(e),
            Ok(Some(x)) => return Ok(x),
            Ok(None) => {},
        }
        add_codec_imports(state);
        push_carrier(out, d);
        push_marshal(out, d);
        push_unmarshal(out, d);
        assert(out@ =~= old(out)@ + discriminator_text(*d));
        Ok(named(&d.name))
    }

    /// Writes the record of one shape of a tagged union, leaving out any
    /// field under the tag's JSON name: the tag is written by the carrier.
    pub fn render_discriminator_variant(
        &self,
        out: &mut String,
        v: &DiscriminatorVariant<GoExprMeta>,
    ) -> (r: Result<Expr<GoExprMeta>, GenError>)
        ensures
            emitted(v.metadata, v.name@, discriminator_variant_text(*v), old(out)@, final(out)@, r),
    {
        match go_override(&v.metadata) {
            Err(e) => return Err(e),
            Ok(Some(x)) => return Ok(x),
            Ok(None) => {},
        }
        out.append("\n");
        push_doc(out, 0, v.description.as_str());
        out.append("type ");
        out.append(v.name.as_str());
        out.append(" struct {\n");
        let skip = Some(v.tag_json_name.clone());
        push_fields(out, &v.fields, &skip);
        out.append("}\n");
        assert(out@ =~= old(out)@ + discriminator_variant_text(*v));
        Ok(named(&v.name))
    }
}

impl crate::target::Target for Target {
    type FileState = FileState;

    type ExprMeta = GoExprMeta;

    /// One file, named after the package in snake case, with `.go`.
    open spec fn partitioning_ok(&self, p: FilePartitioning) -> bool {
        match p {
            FilePartitioning::SingleFile(f) => f@ == inflect_spec(
                self.package_naming,
                seq![self.package@],
            ) + ".go"@,
            FilePartitioning::FilePerType(_) => false,
        }
    }

    /// Go constants share the package's namespace.
    open spec fn enum_strategy_of(&self) -> EnumStrategy {
        EnumStrategy::Unmodularized
    }

    /// An optional property becomes a pointer, or a slice or map, which may
    /// be nil.
    open spec fn optional_handling_of(&self) -> OptionalPropertyHandling {
        OptionalPropertyHandling::WrapWithNullable
    }

    open spec fn type_name_of(&self, parts: Seq<Seq<char>>) -> Seq<char> {
        inflect_spec(self.item_naming, parts)
    }

    open spec fn field_name_of(&self, parts: Seq<Seq<char>>) -> Seq<char> {
        inflect_spec(self.field_naming, parts)
    }

    open spec fn variant_name_of(&self, parts: Seq<Seq<char>>) -> Seq<char> {
        inflect_spec(self.item_naming, parts)
    }

    open spec fn boolean_made(&self, s0: FileState, s1: FileState, r: Expr<GoExprMeta>) -> bool {
        r.expr@ == "bool"@ && r.meta == GoExprMeta && s1.imports@ == s0.imports@
    }

    open spec fn string_made(&self, s0: FileState, s1: FileState, r: Expr<GoExprMeta>) -> bool {
        r.expr@ == "string"@ && r.meta == GoExprMeta && s1.imports@ == s0.imports@
    }

    /// `time.Time`, with `time` added to the imports and nothing else.
    open spec fn timestamp_made(&self, s0: FileState, s1: FileState, r: Expr<GoExprMeta>) -> bool {
        &&& r.expr@ == "time.Time"@
        &&& r.meta == GoExprMeta
        &&& s0.wf() ==> s1.wf()
        &&& imports_grown(s0.imports@, s1.imports@, seq!["time"@])
    }

    /// A pointer, which any Go type may be behind.
    open spec fn nullable_made(
        &self,
        e: Expr<GoExprMeta>,
        s0: FileState,
        s1: FileState,
        r: Expr<GoExprMeta>,
    ) -> bool {
        r.expr@ == "*"@ + e.expr@ && r.meta == GoExprMeta && s1.imports@ == s0.imports@
    }

    /// A slice, which any Go type may be the element of.
    open spec fn elements_made(
        &self,
        e: Expr<GoExprMeta>,
        s0: FileState,
        s1: FileState,
        r: Expr<GoExprMeta>,
    ) -> bool {
        r.expr@ == "[]"@ + e.expr@ && r.meta == GoExprMeta && s1.imports@ == s0.imports@
    }

    open spec fn preamble_written(&self, state: FileState, before: Seq<char>, after: Seq<char>) -> bool {
        after == before + preamble_text(self.package@, state.imports@)
    }

    open spec fn alias_written(
        &self,
        alias: Alias<GoExprMeta>,
        s0: FileState,
        s1: FileState,
        before: Seq<char>,
        after: Seq<char>,
        r: Result<Expr<GoExprMeta>, GenError>,
    ) -> bool {
        &&& emitted(alias.metadata, alias.name@, alias_text(alias.name@, alias.description@, alias.type_.expr@), before, after, r)
        &&& s1.imports@ == s0.imports@
    }

    open spec fn enum_written(
        &self,
        enum_: Enum,
        s0: FileState,
        s1: FileState,
        before: Seq<char>,
        after: Seq<char>,
        r: Result<Expr<GoExprMeta>, GenError>,
    ) -> bool {
        &&& emitted(enum_.metadata, enum_.name@, enum_text(enum_.name@, enum_.description@, enum_.variants@), before, after, r)
        &&& (s0.wf() ==> s1.wf()) && codec_imports(enum_.metadata, s0.imports@, s1.imports@)
    }

    open spec fn struct_written(
        &self,
        struct_: Struct<GoExprMeta>,
        s0: FileState,
        s1: FileState,
        before: Seq<char>,
        after: Seq<char>,
        r: Result<Expr<GoExprMeta>, GenError>,
    ) -> bool {
        &&& emitted(struct_.metadata, struct_.name@, struct_text(struct_.name@, struct_.description@, struct_.fields@), before, after, r)
        &&& s1.imports@ == s0.imports@
    }

    open spec fn discriminator_written(
        &self,
        discriminator: Discriminator,
        s0: FileState,
        s1: FileState,
        before: Seq<char>,
        after: Seq<char>,
        r: Result<Expr<GoExprMeta>, GenError>,
    ) -> bool {
        &&& emitted(discriminator.metadata, discriminator.name@, discriminator_text(discriminator), before, after, r)
        &&& (s0.wf() ==> s1.wf()) && codec_imports(discriminator.metadata, s0.imports@, s1.imports@)
    }

    open spec fn discriminator_variant_written(
        &self,
        variant: DiscriminatorVariant<GoExprMeta>,
        s0: FileState,
        s1: FileState,
        before: Seq<char>,
        after: Seq<char>,
        r: Result<Expr<GoExprMeta>, GenError>,
    ) -> bool {
        &&& emitted(variant.metadata, variant.name@, discriminator_variant_text(variant), before, after, r)
        &&& s1.imports@ == s0.imports@
    }

    /// Go writes the constants of an enumeration with the enumeration; a
    /// member is referred to by its name, and nothing is written.
    open spec fn enum_variant_written(
        &self,
        enum_variant: EnumVariant,
        s0: FileState,
        s1: FileState,
        before: Seq<char>,
        after: Seq<char>,
        r: Result<Expr<GoExprMeta>, GenError>,
    ) -> bool {
        &&& after == before
        &&& s1.imports@ == s0.imports@
        &&& match r {
            Ok(x) => x.expr@ == enum_variant.name@ && x.meta == GoExprMeta,
            Err(_) => false,
        }
    }

    fn file_partitioning(&self) -> FilePartitioning {
        FilePartitioning::SingleFile(self.file_name())
    }

    fn enum_strategy(&self) -> EnumStrategy {
        EnumStrategy::Unmodularized
    }

    fn optional_property_handling(&self) -> OptionalPropertyHandling {
        OptionalPropertyHandling::WrapWithNullable
    }

    fn name_type(&self, name_parts: &Vec<String>) -> String {
        self.type_identifier(name_parts)
    }

    fn name_field(&self, name_parts: &Vec<String>) -> String {
        self.field_identifier(name_parts)
    }

    fn name_enum_variant(&self, name_parts: &Vec<String>) -> String {
        self.variant_identifier(name_parts)
    }

    fn boolean(&self, state: &mut FileState) -> Expr<GoExprMeta> {
        bool_expr()
    }

    fn string(&self, state: &mut FileState) -> Expr<GoExprMeta> {
        string_expr()
    }

    fn timestamp(&self, state: &mut FileState) -> Expr<GoExprMeta> {
        time_expr(state)
    }

    fn nullable_of(&self, state: &mut FileState, expr: Expr<GoExprMeta>) -> Expr<GoExprMeta> {
        pointer_to(expr)
    }

    fn elements_of(&self, state: &mut FileState, expr: Expr<GoExprMeta>) -> Expr<GoExprMeta> {
        slice_of(expr)
    }

    fn write_preamble(&self, state: &mut FileState, out: &mut String) {
        self.render_preamble(state, out)
    }

    fn write_alias(
        &self,
        state: &mut FileState,
        out: &mut String,
        alias: Alias<GoExprMeta>,
    ) -> Result<Expr<GoExprMeta>, GenError> {
        self.render_alias(out, &alias)
    }

    fn write_enum(&self, state: &mut FileState, out: &mut String, enum_: Enum) -> Result<
        Expr<GoExprMeta>,
        GenError,
    > {
        self.render_enum(state, out, &enum_)
    }

    fn write_enum_variant(
        &self,
        state: &mut FileState,
        out: &mut String,
        enum_variant: EnumVariant,
    ) -> Result<Expr<GoExprMeta>, GenError> {
        Ok(named(&enum_variant.name))
    }

    fn write_struct(
        &self,
        state: &mut FileState,
        out: &mut String,
        struct_: Struct<GoExprMeta>,
    ) -> Result<Expr<GoExprMeta>, GenError> {
        self.render_struct(out, &struct_)
    }

    fn write_discriminator(
        &self,
        state: &mut FileState,
        out: &mut String,
        discriminator: Discriminator,
    ) -> Result<Expr<GoExprMeta>, GenError> {
        self.render_discriminator(state, out, &discriminator)
    }

    fn write_discriminator_variant(
        &self,
        state: &mut FileState,
        out: &mut String,
        variant: DiscriminatorVariant<GoExprMeta>,
    ) -> Result<Expr<GoExprMeta>, GenError> {
        self.render_discriminator_variant(out, &variant)
    }
}

/// The tag of a tagged union is never among the fields of a shape's record:
/// every field kept under a tag has another JSON name, and every field with
/// another JSON name is kept, in its place.
pub proof fn lemma_tag_not_in_payload<T>(fs: Seq<StructField<T>>, tag: Seq<char>)
    ensures
        forall|i: int|
            0 <= i < kept(fs, Some(tag)).len() ==> #[trigger] kept(fs, Some(tag))[i].json_name@
                != tag,
        forall|i: int|
            0 <= i < kept(fs, Some(tag)).len() ==> fs.contains(#[trigger] kept(fs, Some(tag))[i]),
        forall|i: int|
            0 <= i < fs.len() && fs[i].json_name@ != tag ==> kept(fs, Some(tag)).contains(
                #[trigger] fs[i],
            ),
    decreases fs.len(),
{
    if fs.len() > 0 {
        let init = fs.drop_last();
        lemma_tag_not_in_payload(init, tag);
        let k = kept(fs, Some(tag));
        let k0 = kept(init, Some(tag));
        assert forall|i: int| 0 <= i < k.len() implies fs.contains(#[trigger] k[i]) by {
            if i < k0.len() {
                assert(k[i] == k0[i]);
                let j = choose|j: int| 0 <= j < init.len() && init[j] == k0[i];
                assert(fs[j] == init[j]);
            } else {
                assert(k[i] == fs.last());
                assert(fs[fs.len() - 1] == fs.last());
            }
        }
        assert forall|i: int| 0 <= i < fs.len() && fs[i].json_name@ != tag implies k.contains(
            #[trigger] fs[i],
        ) by {
            if i < fs.len() - 1 {
                assert(init[i] == fs[i]);
                let j = choose|j: int| 0 <= j < k0.len() && k0[j] == init[i];
                assert(k[j] == k0[j]);
            } else {
                assert(k[k.len() - 1] == fs[i]);
            }
        }
    }
}

/// The JSON tag of a field.
pub open spec fn json_tag(json_name: Seq<char>, optional: bool) -> Seq<char> {
    " `json:\""@ + json_name + if optional {
        ",omitempty"@
    } else {
        seq![]
    } + "\"`\n"@
}

/// Optionality and nullability of a field are independent: optionality
/// decides only whether the JSON tag carries `omitempty`, and the field's
/// type text, nullable or not, stands as it was composed.
pub proof fn lemma_optional_nullable_orthogonal<T>(f: StructField<T>)
    ensures
        field_spec(f) == doc_spec(1, f.description@) + "\t"@ + f.name@ + " "@ + f.type_.expr@
            + json_tag(f.json_name@, f.optional),
        f.optional ==> json_tag(f.json_name@, f.optional) == " `json:\""@ + f.json_name@
            + ",omitempty\"`\n"@,
        !f.optional ==> json_tag(f.json_name@, f.optional) == " `json:\""@ + f.json_name@
            + "\"`\n"@,
{
    assert(field_spec(f) =~= doc_spec(1, f.description@) + "\t"@ + f.name@ + " "@ + f.type_.expr@
        + json_tag(f.json_name@, f.optional));
    if f.optional {
        assert(json_tag(f.json_name@, f.optional) =~= " `json:\""@ + f.json_name@
            + ",omitempty\"`\n"@) by {
            reveal_strlit(",omitempty");
            reveal_strlit("\"`\n");
            reveal_strlit(",omitempty\"`\n");
        }
    } else {
        assert(json_tag(f.json_name@, f.optional) =~= " `json:\""@ + f.json_name@ + "\"`\n"@);
    }
}

} // verus!
