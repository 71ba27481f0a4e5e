//! A backend for Go: structs with JSON tags, string-typed constants for
//! enumerations, and marshaling methods for tagged unions.
use vstd::prelude::*;

use crate::inflect::{
    inflect_spec, lemma_inflect_avoids_keywords, no_trailing_underscore, Case, Inflector, Scope,
};
use crate::metadata::{override_spec, GenError, Metadata};
use crate::target::{Expr, ExprMeta};
use crate::text::{
    is_alnum, is_digit, chars_of, comment_block_spec, has_str, lemma_lex_total, lemma_lex_trans, lex_lt, push_char,
    push_comment_block, push_tabs, str_lt, tabs, views,
};

verus! {

/// The reserved words of Go.
pub open spec fn go_keywords_spec() -> Seq<Seq<char>> {
    seq![
        "break"@,
        "case"@,
        "chan"@,
        "const"@,
        "continue"@,
        "default"@,
        "defer"@,
        "else"@,
        "fallthrough"@,
        "for"@,
        "func"@,
        "go"@,
        "goto"@,
        "if"@,
        "import"@,
        "interface"@,
        "map"@,
        "package"@,
        "range"@,
        "return"@,
        "select"@,
        "struct"@,
        "switch"@,
        "type"@,
        "var"@,
    ]
}

/// The initialisms that Go names write in capitals.
pub open spec fn go_initialisms_spec() -> Seq<Seq<char>> {
    seq![
        "ACL"@,
        "API"@,
        "ASCII"@,
        "CPU"@,
        "CSS"@,
        "DNS"@,
        "EOF"@,
        "GUID"@,
        "HTML"@,
        "HTTP"@,
        "HTTPS"@,
        "ID"@,
        "IP"@,
        "JSON"@,
        "LHS"@,
        "QPS"@,
        "RAM"@,
        "RHS"@,
        "RPC"@,
        "SLA"@,
        "SMTP"@,
        "SQL"@,
        "SSH"@,
        "TCP"@,
        "TLS"@,
        "TTL"@,
        "UDP"@,
        "UI"@,
        "UID"@,
        "UUID"@,
        "URI"@,
        "URL"@,
        "UTF8"@,
        "VM"@,
        "XML"@,
        "XMPP"@,
        "XSRF"@,
        "XSS"@,
    ]
}

/// The reserved words of Go.
pub fn go_keywords() -> (r: Vec<String>)
    ensures
        views(r@) == go_keywords_spec(),
        no_trailing_underscore(r@),
{
    let mut v: Vec<String> = Vec::new();
    v.push(String::from_str("break"));
    v.push(String::from_str("case"));
    v.push(String::from_str("chan"));
    v.push(String::from_str("const"));
    v.push(String::from_str("continue"));
    v.push(String::from_str("default"));
    v.push(String::from_str("defer"));
    v.push(String::from_str("else"));
    v.push(String::from_str("fallthrough"));
    v.push(String::from_str("for"));
    v.push(String::from_str("func"));
    v.push(String::from_str("go"));
    v.push(String::from_str("goto"));
    v.push(String::from_str("if"));
    v.push(String::from_str("import"));
    v.push(String::from_str("interface"));
    v.push(String::from_str("map"));
    v.push(String::from_str("package"));
    v.push(String::from_str("range"));
    v.push(String::from_str("return"));
    v.push(String::from_str("select"));
    v.push(String::from_str("struct"));
    v.push(String::from_str("switch"));
    v.push(String::from_str("type"));
    v.push(String::from_str("var"));
    proof {
        reveal_strlit("break");
        reveal_strlit("case");
        reveal_strlit("chan");
        reveal_strlit("const");
        reveal_strlit("continue");
        reveal_strlit("default");
        reveal_strlit("defer");
        reveal_strlit("else");
        reveal_strlit("fallthrough");
        reveal_strlit("for");
        reveal_strlit("func");
        reveal_strlit("go");
        reveal_strlit("goto");
        reveal_strlit("if");
        reveal_strlit("import");
        reveal_strlit("interface");
        reveal_strlit("map");
        reveal_strlit("package");
        reveal_strlit("range");
        reveal_strlit("return");
        reveal_strlit("select");
        reveal_strlit("struct");
        reveal_strlit("switch");
        reveal_strlit("type");
        reveal_strlit("var");
    }
    assert(views(v@) =~= go_keywords_spec());
    assert forall|i: int| 0 <= i < v@.len() implies #[trigger] v@[i]@.len() == 0 || v@[i]@.last()
        != '_' by {
        assert(v@[i]@ == go_keywords_spec()[i]);
    }
    v
}

/// The initialisms that Go names write in capitals.
pub fn go_initialisms() -> (r: Vec<String>)
    ensures
        views(r@) == go_initialisms_spec(),
{
    let mut v: Vec<String> = Vec::new();
    v.push(String::from_str("ACL"));
    v.push(String::from_str("API"));
    v.push(String::from_str("ASCII"));
    v.push(String::from_str("CPU"));
    v.push(String::from_str("CSS"));
    v.push(String::from_str("DNS"));
    v.push(String::from_str("EOF"));
    v.push(String::from_str("GUID"));
    v.push(String::from_str("HTML"));
    v.push(String::from_str("HTTP"));
    v.push(String::from_str("HTTPS"));
    v.push(String::from_str("ID"));
    v.push(String::from_str("IP"));
    v.push(String::from_str("JSON"));
    v.push(String::from_str("LHS"));
    v.push(String::from_str("QPS"));
    v.push(String::from_str("RAM"));
    v.push(String::from_str("RHS"));
    v.push(String::from_str("RPC"));
    v.push(String::from_str("SLA"));
    v.push(String::from_str("SMTP"));
    v.push(String::from_str("SQL"));
    v.push(String::from_str("SSH"));
    v.push(String::from_str("TCP"));
    v.push(String::from_str("TLS"));
    v.push(String::from_str("TTL"));
    v.push(String::from_str("UDP"));
    v.push(String::from_str("UI"));
    v.push(String::from_str("UID"));
    v.push(String::from_str("UUID"));
    v.push(String::from_str("URI"));
    v.push(String::from_str("URL"));
    v.push(String::from_str("UTF8"));
    v.push(String::from_str("VM"));
    v.push(String::from_str("XML"));
    v.push(String::from_str("XMPP"));
    v.push(String::from_str("XSRF"));
    v.push(String::from_str("XSS"));
    assert(views(v@) =~= go_initialisms_spec());
    v
}

/// How a character is written inside a Go string literal.
pub open spec fn escape_char(c: char) -> Seq<char> {
    if c == '"' {
        seq!['\\', '"']
    } else if c == '\\' {
        seq!['\\', '\\']
    } else if c == '\n' {
        seq!['\\', 'n']
    } else if c == '\t' {
        seq!['\\', 't']
    } else if c == '\r' {
        seq!['\\', 'r']
    } else {
        seq![c]
    }
}

pub open spec fn escaped(s: Seq<char>) -> Seq<char>
    decreases s.len(),
{
    if s.len() == 0 {
        seq![]
    } else {
        escaped(s.drop_last()) + escape_char(s.last())
    }
}

/// `s` as a Go string literal.
pub open spec fn quote_spec(s: Seq<char>) -> Seq<char> {
    seq!['"'] + escaped(s) + seq!['"']
}

/// Appends `s` as a Go string literal.
pub fn push_quoted(out: &mut String, s: &str)
    ensures
        final(out)@ == old(out)@ + quote_spec(s@),
{
    let chars = chars_of(s);
    push_char(out, '"');
    let mut i: usize = 0;
    while i < chars.len()
        invariant
            chars@ == s@,
            i <= chars.len(),
            out@ == old(out)@ + seq!['"'] + escaped(s@.subrange(0, i as int)),
        decreases chars.len() - i,
    {
        assert(s@.subrange(0, i + 1).drop_last() == s@.subrange(0, i as int));
        let c = chars[i];
        if c == '"' {
            push_char(out, '\\');
            push_char(out, '"');
        } else if c == '\\' {
            push_char(out, '\\');
            push_char(out, '\\');
        } else if c == '\n' {
            push_char(out, '\\');
            push_char(out, 'n');
        } else if c == '\t' {
            push_char(out, '\\');
            push_char(out, 't');
        } else if c == '\r' {
            push_char(out, '\\');
            push_char(out, 'r');
        } else {
            push_char(out, c);
        }
        i = i + 1;
    }
    assert(s@.subrange(0, i as int) == s@);
    push_char(out, '"');
}

/// A description as a Go comment, indented by `indent` tabs.
pub open spec fn doc_spec(indent: nat, s: Seq<char>) -> Seq<char> {
    comment_block_spec(tabs(indent) + "// "@, s)
}

/// Appends a description as a Go comment, indented by `indent` tabs.
pub fn push_doc(out: &mut String, indent: usize, s: &str)
    ensures
        final(out)@ == old(out)@ + doc_spec(indent as nat, s@),
{
    let mut prefix = String::new();
    push_tabs(&mut prefix, indent);
    prefix.append("// ");
    push_comment_block(out, prefix.as_str(), s);
}

/// The metadata of Go type expressions: every one of them may stand in any
/// position, since Go can point to, and hold a slice or map of, any type.
#[derive(PartialEq, Eq, Structural, Clone, Copy, Debug)]
pub struct GoExprMeta;

impl ExprMeta for GoExprMeta {
    open spec fn is_universal(&self) -> bool {
        true
    }

    fn universally_usable() -> GoExprMeta {
        GoExprMeta
    }

    fn is_universally_usable(&self) -> bool {
        true
    }
}

/// Every Go type expression may stand in any position: composing one as a
/// pointer, a slice or a map never calls for hoisting it into a named
/// declaration first.
pub proof fn lemma_go_exprs_universal(m: GoExprMeta)
    ensures
        m.is_universal(),
{
}

/// A Go type name: `interface{}`, or a possibly qualified identifier
/// (`time.Time`).
pub open spec fn is_type_name(s: Seq<char>) -> bool {
    ||| s == "interface{}"@
    ||| {
        &&& s.len() > 0
        &&& !is_digit(s[0])
        &&& s[0] != '.'
        &&& forall|i: int|
            0 <= i < s.len() ==> is_alnum(#[trigger] s[i]) || s[i] == '_' || s[i] == '.'
    }
}

/// A Go type text as the backend composes them: a type name behind any
/// number of pointers, slices and string-keyed maps.
pub open spec fn is_go_type(s: Seq<char>) -> bool
    decreases s.len(),
{
    if s.len() > 0 && s[0] == '*' {
        is_go_type(s.drop_first())
    } else if s.len() >= 2 && s.subrange(0, 2) == "[]"@ {
        is_go_type(s.subrange(2, s.len() as int))
    } else if s.len() >= 11 && s.subrange(0, 11) == "map[string]"@ {
        is_go_type(s.subrange(11, s.len() as int))
    } else {
        is_type_name(s)
    }
}

/// Composing a Go type as a pointer, a slice or a map gives a Go type
/// again, which may stand as a field's type, an element or a map value.
pub proof fn lemma_composition_valid(e: Seq<char>)
    requires
        is_go_type(e),
    ensures
        is_go_type("*"@ + e),
        is_go_type("[]"@ + e),
        is_go_type("map[string]"@ + e),
{
    reveal_strlit("*");
    reveal_strlit("[]");
    reveal_strlit("map[string]");
    let p = "*"@ + e;
    assert(p.drop_first() =~= e);
    let a = "[]"@ + e;
    assert(a.subrange(0, 2) =~= "[]"@);
    assert(a.subrange(2, a.len() as int) =~= e);
    let m = "map[string]"@ + e;
    assert(m.subrange(0, 2) != "[]"@) by {
        assert(m.subrange(0, 2)[0] == 'm');
    }
    assert(m.subrange(0, 11) =~= "map[string]"@);
    assert(m.subrange(11, m.len() as int) =~= e);
}

/// What one Go file needs beyond its declarations: the packages it imports.
pub struct FileState {
    pub imports: Vec<String>,
}

impl FileState {
    /// A file that imports nothing yet.
    pub fn new() -> (r: FileState)
        ensures
            r.imports@.len() == 0,
            r.wf(),
    {
        FileState { imports: Vec::new() }
    }

    /// The imports are listed once each, in order.
    pub open spec fn wf(&self) -> bool {
        forall|i: int, j: int|
            0 <= i < j < self.imports@.len() ==> lex_lt(
                #[trigger] self.imports@[i]@,
                #[trigger] self.imports@[j]@,
            )
    }

    /// Records that the file imports `package`, keeping the imports in
    /// order.
    pub fn add_import(&mut self, package: &str)
        ensures
            old(self).wf() ==> final(self).wf(),
            has_str(final(self).imports@, package@),
            forall|s: Seq<char>|
                has_str(old(self).imports@, s) ==> has_str(final(self).imports@, s),
            forall|s: Seq<char>|
                has_str(final(self).imports@, s) ==> s == package@ || has_str(
                    old(self).imports@,
                    s,
                ),
    {
        let p = String::from_str(package);
        let mut i: usize = 0;
        while i < self.imports.len() && str_lt(self.imports[i].as_str(), package)
            invariant
                i <= self.imports@.len(),
                self.imports@ == old(self).imports@,
                p@ == package@,
                forall|k: int| 0 <= k < i ==> lex_lt(#[trigger] self.imports@[k]@, package@),
            decreases self.imports.len() - i,
        {
            i = i + 1;
        }
        if i < self.imports.len() && self.imports[i] == p {
            return;
        }
        let ghost before = self.imports@;
        self.imports.insert(i, p);
        proof {
            let after = self.imports@;
            assert(after[i as int]@ == package@);
            assert forall|s: Seq<char>| has_str(before, s) implies has_str(after, s) by {
                let k = choose|k: int| 0 <= k < before.len() && #[trigger] before[k]@ == s;
                if k < i {
                    assert(after[k] == before[k]);
                } else {
                    assert(after[k + 1] == before[k]);
                }
            }
            assert forall|s: Seq<char>| has_str(after, s) implies s == package@ || has_str(
                before,
                s,
            ) by {
                let k = choose|k: int| 0 <= k < after.len() && #[trigger] after[k]@ == s;
                if k < i {
                    assert(after[k] == before[k]);
                } else if k > i {
                    assert(after[k] == before[k - 1]);
                }
            }
            if old(self).wf() {
                if i < before.len() {
                    lemma_lex_total(before[i as int]@, package@);
                }
                assert forall|a: int, b: int| 0 <= a < b < after.len() implies lex_lt(
                    #[trigger] after[a]@,
                    #[trigger] after[b]@,
                ) by {
                    if b < i {
                        assert(after[a] == before[a] && after[b] == before[b]);
                    } else if b == i {
                        assert(after[a] == before[a]);
                    } else if a == i {
                        assert(after[b] == before[b - 1]);
                        if b - 1 > i {
                            assert(lex_lt(before[i as int]@, before[b - 1]@));
                            lemma_lex_trans(package@, before[i as int]@, before[b - 1]@);
                        }
                    } else if a < i {
                        assert(after[a] == before[a] && after[b] == before[b - 1]);
                        if i < before.len() {
                            lemma_lex_trans(before[a]@, package@, before[i as int]@);
                            if b - 1 > i {
                                assert(lex_lt(before[i as int]@, before[b - 1]@));
                                lemma_lex_trans(before[a]@, before[i as int]@, before[b - 1]@);
                            }
                        }
                    } else {
                        assert(after[a] == before[a - 1] && after[b] == before[b - 1]);
                    }
                }
            }
        }
    }
}

/// The imports `after` are those `before` and the `added` ones, and no
/// others.
pub open spec fn imports_grown(before: Seq<String>, after: Seq<String>, added: Seq<Seq<char>>) -> bool {
    &&& forall|s: Seq<char>| has_str(before, s) ==> has_str(after, s)
    &&& forall|s: Seq<char>| has_str(after, s) ==> has_str(before, s) || added.contains(s)
    &&& forall|i: int| 0 <= i < added.len() ==> has_str(after, #[trigger] added[i])
}

/// The Go backend: the package that the generated file belongs to, and the
/// naming conventions of Go.
pub struct Target {
    pub package: String,
    pub package_naming: Inflector,
    pub item_naming: Inflector,
    pub field_naming: Inflector,
}

/// Whether `inf` is the given case and scope over Go's reserved words.
pub open spec fn is_go_convention(inf: Inflector, pascal: bool, combining: bool) -> bool {
    &&& views(inf.keywords@) == go_keywords_spec()
    &&& no_trailing_underscore(inf.keywords@)
    &&& match inf.case {
        Case::SnakeCase => !pascal,
        Case::PascalCase(initialisms) => pascal && views(initialisms@) == go_initialisms_spec(),
    }
    &&& match inf.scope {
        Scope::Tail => !combining,
        Scope::Combining => combining,
    }
}

impl Target {
    /// Package names: snake case from the last name part. Type and enum
    /// member names: Pascal case with initialisms from all name parts. Field
    /// names: Pascal case with initialisms from the last name part. All avoid
    /// Go's reserved words.
    pub open spec fn wf(&self) -> bool {
        &&& is_go_convention(self.package_naming, false, false)
        &&& is_go_convention(self.item_naming, true, true)
        &&& is_go_convention(self.field_naming, true, false)
    }

    /// A backend for files of the Go package `package`.
    pub fn new(package: String) -> (r: Target)
        ensures
            r.wf(),
            r.package == package,
    {
        Target {
            package,
            package_naming: Inflector {
                case: Case::SnakeCase,
                scope: Scope::Tail,
                keywords: go_keywords(),
            },
            item_naming: Inflector {
                case: Case::PascalCase(go_initialisms()),
                scope: Scope::Combining,
                keywords: go_keywords(),
            },
            field_naming: Inflector {
                case: Case::PascalCase(go_initialisms()),
                scope: Scope::Tail,
                keywords: go_keywords(),
            },
        }
    }

    /// The name of the one file that all declarations go to: the package
    /// name in snake case, with the `.go` extension.
    pub fn file_name(&self) -> (r: String)
        ensures
            r@ == inflect_spec(self.package_naming, seq![self.package@]) + ".go"@,
    {
        let mut parts: Vec<String> = Vec::new();
        parts.push(self.package.clone());
        assert(views(parts@) =~= seq![self.package@]);
        let mut r = self.package_naming.inflect(&parts);
        r.append(".go");
        r
    }

    /// The identifier of a type.
    pub fn type_identifier(&self, name_parts: &Vec<String>) -> (r: String)
        ensures
            r@ == inflect_spec(self.item_naming, views(name_parts@)),
    {
        self.item_naming.inflect(name_parts)
    }

    /// The identifier of a struct field.
    pub fn field_identifier(&self, name_parts: &Vec<String>) -> (r: String)
        ensures
            r@ == inflect_spec(self.field_naming, views(name_parts@)),
    {
        self.field_naming.inflect(name_parts)
    }

    /// The identifier of an enum member; Go's constants share the package's
    /// namespace, so these are named as types are.
    pub fn variant_identifier(&self, name_parts: &Vec<String>) -> (r: String)
        ensures
            r@ == inflect_spec(self.item_naming, views(name_parts@)),
    {
        self.item_naming.inflect(name_parts)
    }
}

/// No Go name that the backend produces, of a type, a field, an enum member
/// or a package, is one of Go's reserved words; in particular a reserved
/// word given as the only name part never comes back as itself.
pub proof fn lemma_go_names_avoid_keywords(t: Target, parts: Seq<Seq<char>>, w: Seq<char>)
    requires
        t.wf(),
        go_keywords_spec().contains(w),
    ensures
        inflect_spec(t.item_naming, parts) != w,
        inflect_spec(t.field_naming, parts) != w,
        inflect_spec(t.package_naming, parts) != w,
{
    let k = choose|k: int| 0 <= k < go_keywords_spec().len() && go_keywords_spec()[k] == w;
    assert(views(t.item_naming.keywords@)[k] == w);
    assert(views(t.field_naming.keywords@)[k] == w);
    assert(views(t.package_naming.keywords@)[k] == w);
    assert(has_str(t.item_naming.keywords@, w));
    assert(has_str(t.field_naming.keywords@, w));
    assert(has_str(t.package_naming.keywords@, w));
    lemma_inflect_avoids_keywords(t.item_naming, parts);
    lemma_inflect_avoids_keywords(t.field_naming, parts);
    lemma_inflect_avoids_keywords(t.package_naming, parts);
}

/// The file of a package is never named after a Go reserved word, not even
/// where the package's own name is one.
pub proof fn lemma_file_name_avoids_keywords(t: Target, w: Seq<char>)
    requires
        t.wf(),
        go_keywords_spec().contains(w),
    ensures
        inflect_spec(t.package_naming, seq![t.package@]) + ".go"@ != w + ".go"@,
{
    lemma_go_names_avoid_keywords(t, seq![t.package@], w);
    let a = inflect_spec(t.package_naming, seq![t.package@]);
    if a + ".go"@ == w + ".go"@ {
        assert(a =~= (a + ".go"@).subrange(0, a.len() as int));
        assert(w =~= (w + ".go"@).subrange(0, w.len() as int));
    }
}

/// An expression of the given text.
pub fn go_expr(text: &str) -> (r: Expr<GoExprMeta>)
    ensures
        r.expr@ == text@,
        r.meta == GoExprMeta,
{
    Expr { expr: String::from_str(text), meta: GoExprMeta }
}

/// `bool`.
pub fn bool_expr() -> (r: Expr<GoExprMeta>)
    ensures
        r.expr@ == "bool"@,
        r.meta == GoExprMeta,
{
    go_expr("bool")
}

/// `string`.
pub fn string_expr() -> (r: Expr<GoExprMeta>)
    ensures
        r.expr@ == "string"@,
        r.meta == GoExprMeta,
{
    go_expr("string")
}

/// `time.Time`, which makes the file import `time`.
pub fn time_expr(state: &mut FileState) -> (r: Expr<GoExprMeta>)
    ensures
        old(state).wf() ==> final(state).wf(),
        r.expr@ == "time.Time"@,
        r.meta == GoExprMeta,
        imports_grown(old(state).imports@, final(state).imports@, seq!["time"@]),
{
    state.add_import("time");
    assert(seq!["time"@][0] == "time"@);
    go_expr("time.Time")
}

/// A pointer to `e`, which may hold nil.
pub fn pointer_to(e: Expr<GoExprMeta>) -> (r: Expr<GoExprMeta>)
    ensures
        r.expr@ == "*"@ + e.expr@,
        r.meta == GoExprMeta,
        e.meta.is_universal() ==> r.meta.is_universal(),
{
    let mut s = String::from_str("*");
    s.append(e.expr.as_str());
    Expr { expr: s, meta: GoExprMeta }
}

/// A slice of `e`.
pub fn slice_of(e: Expr<GoExprMeta>) -> (r: Expr<GoExprMeta>)
    ensures
        r.expr@ == "[]"@ + e.expr@,
        r.meta == GoExprMeta,
        e.meta.is_universal() ==> r.meta.is_universal(),
{
    let mut s = String::from_str("[]");
    s.append(e.expr.as_str());
    Expr { expr: s, meta: GoExprMeta }
}

/// A map from strings to `e`.
pub fn map_of(e: Expr<GoExprMeta>) -> (r: Expr<GoExprMeta>)
    ensures
        r.expr@ == "map[string]"@ + e.expr@,
        r.meta == GoExprMeta,
        e.meta.is_universal() ==> r.meta.is_universal(),
{
    let mut s = String::from_str("map[string]");
    s.append(e.expr.as_str());
    Expr { expr: s, meta: GoExprMeta }
}

/// A type expression as the schema resolver hands it over: a scalar kind, or
/// a container of an already rendered type.
pub enum TypeExpr {
    Empty,
    Boolean,
    Int8,
    Uint8,
    Int16,
    Uint16,
    Int32,
    Uint32,
    Float32,
    Float64,
    String,
    Timestamp,
    ArrayOf(String),
    DictOf(String),
    NullableOf(String),
}

/// The Go text of a type expression.
pub open spec fn type_expr_text(e: TypeExpr) -> Seq<char> {
    match e {
        TypeExpr::Empty => "interface{}"@,
        TypeExpr::Boolean => "bool"@,
        TypeExpr::Int8 => "int8"@,
        TypeExpr::Uint8 => "uint8"@,
        TypeExpr::Int16 => "int16"@,
        TypeExpr::Uint16 => "uint16"@,
        TypeExpr::Int32 => "int32"@,
        TypeExpr::Uint32 => "uint32"@,
        TypeExpr::Float32 => "float32"@,
        TypeExpr::Float64 => "float64"@,
        TypeExpr::String => "string"@,
        TypeExpr::Timestamp => "time.Time"@,
        TypeExpr::ArrayOf(sub) => "[]"@ + sub@,
        TypeExpr::DictOf(sub) => "map[string]"@ + sub@,
        TypeExpr::NullableOf(sub) => "*"@ + sub@,
    }
}

/// Whether Go's own zero value of a kind already stands for absence, so that
/// an optional property of that kind needs no pointer: true of slices and
/// maps, which may be nil, and of nothing else.
pub open spec fn natively_nullable_spec(e: TypeExpr) -> bool {
    match e {
        TypeExpr::ArrayOf(_) => true,
        TypeExpr::DictOf(_) => true,
        _ => false,
    }
}

pub fn natively_nullable(e: &TypeExpr) -> (r: bool)
    ensures
        r == natively_nullable_spec(*e),
{
    match e {
        TypeExpr::ArrayOf(_) => true,
        TypeExpr::DictOf(_) => true,
        _ => false,
    }
}

/// Whether `r` is a success holding `t`.
pub open spec fn ok_is(r: Result<String, GenError>, t: Seq<char>) -> bool {
    match r {
        Ok(x) => x@ == t,
        Err(_) => false,
    }
}

impl Target {
    /// The Go text of a type expression, unless `metadata` overrides it
    /// under `goType`. A timestamp makes the file import `time`.
    pub fn expr(&self, state: &mut FileState, metadata: &Metadata, e: TypeExpr) -> (r: Result<
        String,
        GenError,
    >)
        ensures
            old(state).wf() ==> final(state).wf(),
            match override_spec(*metadata, "goType"@) {
                Err(f) => r == Err::<String, GenError>(f) && final(state).imports@ == old(state).imports@,
                Ok(Some(t)) => ok_is(r, t) && final(state).imports@ == old(state).imports@,
                Ok(None) => ok_is(r, type_expr_text(e)) && (e is Timestamp ==> imports_grown(
                    old(state).imports@,
                    final(state).imports@,
                    seq!["time"@],
                )) && (!(
                e is Timestamp) ==> final(state).imports@ == old(state).imports@),
            },
    {
        match metadata.type_override("goType") {
            Err(f) => return Err(f),
            Ok(Some(t)) => return Ok(t),
            Ok(None) => {},
        }
        let text = match e {
            TypeExpr::Empty => String::from_str("interface{}"),
            TypeExpr::Boolean => String::from_str("bool"),
            TypeExpr::Int8 => String::from_str("int8"),
            TypeExpr::Uint8 => String::from_str("uint8"),
            TypeExpr::Int16 => String::from_str("int16"),
            TypeExpr::Uint16 => String::from_str("uint16"),
            TypeExpr::Int32 => String::from_str("int32"),
            TypeExpr::Uint32 => String::from_str("uint32"),
            TypeExpr::Float32 => String::from_str("float32"),
            TypeExpr::Float64 => String::from_str("float64"),
            TypeExpr::String => String::from_str("string"),
            TypeExpr::Timestamp => time_expr(state).expr,
            TypeExpr::ArrayOf(sub) => slice_of(Expr { expr: sub, meta: GoExprMeta }).expr,
            TypeExpr::DictOf(sub) => map_of(Expr { expr: sub, meta: GoExprMeta }).expr,
            TypeExpr::NullableOf(sub) => pointer_to(Expr { expr: sub, meta: GoExprMeta }).expr,
        };
        Ok(text)
    }
}

} // verus!
