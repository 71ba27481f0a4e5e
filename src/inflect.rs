//! Turning free-form name parts into identifiers of a target language.
use vstd::prelude::*;

use crate::text::{
    has_str, is_alnum, is_digit, is_lower, is_upper, lower_char, upper_char, upper_seq, views,
    contains_str, chars_of, is_alnum_char, is_digit_char, is_lower_char, is_upper_char, push_char,
    to_lower, to_upper,
};

verus! {

/// How the words of a name are cased and joined.
pub enum Case {
    /// Lowercase words joined by underscores.
    SnakeCase,
    /// Each word capitalized, or written in capitals if it is one of the
    /// given initialisms, and the words concatenated.
    PascalCase(Vec<String>),
}

/// Which name parts contribute words to an identifier.
pub enum Scope {
    /// Only the last name part.
    Tail,
    /// All name parts, in order.
    Combining,
}

/// A naming convention: a case, a scope and a set of reserved words that the
/// produced identifiers must avoid.
pub struct Inflector {
    pub case: Case,
    pub scope: Scope,
    pub keywords: Vec<String>,
}

/// The views of a sequence of character vectors.
pub open spec fn word_views(ws: Seq<Vec<char>>) -> Seq<Seq<char>> {
    ws.map_values(|w: Vec<char>| w@)
}

/// Whether an uppercase letter after `prev` begins a new word (`userId`).
pub open spec fn starts_word(prev: char, c: char) -> bool {
    is_upper(c) && (is_lower(prev) || is_digit(prev))
}

/// The words found in `s`, and whether its last character continues a word.
/// Words are runs of ASCII letters and digits, also split where an uppercase
/// letter follows a lowercase letter or a digit.
pub open spec fn scan_words(s: Seq<char>) -> (Seq<Seq<char>>, bool)
    decreases s.len(),
{
    if s.len() == 0 {
        (seq![], false)
    } else {
        let (ws, open) = scan_words(s.drop_last());
        let c = s.last();
        if !is_alnum(c) {
            (ws, false)
        } else if open && !starts_word(s.drop_last().last(), c) {
            (ws.update(ws.len() - 1, ws.last().push(c)), true)
        } else {
            (ws.push(seq![c]), true)
        }
    }
}

pub open spec fn words_of(s: Seq<char>) -> Seq<Seq<char>> {
    scan_words(s).0
}

/// The words of all the parts, in order.
pub open spec fn words_of_parts(parts: Seq<Seq<char>>) -> Seq<Seq<char>>
    decreases parts.len(),
{
    if parts.len() == 0 {
        seq![]
    } else {
        words_of_parts(parts.drop_last()) + words_of(parts.last())
    }
}

pub open spec fn scoped_words(scope: Scope, parts: Seq<Seq<char>>) -> Seq<Seq<char>> {
    match scope {
        Scope::Tail => if parts.len() == 0 {
            seq![]
        } else {
            words_of(parts.last())
        },
        Scope::Combining => words_of_parts(parts),
    }
}

/// The single word used when the name parts hold no word at all.
pub open spec fn placeholder() -> Seq<char> {
    seq!['e', 'm', 'p', 't', 'y']
}

pub open spec fn nonempty_words(ws: Seq<Seq<char>>) -> Seq<Seq<char>> {
    if ws.len() == 0 {
        seq![placeholder()]
    } else {
        ws
    }
}

pub open spec fn snake_join(ws: Seq<Seq<char>>) -> Seq<char>
    decreases ws.len(),
{
    if ws.len() == 0 {
        seq![]
    } else if ws.len() == 1 {
        crate::text::lower_seq(ws[0])
    } else {
        snake_join(ws.drop_last()) + seq!['_'] + crate::text::lower_seq(ws.last())
    }
}

/// The first character in upper case, the others in lower case.
pub open spec fn capitalize(w: Seq<char>) -> Seq<char> {
    w.map(|i: int, c: char| if i == 0 { upper_char(c) } else { lower_char(c) })
}

pub open spec fn pascal_word(w: Seq<char>, initialisms: Seq<String>) -> Seq<char> {
    if has_str(initialisms, upper_seq(w)) {
        upper_seq(w)
    } else {
        capitalize(w)
    }
}

pub open spec fn pascal_join(ws: Seq<Seq<char>>, initialisms: Seq<String>) -> Seq<char>
    decreases ws.len(),
{
    if ws.len() == 0 {
        seq![]
    } else {
        pascal_join(ws.drop_last(), initialisms) + pascal_word(ws.last(), initialisms)
    }
}

pub open spec fn render(case: Case, ws: Seq<Seq<char>>) -> Seq<char> {
    match case {
        Case::SnakeCase => snake_join(ws),
        Case::PascalCase(initialisms) => pascal_join(ws, initialisms@),
    }
}

/// The letter put before an identifier that would begin with a digit.
pub open spec fn lead_char(case: Case) -> char {
    match case {
        Case::SnakeCase => 'n',
        Case::PascalCase(_) => 'N',
    }
}

pub open spec fn guard_digit(case: Case, s: Seq<char>) -> Seq<char> {
    if s.len() > 0 && is_digit(s[0]) {
        seq![lead_char(case)] + s
    } else {
        s
    }
}

/// A reserved word gets an underscore appended.
pub open spec fn avoid_keywords(keywords: Seq<String>, s: Seq<char>) -> Seq<char> {
    if has_str(keywords, s) {
        s.push('_')
    } else {
        s
    }
}

/// The identifier that `inf` makes of `parts`.
pub open spec fn inflect_spec(inf: Inflector, parts: Seq<Seq<char>>) -> Seq<char> {
    avoid_keywords(
        inf.keywords@,
        guard_digit(inf.case, render(inf.case, nonempty_words(scoped_words(inf.scope, parts)))),
    )
}

/// No reserved word ends with an underscore.
pub open spec fn no_trailing_underscore(keywords: Seq<String>) -> bool {
    forall|i: int|
        0 <= i < keywords.len() ==> #[trigger] keywords[i]@.len() == 0 || keywords[i]@.last()
            != '_'
}

/// Splits `s` into its words.
pub fn split_words(s: &str) -> (r: Vec<Vec<char>>)
    ensures
        word_views(r@) == words_of(s@),
{
    let chars = chars_of(s);
    let mut words: Vec<Vec<char>> = Vec::new();
    let mut open = false;
    let mut i: usize = 0;
    while i < chars.len()
        invariant
            chars@ == s@,
            i <= chars.len(),
            (word_views(words@), open) == scan_words(chars@.subrange(0, i as int)),
            open ==> words.len() > 0 && i > 0,
        decreases chars.len() - i,
    {
        let c = chars[i];
        let ghost prefix = chars@.subrange(0, i as int);
        let ghost ws0 = words@;
        assert(chars@.subrange(0, i + 1).drop_last() == prefix);
        if !is_alnum_char(c) {
            open = false;
        } else if open && !(is_upper_char(c) && (is_lower_char(chars[i - 1]) || is_digit_char(
            chars[i - 1],
        ))) {
            let mut w = words.pop().unwrap();
            w.push(c);
            words.push(w);
            assert(word_views(words@) =~= word_views(ws0).update(
                ws0.len() - 1,
                word_views(ws0).last().push(c),
            ));
        } else {
            let mut w: Vec<char> = Vec::new();
            w.push(c);
            words.push(w);
            open = true;
            assert(word_views(words@) =~= word_views(ws0).push(seq![c]));
        }
        i = i + 1;
    }
    assert(chars@.subrange(0, i as int) == s@);
    words
}

/// The words that `scope` takes from `parts`.
pub fn scoped_words_of(scope: &Scope, parts: &Vec<String>) -> (r: Vec<Vec<char>>)
    ensures
        word_views(r@) == scoped_words(*scope, views(parts@)),
{
    match scope {
        Scope::Tail => {
            if parts.len() == 0 {
                assert(word_views(Seq::<Vec<char>>::empty()) =~= seq![]);
                Vec::new()
            } else {
                split_words(parts[parts.len() - 1].as_str())
            }
        },
        Scope::Combining => {
            let mut all: Vec<Vec<char>> = Vec::new();
            let mut i: usize = 0;
            while i < parts.len()
                invariant
                    i <= parts.len(),
                    word_views(all@) == words_of_parts(views(parts@).subrange(0, i as int)),
                decreases parts.len() - i,
            {
                let ghost before = all@;
                let mut ws = split_words(parts[i].as_str());
                let ghost added = ws@;
                all.append(&mut ws);
                assert(views(parts@).subrange(0, i + 1).drop_last() == views(parts@).subrange(
                    0,
                    i as int,
                ));
                assert(word_views(all@) =~= word_views(before) + word_views(added));
                i = i + 1;
            }
            assert(views(parts@).subrange(0, parts.len() as int) == views(parts@));
            all
        },
    }
}

/// Appends `w` in lower case.
fn push_lower(dst: &mut String, w: &Vec<char>)
    ensures
        final(dst)@ == old(dst)@ + crate::text::lower_seq(w@),
{
    let mut j: usize = 0;
    while j < w.len()
        invariant
            j <= w.len(),
            dst@ == old(dst)@ + crate::text::lower_seq(w@.subrange(0, j as int)),
        decreases w.len() - j,
    {
        push_char(dst, to_lower(w[j]));
        j = j + 1;
        assert(crate::text::lower_seq(w@.subrange(0, j as int)) =~= crate::text::lower_seq(
            w@.subrange(0, j - 1),
        ).push(lower_char(w@[j - 1])));
    }
    assert(w@.subrange(0, w.len() as int) == w@);
}

/// `w` in upper case.
fn upper_string(w: &Vec<char>) -> (r: String)
    ensures
        r@ == upper_seq(w@),
{
    let mut r = String::new();
    let mut j: usize = 0;
    while j < w.len()
        invariant
            j <= w.len(),
            r@ == upper_seq(w@.subrange(0, j as int)),
        decreases w.len() - j,
    {
        push_char(&mut r, to_upper(w[j]));
        j = j + 1;
        assert(upper_seq(w@.subrange(0, j as int)) =~= upper_seq(w@.subrange(0, j - 1)).push(
            upper_char(w@[j - 1]),
        ));
    }
    assert(w@.subrange(0, w.len() as int) == w@);
    r
}

/// Appends `w` capitalized.
fn push_capitalized(dst: &mut String, w: &Vec<char>)
    ensures
        final(dst)@ == old(dst)@ + capitalize(w@),
{
    let mut j: usize = 0;
    while j < w.len()
        invariant
            j <= w.len(),
            dst@ == old(dst)@ + capitalize(w@.subrange(0, j as int)),
        decreases w.len() - j,
    {
        let c = if j == 0 {
            to_upper(w[j])
        } else {
            to_lower(w[j])
        };
        push_char(dst, c);
        j = j + 1;
        assert(capitalize(w@.subrange(0, j as int)) =~= capitalize(w@.subrange(0, j - 1)).push(
            c,
        ));
    }
    assert(w@.subrange(0, w.len() as int) == w@);
}

/// Joins `ws` as `case` says.
pub fn render_words(case: &Case, ws: &Vec<Vec<char>>) -> (r: String)
    ensures
        r@ == render(*case, word_views(ws@)),
{
    let mut out = String::new();
    let mut i: usize = 0;
    while i < ws.len()
        invariant
            i <= ws.len(),
            out@ == render(*case, word_views(ws@).subrange(0, i as int)),
        decreases ws.len() - i,
    {
        let ghost done = word_views(ws@).subrange(0, i as int);
        assert(word_views(ws@).subrange(0, i + 1).drop_last() == done);
        assert(word_views(ws@).subrange(0, i + 1).last() == ws@[i as int]@);
        match case {
            Case::SnakeCase => {
                if i > 0 {
                    push_char(&mut out, '_');
                }
                push_lower(&mut out, &ws[i]);
                if i == 0 {
                    assert(out@ =~= crate::text::lower_seq(ws@[0]@));
                }
            },
            Case::PascalCase(initialisms) => {
                let up = upper_string(&ws[i]);
                if contains_str(initialisms, &up) {
                    out.append(up.as_str());
                } else {
                    push_capitalized(&mut out, &ws[i]);
                }
            },
        }
        i = i + 1;
    }
    assert(word_views(ws@).subrange(0, ws.len() as int) == word_views(ws@));
    out
}

impl Inflector {
    /// The identifier that this convention makes of `parts`.
    pub fn inflect(&self, parts: &Vec<String>) -> (r: String)
        ensures
            r@ == inflect_spec(*self, views(parts@)),
    {
        let mut ws = scoped_words_of(&self.scope, parts);
        if ws.len() == 0 {
            let w: Vec<char> = vec!['e', 'm', 'p', 't', 'y'];
            ws.push(w);
            assert(word_views(ws@) =~= seq![placeholder()]);
        }
        let base = render_words(&self.case, &ws);
        let mut ident = if base.as_str().unicode_len() > 0 && is_digit_char(
            base.as_str().get_char(0),
        ) {
            let lead = match self.case {
                Case::SnakeCase => 'n',
                Case::PascalCase(_) => 'N',
            };
            let mut s = String::new();
            push_char(&mut s, lead);
            s.append(base.as_str());
            s
        } else {
            base
        };
        if contains_str(&self.keywords, &ident) {
            push_char(&mut ident, '_');
        }
        ident
    }
}

/// Inflection is a function of the convention and the name parts alone:
/// equal conventions and equal name parts give equal identifiers.
pub proof fn lemma_inflect_deterministic(
    a: Inflector,
    b: Inflector,
    p: Seq<Seq<char>>,
    q: Seq<Seq<char>>,
)
    requires
        a == b,
        p == q,
    ensures
        inflect_spec(a, p) == inflect_spec(b, q),
{
}

/// Where no reserved word ends with an underscore, no identifier that the
/// convention produces is a reserved word.
pub proof fn lemma_inflect_avoids_keywords(inf: Inflector, parts: Seq<Seq<char>>)
    requires
        no_trailing_underscore(inf.keywords@),
    ensures
        !has_str(inf.keywords@, inflect_spec(inf, parts)),
{
    let g = guard_digit(inf.case, render(inf.case, nonempty_words(scoped_words(inf.scope, parts))));
    if has_str(inf.keywords@, g) {
        let r = g.push('_');
        if has_str(inf.keywords@, r) {
            let i = choose|i: int| 0 <= i < inf.keywords@.len() && #[trigger] inf.keywords@[i]@ == r;
            assert(inf.keywords@[i]@.last() == '_');
        }
    }
}

/// A reserved word, inflected as the only name part, never comes back as
/// itself.
pub proof fn lemma_keyword_safety(inf: Inflector, w: Seq<char>)
    requires
        no_trailing_underscore(inf.keywords@),
        has_str(inf.keywords@, w),
    ensures
        inflect_spec(inf, seq![w]) != w,
{
    lemma_inflect_avoids_keywords(inf, seq![w]);
}

/// A word: non-empty, of ASCII letters and digits.
pub open spec fn is_word(w: Seq<char>) -> bool {
    w.len() > 0 && forall|i: int| 0 <= i < w.len() ==> is_alnum(#[trigger] w[i])
}

pub open spec fn all_words(ws: Seq<Seq<char>>) -> bool {
    forall|i: int| 0 <= i < ws.len() ==> is_word(#[trigger] ws[i])
}

/// A structurally valid identifier: non-empty, of ASCII letters, digits and
/// underscores, not beginning with a digit.
pub open spec fn is_identifier(s: Seq<char>) -> bool {
    &&& s.len() > 0
    &&& !is_digit(s[0])
    &&& forall|i: int| 0 <= i < s.len() ==> is_alnum(#[trigger] s[i]) || s[i] == '_'
}

proof fn lemma_scan_words(s: Seq<char>)
    ensures
        all_words(scan_words(s).0),
        scan_words(s).1 ==> scan_words(s).0.len() > 0,
    decreases s.len(),
{
    if s.len() > 0 {
        lemma_scan_words(s.drop_last());
        let (ws, open) = scan_words(s.drop_last());
        let c = s.last();
        if is_alnum(c) && open && !starts_word(s.drop_last().last(), c) {
            let w = ws.last().push(c);
            assert(is_word(ws[ws.len() - 1]));
            assert(is_word(w));
            let r = ws.update(ws.len() - 1, w);
            assert forall|i: int| 0 <= i < r.len() implies is_word(#[trigger] r[i]) by {
                if i < ws.len() - 1 {
                    assert(r[i] == ws[i]);
                }
            }
        } else if is_alnum(c) {
            let r = ws.push(seq![c]);
            assert forall|i: int| 0 <= i < r.len() implies is_word(#[trigger] r[i]) by {
                if i < ws.len() {
                    assert(r[i] == ws[i]);
                }
            }
        }
    }
}

proof fn lemma_words_of_parts(parts: Seq<Seq<char>>)
    ensures
        all_words(words_of_parts(parts)),
    decreases parts.len(),
{
    if parts.len() > 0 {
        lemma_words_of_parts(parts.drop_last());
        lemma_scan_words(parts.last());
        let a = words_of_parts(parts.drop_last());
        let b = words_of(parts.last());
        assert forall|i: int| 0 <= i < (a + b).len() implies is_word(#[trigger] (a + b)[i]) by {
            if i < a.len() {
                assert((a + b)[i] == a[i]);
            } else {
                assert((a + b)[i] == b[i - a.len()]);
            }
        }
    }
}

proof fn lemma_case_word(w: Seq<char>, initialisms: Seq<String>)
    requires
        is_word(w),
    ensures
        is_word(crate::text::lower_seq(w)),
        is_word(pascal_word(w, initialisms)),
{
    assert(is_word(upper_seq(w)));
    assert(is_word(capitalize(w)));
}

/// The words rendered in a case, as an identifier body: non-empty, of
/// letters, digits and underscores.
proof fn lemma_render(case: Case, ws: Seq<Seq<char>>)
    requires
        ws.len() > 0,
        all_words(ws),
    ensures
        render(case, ws).len() > 0,
        forall|i: int|
            0 <= i < render(case, ws).len() ==> is_alnum(#[trigger] render(case, ws)[i])
                || render(case, ws)[i] == '_',
    decreases ws.len(),
{
    let inits = match case {
        Case::SnakeCase => Seq::<String>::empty(),
        Case::PascalCase(i) => i@,
    };
    lemma_case_word(ws.last(), inits);
    lemma_case_word(ws[0], inits);
    if ws.len() > 1 {
        assert(all_words(ws.drop_last())) by {
            assert forall|i: int| 0 <= i < ws.drop_last().len() implies is_word(
                #[trigger] ws.drop_last()[i],
            ) by {
                assert(ws.drop_last()[i] == ws[i]);
            }
        }
        lemma_render(case, ws.drop_last());
        let a = render(case, ws.drop_last());
        let r = render(case, ws);
        assert forall|i: int| 0 <= i < r.len() implies is_alnum(#[trigger] r[i]) || r[i] == '_' by {
            if i < a.len() {
                assert(r[i] == a[i]);
            }
        }
    } else {
        assert(ws.drop_last().len() == 0);
        assert(ws.last() == ws[0]);
    }
}

/// Every identifier that a convention produces is structurally valid, the
/// placeholder standing in where the name parts hold no word.
pub proof fn lemma_inflect_identifier(inf: Inflector, parts: Seq<Seq<char>>)
    ensures
        is_identifier(inflect_spec(inf, parts)),
{
    let sw = scoped_words(inf.scope, parts);
    match inf.scope {
        Scope::Tail => if parts.len() > 0 {
            lemma_scan_words(parts.last());
        },
        Scope::Combining => lemma_words_of_parts(parts),
    }
    let ws = nonempty_words(sw);
    if sw.len() == 0 {
        assert(is_word(placeholder()));
    }
    lemma_render(inf.case, ws);
    let base = render(inf.case, ws);
    let g = guard_digit(inf.case, base);
    assert forall|i: int| 0 <= i < g.len() implies is_alnum(#[trigger] g[i]) || g[i] == '_' by {
        if base.len() > 0 && is_digit(base[0]) && i > 0 {
            assert(g[i] == base[i - 1]);
        }
    }
    let r = avoid_keywords(inf.keywords@, g);
    assert forall|i: int| 0 <= i < r.len() implies is_alnum(#[trigger] r[i]) || r[i] == '_' by {
        if i < g.len() {
            assert(r[i] == g[i]);
        }
    }
    assert(r[0] == g[0]);
}

} // verus!
