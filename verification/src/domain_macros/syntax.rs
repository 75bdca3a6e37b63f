//! The grammar of the `#[model(...)]` attribute, read from the tokens the compiler
//! hands to the derive:
//!
//! ```text
//! args     := (section ","?)*
//! section  := ("newtypes" | "inputs") "(" list ")"
//! list     := empty | item ("," item)* ","?
//! newtype  := Ident "(" type ")"
//! input    := Ident ("(" list-of-field ")")?
//! field    := ".." path ("as" Ident)? | Ident ("as" Ident)?
//! path     := "::"? Ident ("::" Ident)*
//! ```
use vstd::prelude::*;

use super::args::{section_kind, snake_case, Args, Input, InputField, NewType, SectionKind, TypeRef};
use super::generator::GenerateError;
use crate::text::str_eq;

verus! {

/// A token of the attribute's arguments.
pub enum Token {
    Ident(String),
    Punct(char),
    Literal(String),
    /// A delimited group: whether parentheses delimit it, its tokens, and its
    /// tokens as written.
    Group { parens: bool, tokens: Vec<Token>, text: String },
}

/// The identifier at `i`, if there is one.
pub open spec fn ident_at(ts: Seq<Token>, i: int) -> Option<Seq<char>> {
    if 0 <= i < ts.len() {
        match ts[i] {
            Token::Ident(s) => Some(s@),
            _ => None,
        }
    } else {
        None
    }
}

/// Whether the punctuation `c` is at `i`.
pub open spec fn punct_at(ts: Seq<Token>, i: int, c: char) -> bool {
    0 <= i < ts.len() && (ts[i] matches Token::Punct(p) && p == c)
}

/// Whether `c` is at `i` and again at `i + 1` (`::` or `..`).
pub open spec fn double_at(ts: Seq<Token>, i: int, c: char) -> bool {
    punct_at(ts, i, c) && punct_at(ts, i + 1, c)
}

/// Whether the keyword `as` is at `i`.
pub open spec fn as_at(ts: Seq<Token>, i: int) -> bool {
    ident_at(ts, i) == Some("as"@)
}

/// The tokens of the parenthesized group at `i`, and its text.
pub open spec fn parens_at(ts: Seq<Token>, i: int) -> Option<(Seq<Token>, Seq<char>)> {
    if 0 <= i < ts.len() {
        match ts[i] {
            Token::Group { parens, tokens, text } => if parens { Some((tokens@, text@)) } else { None },
            _ => None,
        }
    } else {
        None
    }
}

/// The segments `:: Ident` from `i` on, and where they end.
pub open spec fn more_segments(ts: Seq<Token>, i: int) -> (Seq<Seq<char>>, int)
    decreases ts.len() - i,
{
    if 0 <= i && double_at(ts, i, ':') && ident_at(ts, i + 2) is Some {
        let rest = more_segments(ts, i + 3);
        (seq![ident_at(ts, i + 2)->Some_0] + rest.0, rest.1)
    } else {
        (seq![], i)
    }
}

/// The path at `i`: its segments (a leading `::` is an empty first segment) and
/// where it ends.
pub open spec fn path_at(ts: Seq<Token>, i: int) -> Option<(Seq<Seq<char>>, int)> {
    let lead: Seq<Seq<char>> = if double_at(ts, i, ':') { seq![seq![]] } else { seq![] };
    let j = if double_at(ts, i, ':') { i + 2 } else { i };
    match ident_at(ts, j) {
        Some(first) => Some((lead + seq![first] + more_segments(ts, j + 1).0, more_segments(ts, j + 1).1)),
        None => None,
    }
}

/// The texts of some strings.
pub open spec fn strs(v: Seq<String>) -> Seq<Seq<char>> {
    v.map_values(|s: String| s@)
}

/// An input field as read: whether it is spread, its name, its alias (for a field
/// of the model) and its path (for a spread field).
pub open spec fn field_view(f: InputField) -> (bool, Seq<char>, Seq<char>, Seq<Seq<char>>) {
    match f {
        InputField::Field { name, alias } => (false, name@, alias@, seq![]),
        InputField::Spread { name, path } => (true, name@, seq![], strs(path@)),
    }
}

/// The input field at `i`, and where it ends.
pub open spec fn field_at(ts: Seq<Token>, i: int) -> Option<((bool, Seq<char>, Seq<char>, Seq<Seq<char>>), int)> {
    if double_at(ts, i, '.') {
        match path_at(ts, i + 2) {
            Some(p) => if as_at(ts, p.1) {
                match ident_at(ts, p.1 + 1) {
                    Some(a) => Some(((true, a, seq![], p.0), p.1 + 2)),
                    None => None,
                }
            } else {
                Some(((true, snake_case(p.0.last()), seq![], p.0), p.1))
            },
            None => None,
        }
    } else {
        match ident_at(ts, i) {
            Some(n) => if as_at(ts, i + 1) {
                match ident_at(ts, i + 2) {
                    Some(a) => Some(((false, n, a, seq![]), i + 3)),
                    None => None,
                }
            } else {
                Some(((false, n, n, seq![]), i + 1))
            },
            None => None,
        }
    }
}

/// The input fields from `i` to the end, separated by commas, with an optional
/// trailing comma.
pub open spec fn fields_from(ts: Seq<Token>, i: int) -> Option<Seq<(bool, Seq<char>, Seq<char>, Seq<Seq<char>>)>>
    decreases ts.len() - i,
{
    if i < 0 || i >= ts.len() {
        Some(seq![])
    } else {
        match field_at(ts, i) {
            None => None,
            Some(fj) => if fj.1 <= i || fj.1 > ts.len() {
                None
            } else if fj.1 == ts.len() {
                Some(seq![fj.0])
            } else if punct_at(ts, fj.1, ',') {
                match fields_from(ts, fj.1 + 1) {
                    Some(rest) => Some(seq![fj.0] + rest),
                    None => None,
                }
            } else {
                None
            },
        }
    }
}

/// An input as read: its name and its fields.
pub open spec fn input_view(i: Input) -> (Seq<char>, Seq<(bool, Seq<char>, Seq<char>, Seq<Seq<char>>)>) {
    (i.name@, i.fields@.map_values(|f: InputField| field_view(f)))
}

/// The input at `i`: a name, then its fields in parentheses, if any.
pub open spec fn input_at(ts: Seq<Token>, i: int) -> Option<((Seq<char>, Seq<(bool, Seq<char>, Seq<char>, Seq<Seq<char>>)>), int)> {
    match ident_at(ts, i) {
        Some(n) => match parens_at(ts, i + 1) {
            Some(g) => match fields_from(g.0, 0) {
                Some(fs) => Some(((n, fs), i + 2)),
                None => None,
            },
            None => Some(((n, seq![]), i + 1)),
        },
        None => None,
    }
}

/// The inputs from `i` to the end, separated by commas, with an optional trailing
/// comma.
pub open spec fn inputs_from(ts: Seq<Token>, i: int) -> Option<Seq<(Seq<char>, Seq<(bool, Seq<char>, Seq<char>, Seq<Seq<char>>)>)>>
    decreases ts.len() - i,
{
    if i < 0 || i >= ts.len() {
        Some(seq![])
    } else {
        match input_at(ts, i) {
            None => None,
            Some(x) => if x.1 <= i || x.1 > ts.len() {
                None
            } else if x.1 == ts.len() {
                Some(seq![x.0])
            } else if punct_at(ts, x.1, ',') {
                match inputs_from(ts, x.1 + 1) {
                    Some(rest) => Some(seq![x.0] + rest),
                    None => None,
                }
            } else {
                None
            },
        }
    }
}

/// The last segment of a type written as a path, possibly with generic arguments
/// after it (`a::B`, `B<T>`); `None` for a type of another shape.
pub open spec fn type_segment(ts: Seq<Token>) -> Option<Seq<char>> {
    match path_at(ts, 0) {
        Some(p) => if p.1 == ts.len() || (p.1 < ts.len() - 1 && punct_at(ts, p.1, '<') && punct_at(ts, ts.len() - 1, '>')) {
            Some(p.0.last())
        } else {
            None
        },
        None => None,
    }
}

/// A newtype as read: its name, its inner type as written, and the last segment of
/// that type when it is a path.
pub open spec fn newtype_view(t: NewType) -> (Seq<char>, Seq<char>, Option<Seq<char>>) {
    (t.name@, t.inner.text@, match t.inner.last_segment {
        Some(s) => Some(s@),
        None => None,
    })
}

/// The newtype at `i`: a name, then its inner type in parentheses.
pub open spec fn newtype_at(ts: Seq<Token>, i: int) -> Option<((Seq<char>, Seq<char>, Option<Seq<char>>), int)> {
    match ident_at(ts, i) {
        Some(n) => match parens_at(ts, i + 1) {
            Some(g) => Some(((n, g.1, type_segment(g.0)), i + 2)),
            None => None,
        },
        None => None,
    }
}

/// The newtypes from `i` to the end, separated by commas, with an optional
/// trailing comma.
pub open spec fn newtypes_from(ts: Seq<Token>, i: int) -> Option<Seq<(Seq<char>, Seq<char>, Option<Seq<char>>)>>
    decreases ts.len() - i,
{
    if i < 0 || i >= ts.len() {
        Some(seq![])
    } else {
        match newtype_at(ts, i) {
            None => None,
            Some(x) => if x.1 <= i || x.1 > ts.len() {
                None
            } else if x.1 == ts.len() {
                Some(seq![x.0])
            } else if punct_at(ts, x.1, ',') {
                match newtypes_from(ts, x.1 + 1) {
                    Some(rest) => Some(seq![x.0] + rest),
                    None => None,
                }
            } else {
                None
            },
        }
    }
}

/// The arguments from the section at `i` on: for each kind, the items of its last
/// section, if it has one. The first error found is the answer: its message and
/// the keyword of the section it is in (empty outside a section).
pub open spec fn sections_from(ts: Seq<Token>, i: int) -> Result<
    (Option<Seq<(Seq<char>, Seq<char>, Option<Seq<char>>)>>, Option<Seq<(Seq<char>, Seq<(bool, Seq<char>, Seq<char>, Seq<Seq<char>>)>)>>),
    (Seq<char>, Seq<char>),
>
    decreases ts.len() - i,
{
    if i < 0 || i >= ts.len() {
        Ok((None, None))
    } else {
        match ident_at(ts, i) {
            None => Err(("expected identifier"@, seq![])),
            Some(kw) => match parens_at(ts, i + 1) {
                None => Err(("expected parentheses"@, kw)),
                Some(g) => {
                    let next = if punct_at(ts, i + 2, ',') { i + 3 } else { i + 2 };
                    if kw == "newtypes"@ {
                        match newtypes_from(g.0, 0) {
                            None => Err(("unexpected token"@, kw)),
                            Some(nts) => match sections_from(ts, next) {
                                Err(e) => Err(e),
                                Ok(rest) => Ok((if rest.0 is Some { rest.0 } else { Some(nts) }, rest.1)),
                            },
                        }
                    } else if kw == "inputs"@ {
                        match inputs_from(g.0, 0) {
                            None => Err(("unexpected token"@, kw)),
                            Some(ins) => match sections_from(ts, next) {
                                Err(e) => Err(e),
                                Ok(rest) => Ok((rest.0, if rest.1 is Some { rest.1 } else { Some(ins) })),
                            },
                        }
                    } else {
                        Err(("expected 'newtypes' or 'inputs'"@, kw))
                    }
                },
            },
        }
    }
}

/// The arguments as read: the newtypes and the inputs.
pub open spec fn args_view(a: Args) -> (Seq<(Seq<char>, Seq<char>, Option<Seq<char>>)>, Seq<(Seq<char>, Seq<(bool, Seq<char>, Seq<char>, Seq<Seq<char>>)>)>) {
    (a.newtypes@.map_values(|t: NewType| newtype_view(t)), a.inputs@.map_values(|i: Input| input_view(i)))
}

/// The newtypes of a section, as read.
pub open spec fn newtypes_view(o: Option<Vec<NewType>>) -> Option<Seq<(Seq<char>, Seq<char>, Option<Seq<char>>)>> {
    match o {
        Some(v) => Some(v@.map_values(|t: NewType| newtype_view(t))),
        None => None,
    }
}

/// The inputs of a section, as read.
pub open spec fn inputs_view(o: Option<Vec<Input>>) -> Option<Seq<(Seq<char>, Seq<(bool, Seq<char>, Seq<char>, Seq<Seq<char>>)>)>> {
    match o {
        Some(v) => Some(v@.map_values(|x: Input| input_view(x))),
        None => None,
    }
}

fn ident_text(ts: &Vec<Token>, i: usize) -> (r: Option<String>)
    ensures
        r matches Some(s) ==> ident_at(ts@, i as int) == Some(s@),
        r is None ==> ident_at(ts@, i as int) is None,
{
    if i < ts.len() {
        match &ts[i] {
            Token::Ident(s) => Some(s.clone()),
            _ => None,
        }
    } else {
        None
    }
}

fn punct_is(ts: &Vec<Token>, i: usize, c: char) -> (r: bool)
    ensures
        r == punct_at(ts@, i as int, c),
{
    if i < ts.len() {
        match &ts[i] {
            Token::Punct(p) => *p == c,
            _ => false,
        }
    } else {
        false
    }
}

fn as_is(ts: &Vec<Token>, i: usize) -> (r: bool)
    ensures
        r == as_at(ts@, i as int),
{
    proof { reveal_strlit("as"); }
    if i < ts.len() {
        match &ts[i] {
            Token::Ident(s) => str_eq(s.as_str(), "as"),
            _ => false,
        }
    } else {
        false
    }
}

fn segments_after(ts: &Vec<Token>, i: usize) -> (r: (Vec<String>, usize))
    requires
        i <= ts@.len(),
    ensures
        strs(r.0@) == more_segments(ts@, i as int).0,
        r.1 == more_segments(ts@, i as int).1,
        i <= r.1 <= ts@.len(),
    decreases ts@.len() - i,
{
    if i < ts.len() && i + 1 < ts.len() && punct_is(ts, i, ':') && punct_is(ts, i + 1, ':') {
        match ident_text(ts, i + 2) {
            Some(s) => {
                let ghost sv = s@;
                let (mut rest, end) = segments_after(ts, i + 3);
                let ghost before = rest@;
                rest.insert(0, s);
                assert(strs(rest@) =~= seq![sv] + strs(before));
                (rest, end)
            },
            None => (Vec::new(), i),
        }
    } else {
        let v: Vec<String> = Vec::new();
        assert(strs(v@) =~= seq![]);
        (v, i)
    }
}

fn path_here(ts: &Vec<Token>, i: usize) -> (r: Option<(Vec<String>, usize)>)
    requires
        i <= ts@.len(),
    ensures
        path_at(ts@, i as int) is None ==> r is None,
        path_at(ts@, i as int) matches Some(p) ==> (r matches Some(q) && strs(q.0@) == p.0 && q.1 == p.1),
        r matches Some(q) ==> i < q.1 <= ts@.len() && q.0@.len() > 0,
{
    let lead = i < ts.len() && i + 1 < ts.len() && punct_is(ts, i, ':') && punct_is(ts, i + 1, ':');
    let j = if lead { i + 2 } else { i };
    match ident_text(ts, j) {
        Some(first) => {
            let ghost fv = first@;
            let (rest, end) = segments_after(ts, j + 1);
            let mut segs: Vec<String> = Vec::new();
            if lead {
                segs.push(String::new());
            }
            segs.push(first);
            let ghost head = segs@;
            let mut rest = rest;
            segs.append(&mut rest);
            proof {
                let lv: Seq<Seq<char>> = if lead { seq![seq![]] } else { seq![] };
                assert(strs(head) =~= lv + seq![fv]);
                assert(strs(segs@) =~= lv + seq![fv] + more_segments(ts@, j + 1).0);
            }
            Some((segs, end))
        },
        None => None,
    }
}

fn field_here(ts: &Vec<Token>, i: usize) -> (r: Option<(InputField, usize)>)
    requires
        i <= ts@.len(),
    ensures
        field_at(ts@, i as int) is None ==> r is None,
        field_at(ts@, i as int) matches Some(f) ==> (r matches Some(g) && field_view(g.0) == f.0 && g.1 == f.1),
        r matches Some(g) ==> i < g.1 <= ts@.len(),
{
    if i < ts.len() && i + 1 < ts.len() && punct_is(ts, i, '.') && punct_is(ts, i + 1, '.') {
        match path_here(ts, i + 2) {
            Some((path, end)) => {
                let ghost pv = strs(path@);
                proof {
                    assert(pv.last() == path@.last()@);
                }
                if as_is(ts, end) {
                    match ident_text(ts, end + 1) {
                        Some(a) => {
                            let f = InputField::spread(path, Some(a));
                            Some((f, end + 2))
                        },
                        None => None,
                    }
                } else {
                    let f = InputField::spread(path, None);
                    Some((f, end))
                }
            },
            None => None,
        }
    } else {
        match ident_text(ts, i) {
            Some(n) => {
                if as_is(ts, i + 1) {
                    match ident_text(ts, i + 2) {
                        Some(a) => Some((InputField::field(n, Some(a)), i + 3)),
                        None => None,
                    }
                } else {
                    Some((InputField::field(n, None), i + 1))
                }
            },
            None => None,
        }
    }
}

fn fields_here(ts: &Vec<Token>, i: usize) -> (r: Option<Vec<InputField>>)
    requires
        i <= ts@.len(),
    ensures
        fields_from(ts@, i as int) is None ==> r is None,
        fields_from(ts@, i as int) matches Some(v) ==> (r matches Some(w) && w@.map_values(|f: InputField| field_view(f)) == v),
    decreases ts@.len() - i,
{
    if i >= ts.len() {
        let v: Vec<InputField> = Vec::new();
        assert(v@.map_values(|f: InputField| field_view(f)) =~= seq![]);
        return Some(v);
    }
    match field_here(ts, i) {
        None => None,
        Some((f, end)) => {
            let ghost fv = field_view(f);
            if end == ts.len() {
                let v = vec![f];
                assert(v@.map_values(|f: InputField| field_view(f)) =~= seq![fv]);
                Some(v)
            } else if punct_is(ts, end, ',') {
                match fields_here(ts, end + 1) {
                    Some(mut rest) => {
                        let ghost before = rest@;
                        rest.insert(0, f);
                        assert(rest@.map_values(|f: InputField| field_view(f))
                            =~= seq![fv] + before.map_values(|f: InputField| field_view(f)));
                        Some(rest)
                    },
                    None => None,
                }
            } else {
                None
            }
        },
    }
}

fn input_here(ts: &Vec<Token>, i: usize) -> (r: Option<(Input, usize)>)
    requires
        i <= ts@.len(),
    ensures
        input_at(ts@, i as int) is None ==> r is None,
        input_at(ts@, i as int) matches Some(x) ==> (r matches Some(y) && input_view(y.0) == x.0 && y.1 == x.1),
        r matches Some(y) ==> i < y.1 <= ts@.len(),
{
    match ident_text(ts, i) {
        None => None,
        Some(name) => {
            if i < ts.len() && i + 1 < ts.len() {
                match &ts[i + 1] {
                    Token::Group { parens, tokens, text: _ } => {
                        if *parens {
                            match fields_here(tokens, 0) {
                                Some(fields) => return Some((Input { name, fields }, i + 2)),
                                None => return None,
                            }
                        }
                    },
                    _ => {},
                }
            }
            let fields: Vec<InputField> = Vec::new();
            let x = Input { name, fields };
            assert(input_view(x).1 =~= seq![]);
            Some((x, i + 1))
        },
    }
}

fn inputs_here(ts: &Vec<Token>, i: usize) -> (r: Option<Vec<Input>>)
    requires
        i <= ts@.len(),
    ensures
        inputs_from(ts@, i as int) is None ==> r is None,
        inputs_from(ts@, i as int) matches Some(v) ==> (r matches Some(w) && w@.map_values(|x: Input| input_view(x)) == v),
    decreases ts@.len() - i,
{
    if i >= ts.len() {
        let v: Vec<Input> = Vec::new();
        assert(v@.map_values(|x: Input| input_view(x)) =~= seq![]);
        return Some(v);
    }
    match input_here(ts, i) {
        None => None,
        Some((x, end)) => {
            let ghost xv = input_view(x);
            if end == ts.len() {
                let v = vec![x];
                assert(v@.map_values(|x: Input| input_view(x)) =~= seq![xv]);
                Some(v)
            } else if punct_is(ts, end, ',') {
                match inputs_here(ts, end + 1) {
                    Some(mut rest) => {
                        let ghost before = rest@;
                        rest.insert(0, x);
                        assert(rest@.map_values(|x: Input| input_view(x))
                            =~= seq![xv] + before.map_values(|x: Input| input_view(x)));
                        Some(rest)
                    },
                    None => None,
                }
            } else {
                None
            }
        },
    }
}

fn type_segment_of(ts: &Vec<Token>) -> (r: Option<String>)
    ensures
        type_segment(ts@) is None ==> r is None,
        type_segment(ts@) matches Some(s) ==> (r matches Some(t) && t@ == s),
{
    match path_here(ts, 0) {
        None => None,
        Some((mut segs, end)) => {
            let n = ts.len();
            if end == n || (end + 1 < n && punct_is(ts, end, '<') && punct_is(ts, n - 1, '>')) {
                let ghost sv = strs(segs@);
                let last = segs.pop().unwrap();
                assert(last@ == sv.last());
                Some(last)
            } else {
                None
            }
        },
    }
}

fn newtype_here(ts: &Vec<Token>, i: usize) -> (r: Option<(NewType, usize)>)
    requires
        i <= ts@.len(),
    ensures
        newtype_at(ts@, i as int) is None ==> r is None,
        newtype_at(ts@, i as int) matches Some(x) ==> (r matches Some(y) && newtype_view(y.0) == x.0 && y.1 == x.1),
        r matches Some(y) ==> i < y.1 <= ts@.len(),
{
    match ident_text(ts, i) {
        None => None,
        Some(name) => {
            if i < ts.len() && i + 1 < ts.len() {
                match &ts[i + 1] {
                    Token::Group { parens, tokens, text } => {
                        if *parens {
                            let inner = TypeRef { text: text.clone(), last_segment: type_segment_of(tokens) };
                            return Some((NewType { name, inner }, i + 2));
                        }
                    },
                    _ => {},
                }
            }
            None
        },
    }
}

fn newtypes_here(ts: &Vec<Token>, i: usize) -> (r: Option<Vec<NewType>>)
    requires
        i <= ts@.len(),
    ensures
        newtypes_from(ts@, i as int) is None ==> r is None,
        newtypes_from(ts@, i as int) matches Some(v) ==> (r matches Some(w) && w@.map_values(|t: NewType| newtype_view(t)) == v),
    decreases ts@.len() - i,
{
    if i >= ts.len() {
        let v: Vec<NewType> = Vec::new();
        assert(v@.map_values(|t: NewType| newtype_view(t)) =~= seq![]);
        return Some(v);
    }
    match newtype_here(ts, i) {
        None => None,
        Some((x, end)) => {
            let ghost xv = newtype_view(x);
            if end == ts.len() {
                let v = vec![x];
                assert(v@.map_values(|t: NewType| newtype_view(t)) =~= seq![xv]);
                Some(v)
            } else if punct_is(ts, end, ',') {
                match newtypes_here(ts, end + 1) {
                    Some(mut rest) => {
                        let ghost before = rest@;
                        rest.insert(0, x);
                        assert(rest@.map_values(|t: NewType| newtype_view(t))
                            =~= seq![xv] + before.map_values(|t: NewType| newtype_view(t)));
                        Some(rest)
                    },
                    None => None,
                }
            } else {
                None
            }
        },
    }
}

fn syntax_error(message: &str, at: String) -> (r: GenerateError)
    ensures
        r.message@ == message@,
        r.at@ == at@,
{
    GenerateError { message: message.to_owned(), at }
}

fn sections_here(ts: &Vec<Token>, i: usize) -> (r: Result<(Option<Vec<NewType>>, Option<Vec<Input>>), GenerateError>)
    requires
        i <= ts@.len(),
    ensures
        sections_from(ts@, i as int) matches Ok(v) ==> (r matches Ok(w) && newtypes_view(w.0) == v.0 && inputs_view(w.1) == v.1),
        sections_from(ts@, i as int) matches Err(e) ==> (r matches Err(g) && g.message@ == e.0 && g.at@ == e.1),
    decreases ts@.len() - i,
{
    proof {
        reveal_strlit("expected identifier");
        reveal_strlit("expected parentheses");
        reveal_strlit("unexpected token");
    }
    if i >= ts.len() {
        return Ok((None, None));
    }
    let kw = match ident_text(ts, i) {
        Some(k) => k,
        None => return Err(syntax_error("expected identifier", String::new())),
    };
    if i + 1 >= ts.len() {
        return Err(syntax_error("expected parentheses", kw));
    }
    let group = match &ts[i + 1] {
        Token::Group { parens, tokens, text: _ } => if *parens { Some(tokens) } else { None },
        _ => None,
    };
    let group = match group {
        Some(g) => g,
        None => return Err(syntax_error("expected parentheses", kw)),
    };
    let next = if punct_is(ts, i + 2, ',') { i + 3 } else { i + 2 };
    match section_kind(kw.as_str()) {
        Ok(SectionKind::Newtypes) => {
            let nts = match newtypes_here(group, 0) {
                Some(v) => v,
                None => return Err(syntax_error("unexpected token", kw)),
            };
            match sections_here(ts, next) {
                Err(e) => Err(e),
                Ok((later_nts, later_ins)) => {
                    let chosen = match later_nts {
                        Some(v) => Some(v),
                        None => Some(nts),
                    };
                    Ok((chosen, later_ins))
                },
            }
        },
        Ok(SectionKind::Inputs) => {
            let ins = match inputs_here(group, 0) {
                Some(v) => v,
                None => return Err(syntax_error("unexpected token", kw)),
            };
            match sections_here(ts, next) {
                Err(e) => Err(e),
                Ok((later_nts, later_ins)) => {
                    let chosen = match later_ins {
                        Some(v) => Some(v),
                        None => Some(ins),
                    };
                    Ok((later_nts, chosen))
                },
            }
        },
        Err(m) => Err(GenerateError { message: m, at: kw }),
    }
}

/// Reads the arguments of `#[model(...)]` from their tokens. A later section of a
/// kind replaces an earlier one, and a kind with no section is empty. A newtype's
/// inner type is taken as written; one that is not a path is refused when the
/// newtype is planned.
pub fn parse_model_args(ts: &Vec<Token>) -> (r: Result<Args, GenerateError>)
    ensures
        sections_from(ts@, 0) matches Ok(v) ==> (r matches Ok(a) && args_view(a) == (
            match v.0 { Some(n) => n, None => seq![] },
            match v.1 { Some(x) => x, None => seq![] },
        )),
        sections_from(ts@, 0) matches Err(e) ==> (r matches Err(g) && g.message@ == e.0 && g.at@ == e.1),
{
    match sections_here(ts, 0) {
        Err(e) => Err(e),
        Ok((nts, ins)) => {
            let newtypes = match nts {
                Some(v) => v,
                None => {
                    let v: Vec<NewType> = Vec::new();
                    assert(v@.map_values(|t: NewType| newtype_view(t)) =~= seq![]);
                    v
                },
            };
            let inputs = match ins {
                Some(v) => v,
                None => {
                    let v: Vec<Input> = Vec::new();
                    assert(v@.map_values(|x: Input| input_view(x)) =~= seq![]);
                    v
                },
            };
            Ok(Args { newtypes, inputs })
        },
    }
}

} // verus!
