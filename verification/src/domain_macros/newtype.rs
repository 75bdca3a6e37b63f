//! What a newtype over a given inner type derives.
use vstd::prelude::*;

verus! {

/// How a newtype is generated: whether its constructor is `const`, which traits
/// it derives, and whether it derives the database value type.
pub struct NewtypeMeta {
    pub const_fn: bool,
    pub derives: Vec<String>,
    pub derive_value_type: bool,
}

/// The traits every newtype derives.
pub open spec fn basic_derives() -> Seq<Seq<char>> {
    seq!["Debug"@, "PartialEq"@, "Eq"@, "Clone"@, "Serialize"@, "Deserialize"@, "Deref"@]
}

/// The kinds of inner type a newtype can wrap.
#[derive(Debug, Clone, Copy, PartialEq, Eq, Structural)]
pub enum InnerKind {
    Number,
    Uuid,
    TinyStr,
    Other,
}

/// The view of a meta: `const_fn`, derives, `derive_value_type`.
pub open spec fn meta_view(m: NewtypeMeta) -> (bool, Seq<Seq<char>>, bool) {
    (m.const_fn, m.derives@.map_values(|s: String| s@), m.derive_value_type)
}

/// What a newtype over an inner type of the given kind derives. A UUID is treated
/// as a number.
pub open spec fn meta_for_kind(k: InnerKind) -> (bool, Seq<Seq<char>>, bool) {
    match k {
        InnerKind::Number | InnerKind::Uuid => (true, basic_derives() + seq!["Copy"@, "Display"@, "FromStr"@, "Hash"@], true),
        InnerKind::TinyStr => (true, basic_derives() + seq!["Display"@, "FromStr"@], false),
        InnerKind::Other => (false, basic_derives(), false),
    }
}

/// The names of the numeric inner types.
pub open spec fn number_names() -> Seq<Seq<char>> {
    seq!["i64"@, "i32"@, "u64"@, "u32"@, "f64"@, "usize"@, "i16"@]
}

/// The kind of an inner type named `ident` (the last segment of its path).
pub open spec fn kind_of(ident: Seq<char>) -> InnerKind {
    if number_names().contains(ident) {
        InnerKind::Number
    } else if ident == "Uuid"@ || ident == "uuid"@ {
        InnerKind::Uuid
    } else if ident == "TinyAsciiStr"@ || ident == "TinyStr"@ {
        InnerKind::TinyStr
    } else {
        InnerKind::Other
    }
}

fn push_names(v: &mut Vec<String>, names: &[&str])
    ensures
        final(v)@.map_values(|s: String| s@) == old(v)@.map_values(|s: String| s@) + names@.map_values(|s: &str| s@),
{
    let mut i: usize = 0;
    let ghost start = v@.map_values(|s: String| s@);
    while i < names.len()
        invariant
            i <= names@.len(),
            v@.map_values(|s: String| s@) == start + names@.take(i as int).map_values(|s: &str| s@),
        decreases names@.len() - i,
    {
        let ghost before = v@;
        let name: String = names[i].to_owned();
        v.push(name);
        proof {
            assert(v@.map_values(|s: String| s@) =~= before.map_values(|s: String| s@).push(names@[i as int]@));
            assert(names@.take(i + 1).map_values(|s: &str| s@) =~= names@.take(i as int).map_values(|s: &str| s@).push(names@[i as int]@));
            assert(v@.map_values(|s: String| s@) =~= start + names@.take(i + 1).map_values(|s: &str| s@));
        }
        i = i + 1;
    }
    assert(names@.take(names@.len() as int) =~= names@);
}

fn basic_idents() -> (r: Vec<String>)
    ensures
        r@.map_values(|s: String| s@) == basic_derives(),
{
    let mut v: Vec<String> = Vec::new();
    let names = ["Debug", "PartialEq", "Eq", "Clone", "Serialize", "Deserialize", "Deref"];
    push_names(&mut v, &names);
    assert(v@.map_values(|s: String| s@) =~= basic_derives());
    v
}

impl NewtypeMeta {
    /// The meta of a newtype over a number (or a UUID).
    pub fn number() -> (r: NewtypeMeta)
        ensures
            meta_view(r) == meta_for_kind(InnerKind::Number),
    {
        let mut derives = basic_idents();
        let extra = ["Copy", "Display", "FromStr", "Hash"];
        push_names(&mut derives, &extra);
        let r = NewtypeMeta { const_fn: true, derives, derive_value_type: true };
        assert(meta_view(r).1 =~= meta_for_kind(InnerKind::Number).1);
        r
    }

    /// The meta of a newtype over a short ASCII string.
    pub fn tinystr() -> (r: NewtypeMeta)
        ensures
            meta_view(r) == meta_for_kind(InnerKind::TinyStr),
    {
        let mut derives = basic_idents();
        let extra = ["Display", "FromStr"];
        push_names(&mut derives, &extra);
        let r = NewtypeMeta { const_fn: true, derives, derive_value_type: false };
        assert(meta_view(r).1 =~= meta_for_kind(InnerKind::TinyStr).1);
        r
    }

    /// The meta of a newtype over any other type.
    pub fn other() -> (r: NewtypeMeta)
        ensures
            meta_view(r) == meta_for_kind(InnerKind::Other),
    {
        NewtypeMeta { const_fn: false, derives: basic_idents(), derive_value_type: false }
    }

    /// The meta of a newtype over a UUID: the same as over a number.
    pub fn uuid() -> (r: NewtypeMeta)
        ensures
            meta_view(r) == meta_for_kind(InnerKind::Uuid),
    {
        Self::number()
    }

    /// The meta of a newtype over the inner type whose path ends in `last_segment`;
    /// `None` for an inner type that is not a path, which is not supported.
    pub fn for_type(last_segment: Option<&str>) -> (r: Option<NewtypeMeta>)
        ensures
            last_segment is None ==> r is None,
            last_segment matches Some(s) ==> (r matches Some(m) && meta_view(m) == meta_for_kind(kind_of(s@))),
    {
        match last_segment {
            None => None,
            Some(s) => {
                let k = inner_kind(s);
                Some(match k {
                    InnerKind::Number => Self::number(),
                    InnerKind::Uuid => Self::uuid(),
                    InnerKind::TinyStr => Self::tinystr(),
                    InnerKind::Other => Self::other(),
                })
            },
        }
    }
}

fn any_equal(s: &str, names: &[&str]) -> (r: bool)
    ensures
        r == names@.map_values(|n: &str| n@).contains(s@),
{
    let mut i: usize = 0;
    while i < names.len()
        invariant
            i <= names@.len(),
            forall|j: int| 0 <= j < i ==> names@[j]@ != s@,
        decreases names@.len() - i,
    {
        if crate::text::str_eq(s, names[i]) {
            proof {
                assert(names@.map_values(|n: &str| n@)[i as int] == s@);
            }
            return true;
        }
        i = i + 1;
    }
    proof {
        let m = names@.map_values(|n: &str| n@);
        if m.contains(s@) {
            let j = choose|j: int| 0 <= j < m.len() && m[j] == s@;
            assert(names@[j]@ == s@);
        }
    }
    false
}

/// The kind of an inner type named `ident`.
pub fn inner_kind(ident: &str) -> (r: InnerKind)
    ensures
        r == kind_of(ident@),
{
    let numbers = ["i64", "i32", "u64", "u32", "f64", "usize", "i16"];
    let uuids = ["Uuid", "uuid"];
    let tiny = ["TinyAsciiStr", "TinyStr"];
    proof {
        assert(numbers@.map_values(|n: &str| n@) =~= number_names());
        assert(uuids@.map_values(|n: &str| n@) =~= seq!["Uuid"@, "uuid"@]);
        assert(tiny@.map_values(|n: &str| n@) =~= seq!["TinyAsciiStr"@, "TinyStr"@]);
        assert(seq!["Uuid"@, "uuid"@].contains(ident@) <==> (ident@ == "Uuid"@ || ident@ == "uuid"@)) by {
            if ident@ == "uuid"@ { assert(seq!["Uuid"@, "uuid"@][1] == ident@); }
            if ident@ == "Uuid"@ { assert(seq!["Uuid"@, "uuid"@][0] == ident@); }
        }
        assert(seq!["TinyAsciiStr"@, "TinyStr"@].contains(ident@) <==> (ident@ == "TinyAsciiStr"@ || ident@ == "TinyStr"@)) by {
            if ident@ == "TinyStr"@ { assert(seq!["TinyAsciiStr"@, "TinyStr"@][1] == ident@); }
            if ident@ == "TinyAsciiStr"@ { assert(seq!["TinyAsciiStr"@, "TinyStr"@][0] == ident@); }
        }
    }
    if any_equal(ident, &numbers) {
        InnerKind::Number
    } else if any_equal(ident, &uuids) {
        InnerKind::Uuid
    } else if any_equal(ident, &tiny) {
        InnerKind::TinyStr
    } else {
        InnerKind::Other
    }
}

/// The numeric inner types: a newtype over `i64`, `i32`, `u64`, `u32`, `f64`,
/// `usize` or `i16`, and over nothing else, is generated as a number, with a
/// `const` constructor, `Copy`, `Display`, `FromStr` and `Hash` beside the basic
/// derives, and the database value type.
pub proof fn lemma_numeric_inner_types(ident: Seq<char>)
    ensures
        (kind_of(ident) == InnerKind::Number) <==> (ident == "i64"@ || ident == "i32"@ || ident == "u64"@
            || ident == "u32"@ || ident == "f64"@ || ident == "usize"@ || ident == "i16"@),
        (ident == "i64"@ || ident == "i32"@ || ident == "u64"@ || ident == "u32"@ || ident == "f64"@
            || ident == "usize"@ || ident == "i16"@) ==> {
            let m = meta_for_kind(kind_of(ident));
            &&& m.0
            &&& m.2
            &&& m.1 == seq!["Debug"@, "PartialEq"@, "Eq"@, "Clone"@, "Serialize"@, "Deserialize"@, "Deref"@,
                "Copy"@, "Display"@, "FromStr"@, "Hash"@]
        },
{
    let n = number_names();
    assert(n[0] == "i64"@ && n[1] == "i32"@ && n[2] == "u64"@ && n[3] == "u32"@ && n[4] == "f64"@
        && n[5] == "usize"@ && n[6] == "i16"@);
    if n.contains(ident) {
        let j = choose|j: int| 0 <= j < n.len() && n[j] == ident;
        assert(j == 0 || j == 1 || j == 2 || j == 3 || j == 4 || j == 5 || j == 6);
    }
    if ident == "i64"@ { assert(n[0] == ident); }
    if ident == "i32"@ { assert(n[1] == ident); }
    if ident == "u64"@ { assert(n[2] == ident); }
    if ident == "u32"@ { assert(n[3] == ident); }
    if ident == "f64"@ { assert(n[4] == ident); }
    if ident == "usize"@ { assert(n[5] == ident); }
    if ident == "i16"@ { assert(n[6] == ident); }
    assert(basic_derives() + seq!["Copy"@, "Display"@, "FromStr"@, "Hash"@] =~= seq!["Debug"@, "PartialEq"@, "Eq"@,
        "Clone"@, "Serialize"@, "Deserialize"@, "Deref"@, "Copy"@, "Display"@, "FromStr"@, "Hash"@]);
}

/// The other inner types: `Uuid` (or `uuid`) is generated like a number;
/// `TinyAsciiStr` (or `TinyStr`) gets a `const` constructor, `Display` and `FromStr`
/// beside the basic derives, and no database value type; any other type gets only
/// the basic derives.
pub proof fn lemma_other_inner_types(ident: Seq<char>)
    ensures
        (kind_of(ident) == InnerKind::Uuid) <==> (ident == "Uuid"@ || ident == "uuid"@),
        (kind_of(ident) == InnerKind::TinyStr) <==> (ident == "TinyAsciiStr"@ || ident == "TinyStr"@),
        (ident == "Uuid"@ || ident == "uuid"@) ==> meta_for_kind(kind_of(ident)) == meta_for_kind(InnerKind::Number),
        (ident == "TinyAsciiStr"@ || ident == "TinyStr"@) ==> meta_for_kind(kind_of(ident)) == (true,
            seq!["Debug"@, "PartialEq"@, "Eq"@, "Clone"@, "Serialize"@, "Deserialize"@, "Deref"@, "Display"@, "FromStr"@], false),
        kind_of(ident) == InnerKind::Other ==> meta_for_kind(kind_of(ident)) == (false,
            seq!["Debug"@, "PartialEq"@, "Eq"@, "Clone"@, "Serialize"@, "Deserialize"@, "Deref"@], false),
{
    reveal_strlit("i64");
    reveal_strlit("i32");
    reveal_strlit("u64");
    reveal_strlit("u32");
    reveal_strlit("f64");
    reveal_strlit("usize");
    reveal_strlit("i16");
    reveal_strlit("Uuid");
    reveal_strlit("uuid");
    reveal_strlit("TinyAsciiStr");
    reveal_strlit("TinyStr");
    lemma_numeric_inner_types(ident);
    assert("i64"@.len() == 3 && "i32"@.len() == 3 && "u64"@.len() == 3 && "u32"@.len() == 3 && "f64"@.len() == 3
        && "i16"@.len() == 3 && "usize"@.len() == 5);
    assert("Uuid"@.len() == 4 && "uuid"@.len() == 4 && "TinyAsciiStr"@.len() == 12 && "TinyStr"@.len() == 7);
    assert(basic_derives() + seq!["Display"@, "FromStr"@] =~= seq!["Debug"@, "PartialEq"@, "Eq"@, "Clone"@,
        "Serialize"@, "Deserialize"@, "Deref"@, "Display"@, "FromStr"@]);
    assert(basic_derives() =~= seq!["Debug"@, "PartialEq"@, "Eq"@, "Clone"@, "Serialize"@, "Deserialize"@, "Deref"@]);
}

} // verus!
