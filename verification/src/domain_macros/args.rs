//! The arguments of the `#[model(...)]` attribute: newtypes and input structs.
use heck::ToSnakeCase;
use vstd::prelude::*;

verus! {

/// A type, as the generator sees it: its text, and the last segment of its path
/// when it is a path.
pub struct TypeRef {
    pub text: String,
    pub last_segment: Option<String>,
}

/// A newtype to generate: `Name(Inner)`.
pub struct NewType {
    pub name: String,
    pub inner: TypeRef,
}

/// A field of an input struct.
pub enum InputField {
    /// A field of the model, possibly under another name: `name as alias`.
    Field { name: String, alias: String },
    /// A field of another type, spread in under a name: `..Path as name`.
    Spread { name: String, path: Vec<String> },
}

/// An input struct to generate: its name and fields.
pub struct Input {
    pub name: String,
    pub fields: Vec<InputField>,
}

/// The arguments of `#[model(...)]`.
pub struct Args {
    pub newtypes: Vec<NewType>,
    pub inputs: Vec<Input>,
}

impl Args {
    /// No newtypes and no inputs.
    pub fn default_args() -> (r: Args)
        ensures
            r.newtypes@.len() == 0,
            r.inputs@.len() == 0,
    {
        Args { newtypes: Vec::new(), inputs: Vec::new() }
    }
}

/// The snake-case form of an identifier, as `heck::ToSnakeCase` writes it.
pub uninterp spec fn snake_case(ident: Seq<char>) -> Seq<char>;

/// Converts an identifier to snake case with `heck::ToSnakeCase::to_snake_case`.
/// What the conversion gives is named, not described.
#[verifier::external_body]
fn to_snake_case(ident: &str) -> (r: String)
    ensures
        r@ == snake_case(ident@),
{
    ident.to_snake_case()
}

impl InputField {
    /// A model field taken under its own name, or under `alias` when one is given.
    pub fn field(name: String, alias: Option<String>) -> (r: InputField)
        ensures
            r matches InputField::Field { name: n, alias: a } && n@ == name@
                && a@ == match alias { Some(x) => x@, None => name@ },
    {
        let alias = match alias {
            Some(a) => a,
            None => name.clone(),
        };
        InputField::Field { name, alias }
    }

    /// A spread field of the type at `path`, named `alias` when one is given, else
    /// after the last segment of the path in snake case.
    pub fn spread(path: Vec<String>, alias: Option<String>) -> (r: InputField)
        requires
            path@.len() > 0,
        ensures
            r matches InputField::Spread { name: n, path: p } && p@ == path@
                && n@ == match alias { Some(x) => x@, None => snake_case(path@.last()@) },
    {
        let name = match alias {
            Some(a) => a,
            None => to_snake_case(path[path.len() - 1].as_str()),
        };
        InputField::Spread { name, path }
    }
}

/// The sections `#[model(...)]` may hold.
#[derive(Debug, Clone, Copy, PartialEq, Eq, Structural)]
pub enum SectionKind {
    Newtypes,
    Inputs,
}

/// The kind of section a keyword opens: `newtypes` or `inputs`; any other keyword
/// is refused with `expected 'newtypes' or 'inputs'`.
pub fn section_kind(keyword: &str) -> (r: Result<SectionKind, String>)
    ensures
        keyword@ == "newtypes"@ ==> r == Ok::<SectionKind, String>(SectionKind::Newtypes),
        keyword@ == "inputs"@ ==> r == Ok::<SectionKind, String>(SectionKind::Inputs),
        keyword@ != "newtypes"@ && keyword@ != "inputs"@ ==> (r matches Err(m) && m@ == "expected 'newtypes' or 'inputs'"@),
{
    proof {
        reveal_strlit("newtypes");
        reveal_strlit("inputs");
        assert("newtypes"@.len() != "inputs"@.len());
    }
    if crate::text::str_eq(keyword, "newtypes") {
        Ok(SectionKind::Newtypes)
    } else if crate::text::str_eq(keyword, "inputs") {
        Ok(SectionKind::Inputs)
    } else {
        Err("expected 'newtypes' or 'inputs'".to_owned())
    }
}

/// A parsed section of `#[model(...)]`.
pub enum Section {
    Newtypes(Vec<NewType>),
    Inputs(Vec<Input>),
}

/// The index of the last section of the given kind, if any.
pub open spec fn last_of_kind(sections: Seq<Section>, newtypes: bool) -> Option<int>
    decreases sections.len(),
{
    if sections.len() == 0 {
        None
    } else if (sections.last() is Newtypes) == newtypes {
        Some(sections.len() - 1)
    } else {
        last_of_kind(sections.drop_last(), newtypes)
    }
}

/// The arguments made of the sections in order: a later section of a kind replaces
/// an earlier one; a kind with no section is empty.
pub fn assemble(sections: Vec<Section>) -> (r: Args)
    ensures
        last_of_kind(sections@, true) is None ==> r.newtypes@.len() == 0,
        last_of_kind(sections@, true) matches Some(i) ==> (sections@[i] matches Section::Newtypes(v) && r.newtypes@ == v@),
        last_of_kind(sections@, false) is None ==> r.inputs@.len() == 0,
        last_of_kind(sections@, false) matches Some(i) ==> (sections@[i] matches Section::Inputs(v) && r.inputs@ == v@),
{
    let mut args = Args::default_args();
    let total = sections.len();
    let ghost all = sections@;
    let mut rest = sections;
    let mut taken: usize = 0;
    // walk the sections from the first, keeping the latest of each kind
    let mut reversed: Vec<Section> = Vec::new();
    while rest.len() > 0
        invariant
            reversed@.len() + rest@.len() == all.len(),
            rest@ == all.take(rest@.len() as int),
            forall|j: int| 0 <= j < reversed@.len() ==> reversed@[j] == all[all.len() - 1 - j],
        decreases rest@.len(),
    {
        let s = rest.pop().unwrap();
        reversed.push(s);
        assert(rest@ =~= all.take(rest@.len() as int));
    }
    let ghost n = total as int;
    while reversed.len() > 0
        invariant
            0 <= taken <= n,
            reversed@.len() == n - taken,
            forall|j: int| 0 <= j < reversed@.len() ==> reversed@[j] == all[n - 1 - j],
            n == all.len(),
            n == total,
            last_of_kind(all.take(taken as int), true) is None ==> args.newtypes@.len() == 0,
            last_of_kind(all.take(taken as int), true) matches Some(i) ==> (all[i] matches Section::Newtypes(v) && args.newtypes@ == v@),
            last_of_kind(all.take(taken as int), false) is None ==> args.inputs@.len() == 0,
            last_of_kind(all.take(taken as int), false) matches Some(i) ==> (all[i] matches Section::Inputs(v) && args.inputs@ == v@),
        decreases reversed@.len(),
    {
        let s = reversed.pop().unwrap();
        proof {
            assert(s == all[taken as int]);
            assert(all.take(taken + 1).drop_last() =~= all.take(taken as int));
            assert(all.take(taken + 1).last() == all[taken as int]);
        }
        match s {
            Section::Newtypes(v) => { args.newtypes = v; },
            Section::Inputs(v) => { args.inputs = v; },
        }
        taken = taken + 1;
    }
    assert(all.take(n) =~= all);
    args
}

} // verus!
