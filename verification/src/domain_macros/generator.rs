//! What the `Model` derive generates: the newtypes, the input structs with their
//! fields resolved against the model, and the model's constructor.
use vstd::prelude::*;

use super::args::{Args, Input, InputField, NewType};
use super::newtype::{kind_of, meta_for_kind, meta_view, NewtypeMeta};

verus! {

/// A named field of the model: what is written before its name, its name and the
/// text of its type.
pub struct StructField {
    /// Its attributes and visibility as written, each followed by a space.
    pub prefix: String,
    pub name: String,
    pub ty: String,
}

/// Why nothing is generated: the message, and the name it is about.
pub struct GenerateError {
    pub message: String,
    pub at: String,
}

/// The derive only applies to a struct named `Model`.
pub fn check_struct_name(ident: &str) -> (r: Result<(), GenerateError>)
    ensures
        r is Ok <==> ident@ == "Model"@,
        r matches Err(e) ==> e.message@ == "Allowed only `Model` struct name"@ && e.at@ == ident@,
{
    if crate::text::str_eq(ident, "Model") {
        Ok(())
    } else {
        Err(GenerateError { message: "Allowed only `Model` struct name".to_owned(), at: ident.to_owned() })
    }
}

/// An argument of the `nutype` attribute of a generated newtype.
pub enum NutypeArg {
    ConstFn,
    Derive(Vec<String>),
    DeriveValueType,
}

/// A newtype to generate: its name, its inner type and the arguments of `nutype`.
pub struct NewtypePlan {
    pub name: String,
    pub inner: String,
    pub args: Vec<NutypeArg>,
}

/// The view of an argument of `nutype`: which argument it is (`0` for `const_fn`,
/// `1` for the derive list, `2` for the database value type) and the derives it lists.
pub open spec fn arg_view(a: NutypeArg) -> (int, Seq<Seq<char>>) {
    match a {
        NutypeArg::ConstFn => (0, seq![]),
        NutypeArg::Derive(v) => (1, v@.map_values(|s: String| s@)),
        NutypeArg::DeriveValueType => (2, seq![]),
    }
}

/// The arguments of `nutype` for a meta, in order: `const_fn` when the constructor
/// is `const`, the derives, and the database value type when it is derived.
pub open spec fn nutype_args_view(m: (bool, Seq<Seq<char>>, bool)) -> Seq<(int, Seq<Seq<char>>)> {
    (if m.0 { seq![(0int, Seq::<Seq<char>>::empty())] } else { seq![] })
        + seq![(1int, m.1)]
        + (if m.2 { seq![(2int, Seq::<Seq<char>>::empty())] } else { seq![] })
}

fn nutype_args(meta: NewtypeMeta) -> (r: Vec<NutypeArg>)
    ensures
        r@.map_values(|a: NutypeArg| arg_view(a)) == nutype_args_view(meta_view(meta)),
        r@.len() >= 1,
        meta.const_fn <==> r@[0] is ConstFn,
        meta.derive_value_type <==> r@.last() is DeriveValueType,
{
    let mut v: Vec<NutypeArg> = Vec::new();
    let const_fn = meta.const_fn;
    let dvt = meta.derive_value_type;
    let ghost derives = meta.derives@.map_values(|s: String| s@);
    if const_fn {
        v.push(NutypeArg::ConstFn);
    }
    v.push(NutypeArg::Derive(meta.derives));
    if dvt {
        v.push(NutypeArg::DeriveValueType);
    }
    assert(v@.map_values(|a: NutypeArg| arg_view(a)) =~= nutype_args_view(meta_view(meta)));
    v
}

/// The plan of a newtype: its name, its inner type, and the `nutype` arguments for
/// the kind of its inner type.
pub open spec fn newtype_planned(t: NewType, p: NewtypePlan) -> bool {
    &&& p.name@ == t.name@
    &&& p.inner@ == t.inner.text@
    &&& t.inner.last_segment is Some
    &&& p.args@.map_values(|a: NutypeArg| arg_view(a)) == nutype_args_view(meta_for_kind(kind_of(t.inner.last_segment->Some_0@)))
    &&& p.args@.len() >= 1
    &&& (meta_for_kind(kind_of(t.inner.last_segment->Some_0@)).0 <==> p.args@[0] is ConstFn)
    &&& (meta_for_kind(kind_of(t.inner.last_segment->Some_0@)).2 <==> p.args@.last() is DeriveValueType)
}

/// `at` is the inner type of the first newtype whose inner type is not a path.
pub open spec fn unsupported_at(newtypes: Seq<NewType>, at: Seq<char>) -> bool {
    exists|i: int| {
        &&& 0 <= i < newtypes.len()
        &&& (#[trigger] newtypes[i]).inner.last_segment is None
        &&& (forall|j: int| 0 <= j < i ==> (#[trigger] newtypes[j]).inner.last_segment is Some)
        &&& at == newtypes[i].inner.text@
    }
}

/// The newtype plans, one per newtype in order, or the error for the first newtype
/// whose inner type is not a path.
pub fn plan_newtypes(newtypes: &Vec<NewType>) -> (r: Result<Vec<NewtypePlan>, GenerateError>)
    ensures
        r is Err <==> exists|i: int| 0 <= i < newtypes@.len() && (#[trigger] newtypes@[i]).inner.last_segment is None,
        r matches Err(e) ==> e.message@ == "Not supported type for creating newtypes"@ && unsupported_at(newtypes@, e.at@),
        r matches Ok(p) ==> p@.len() == newtypes@.len() && forall|i: int| 0 <= i < p@.len() ==> newtype_planned(newtypes@[i], #[trigger] p@[i]),
{
    let mut plans: Vec<NewtypePlan> = Vec::new();
    let mut i: usize = 0;
    while i < newtypes.len()
        invariant
            i <= newtypes@.len(),
            plans@.len() == i,
            forall|j: int| 0 <= j < i ==> (#[trigger] newtypes@[j]).inner.last_segment is Some,
            forall|j: int| 0 <= j < i ==> newtype_planned(newtypes@[j], #[trigger] plans@[j]),
        decreases newtypes@.len() - i,
    {
        let t = &newtypes[i];
        let seg: Option<&str> = match &t.inner.last_segment {
            Some(s) => Some(s.as_str()),
            None => None,
        };
        let meta = match NewtypeMeta::for_type(seg) {
            Some(m) => m,
            None => {
                let e = GenerateError {
                    message: "Not supported type for creating newtypes".to_owned(),
                    at: t.inner.text.clone(),
                };
                assert(newtypes@[i as int].inner.last_segment is None);
                return Err(e);
            },
        };
        let args = nutype_args(meta);
        plans.push(NewtypePlan { name: t.name.clone(), inner: t.inner.text.clone(), args });
        i = i + 1;
    }
    Ok(plans)
}

/// A field of an input struct, resolved: the model field it comes from (`name`),
/// its name in the input struct (`struct_name`), its type, and whether it is spread.
pub struct ResolvedInputField {
    pub name: String,
    pub struct_name: String,
    pub ty: String,
    pub spread: bool,
}

/// An input struct to generate.
pub struct InputPlan {
    pub name: String,
    pub fields: Vec<ResolvedInputField>,
    /// No field: the struct is a unit struct.
    pub unit_struct: bool,
    /// Exactly one field: the struct converts from a value of that field's type.
    pub from_one_field: bool,
    /// No spread field: the struct is applied to a model and made from one.
    pub model_methods: bool,
}

/// The index of the first model field named `name`.
pub open spec fn first_named(fields: Seq<StructField>, name: Seq<char>) -> Option<int>
    decreases fields.len(),
{
    if fields.len() == 0 {
        None
    } else if fields[0].name@ == name {
        Some(0)
    } else {
        match first_named(fields.drop_first(), name) {
            Some(i) => Some(i + 1),
            None => None,
        }
    }
}

proof fn lemma_first_named(fields: Seq<StructField>, name: Seq<char>)
    ensures
        first_named(fields, name) matches Some(i) ==> 0 <= i < fields.len() && fields[i].name@ == name
            && forall|j: int| 0 <= j < i ==> (#[trigger] fields[j]).name@ != name,
        first_named(fields, name) is None ==> forall|j: int| 0 <= j < fields.len() ==> (#[trigger] fields[j]).name@ != name,
    decreases fields.len(),
{
    if fields.len() > 0 {
        lemma_first_named(fields.drop_first(), name);
        assert forall|j: int| 1 <= j < fields.len() implies fields[j] == fields.drop_first()[j - 1] by {}
    }
}

/// Finds the first model field named `name`.
pub(crate) fn find_named(fields: &Vec<StructField>, name: &str) -> (r: Option<usize>)
    ensures
        r matches Some(i) ==> first_named(fields@, name@) == Some(i as int) && i < fields@.len(),
        r is None ==> first_named(fields@, name@) is None,
{
    proof { lemma_first_named(fields@, name@); }
    let mut j: usize = 0;
    while j < fields.len()
        invariant
            j <= fields@.len(),
            forall|k: int| 0 <= k < j ==> (#[trigger] fields@[k]).name@ != name@,
        decreases fields@.len() - j,
    {
        if crate::text::str_eq(fields[j].name.as_str(), name) {
            proof {
                lemma_first_named(fields@, name@);
                if let Some(f) = first_named(fields@, name@) {
                    if f < j { assert(fields@[f].name@ != name@); }
                    if f > j { assert(fields@[j as int].name@ == name@); }
                }
            }
            return Some(j);
        }
        j = j + 1;
    }
    proof { lemma_first_named(fields@, name@); }
    None
}

/// How an input field resolves against the model's fields: `(name, struct name,
/// type, spread)`, or `None` when it names no model field.
pub open spec fn resolve(f: InputField, fields: Seq<StructField>) -> Option<(Seq<char>, Seq<char>, Seq<char>, bool)> {
    match f {
        InputField::Field { name, alias } => match first_named(fields, name@) {
            Some(i) => Some((name@, alias@, fields[i].ty@, false)),
            None => None,
        },
        InputField::Spread { name, path } => Some((name@, name@, path_text(path@.map_values(|s: String| s@)), true)),
    }
}

/// The text of a path: its segments joined by `::`.
pub open spec fn path_text(segments: Seq<Seq<char>>) -> Seq<char>
    decreases segments.len(),
{
    if segments.len() == 0 {
        seq![]
    } else if segments.len() == 1 {
        segments[0]
    } else {
        path_text(segments.drop_last()) + "::"@ + segments.last()
    }
}

fn join_path(segments: &Vec<String>) -> (r: String)
    ensures
        r@ == path_text(segments@.map_values(|s: String| s@)),
{
    let mut s = String::new();
    let mut i: usize = 0;
    while i < segments.len()
        invariant
            i <= segments@.len(),
            s@ == path_text(segments@.take(i as int).map_values(|x: String| x@)),
        decreases segments@.len() - i,
    {
        let ghost prev = segments@.take(i as int).map_values(|x: String| x@);
        if i > 0 {
            s.append("::");
        }
        s.append(segments[i].as_str());
        proof {
            let next = segments@.take(i + 1).map_values(|x: String| x@);
            assert(next.drop_last() =~= prev);
            assert(next.last() == segments@[i as int]@);
            if i == 0 {
                assert(prev =~= Seq::<Seq<char>>::empty());
                assert(path_text(prev) =~= Seq::<char>::empty());
                assert(s@ =~= segments@[0]@);
            } else {
                assert(s@ =~= path_text(prev) + "::"@ + segments@[i as int]@);
            }
        }
        i = i + 1;
    }
    assert(segments@.take(segments@.len() as int) =~= segments@);
    s
}

/// The view of a resolved field.
pub open spec fn resolved_view(f: ResolvedInputField) -> (Seq<char>, Seq<char>, Seq<char>, bool) {
    (f.name@, f.struct_name@, f.ty@, f.spread)
}

#[verifier::loop_isolation(false)]
fn resolve_field(f: &InputField, fields: &Vec<StructField>) -> (r: Option<ResolvedInputField>)
    ensures
        r is None <==> resolve(*f, fields@) is None,
        r matches Some(x) ==> resolve(*f, fields@) == Some(resolved_view(x)),
{
    match f {
        InputField::Field { name, alias } => {
            let mut j: usize = 0;
            while j < fields.len()
                invariant
                    j <= fields@.len(),
                    forall|k: int| 0 <= k < j ==> (#[trigger] fields@[k]).name@ != name@,
                decreases fields@.len() - j,
            {
                if fields[j].name == *name {
                    proof {
                        lemma_first_named(fields@, name@);
                        assert(first_named(fields@, name@) == Some(j as int)) by {
                            if first_named(fields@, name@) is None {
                                assert(fields@[j as int].name@ != name@);
                            } else {
                                let i = first_named(fields@, name@)->Some_0;
                                if i < j {
                                    assert(fields@[i].name@ != name@);
                                } else if i > j {
                                    assert(fields@[j as int].name@ != name@);
                                }
                            }
                        }
                    }
                    return Some(ResolvedInputField {
                        name: name.clone(),
                        struct_name: alias.clone(),
                        ty: fields[j].ty.clone(),
                        spread: false,
                    });
                }
                j = j + 1;
            }
            proof {
                lemma_first_named(fields@, name@);
                if first_named(fields@, name@) is Some {
                    let i = first_named(fields@, name@)->Some_0;
                    assert(fields@[i].name@ != name@);
                }
            }
            None
        },
        InputField::Spread { name, path } => {
            Some(ResolvedInputField { name: name.clone(), struct_name: name.clone(), ty: join_path(path), spread: true })
        },
    }
}

/// The name an input field is written with: the model field's name, or the spread
/// field's name.
pub open spec fn field_name(f: InputField) -> Seq<char> {
    match f {
        InputField::Field { name, alias: _ } => name@,
        InputField::Spread { name, path: _ } => name@,
    }
}

/// `at` is the name of the first field of `input` that names no model field.
pub open spec fn unresolved_at(input: Input, fields: Seq<StructField>, at: Seq<char>) -> bool {
    exists|i: int| {
        &&& 0 <= i < input.fields@.len()
        &&& resolve(#[trigger] input.fields@[i], fields) is None
        &&& (forall|j: int| 0 <= j < i ==> resolve(#[trigger] input.fields@[j], fields) is Some)
        &&& at == field_name(input.fields@[i])
    }
}

/// The plan of an input struct: its name, each field resolved in order, and which
/// of the extra items it gets.
pub open spec fn input_planned(input: Input, fields: Seq<StructField>, p: InputPlan) -> bool {
    &&& p.name@ == input.name@
    &&& p.fields@.len() == input.fields@.len()
    &&& forall|i: int| 0 <= i < p.fields@.len() ==> resolve(input.fields@[i], fields) == Some(resolved_view(#[trigger] p.fields@[i]))
    &&& p.unit_struct == (input.fields@.len() == 0)
    &&& p.from_one_field == (input.fields@.len() == 1)
    &&& p.model_methods == forall|i: int| 0 <= i < p.fields@.len() ==> !(#[trigger] p.fields@[i]).spread
}

/// Plans an input struct: each of its fields resolved in order against the model's
/// fields, or, for the first field that names no model field, the error
/// `this name found in the struct definition` about that name.
pub fn plan_input(input: &Input, fields: &Vec<StructField>) -> (r: Result<InputPlan, GenerateError>)
    ensures
        r is Err <==> exists|i: int| 0 <= i < input.fields@.len() && resolve(#[trigger] input.fields@[i], fields@) is None,
        r matches Err(e) ==> e.message@ == "this name found in the struct definition"@ && unresolved_at(*input, fields@, e.at@),
        r matches Ok(p) ==> input_planned(*input, fields@, p),
{
    let mut resolved: Vec<ResolvedInputField> = Vec::new();
    let mut no_spreads = true;
    let mut i: usize = 0;
    while i < input.fields.len()
        invariant
            i <= input.fields@.len(),
            resolved@.len() == i,
            forall|k: int| 0 <= k < i ==> resolve(input.fields@[k], fields@) == Some(resolved_view(#[trigger] resolved@[k])),
            no_spreads == forall|k: int| 0 <= k < i ==> !(#[trigger] resolved@[k]).spread,
        decreases input.fields@.len() - i,
    {
        match resolve_field(&input.fields[i], fields) {
            None => {
                let at = match &input.fields[i] {
                    InputField::Field { name, alias: _ } => name.clone(),
                    InputField::Spread { name, path: _ } => name.clone(),
                };
                proof {
                    assert(resolve(input.fields@[i as int], fields@) is None);
                    assert forall|j: int| 0 <= j < i implies resolve(#[trigger] input.fields@[j], fields@) is Some by {
                        assert(resolve(input.fields@[j], fields@) == Some(resolved_view(resolved@[j])));
                    }
                    assert(at@ == field_name(input.fields@[i as int]));
                }
                return Err(GenerateError { message: "this name found in the struct definition".to_owned(), at });
            },
            Some(f) => {
                let spread = f.spread;
                if spread {
                    no_spreads = false;
                }
                let ghost before = resolved@;
                resolved.push(f);
                proof {
                    assert(resolved@[i as int].spread == spread);
                    assert forall|k: int| 0 <= k < i implies resolved@[k] == before[k] by {}
                }
            },
        }
        i = i + 1;
    }
    proof {
        assert forall|k: int| 0 <= k < input.fields@.len() implies resolve(#[trigger] input.fields@[k], fields@) is Some by {
            assert(resolve(input.fields@[k], fields@) == Some(resolved_view(resolved@[k])));
        }
    }
    let n = resolved.len();
    let plan = InputPlan {
        name: input.name.clone(),
        fields: resolved,
        unit_struct: n == 0,
        from_one_field: n == 1,
        model_methods: no_spreads,
    };
    assert(forall|k: int| 0 <= k < plan.fields@.len() ==> resolve(input.fields@[k], fields@) == Some(resolved_view(#[trigger] plan.fields@[k])));
    assert(plan.name@ == input.name@);
    assert(plan.fields@.len() == input.fields@.len());
    assert(plan.unit_struct == (input.fields@.len() == 0));
    assert(plan.from_one_field == (input.fields@.len() == 1));
    assert(plan.model_methods == forall|k: int| 0 <= k < plan.fields@.len() ==> !(#[trigger] plan.fields@[k]).spread);
    assert(input_planned(*input, fields@, plan));
    Ok(plan)
}

/// Everything the derive generates for a model.
pub struct GenerationPlan {
    pub newtypes: Vec<NewtypePlan>,
    pub inputs: Vec<InputPlan>,
    /// The parameters of the model's constructor: each field of the model, in order.
    pub constructor: Vec<StructField>,
}

fn copy_fields(fields: &Vec<StructField>) -> (r: Vec<StructField>)
    ensures
        r@.len() == fields@.len(),
        forall|i: int| 0 <= i < r@.len() ==> (#[trigger] r@[i]).name@ == fields@[i].name@ && r@[i].ty@ == fields@[i].ty@,
{
    let mut r: Vec<StructField> = Vec::new();
    let mut i: usize = 0;
    while i < fields.len()
        invariant
            i <= fields@.len(),
            r@.len() == i,
            forall|k: int| 0 <= k < i ==> (#[trigger] r@[k]).name@ == fields@[k].name@ && r@[k].ty@ == fields@[k].ty@,
        decreases fields@.len() - i,
    {
        r.push(StructField { prefix: fields[i].prefix.clone(), name: fields[i].name.clone(), ty: fields[i].ty.clone() });
        i = i + 1;
    }
    r
}

/// Whether every newtype's inner type is a path.
pub open spec fn newtypes_supported(newtypes: Seq<NewType>) -> bool {
    forall|i: int| 0 <= i < newtypes.len() ==> (#[trigger] newtypes[i]).inner.last_segment is Some
}

/// Whether every field of every input names a model field (or is spread).
pub open spec fn inputs_resolve(inputs: Seq<Input>, fields: Seq<StructField>) -> bool {
    forall|i: int, j: int| 0 <= i < inputs.len() && 0 <= j < inputs[i].fields@.len()
        ==> resolve(#[trigger] inputs[i].fields@[j], fields) is Some
}

/// Whether every field of `input` names a model field (or is spread).
pub open spec fn input_resolves(input: Input, fields: Seq<StructField>) -> bool {
    forall|j: int| 0 <= j < input.fields@.len() ==> resolve(#[trigger] input.fields@[j], fields) is Some
}

/// `at` is the name of the first unresolved field of the first input that has one.
pub open spec fn failing_input_at(inputs: Seq<Input>, fields: Seq<StructField>, at: Seq<char>) -> bool {
    exists|i: int| {
        &&& 0 <= i < inputs.len()
        &&& !input_resolves(#[trigger] inputs[i], fields)
        &&& (forall|k: int| 0 <= k < i ==> input_resolves(#[trigger] inputs[k], fields))
        &&& unresolved_at(inputs[i], fields, at)
    }
}

/// What the derive answers for the struct `ident` with the given fields, newtypes
/// and inputs: the name is checked first, then the newtypes, then the inputs; the
/// first failure is the answer. Otherwise every newtype and input is planned in
/// order, and the constructor takes every field of the model.
pub open spec fn generated(
    ident: Seq<char>,
    fields: Seq<StructField>,
    newtypes: Seq<NewType>,
    inputs: Seq<Input>,
    r: Result<GenerationPlan, GenerateError>,
) -> bool {
    &&& ident != "Model"@ ==> (r matches Err(e) && e.message@ == "Allowed only `Model` struct name"@ && e.at@ == ident)
    &&& ident == "Model"@ && !newtypes_supported(newtypes)
        ==> (r matches Err(e) && e.message@ == "Not supported type for creating newtypes"@ && unsupported_at(newtypes, e.at@))
    &&& ident == "Model"@ && newtypes_supported(newtypes) && !inputs_resolve(inputs, fields)
        ==> (r matches Err(e) && e.message@ == "this name found in the struct definition"@ && failing_input_at(inputs, fields, e.at@))
    &&& r is Ok <==> (ident == "Model"@ && newtypes_supported(newtypes) && inputs_resolve(inputs, fields))
    &&& r matches Ok(p) ==> {
        &&& p.newtypes@.len() == newtypes.len()
        &&& (forall|i: int| 0 <= i < newtypes.len() ==> newtype_planned(newtypes[i], #[trigger] p.newtypes@[i]))
        &&& p.inputs@.len() == inputs.len()
        &&& (forall|i: int| 0 <= i < inputs.len() ==> input_planned(inputs[i], fields, #[trigger] p.inputs@[i]))
        &&& p.constructor@.len() == fields.len()
        &&& forall|i: int| 0 <= i < fields.len() ==> (#[trigger] p.constructor@[i]).name@ == fields[i].name@ && p.constructor@[i].ty@ == fields[i].ty@
    }
}

/// Plans the derive for the struct `ident` with the given fields and arguments:
/// the name is checked first, then the newtypes, then the inputs in order; the
/// first failure is the answer.
pub fn generate(ident: &str, fields: &Vec<StructField>, args: &Args) -> (r: Result<GenerationPlan, GenerateError>)
    ensures
        generated(ident@, fields@, args.newtypes@, args.inputs@, r),
{
    match check_struct_name(ident) {
        Ok(()) => {},
        Err(e) => return Err(e),
    }
    let newtypes = match plan_newtypes(&args.newtypes) {
        Ok(p) => p,
        Err(e) => return Err(e),
    };
    let mut inputs: Vec<InputPlan> = Vec::new();
    let mut i: usize = 0;
    while i < args.inputs.len()
        invariant
            i <= args.inputs@.len(),
            inputs@.len() == i,
            ident@ == "Model"@,
            newtypes_supported(args.newtypes@),
            newtypes@.len() == args.newtypes@.len(),
            forall|k: int| 0 <= k < args.newtypes@.len() ==> newtype_planned(args.newtypes@[k], #[trigger] newtypes@[k]),
            forall|k: int, j: int| 0 <= k < i && 0 <= j < args.inputs@[k].fields@.len()
                ==> resolve(#[trigger] args.inputs@[k].fields@[j], fields@) is Some,
            forall|k: int| 0 <= k < i ==> input_planned(args.inputs@[k], fields@, #[trigger] inputs@[k]),
        decreases args.inputs@.len() - i,
    {
        let p = match plan_input(&args.inputs[i], fields) {
            Ok(p) => p,
            Err(e) => {
                proof {
                    assert(!input_resolves(args.inputs@[i as int], fields@));
                    assert forall|k: int| 0 <= k < i implies input_resolves(#[trigger] args.inputs@[k], fields@) by {
                        assert forall|j: int| 0 <= j < args.inputs@[k].fields@.len() implies resolve(#[trigger] args.inputs@[k].fields@[j], fields@) is Some by {}
                    }
                    assert(!inputs_resolve(args.inputs@, fields@));
                }
                return Err(e);
            },
        };
        inputs.push(p);
        i = i + 1;
    }
    let constructor = copy_fields(fields);
    Ok(GenerationPlan { newtypes, inputs, constructor })
}

} // verus!
