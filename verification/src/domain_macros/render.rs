//! The code the `Model` derive emits for a plan: the newtypes, each input struct
//! with its constructor and conversions, and the model's constructor.
use vstd::prelude::*;

use super::generator::{first_named, find_named, GenerationPlan, InputPlan, NewtypePlan, NutypeArg, ResolvedInputField, StructField};
use crate::service_macros::expand::texts;
use crate::service_macros::generator::{concat_all, concat_strings, join, join_strings};

verus! {

/// An argument of the `nutype` attribute as written.
pub open spec fn nutype_arg_text(a: NutypeArg) -> Seq<char> {
    match a {
        NutypeArg::ConstFn => "const_fn"@,
        NutypeArg::Derive(d) => "derive("@ + join(texts(d@), ", "@) + ")"@,
        NutypeArg::DeriveValueType => "derive_unchecked(sea_orm::entity::prelude::DeriveValueType)"@,
    }
}

/// A newtype: `#[::nutype::nutype(args)] vis struct Name(Inner);`.
pub open spec fn newtype_text(vis: Seq<char>, p: NewtypePlan) -> Seq<char> {
    "#[::nutype::nutype("@ + join(Seq::new(p.args@.len(), |i: int| nutype_arg_text(p.args@[i])), ", "@) + ")] "@
        + vis + " struct "@ + p.name@ + "("@ + p.inner@ + ");"@
}

/// The parameters of a constructor: each `name: impl Into<ty>`.
pub open spec fn params_text(names: Seq<Seq<char>>, tys: Seq<Seq<char>>) -> Seq<char> {
    join(Seq::new(names.len(), |i: int| names[i] + ": impl ::core::convert::Into<"@ + tys[i] + ">"@), ", "@)
}

/// The fields a constructor sets: each `name: Into::into(name)`.
pub open spec fn inits_text(names: Seq<Seq<char>>) -> Seq<char> {
    join(Seq::new(names.len(), |i: int| names[i] + ": ::core::convert::Into::into("@ + names[i] + ")"@), ", "@)
}

/// The constructor `new` of `ty_name`, taking each field as anything that converts
/// into its type.
pub open spec fn new_impl_text(vis: Seq<char>, ty_name: Seq<char>, names: Seq<Seq<char>>, tys: Seq<Seq<char>>) -> Seq<char> {
    "impl "@ + ty_name + " { #[allow(clippy::too_many_arguments)] "@ + vis + " fn new("@ + params_text(names, tys)
        + ") -> Self { Self { "@ + inits_text(names) + " } } }"@
}

/// What is written before a field of an input struct: the model field's attributes
/// and visibility, or, for a spread field, the model's visibility.
pub open spec fn field_prefix(r: ResolvedInputField, fields: Seq<StructField>, vis: Seq<char>) -> Seq<char> {
    if r.spread {
        vis + " "@
    } else {
        match first_named(fields, r.name@) {
            Some(i) => fields[i].prefix@,
            None => seq![],
        }
    }
}

/// A field of an input struct as declared.
pub open spec fn field_text(r: ResolvedInputField, fields: Seq<StructField>, vis: Seq<char>) -> Seq<char> {
    field_prefix(r, fields, vis) + r.struct_name@ + ": "@ + r.ty@
}

/// The names of the input struct's fields.
pub open spec fn struct_names(rs: Seq<ResolvedInputField>) -> Seq<Seq<char>> {
    Seq::new(rs.len(), |i: int| rs[i].struct_name@)
}

/// The types of the input struct's fields.
pub open spec fn field_tys(rs: Seq<ResolvedInputField>) -> Seq<Seq<char>> {
    Seq::new(rs.len(), |i: int| rs[i].ty@)
}

/// The body of an input struct: `;` without fields, else the fields in braces.
pub open spec fn body_text(rs: Seq<ResolvedInputField>, fields: Seq<StructField>, vis: Seq<char>) -> Seq<char> {
    if rs.len() == 0 {
        ";"@
    } else {
        "{ "@ + join(Seq::new(rs.len(), |i: int| field_text(rs[i], fields, vis)), ", "@) + " }"@
    }
}

/// For an input struct without spread fields: applying it to a model, by value and
/// in place, and making it from a model.
pub open spec fn model_methods_text(name: Seq<char>, rs: Seq<ResolvedInputField>) -> Seq<char> {
    "impl "@ + name + " { fn apply(self, model: Model) -> Model { Model { "@
        + concat_all(Seq::new(rs.len(), |i: int| rs[i].name@ + ": self."@ + rs[i].struct_name@ + ", "@))
        + "..model } } fn apply_ref(self, model: &mut Model) { "@
        + concat_all(Seq::new(rs.len(), |i: int| "model."@ + rs[i].name@ + " = self."@ + rs[i].struct_name@ + "; "@))
        + "} } impl From<Model> for "@ + name + " { fn from(model: Model) -> Self { Self { "@
        + join(Seq::new(rs.len(), |i: int| rs[i].struct_name@ + ": model."@ + rs[i].name@), ", "@) + " } } }"@
}

/// For an input struct of one field: making it from a value of that field's type.
pub open spec fn from_one_field_text(name: Seq<char>, r: ResolvedInputField, fields: Seq<StructField>, vis: Seq<char>) -> Seq<char> {
    "impl From<"@ + r.ty@ + "> for "@ + name + " { fn from("@ + field_text(r, fields, vis) + ": "@ + r.ty@
        + ") -> Self { Self { "@ + field_text(r, fields, vis) + " } } }"@
}

/// An input struct: its declaration, its constructor, and the conversions its plan
/// asks for.
pub open spec fn input_text(vis: Seq<char>, fields: Seq<StructField>, p: InputPlan) -> Seq<char> {
    let rs = p.fields@;
    "#[derive(Clone, Debug, PartialEq, Eq, Deserialize, Serialize)] "@ + vis + " struct "@ + p.name@ + " "@
        + body_text(rs, fields, vis) + " "@ + new_impl_text(vis, p.name@, struct_names(rs), field_tys(rs))
        + (if p.model_methods { " "@ + model_methods_text(p.name@, rs) } else { seq![] })
        + (if p.from_one_field && rs.len() == 1 { " "@ + from_one_field_text(p.name@, rs[0], fields, vis) } else { seq![] })
}

/// The names of the model's fields.
pub open spec fn field_names(fields: Seq<StructField>) -> Seq<Seq<char>> {
    Seq::new(fields.len(), |i: int| fields[i].name@)
}

/// The types of the model's fields.
pub open spec fn model_tys(fields: Seq<StructField>) -> Seq<Seq<char>> {
    Seq::new(fields.len(), |i: int| fields[i].ty@)
}

/// Everything the derive emits, for a model of visibility `vis` and fields `fields`:
/// the newtypes, the input structs, and the model's constructor.
pub open spec fn model_text(vis: Seq<char>, fields: Seq<StructField>, plan: GenerationPlan) -> Seq<char> {
    concat_all(Seq::new(plan.newtypes@.len(), |i: int| newtype_text(vis, plan.newtypes@[i]) + " "@))
        + concat_all(Seq::new(plan.inputs@.len(), |i: int| input_text(vis, fields, plan.inputs@[i]) + " "@))
        + new_impl_text(vis, "Model"@, field_names(plan.constructor@), model_tys(plan.constructor@))
}

fn text_of(parts: &[&str]) -> (r: String)
    ensures
        r@ == concat_all(parts@.map_values(|s: &str| s@)),
{
    let mut s = String::new();
    let mut i: usize = 0;
    while i < parts.len()
        invariant
            i <= parts@.len(),
            s@ == concat_all(parts@.take(i as int).map_values(|x: &str| x@)),
        decreases parts@.len() - i,
    {
        let ghost prev = parts@.take(i as int).map_values(|x: &str| x@);
        s.append(parts[i]);
        proof {
            let next = parts@.take(i + 1).map_values(|x: &str| x@);
            assert(next.drop_last() =~= prev);
        }
        i = i + 1;
    }
    assert(parts@.take(parts@.len() as int) =~= parts@);
    s
}

/// An argument of the `nutype` attribute as written.
pub fn nutype_arg(a: &NutypeArg) -> (r: String)
    ensures
        r@ == nutype_arg_text(*a),
{
    match a {
        NutypeArg::ConstFn => "const_fn".to_owned(),
        NutypeArg::Derive(d) => {
            let j = join_strings(d, ", ");
            let mut s = String::new();
            s.append("derive(");
            s.append(j.as_str());
            s.append(")");
            assert(s@ =~= nutype_arg_text(*a));
            s
        },
        NutypeArg::DeriveValueType => "derive_unchecked(sea_orm::entity::prelude::DeriveValueType)".to_owned(),
    }
}

/// A newtype as emitted.
pub fn newtype(vis: &str, p: &NewtypePlan) -> (r: String)
    ensures
        r@ == newtype_text(vis@, *p),
{
    let mut args: Vec<String> = Vec::new();
    let mut i: usize = 0;
    while i < p.args.len()
        invariant
            i <= p.args@.len(),
            args@.len() == i,
            forall|k: int| 0 <= k < i ==> (#[trigger] args@[k])@ == nutype_arg_text(p.args@[k]),
        decreases p.args@.len() - i,
    {
        args.push(nutype_arg(&p.args[i]));
        i = i + 1;
    }
    assert(texts(args@) =~= Seq::new(p.args@.len(), |i: int| nutype_arg_text(p.args@[i])));
    let j = join_strings(&args, ", ");
    let mut s = String::new();
    s.append("#[::nutype::nutype(");
    s.append(j.as_str());
    s.append(")] ");
    s.append(vis);
    s.append(" struct ");
    s.append(p.name.as_str());
    s.append("(");
    s.append(p.inner.as_str());
    s.append(");");
    assert(s@ =~= newtype_text(vis@, *p));
    s
}

/// A constructor `new` as emitted.
pub fn new_impl(vis: &str, ty_name: &str, names: &Vec<String>, tys: &Vec<String>) -> (r: String)
    requires
        names@.len() == tys@.len(),
    ensures
        r@ == new_impl_text(vis@, ty_name@, texts(names@), texts(tys@)),
{
    let mut params: Vec<String> = Vec::new();
    let mut inits: Vec<String> = Vec::new();
    let mut i: usize = 0;
    while i < names.len()
        invariant
            i <= names@.len(),
            names@.len() == tys@.len(),
            params@.len() == i,
            inits@.len() == i,
            forall|k: int| 0 <= k < i ==> (#[trigger] params@[k])@ == names@[k]@ + ": impl ::core::convert::Into<"@ + tys@[k]@ + ">"@,
            forall|k: int| 0 <= k < i ==> (#[trigger] inits@[k])@ == names@[k]@ + ": ::core::convert::Into::into("@ + names@[k]@ + ")"@,
        decreases names@.len() - i,
    {
        let p = text_of(&[names[i].as_str(), ": impl ::core::convert::Into<", tys[i].as_str(), ">"]);
        let q = text_of(&[names[i].as_str(), ": ::core::convert::Into::into(", names[i].as_str(), ")"]);
        proof {
            reveal_with_fuel(concat_all, 5);
        }
        assert(p@ =~= names@[i as int]@ + ": impl ::core::convert::Into<"@ + tys@[i as int]@ + ">"@);
        assert(q@ =~= names@[i as int]@ + ": ::core::convert::Into::into("@ + names@[i as int]@ + ")"@);
        params.push(p);
        inits.push(q);
        i = i + 1;
    }
    let ghost ns = texts(names@);
    let ghost ts = texts(tys@);
    assert(texts(params@) =~= Seq::new(ns.len(), |i: int| ns[i] + ": impl ::core::convert::Into<"@ + ts[i] + ">"@));
    assert(texts(inits@) =~= Seq::new(ns.len(), |i: int| ns[i] + ": ::core::convert::Into::into("@ + ns[i] + ")"@));
    let pj = join_strings(&params, ", ");
    let ij = join_strings(&inits, ", ");
    let mut s = String::new();
    s.append("impl ");
    s.append(ty_name);
    s.append(" { #[allow(clippy::too_many_arguments)] ");
    s.append(vis);
    s.append(" fn new(");
    s.append(pj.as_str());
    s.append(") -> Self { Self { ");
    s.append(ij.as_str());
    s.append(" } } }");
    assert(s@ =~= new_impl_text(vis@, ty_name@, ns, ts));
    s
}

/// What is written before a field of an input struct.
pub fn prefix_of(r: &ResolvedInputField, fields: &Vec<StructField>, vis: &str) -> (out: String)
    ensures
        out@ == field_prefix(*r, fields@, vis@),
{
    if r.spread {
        let s = text_of(&[vis, " "]);
        proof { reveal_with_fuel(concat_all, 3); }
        assert(s@ =~= vis@ + " "@);
        s
    } else {
        match find_named(fields, r.name.as_str()) {
            Some(i) => fields[i].prefix.clone(),
            None => String::new(),
        }
    }
}

/// A field of an input struct as declared.
pub fn field_decl(r: &ResolvedInputField, fields: &Vec<StructField>, vis: &str) -> (out: String)
    ensures
        out@ == field_text(*r, fields@, vis@),
{
    let prefix = prefix_of(r, fields, vis);
    let s = text_of(&[prefix.as_str(), r.struct_name.as_str(), ": ", r.ty.as_str()]);
    proof { reveal_with_fuel(concat_all, 5); }
    assert(s@ =~= field_text(*r, fields@, vis@));
    s
}

fn body(rs: &Vec<ResolvedInputField>, fields: &Vec<StructField>, vis: &str) -> (out: String)
    ensures
        out@ == body_text(rs@, fields@, vis@),
{
    if rs.len() == 0 {
        return ";".to_owned();
    }
    let mut decls: Vec<String> = Vec::new();
    let mut i: usize = 0;
    while i < rs.len()
        invariant
            i <= rs@.len(),
            decls@.len() == i,
            forall|k: int| 0 <= k < i ==> (#[trigger] decls@[k])@ == field_text(rs@[k], fields@, vis@),
        decreases rs@.len() - i,
    {
        decls.push(field_decl(&rs[i], fields, vis));
        i = i + 1;
    }
    assert(texts(decls@) =~= Seq::new(rs@.len(), |i: int| field_text(rs@[i], fields@, vis@)));
    let j = join_strings(&decls, ", ");
    let s = text_of(&["{ ", j.as_str(), " }"]);
    proof { reveal_with_fuel(concat_all, 4); }
    assert(s@ =~= body_text(rs@, fields@, vis@));
    s
}

fn model_methods(name: &str, rs: &Vec<ResolvedInputField>) -> (out: String)
    ensures
        out@ == model_methods_text(name@, rs@),
{
    let mut sets: Vec<String> = Vec::new();
    let mut assigns: Vec<String> = Vec::new();
    let mut reads: Vec<String> = Vec::new();
    let mut i: usize = 0;
    while i < rs.len()
        invariant
            i <= rs@.len(),
            sets@.len() == i,
            assigns@.len() == i,
            reads@.len() == i,
            forall|k: int| 0 <= k < i ==> (#[trigger] sets@[k])@ == rs@[k].name@ + ": self."@ + rs@[k].struct_name@ + ", "@,
            forall|k: int| 0 <= k < i ==> (#[trigger] assigns@[k])@ == "model."@ + rs@[k].name@ + " = self."@ + rs@[k].struct_name@ + "; "@,
            forall|k: int| 0 <= k < i ==> (#[trigger] reads@[k])@ == rs@[k].struct_name@ + ": model."@ + rs@[k].name@,
        decreases rs@.len() - i,
    {
        let r = &rs[i];
        let a = text_of(&[r.name.as_str(), ": self.", r.struct_name.as_str(), ", "]);
        let b = text_of(&["model.", r.name.as_str(), " = self.", r.struct_name.as_str(), "; "]);
        let c = text_of(&[r.struct_name.as_str(), ": model.", r.name.as_str()]);
        proof { reveal_with_fuel(concat_all, 6); }
        assert(a@ =~= r.name@ + ": self."@ + r.struct_name@ + ", "@);
        assert(b@ =~= "model."@ + r.name@ + " = self."@ + r.struct_name@ + "; "@);
        assert(c@ =~= r.struct_name@ + ": model."@ + r.name@);
        sets.push(a);
        assigns.push(b);
        reads.push(c);
        i = i + 1;
    }
    let ghost v = rs@;
    assert(texts(sets@) =~= Seq::new(v.len(), |i: int| v[i].name@ + ": self."@ + v[i].struct_name@ + ", "@));
    assert(texts(assigns@) =~= Seq::new(v.len(), |i: int| "model."@ + v[i].name@ + " = self."@ + v[i].struct_name@ + "; "@));
    assert(texts(reads@) =~= Seq::new(v.len(), |i: int| v[i].struct_name@ + ": model."@ + v[i].name@));
    let s1 = concat_strings(&sets);
    let s2 = concat_strings(&assigns);
    let s3 = join_strings(&reads, ", ");
    let mut s = String::new();
    s.append("impl ");
    s.append(name);
    s.append(" { fn apply(self, model: Model) -> Model { Model { ");
    s.append(s1.as_str());
    s.append("..model } } fn apply_ref(self, model: &mut Model) { ");
    s.append(s2.as_str());
    s.append("} } impl From<Model> for ");
    s.append(name);
    s.append(" { fn from(model: Model) -> Self { Self { ");
    s.append(s3.as_str());
    s.append(" } } }");
    assert(s@ =~= model_methods_text(name@, rs@));
    s
}

fn from_one_field(name: &str, r: &ResolvedInputField, fields: &Vec<StructField>, vis: &str) -> (out: String)
    ensures
        out@ == from_one_field_text(name@, *r, fields@, vis@),
{
    let d = field_decl(r, fields, vis);
    let mut s = String::new();
    s.append("impl From<");
    s.append(r.ty.as_str());
    s.append("> for ");
    s.append(name);
    s.append(" { fn from(");
    s.append(d.as_str());
    s.append(": ");
    s.append(r.ty.as_str());
    s.append(") -> Self { Self { ");
    s.append(d.as_str());
    s.append(" } } }");
    assert(s@ =~= from_one_field_text(name@, *r, fields@, vis@));
    s
}

/// An input struct as emitted.
pub fn input(vis: &str, fields: &Vec<StructField>, p: &InputPlan) -> (out: String)
    ensures
        out@ == input_text(vis@, fields@, *p),
{
    let rs = &p.fields;
    let mut names: Vec<String> = Vec::new();
    let mut tys: Vec<String> = Vec::new();
    let mut i: usize = 0;
    while i < rs.len()
        invariant
            i <= rs@.len(),
            names@.len() == i,
            tys@.len() == i,
            forall|k: int| 0 <= k < i ==> (#[trigger] names@[k])@ == rs@[k].struct_name@,
            forall|k: int| 0 <= k < i ==> (#[trigger] tys@[k])@ == rs@[k].ty@,
        decreases rs@.len() - i,
    {
        names.push(rs[i].struct_name.clone());
        tys.push(rs[i].ty.clone());
        i = i + 1;
    }
    assert(texts(names@) =~= struct_names(rs@));
    assert(texts(tys@) =~= field_tys(rs@));
    let b = body(rs, fields, vis);
    let n = new_impl(vis, p.name.as_str(), &names, &tys);
    let mut s = String::new();
    s.append("#[derive(Clone, Debug, PartialEq, Eq, Deserialize, Serialize)] ");
    s.append(vis);
    s.append(" struct ");
    s.append(p.name.as_str());
    s.append(" ");
    s.append(b.as_str());
    s.append(" ");
    s.append(n.as_str());
    let ghost before_extras = s@;
    if p.model_methods {
        let m = model_methods(p.name.as_str(), rs);
        s.append(" ");
        s.append(m.as_str());
    }
    let ghost after_methods = s@;
    assert(after_methods =~= before_extras + (if p.model_methods { " "@ + model_methods_text(p.name@, rs@) } else { seq![] }));
    if p.from_one_field && rs.len() == 1 {
        let f = from_one_field(p.name.as_str(), &rs[0], fields, vis);
        s.append(" ");
        s.append(f.as_str());
    }
    assert(s@ =~= after_methods + (if p.from_one_field && rs@.len() == 1 { " "@ + from_one_field_text(p.name@, rs@[0], fields@, vis@) } else { seq![] }));
    assert(s@ =~= input_text(vis@, fields@, *p));
    s
}

/// Everything the derive emits for a model of visibility `vis` (as written, empty
/// for a private model) with fields `fields`, following `plan`.
pub fn render_model(vis: &str, fields: &Vec<StructField>, plan: &GenerationPlan) -> (out: String)
    ensures
        out@ == model_text(vis@, fields@, *plan),
{
    let mut news: Vec<String> = Vec::new();
    let mut i: usize = 0;
    while i < plan.newtypes.len()
        invariant
            i <= plan.newtypes@.len(),
            news@.len() == i,
            forall|k: int| 0 <= k < i ==> (#[trigger] news@[k])@ == newtype_text(vis@, plan.newtypes@[k]) + " "@,
        decreases plan.newtypes@.len() - i,
    {
        let t = newtype(vis, &plan.newtypes[i]);
        let t2 = text_of(&[t.as_str(), " "]);
        proof { reveal_with_fuel(concat_all, 3); }
        assert(t2@ =~= t@ + " "@);
        news.push(t2);
        i = i + 1;
    }
    assert(texts(news@) =~= Seq::new(plan.newtypes@.len(), |i: int| newtype_text(vis@, plan.newtypes@[i]) + " "@));
    let mut ins: Vec<String> = Vec::new();
    let mut j: usize = 0;
    while j < plan.inputs.len()
        invariant
            j <= plan.inputs@.len(),
            ins@.len() == j,
            forall|k: int| 0 <= k < j ==> (#[trigger] ins@[k])@ == input_text(vis@, fields@, plan.inputs@[k]) + " "@,
        decreases plan.inputs@.len() - j,
    {
        let t = input(vis, fields, &plan.inputs[j]);
        let t2 = text_of(&[t.as_str(), " "]);
        proof { reveal_with_fuel(concat_all, 3); }
        assert(t2@ =~= t@ + " "@);
        ins.push(t2);
        j = j + 1;
    }
    assert(texts(ins@) =~= Seq::new(plan.inputs@.len(), |i: int| input_text(vis@, fields@, plan.inputs@[i]) + " "@));
    let c = &plan.constructor;
    let mut names: Vec<String> = Vec::new();
    let mut tys: Vec<String> = Vec::new();
    let mut k: usize = 0;
    while k < c.len()
        invariant
            k <= c@.len(),
            names@.len() == k,
            tys@.len() == k,
            forall|q: int| 0 <= q < k ==> (#[trigger] names@[q])@ == c@[q].name@,
            forall|q: int| 0 <= q < k ==> (#[trigger] tys@[q])@ == c@[q].ty@,
        decreases c@.len() - k,
    {
        names.push(c[k].name.clone());
        tys.push(c[k].ty.clone());
        k = k + 1;
    }
    assert(texts(names@) =~= field_names(c@));
    assert(texts(tys@) =~= model_tys(c@));
    let a = concat_strings(&news);
    let b = concat_strings(&ins);
    let n = new_impl(vis, "Model", &names, &tys);
    let mut s = String::new();
    s.append(a.as_str());
    s.append(b.as_str());
    s.append(n.as_str());
    assert(s@ =~= model_text(vis@, fields@, *plan));
    s
}

} // verus!
