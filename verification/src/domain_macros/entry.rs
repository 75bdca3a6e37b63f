//! The entry of the `Model` derive: where the `domain` crate is, and which inputs
//! it accepts.
use vstd::prelude::*;

use super::args::Args;
use super::generator::{generate, generated, GenerateError, GenerationPlan, StructField};
use super::render::{model_text, render_model};
use super::syntax::{args_view, parse_model_args, sections_from, Token};

verus! {

/// Where `proc_macro_crate` found the `domain` crate.
pub enum FoundCrate {
    /// The derive is used inside `domain` itself.
    Itself,
    /// `domain` is a dependency under this name.
    Name(String),
}

/// The path generated code names the `domain` crate by: `crate` inside it,
/// `::name` when it is a dependency, and `::domain` when it was not found.
pub fn crate_root(found: Option<FoundCrate>) -> (r: String)
    ensures
        found matches Some(FoundCrate::Itself) ==> r@ == "crate"@,
        found matches Some(FoundCrate::Name(n)) ==> r@ == "::"@ + n@,
        found is None ==> r@ == "::domain"@,
{
    match found {
        Some(FoundCrate::Itself) => "crate".to_owned(),
        Some(FoundCrate::Name(n)) => {
            let mut s = String::new();
            s.append("::");
            s.append(n.as_str());
            s
        },
        None => "::domain".to_owned(),
    }
}

/// Plans the derive: the arguments of the `model` attribute (its absence means no
/// arguments, its parse error is the answer), and the struct, which must have
/// named fields (else `only named structs are supported`).
pub fn model(ident: &str, named_fields: Option<Vec<StructField>>, attribute: Option<Result<Args, GenerateError>>) -> (r: Result<GenerationPlan, GenerateError>)
    ensures
        attribute matches Some(Err(e)) ==> r == Err::<GenerationPlan, GenerateError>(e),
        !(attribute matches Some(Err(_))) && named_fields is None
            ==> (r matches Err(e) && e.message@ == "only named structs are supported"@),
        attribute matches Some(Ok(a)) ==> (named_fields matches Some(fs) ==> generated(ident@, fs@, a.newtypes@, a.inputs@, r)),
        attribute is None ==> (named_fields matches Some(fs) ==> generated(ident@, fs@, seq![], seq![], r)),
{
    let args = match attribute {
        Some(Ok(a)) => a,
        Some(Err(e)) => return Err(e),
        None => Args::default_args(),
    };
    match named_fields {
        Some(fields) => generate(ident, &fields, &args),
        None => Err(GenerateError { message: "only named structs are supported".to_owned(), at: ident.to_owned() }),
    }
}

/// The code the derive emits for `fields` and the given newtypes and inputs: the
/// rendering, at visibility `vis`, of the plan `generated` describes, or that
/// plan's error.
pub open spec fn expanded(
    ident: Seq<char>,
    vis: Seq<char>,
    fields: Seq<StructField>,
    newtypes: Seq<super::args::NewType>,
    inputs: Seq<super::args::Input>,
    r: Result<String, GenerateError>,
) -> bool {
    exists|p: Result<GenerationPlan, GenerateError>| {
        &&& generated(ident, fields, newtypes, inputs, p)
        &&& match p {
            Ok(plan) => r matches Ok(code) && code@ == model_text(vis, fields, plan),
            Err(e) => r == Err::<String, GenerateError>(e),
        }
    }
}

/// The derive: the code for a model struct `ident` of visibility `vis` (as
/// written, empty when private), or the error it answers with. The attribute's
/// parse error comes first, then a struct without named fields, then the checks
/// of the plan.
pub fn expand_model(
    ident: &str,
    vis: &str,
    named_fields: Option<Vec<StructField>>,
    attribute: Option<Result<Args, GenerateError>>,
) -> (r: Result<String, GenerateError>)
    ensures
        attribute matches Some(Err(e)) ==> r == Err::<String, GenerateError>(e),
        !(attribute matches Some(Err(_))) && named_fields is None
            ==> (r matches Err(e) && e.message@ == "only named structs are supported"@),
        attribute matches Some(Ok(a)) ==> (named_fields matches Some(fs) ==> expanded(ident@, vis@, fs@, a.newtypes@, a.inputs@, r)),
        attribute is None ==> (named_fields matches Some(fs) ==> expanded(ident@, vis@, fs@, seq![], seq![], r)),
{
    let args = match attribute {
        Some(Ok(a)) => a,
        Some(Err(e)) => return Err(e),
        None => {
            let d = Args::default_args();
            assert(d.newtypes@ =~= seq![]);
            assert(d.inputs@ =~= seq![]);
            d
        },
    };
    match named_fields {
        Some(fields) => {
            let planned = generate(ident, &fields, &args);
            let ghost witness = planned;
            let r = match planned {
                Ok(plan) => Ok(render_model(vis, &fields, &plan)),
                Err(e) => Err(e),
            };
            assert(generated(ident@, fields@, args.newtypes@, args.inputs@, witness));
            r
        },
        None => Err(GenerateError { message: "only named structs are supported".to_owned(), at: ident.to_owned() }),
    }
}

/// The derive from the tokens of its `model` attribute, if the struct has one: the
/// attribute's syntax error comes first, then a struct without named fields, then
/// the checks of the plan; otherwise the code for the arguments the attribute
/// reads as.
pub fn derive_model(
    ident: &str,
    vis: &str,
    named_fields: Option<Vec<StructField>>,
    attribute: Option<Vec<Token>>,
) -> (r: Result<String, GenerateError>)
    ensures
        attribute matches Some(ts) ==> (sections_from(ts@, 0) matches Err(e) ==> (r matches Err(g) && g.message@ == e.0 && g.at@ == e.1)),
        !(attribute matches Some(ts) && sections_from(ts@, 0) is Err) && named_fields is None
            ==> (r matches Err(e) && e.message@ == "only named structs are supported"@),
        attribute matches Some(ts) ==> (sections_from(ts@, 0) matches Ok(v) ==> (named_fields matches Some(fs) ==> exists|a: Args| {
            &&& args_view(a) == (match v.0 { Some(n) => n, None => seq![] }, match v.1 { Some(x) => x, None => seq![] })
            &&& #[trigger] expanded(ident@, vis@, fs@, a.newtypes@, a.inputs@, r)
        })),
        attribute is None ==> (named_fields matches Some(fs) ==> expanded(ident@, vis@, fs@, seq![], seq![], r)),
{
    match attribute {
        Some(ts) => {
            let parsed = parse_model_args(&ts);
            let ghost witness = parsed;
            let r = expand_model(ident, vis, named_fields, Some(parsed));
            proof {
                if let Ok(a) = witness {
                    assert(named_fields matches Some(fs) ==> expanded(ident@, vis@, fs@, a.newtypes@, a.inputs@, r));
                }
            }
            r
        },
        None => expand_model(ident, vis, named_fields, None),
    }
}

} // verus!
