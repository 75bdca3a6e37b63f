//! How `#[service]` rewrites a trait: the bounds it adds to the trait and its
//! associated types, and how it wraps each method's return type.
use vstd::prelude::*;

use super::args::{Requires, DEBUG, SEND, STATIC, SYNC};

verus! {

/// The bounds added for the required flags, in order: `Send`, `Sync`,
/// `std::fmt::Debug`, `'static`.
pub open spec fn supertrait_bounds(f: (bool, bool, bool, bool)) -> Seq<Seq<char>> {
    (if f.0 { seq!["Send"@] } else { seq![] })
        + (if f.1 { seq!["Sync"@] } else { seq![] })
        + (if f.2 { seq!["std::fmt::Debug"@] } else { seq![] })
        + (if f.3 { seq!["'static"@] } else { seq![] })
}

/// The views of a list of strings.
pub open spec fn texts(v: Seq<String>) -> Seq<Seq<char>> {
    v.map_values(|s: String| s@)
}

fn push_text(v: &mut Vec<String>, s: &str)
    ensures
        texts(final(v)@) == texts(old(v)@).push(s@),
{
    let ghost before = v@;
    v.push(s.to_owned());
    assert(texts(v@) =~= texts(before).push(s@));
}

/// Appends the bounds of the required flags to `bounds`.
pub fn expand_supertraits(required: Requires, bounds: &mut Vec<String>)
    requires
        required.wf(),
    ensures
        texts(final(bounds)@) == texts(old(bounds)@) + supertrait_bounds(required@),
{
    let ghost start = texts(bounds@);
    if required.contains(Requires::flag(SEND)) {
        push_text(bounds, "Send");
    }
    let ghost a = texts(bounds@);
    if required.contains(Requires::flag(SYNC)) {
        push_text(bounds, "Sync");
    }
    let ghost b = texts(bounds@);
    if required.contains(Requires::flag(DEBUG)) {
        push_text(bounds, "std::fmt::Debug");
    }
    let ghost c = texts(bounds@);
    if required.contains(Requires::flag(STATIC)) {
        push_text(bounds, "'static");
    }
    let ghost f = required@;
    assert(a =~= start + (if f.0 { seq!["Send"@] } else { Seq::<Seq<char>>::empty() }));
    assert(b =~= a + (if f.1 { seq!["Sync"@] } else { Seq::<Seq<char>>::empty() }));
    assert(c =~= b + (if f.2 { seq!["std::fmt::Debug"@] } else { Seq::<Seq<char>>::empty() }));
    assert(texts(bounds@) =~= c + (if f.3 { seq!["'static"@] } else { Seq::<Seq<char>>::empty() }));
    assert(texts(bounds@) =~= start + supertrait_bounds(f));
}

/// The attribute that implements a service for references, boxes and `Arc`s.
pub fn auto_impl_attribute(root: &str) -> (r: String)
    ensures
        r@ == "#["@ + root@ + "::auto_impl::auto_impl(&, Box, Arc)]"@,
{
    let mut s = String::new();
    s.append("#[");
    s.append(root);
    s.append("::auto_impl::auto_impl(&, Box, Arc)]");
    assert(s@ =~= "#["@ + root@ + "::auto_impl::auto_impl(&, Box, Arc)]"@);
    s
}

/// How an attribute is written: a bare path, a list, or `name = value`.
pub enum AttrMeta {
    Path,
    List(String),
    NameValue,
}

/// An attribute of a method: the identifier of its path and how it is written.
pub struct Attr {
    pub ident: String,
    pub meta: AttrMeta,
}

/// The index of the first attribute named `result`.
pub open spec fn first_result_attr(attrs: Seq<Attr>) -> Option<int>
    decreases attrs.len(),
{
    if attrs.len() == 0 {
        None
    } else if attrs[0].ident@ == "result"@ {
        Some(0)
    } else {
        match first_result_attr(attrs.drop_first()) {
            Some(i) => Some(i + 1),
            None => None,
        }
    }
}

proof fn lemma_first_result_attr(attrs: Seq<Attr>)
    ensures
        first_result_attr(attrs) matches Some(i) ==> 0 <= i < attrs.len() && attrs[i].ident@ == "result"@
            && forall|j: int| 0 <= j < i ==> (#[trigger] attrs[j]).ident@ != "result"@,
        first_result_attr(attrs) is None ==> forall|j: int| 0 <= j < attrs.len() ==> (#[trigger] attrs[j]).ident@ != "result"@,
    decreases attrs.len(),
{
    if attrs.len() > 0 {
        lemma_first_result_attr(attrs.drop_first());
        assert forall|j: int| 1 <= j < attrs.len() implies attrs[j] == attrs.drop_first()[j - 1] by {}
    }
}

/// What a `result` attribute asks for: `Some(None)` wraps the return type into a
/// `Result` of the service's error, `Some(Some(e))` into a `Result` of a
/// `ServiceError` with business error `e`.
pub open spec fn result_request(m: AttrMeta) -> Option<Seq<char>> {
    match m {
        AttrMeta::List(tokens) => Some(tokens@),
        _ => None,
    }
}

/// Takes the first `result` attribute out of `attrs`, telling what it asks for;
/// `None`, and `attrs` unchanged, when there is none.
#[verifier::loop_isolation(false)]
pub fn extract_and_remove_result_attr(attrs: &mut Vec<Attr>) -> (r: Option<Option<String>>)
    ensures
        first_result_attr(old(attrs)@) is None ==> r is None && final(attrs)@ == old(attrs)@,
        first_result_attr(old(attrs)@) matches Some(i) ==> {
            &&& final(attrs)@ == old(attrs)@.remove(i)
            &&& r matches Some(x) && match (x, result_request(old(attrs)@[i].meta)) {
                (Some(t), Some(u)) => t@ == u,
                (None, None) => true,
                _ => false,
            }
        },
{
    proof { lemma_first_result_attr(attrs@); }
    let mut i: usize = 0;
    while i < attrs.len()
        invariant
            i <= attrs@.len(),
            attrs@ == old(attrs)@,
            forall|j: int| 0 <= j < i ==> (#[trigger] attrs@[j]).ident@ != "result"@,
        decreases attrs@.len() - i,
    {
        if crate::text::str_eq(attrs[i].ident.as_str(), "result") {
            proof {
                let k = first_result_attr(attrs@);
                if k is None {
                    assert(attrs@[i as int].ident@ != "result"@);
                } else {
                    let k = k->Some_0;
                    if k < i {
                        assert(attrs@[k].ident@ != "result"@);
                    } else if k > i {
                        assert(attrs@[i as int].ident@ != "result"@);
                    }
                }
            }
            let attr = attrs.remove(i);
            return match attr.meta {
                AttrMeta::Path => Some(None),
                AttrMeta::List(tokens) => Some(Some(tokens)),
                AttrMeta::NameValue => Some(None),
            };
        }
        i = i + 1;
    }
    proof {
        if first_result_attr(attrs@) is Some {
            let k = first_result_attr(attrs@)->Some_0;
            assert(attrs@[k].ident@ != "result"@);
        }
    }
    None
}

/// A return type as `#[service]` builds it.
pub enum ReturnType {
    /// The type as written (`()` when none is written).
    Plain(String),
    /// `Result<ok, Self::Error>`, or `Result<ok, ServiceError<business, Self::Error>>`.
    Result { ok: Box<ReturnType>, business: Option<String> },
    /// `impl Future<Output = output> + bounds...`.
    Future { output: Box<ReturnType>, bounds: Vec<String> },
}

/// The bounds of a method's future: of the required flags only `Send`, since
/// `Debug`, `Sync` and `'static` are dropped for futures.
pub open spec fn future_bounds(f: (bool, bool, bool, bool)) -> Seq<Seq<char>> {
    supertrait_bounds((f.0, false, false, false))
}

/// Wraps `output` into an `impl Future` when the method is `async`, and makes the
/// method no longer `async`.
pub fn wrap_ret_with_async_impl(is_async: &mut bool, output: ReturnType, required: Requires) -> (r: ReturnType)
    requires
        required.wf(),
    ensures
        !*old(is_async) ==> r == output,
        *old(is_async) ==> (r matches ReturnType::Future { output: o, bounds: b } && *o == output
            && texts(b@) == future_bounds(required@)),
        !*final(is_async),
{
    if !*is_async {
        return output;
    }
    *is_async = false;
    let mut future_required = required;
    let mut dropped = Requires::flag(DEBUG);
    dropped.insert(Requires::flag(SYNC));
    dropped.insert(Requires::flag(STATIC));
    future_required.remove(dropped);
    let mut bounds: Vec<String> = Vec::new();
    expand_supertraits(future_required, &mut bounds);
    assert(texts(bounds@) =~= future_bounds(required@));
    ReturnType::Future { output: Box::new(output), bounds }
}

/// Wraps `output` into a `Result` when the method has a `result` attribute.
pub fn wrap_ret_with_error(attrs: &mut Vec<Attr>, output: ReturnType) -> (r: ReturnType)
    ensures
        first_result_attr(old(attrs)@) is None ==> r == output && final(attrs)@ == old(attrs)@,
        first_result_attr(old(attrs)@) matches Some(i) ==> {
            &&& final(attrs)@ == old(attrs)@.remove(i)
            &&& r matches ReturnType::Result { ok: o, business: b } && *o == output && match (b, result_request(old(attrs)@[i].meta)) {
                (Some(t), Some(u)) => t@ == u,
                (None, None) => true,
                _ => false,
            }
        },
{
    match extract_and_remove_result_attr(attrs) {
        None => output,
        Some(business) => ReturnType::Result { ok: Box::new(output), business },
    }
}

/// Rewrites a method's return type: the written type (or `()`), wrapped first into
/// a `Result` when asked for, then into a future when the method is `async`.
pub fn process_method(attrs: &mut Vec<Attr>, is_async: &mut bool, written: Option<String>, required: Requires) -> (r: ReturnType)
    requires
        required.wf(),
    ensures
        !*final(is_async),
        first_result_attr(old(attrs)@) is None ==> final(attrs)@ == old(attrs)@,
        first_result_attr(old(attrs)@) matches Some(i) ==> final(attrs)@ == old(attrs)@.remove(i),
        !*old(is_async) && first_result_attr(old(attrs)@) is None ==> (r matches ReturnType::Plain(t)
            && t@ == match written { Some(w) => w@, None => "()"@ }),
        *old(is_async) ==> (r matches ReturnType::Future { output: _, bounds: b } && texts(b@) == future_bounds(required@)),
{
    let base = match written {
        Some(w) => ReturnType::Plain(w),
        None => ReturnType::Plain("()".to_owned()),
    };
    let wrapped = wrap_ret_with_error(attrs, base);
    wrap_ret_with_async_impl(is_async, wrapped, required)
}

/// The bounds added to the `k`-th associated type. Every type loses `'static`
/// from the flags; once a type named `Error` has been seen, `Debug` is dropped for it
/// and for all types after it; `Error` itself also gets `::core::error::Error`
/// and `'static` first.
pub open spec fn assoc_type_bounds(names: Seq<Seq<char>>, f: (bool, bool, bool, bool), k: int) -> Seq<Seq<char>> {
    let error_seen = exists|j: int| 0 <= j <= k && names[j] == "Error"@;
    (if names[k] == "Error"@ { seq!["::core::error::Error"@, "'static"@] } else { seq![] })
        + supertrait_bounds((f.0, f.1, f.2 && !error_seen, false))
}

/// Gives an associated type named `Error` the bounds `::core::error::Error` and
/// `'static`, telling whether it did.
pub fn modify_error_associated_type(ident: &str, bounds: &mut Vec<String>) -> (r: bool)
    ensures
        r == (ident@ == "Error"@),
        r ==> texts(final(bounds)@) == texts(old(bounds)@) + seq!["::core::error::Error"@, "'static"@],
        !r ==> final(bounds)@ == old(bounds)@,
{
    if crate::text::str_eq(ident, "Error") {
        let ghost start = texts(bounds@);
        push_text(bounds, "::core::error::Error");
        push_text(bounds, "'static");
        assert(texts(bounds@) =~= start + seq!["::core::error::Error"@, "'static"@]);
        true
    } else {
        false
    }
}

/// The bounds `#[service]` adds to each associated type, in order, for the required
/// flags.
pub fn modify_associated_type(names: &Vec<String>, required: Requires) -> (r: Vec<Vec<String>>)
    requires
        required.wf(),
    ensures
        r@.len() == names@.len(),
        forall|k: int| 0 <= k < r@.len() ==> texts((#[trigger] r@[k])@) == assoc_type_bounds(texts(names@), required@, k),
{
    let mut current = required;
    let mut out: Vec<Vec<String>> = Vec::new();
    let mut i: usize = 0;
    let ghost f = required@;
    while i < names.len()
        invariant
            i <= names@.len(),
            out@.len() == i,
            current.wf(),
            i > 0 ==> current@ == (f.0, f.1, f.2 && !(exists|j: int| 0 <= j < i && texts(names@)[j] == "Error"@), false),
            i == 0 ==> current@ == f,
            forall|k: int| 0 <= k < i ==> texts((#[trigger] out@[k])@) == assoc_type_bounds(texts(names@), f, k),
        decreases names@.len() - i,
    {
        current.remove(Requires::flag(STATIC));
        let mut bounds: Vec<String> = Vec::new();
        let is_error = modify_error_associated_type(names[i].as_str(), &mut bounds);
        if is_error {
            current.remove(Requires::flag(DEBUG));
        }
        let ghost prefix = texts(bounds@);
        expand_supertraits(current, &mut bounds);
        proof {
            let ns = texts(names@);
            assert(ns[i as int] == names@[i as int]@);
            let seen = exists|j: int| 0 <= j <= i && ns[j] == "Error"@;
            let seen_before = exists|j: int| 0 <= j < i && ns[j] == "Error"@;
            assert(seen == (seen_before || ns[i as int] == "Error"@)) by {
                if seen {
                    let j = choose|j: int| 0 <= j <= i && ns[j] == "Error"@;
                    if j < i { assert(seen_before); }
                }
                if seen_before {
                    let j = choose|j: int| 0 <= j < i && ns[j] == "Error"@;
                    assert(0 <= j <= i && ns[j] == "Error"@);
                }
                if ns[i as int] == "Error"@ {
                    assert(0 <= i <= i && ns[i as int] == "Error"@);
                }
            }
            assert(current@ == (f.0, f.1, f.2 && !seen, false));
            if is_error {
                assert(prefix =~= seq!["::core::error::Error"@, "'static"@]);
            } else {
                assert(prefix =~= Seq::<Seq<char>>::empty());
            }
            assert(texts(bounds@) =~= assoc_type_bounds(ns, f, i as int));
            assert(current@ == (f.0, f.1, f.2 && !(exists|j: int| 0 <= j < i + 1 && ns[j] == "Error"@), false));
        }
        out.push(bounds);
        i = i + 1;
    }
    out
}

/// What `#[service]` does to a trait: it adds the auto-impl attribute, the bounds of
/// each associated type, the required flags as supertraits, and rewrites each
/// method's return type.
pub struct TraitExpansion {
    pub auto_impl: String,
    pub assoc_bounds: Vec<Vec<String>>,
    pub supertraits: Vec<String>,
}

/// Expands a trait whose associated types are named `assoc_names`.
pub fn expand(root: &str, assoc_names: &Vec<String>, required: Requires) -> (r: TraitExpansion)
    requires
        required.wf(),
    ensures
        r.auto_impl@ == "#["@ + root@ + "::auto_impl::auto_impl(&, Box, Arc)]"@,
        r.assoc_bounds@.len() == assoc_names@.len(),
        forall|k: int| 0 <= k < r.assoc_bounds@.len() ==> texts((#[trigger] r.assoc_bounds@[k])@) == assoc_type_bounds(texts(assoc_names@), required@, k),
        texts(r.supertraits@) == supertrait_bounds(required@),
{
    let auto_impl = auto_impl_attribute(root);
    let assoc_bounds = modify_associated_type(assoc_names, required);
    let mut supertraits: Vec<String> = Vec::new();
    expand_supertraits(required, &mut supertraits);
    assert(texts(Seq::<String>::empty()) =~= Seq::<Seq<char>>::empty());
    assert(Seq::<Seq<char>>::empty() + supertrait_bounds(required@) =~= supertrait_bounds(required@));
    TraitExpansion { auto_impl, assoc_bounds, supertraits }
}

} // verus!
