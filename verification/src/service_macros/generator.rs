//! The object-safe companion that `#[service]` generates for a service trait when
//! dynamic dispatch is asked for: a `Dynamic` trait whose associated types are
//! erased into boxes and dynamic errors, an impl of it for every service, and an
//! impl of the service for `dyn Dynamic`.
//!
//! Types and signatures come in as text and tokens read off the trait; the generated
//! items go out as text.
use vstd::prelude::*;

use super::expand::texts;
use crate::text::str_eq;

verus! {

/// The parts joined by `sep`.
pub open spec fn join(parts: Seq<Seq<char>>, sep: Seq<char>) -> Seq<char>
    decreases parts.len(),
{
    if parts.len() == 0 {
        seq![]
    } else if parts.len() == 1 {
        parts[0]
    } else {
        join(parts.drop_last(), sep) + sep + parts.last()
    }
}

/// The parts one after the other.
pub open spec fn concat_all(parts: Seq<Seq<char>>) -> Seq<char>
    decreases parts.len(),
{
    if parts.len() == 0 {
        seq![]
    } else {
        concat_all(parts.drop_last()) + parts.last()
    }
}

/// Joins the strings with `sep` between them.
pub fn join_strings(items: &Vec<String>, sep: &str) -> (r: String)
    ensures
        r@ == join(texts(items@), sep@),
{
    let mut s = String::new();
    let mut i: usize = 0;
    while i < items.len()
        invariant
            i <= items@.len(),
            s@ == join(texts(items@.take(i as int)), sep@),
        decreases items@.len() - i,
    {
        let ghost prev = texts(items@.take(i as int));
        if i > 0 {
            s.append(sep);
        }
        s.append(items[i].as_str());
        proof {
            let next = texts(items@.take(i + 1));
            assert(next.drop_last() =~= prev);
            assert(next.last() == items@[i as int]@);
            if i == 0 {
                assert(s@ =~= next[0]);
            } else {
                assert(s@ =~= join(prev, sep@) + sep@ + next.last());
            }
        }
        i = i + 1;
    }
    assert(items@.take(items@.len() as int) =~= items@);
    s
}

/// The strings one after the other.
pub fn concat_strings(items: &Vec<String>) -> (r: String)
    ensures
        r@ == concat_all(texts(items@)),
{
    let mut s = String::new();
    let mut i: usize = 0;
    while i < items.len()
        invariant
            i <= items@.len(),
            s@ == concat_all(texts(items@.take(i as int))),
        decreases items@.len() - i,
    {
        let ghost prev = texts(items@.take(i as int));
        s.append(items[i].as_str());
        proof {
            let next = texts(items@.take(i + 1));
            assert(next.drop_last() =~= prev);
            assert(next.last() == items@[i as int]@);
            assert(s@ =~= concat_all(prev) + next.last());
        }
        i = i + 1;
    }
    assert(items@.take(items@.len() as int) =~= items@);
    s
}

/// How a value of an erased associated type is boxed.
#[derive(Debug, Clone, Copy, PartialEq, Eq, Structural)]
pub enum Boxing {
    /// `Box::pin`, for streams.
    Pin,
    /// `Box::new`.
    Normal,
}

/// The expression that boxes `x`.
pub open spec fn boxed_text(b: Boxing, x: Seq<char>) -> Seq<char> {
    match b {
        Boxing::Pin => "::std::boxed::Box::pin("@ + x + ") as ::std::pin::Pin<::std::boxed::Box<_>>"@,
        Boxing::Normal => "::std::boxed::Box::new("@ + x + ") as ::std::boxed::Box<_>"@,
    }
}

impl Boxing {
    /// Boxes the expression `x`.
    pub fn into_box(self, x: &str) -> (r: String)
        ensures
            r@ == boxed_text(self, x@),
    {
        let mut s = String::new();
        match self {
            Boxing::Pin => {
                s.append("::std::boxed::Box::pin(");
                s.append(x);
                s.append(") as ::std::pin::Pin<::std::boxed::Box<_>>");
            },
            Boxing::Normal => {
                s.append("::std::boxed::Box::new(");
                s.append(x);
                s.append(") as ::std::boxed::Box<_>");
            },
        }
        assert(s@ =~= boxed_text(self, x@));
        s
    }
}

/// An associated type of the service trait.
pub struct AssocTypeDecl {
    pub ident: String,
    /// The last path segment of each of its trait bounds, in order.
    pub bound_traits: Vec<String>,
    /// Its bounds as written.
    pub bounds: String,
}

/// How an associated type is erased in `Dynamic`.
pub struct ParsedAssocType {
    pub ident: String,
    /// The type that stands for it.
    pub erased_ty: String,
    /// How values of it are boxed, if they are.
    pub into_box: Option<Boxing>,
    /// Whether errors of it are converted with `FromError`.
    pub map_err_into: bool,
    /// The trait alias that carries its bounds, if one is needed.
    pub alias_def: Option<String>,
}

/// Whether one of the names is `n`.
pub open spec fn names_contain(names: Seq<String>, n: Seq<char>) -> bool {
    exists|i: int| 0 <= i < names.len() && (#[trigger] names[i])@ == n
}

/// The dynamic error type that stands for `Error`, by whether it is `Send` and
/// `Sync`.
pub open spec fn error_erasure(root: Seq<char>, send: bool, sync: bool) -> Seq<char> {
    root + match (send, sync) {
        (true, true) => "::error::DynamicSendSyncError"@,
        (true, false) => "::error::DynamicSendError"@,
        (false, true) => "::error::DynamicSyncError"@,
        (false, false) => "::error::DynamicError"@,
    }
}

/// The name of the trait alias of an associated type.
pub open spec fn alias_ident(ident: Seq<char>) -> Seq<char> {
    "__"@ + ident
}

/// The trait alias of an associated type, with a blanket impl.
pub open spec fn alias_def_text(ident: Seq<char>, bounds: Seq<char>) -> Seq<char> {
    "pub trait "@ + alias_ident(ident) + ": "@ + bounds + " {} impl<__T: ?Sized + "@ + bounds + "> "@
        + alias_ident(ident) + " for __T {}"@
}

/// The box that stands for an associated type other than `Error`.
pub open spec fn boxed_dyn_text(ident: Seq<char>, pinned: bool) -> Seq<char> {
    if pinned {
        "::core::pin::Pin<::std::boxed::Box<dyn "@ + alias_ident(ident) + ">>"@
    } else {
        "::std::boxed::Box<dyn "@ + alias_ident(ident) + ">"@
    }
}

/// How `d` is erased: `Error` becomes a dynamic error chosen by its `Send` and
/// `Sync` bounds, converted with `FromError`; every other type becomes a box of a
/// trait alias of its bounds, pinned when one of them is a `Stream`.
pub open spec fn erases_to(d: AssocTypeDecl, root: Seq<char>, p: ParsedAssocType) -> bool {
    &&& p.ident@ == d.ident@
    &&& if d.ident@ == "Error"@ {
        &&& p.map_err_into
        &&& p.into_box is None
        &&& p.alias_def is None
        &&& p.erased_ty@ == error_erasure(root, names_contain(d.bound_traits@, "Send"@), names_contain(d.bound_traits@, "Sync"@))
    } else {
        let pinned = names_contain(d.bound_traits@, "Stream"@);
        &&& !p.map_err_into
        &&& p.into_box == Some(if pinned { Boxing::Pin } else { Boxing::Normal })
        &&& p.alias_def matches Some(a) && a@ == alias_def_text(d.ident@, d.bounds@)
        &&& p.erased_ty@ == boxed_dyn_text(d.ident@, pinned)
    }
}

/// Whether one of the names is `n`.
pub fn any_named(names: &Vec<String>, n: &str) -> (r: bool)
    ensures
        r == names_contain(names@, n@),
{
    let mut i: usize = 0;
    while i < names.len()
        invariant
            i <= names@.len(),
            forall|j: int| 0 <= j < i ==> (#[trigger] names@[j])@ != n@,
        decreases names@.len() - i,
    {
        if str_eq(names[i].as_str(), n) {
            assert(names@[i as int]@ == n@);
            return true;
        }
        i = i + 1;
    }
    false
}

fn copy_str(s: &str) -> (r: String)
    ensures
        r@ == s@,
{
    let mut r = String::new();
    r.append(s);
    assert(r@ =~= s@);
    r
}

/// Erases one associated type.
pub fn parse_assoc_type(d: &AssocTypeDecl, root: &str) -> (r: ParsedAssocType)
    ensures
        erases_to(*d, root@, r),
{
    let ident = copy_str(d.ident.as_str());
    if str_eq(d.ident.as_str(), "Error") {
        let send = any_named(&d.bound_traits, "Send");
        let sync = any_named(&d.bound_traits, "Sync");
        let mut erased_ty = copy_str(root);
        if send && sync {
            erased_ty.append("::error::DynamicSendSyncError");
        } else if send {
            erased_ty.append("::error::DynamicSendError");
        } else if sync {
            erased_ty.append("::error::DynamicSyncError");
        } else {
            erased_ty.append("::error::DynamicError");
        }
        assert(erased_ty@ =~= error_erasure(root@, send, sync));
        ParsedAssocType { ident, erased_ty, into_box: None, map_err_into: true, alias_def: None }
    } else {
        let pinned = any_named(&d.bound_traits, "Stream");
        let mut alias = String::new();
        alias.append("__");
        alias.append(d.ident.as_str());
        assert(alias@ =~= alias_ident(d.ident@));
        let mut def = String::new();
        def.append("pub trait ");
        def.append(alias.as_str());
        def.append(": ");
        def.append(d.bounds.as_str());
        def.append(" {} impl<__T: ?Sized + ");
        def.append(d.bounds.as_str());
        def.append("> ");
        def.append(alias.as_str());
        def.append(" for __T {}");
        assert(def@ =~= alias_def_text(d.ident@, d.bounds@));
        let mut erased_ty = String::new();
        if pinned {
            erased_ty.append("::core::pin::Pin<::std::boxed::Box<dyn ");
            erased_ty.append(alias.as_str());
            erased_ty.append(">>");
        } else {
            erased_ty.append("::std::boxed::Box<dyn ");
            erased_ty.append(alias.as_str());
            erased_ty.append(">");
        }
        assert(erased_ty@ =~= boxed_dyn_text(d.ident@, pinned));
        let into_box = if pinned { Boxing::Pin } else { Boxing::Normal };
        ParsedAssocType { ident, erased_ty, into_box: Some(into_box), map_err_into: false, alias_def: Some(def) }
    }
}

/// Erases every associated type, in the order they are declared.
pub fn parse_assoc_types(decls: &Vec<AssocTypeDecl>, root: &str) -> (r: Vec<ParsedAssocType>)
    ensures
        r@.len() == decls@.len(),
        forall|k: int| 0 <= k < r@.len() ==> erases_to(decls@[k], root@, #[trigger] r@[k]),
{
    let mut out: Vec<ParsedAssocType> = Vec::new();
    let mut i: usize = 0;
    while i < decls.len()
        invariant
            i <= decls@.len(),
            out@.len() == i,
            forall|k: int| 0 <= k < i ==> erases_to(decls@[k], root@, #[trigger] out@[k]),
        decreases decls@.len() - i,
    {
        let p = parse_assoc_type(&decls[i], root);
        out.push(p);
        i = i + 1;
    }
    out
}

/// The erasure that applies to the name `n`: the last one of that name.
pub open spec fn lookup(assocs: Seq<ParsedAssocType>, n: Seq<char>) -> Option<int>
    decreases assocs.len(),
{
    if assocs.len() == 0 {
        None
    } else if assocs.last().ident@ == n {
        Some(assocs.len() - 1)
    } else {
        lookup(assocs.drop_last(), n)
    }
}

proof fn lemma_lookup_bounds(assocs: Seq<ParsedAssocType>, n: Seq<char>)
    ensures
        lookup(assocs, n) matches Some(i) ==> 0 <= i < assocs.len() && assocs[i].ident@ == n,
    decreases assocs.len(),
{
    if assocs.len() > 0 {
        lemma_lookup_bounds(assocs.drop_last(), n);
    }
}

/// Finds the erasure of the associated type named `n`.
pub fn find_assoc(assocs: &Vec<ParsedAssocType>, n: &str) -> (r: Option<usize>)
    ensures
        r matches Some(i) ==> lookup(assocs@, n@) == Some(i as int),
        r is None ==> lookup(assocs@, n@) is None,
{
    let mut i: usize = assocs.len();
    assert(assocs@.take(assocs@.len() as int) =~= assocs@);
    while i > 0
        invariant
            i <= assocs@.len(),
            lookup(assocs@, n@) == lookup(assocs@.take(i as int), n@),
        decreases i,
    {
        let ghost pre = assocs@.take(i as int);
        assert(pre.last() == assocs@[i - 1]);
        assert(pre.drop_last() =~= assocs@.take(i - 1));
        if str_eq(assocs[i - 1].ident.as_str(), n) {
            return Some(i - 1);
        }
        i = i - 1;
    }
    assert(assocs@.take(0) =~= Seq::<ParsedAssocType>::empty());
    None
}

/// A piece of a type as written: text, or a `Self::Name` path.
pub enum TypeToken {
    Text(String),
    SelfAssoc(String),
}

/// The text of a token.
pub open spec fn token_text(t: TypeToken) -> Seq<char> {
    match t {
        TypeToken::Text(s) => s@,
        TypeToken::SelfAssoc(n) => "Self::"@ + n@,
    }
}

/// The text of a token once associated types are erased.
pub open spec fn erased_token_text(t: TypeToken, assocs: Seq<ParsedAssocType>) -> Seq<char> {
    match t {
        TypeToken::Text(s) => s@,
        TypeToken::SelfAssoc(n) => match lookup(assocs, n@) {
            Some(i) => assocs[i].erased_ty@,
            None => "Self::"@ + n@,
        },
    }
}

/// The text of a type.
pub open spec fn tokens_text(ts: Seq<TypeToken>) -> Seq<char>
    decreases ts.len(),
{
    if ts.len() == 0 {
        seq![]
    } else {
        tokens_text(ts.drop_last()) + token_text(ts.last())
    }
}

/// The text of a type with every `Self::Name` of an associated type replaced by
/// its erasure.
pub open spec fn erased_text(ts: Seq<TypeToken>, assocs: Seq<ParsedAssocType>) -> Seq<char>
    decreases ts.len(),
{
    if ts.len() == 0 {
        seq![]
    } else {
        erased_text(ts.drop_last(), assocs) + erased_token_text(ts.last(), assocs)
    }
}

/// What the forwarding call has to do with a method's result.
#[derive(Debug, Clone, Copy, PartialEq, Eq, Structural)]
pub struct TransformMeta {
    /// The return type is a `Result`.
    pub is_result: bool,
    /// The value is boxed this way.
    pub into_box: Option<Boxing>,
    /// The error is converted with `FromError`.
    pub map_err_into: bool,
}

/// The meta after erasing the associated types of `ts`, left to right: each erased
/// type sets whether errors are converted, and each boxed one sets the boxing.
pub open spec fn meta_after(meta: TransformMeta, ts: Seq<TypeToken>, assocs: Seq<ParsedAssocType>) -> TransformMeta
    decreases ts.len(),
{
    if ts.len() == 0 {
        meta
    } else {
        let m = meta_after(meta, ts.drop_last(), assocs);
        match ts.last() {
            TypeToken::SelfAssoc(n) => match lookup(assocs, n@) {
                Some(i) => TransformMeta {
                    is_result: m.is_result,
                    into_box: if assocs[i].into_box is Some { assocs[i].into_box } else { m.into_box },
                    map_err_into: assocs[i].map_err_into,
                },
                None => m,
            },
            TypeToken::Text(_) => m,
        }
    }
}

/// Erases the associated types of a type, giving its text and updating `meta`.
pub fn erase_ret(ts: &Vec<TypeToken>, assocs: &Vec<ParsedAssocType>, meta: &mut TransformMeta) -> (r: String)
    ensures
        r@ == erased_text(ts@, assocs@),
        *final(meta) == meta_after(*old(meta), ts@, assocs@),
{
    let ghost start = *meta;
    let mut s = String::new();
    let mut i: usize = 0;
    while i < ts.len()
        invariant
            i <= ts@.len(),
            s@ == erased_text(ts@.take(i as int), assocs@),
            *meta == meta_after(start, ts@.take(i as int), assocs@),
        decreases ts@.len() - i,
    {
        let ghost pre = ts@.take(i as int);
        let ghost next = ts@.take(i + 1);
        proof {
            assert(next.drop_last() =~= pre);
            assert(next.last() == ts@[i as int]);
            lemma_lookup_bounds(assocs@, match ts@[i as int] { TypeToken::SelfAssoc(n) => n@, TypeToken::Text(t) => t@ });
        }
        match &ts[i] {
            TypeToken::Text(t) => {
                s.append(t.as_str());
            },
            TypeToken::SelfAssoc(n) => {
                match find_assoc(assocs, n.as_str()) {
                    Some(k) => {
                        s.append(assocs[k].erased_ty.as_str());
                        meta.map_err_into = assocs[k].map_err_into;
                        if assocs[k].into_box.is_some() {
                            meta.into_box = assocs[k].into_box;
                        }
                    },
                    None => {
                        s.append("Self::");
                        s.append(n.as_str());
                    },
                }
            },
        }
        assert(s@ =~= erased_text(next, assocs@));
        i = i + 1;
    }
    assert(ts@.take(ts@.len() as int) =~= ts@);
    s
}

/// A type as written: its tokens, and the last segment of its path when it is a
/// path type.
pub struct TypeDesc {
    pub tokens: Vec<TypeToken>,
    pub path_last: Option<String>,
}

/// A `Name = Type` argument of a bound.
pub struct AssocArg {
    pub ident: String,
    pub ty: TypeDesc,
}

/// A trait bound of an `impl Trait` type: the last segment of its path and the
/// `Name = Type` arguments in its angle brackets.
pub struct ImplBound {
    pub trait_last: String,
    pub assoc_args: Vec<AssocArg>,
}

/// A return type as written.
pub enum ReturnDesc {
    /// No return type.
    Default,
    /// `-> ty`; `impl_bounds` holds the trait bounds when `ty` is an `impl Trait`.
    Type { ty: TypeDesc, impl_bounds: Option<Vec<ImplBound>> },
}

/// A typed argument whose pattern is an identifier: the identifier, and the
/// pattern as written (with `mut` or `ref` where it has them).
pub struct MethodArg {
    pub ident: String,
    pub pattern: String,
}

/// A method of the service trait.
pub struct MethodDesc {
    pub ident: String,
    /// The inputs as written, receiver included.
    pub inputs: String,
    /// Whether the first input is a receiver.
    pub has_receiver: bool,
    /// The typed inputs whose pattern is an identifier, in order.
    pub args: Vec<MethodArg>,
    pub is_async: bool,
    pub output: ReturnDesc,
}

/// The index of the first `Output = ..` argument.
pub open spec fn first_output(args: Seq<AssocArg>) -> Option<int>
    decreases args.len(),
{
    if args.len() == 0 {
        None
    } else if args[0].ident@ == "Output"@ {
        Some(0)
    } else {
        match first_output(args.drop_first()) {
            Some(j) => Some(j + 1),
            None => None,
        }
    }
}

/// The first `Future` bound that names its `Output`, and where that argument is.
pub open spec fn future_output(bounds: Seq<ImplBound>) -> Option<(int, int)>
    decreases bounds.len(),
{
    if bounds.len() == 0 {
        None
    } else if bounds[0].trait_last@ == "Future"@ && first_output(bounds[0].assoc_args@) is Some {
        Some((0, first_output(bounds[0].assoc_args@)->Some_0))
    } else {
        match future_output(bounds.drop_first()) {
            Some((i, j)) => Some((i + 1, j)),
            None => None,
        }
    }
}

/// A method is dispatched as `async` when it is `async` or returns
/// `impl Future<Output = T>`; then its return type is `T`.
pub open spec fn sugared(m: MethodDesc) -> (bool, Option<TypeDesc>) {
    match m.output {
        ReturnDesc::Default => (m.is_async, None),
        ReturnDesc::Type { ty, impl_bounds } => {
            if m.is_async {
                (true, Some(ty))
            } else {
                match impl_bounds {
                    Some(bs) => match future_output(bs@) {
                        Some((i, j)) => (true, Some(bs@[i].assoc_args@[j].ty)),
                        None => (false, Some(ty)),
                    },
                    None => (false, Some(ty)),
                }
            }
        },
    }
}

/// The characterisation of `first_output`.
proof fn lemma_first_output(args: Seq<AssocArg>)
    ensures
        first_output(args) matches Some(j) ==> 0 <= j < args.len() && args[j].ident@ == "Output"@
            && forall|k: int| 0 <= k < j ==> (#[trigger] args[k]).ident@ != "Output"@,
        first_output(args) is None ==> forall|k: int| 0 <= k < args.len() ==> (#[trigger] args[k]).ident@ != "Output"@,
    decreases args.len(),
{
    if args.len() > 0 {
        lemma_first_output(args.drop_first());
        assert forall|k: int| 1 <= k < args.len() implies args[k] == args.drop_first()[k - 1] by {}
    }
}

/// A `Future` bound that names its `Output`.
pub open spec fn names_future_output(b: ImplBound) -> bool {
    b.trait_last@ == "Future"@ && first_output(b.assoc_args@) is Some
}

/// The characterisation of `future_output`.
proof fn lemma_future_output(bs: Seq<ImplBound>)
    ensures
        future_output(bs) matches Some((i, j)) ==> 0 <= i < bs.len() && names_future_output(bs[i])
            && first_output(bs[i].assoc_args@) == Some(j)
            && forall|k: int| 0 <= k < i ==> !names_future_output(#[trigger] bs[k]),
        future_output(bs) is None ==> forall|k: int| 0 <= k < bs.len() ==> !names_future_output(#[trigger] bs[k]),
    decreases bs.len(),
{
    if bs.len() > 0 {
        lemma_future_output(bs.drop_first());
        assert forall|k: int| 1 <= k < bs.len() implies bs[k] == bs.drop_first()[k - 1] by {}
    }
}

fn find_output(args: &Vec<AssocArg>) -> (r: Option<usize>)
    ensures
        r matches Some(j) ==> first_output(args@) == Some(j as int) && j < args@.len(),
        r is None ==> first_output(args@) is None,
{
    proof { lemma_first_output(args@); }
    let mut j: usize = 0;
    while j < args.len()
        invariant
            j <= args@.len(),
            forall|k: int| 0 <= k < j ==> (#[trigger] args@[k]).ident@ != "Output"@,
        decreases args@.len() - j,
    {
        if str_eq(args[j].ident.as_str(), "Output") {
            proof {
                lemma_first_output(args@);
                if let Some(f) = first_output(args@) {
                    if f < j { assert(args@[f].ident@ != "Output"@); }
                    if f > j { assert(args@[j as int].ident@ == "Output"@); }
                }
            }
            return Some(j);
        }
        j = j + 1;
    }
    proof { lemma_first_output(args@); }
    None
}

fn find_future_output(bs: &Vec<ImplBound>) -> (r: Option<(usize, usize)>)
    ensures
        r matches Some((i, j)) ==> future_output(bs@) == Some((i as int, j as int)) && i < bs@.len()
            && j < bs@[i as int].assoc_args@.len(),
        r is None ==> future_output(bs@) is None,
{
    proof { lemma_future_output(bs@); }
    let mut i: usize = 0;
    while i < bs.len()
        invariant
            i <= bs@.len(),
            forall|k: int| 0 <= k < i ==> !names_future_output(#[trigger] bs@[k]),
        decreases bs@.len() - i,
    {
        if str_eq(bs[i].trait_last.as_str(), "Future") {
            if let Some(j) = find_output(&bs[i].assoc_args) {
                proof {
                    lemma_future_output(bs@);
                    assert(names_future_output(bs@[i as int]));
                    if let Some((f, _)) = future_output(bs@) {
                        if f < i { assert(!names_future_output(bs@[f])); }
                    }
                }
                return Some((i, j));
            }
        }
        assert(!names_future_output(bs@[i as int]));
        i = i + 1;
    }
    proof { lemma_future_output(bs@); }
    None
}

/// A method as `Dynamic` declares it.
pub struct ParsedMethod {
    /// `erased_` and the method's name.
    pub dyn_ident: String,
    pub is_async: bool,
    /// The erased return type; `None` when the method returns nothing.
    pub ret: Option<String>,
    pub meta: TransformMeta,
}

/// The meta of a return type before its associated types are erased.
pub open spec fn initial_meta(ty: TypeDesc) -> TransformMeta {
    TransformMeta {
        is_result: ty.path_last matches Some(l) && l@ == "Result"@,
        into_box: None,
        map_err_into: false,
    }
}

/// How `Dynamic` declares `m`: renamed, `async` after desugaring, with its return
/// type erased and the meta gathered on the way.
pub open spec fn parses_to(m: MethodDesc, assocs: Seq<ParsedAssocType>, p: ParsedMethod) -> bool {
    let (a, t) = sugared(m);
    &&& p.dyn_ident@ == "erased_"@ + m.ident@
    &&& p.is_async == a
    &&& match t {
        None => p.ret is None && p.meta == TransformMeta { is_result: false, into_box: None, map_err_into: false },
        Some(ty) => {
            &&& p.ret matches Some(r) && r@ == erased_text(ty.tokens@, assocs)
            &&& p.meta == meta_after(initial_meta(ty), ty.tokens@, assocs)
        },
    }
}

fn erase_type(ty: &TypeDesc, assocs: &Vec<ParsedAssocType>) -> (r: (String, TransformMeta))
    ensures
        r.0@ == erased_text(ty.tokens@, assocs@),
        r.1 == meta_after(initial_meta(*ty), ty.tokens@, assocs@),
{
    let is_result = match &ty.path_last {
        Some(l) => str_eq(l.as_str(), "Result"),
        None => false,
    };
    let mut meta = TransformMeta { is_result, into_box: None, map_err_into: false };
    let text = erase_ret(&ty.tokens, assocs, &mut meta);
    (text, meta)
}

/// Declares one method for `Dynamic`.
pub fn parse_method(m: &MethodDesc, assocs: &Vec<ParsedAssocType>) -> (r: ParsedMethod)
    ensures
        parses_to(*m, assocs@, r),
{
    let mut dyn_ident = String::new();
    dyn_ident.append("erased_");
    dyn_ident.append(m.ident.as_str());
    assert(dyn_ident@ =~= "erased_"@ + m.ident@);
    match &m.output {
        ReturnDesc::Default => ParsedMethod {
            dyn_ident,
            is_async: m.is_async,
            ret: None,
            meta: TransformMeta { is_result: false, into_box: None, map_err_into: false },
        },
        ReturnDesc::Type { ty, impl_bounds } => {
            if m.is_async {
                let (text, meta) = erase_type(ty, assocs);
                return ParsedMethod { dyn_ident, is_async: true, ret: Some(text), meta };
            }
            match impl_bounds {
                Some(bs) => match find_future_output(bs) {
                    Some((i, j)) => {
                        let (text, meta) = erase_type(&bs[i].assoc_args[j].ty, assocs);
                        ParsedMethod { dyn_ident, is_async: true, ret: Some(text), meta }
                    },
                    None => {
                        let (text, meta) = erase_type(ty, assocs);
                        ParsedMethod { dyn_ident, is_async: false, ret: Some(text), meta }
                    },
                },
                None => {
                    let (text, meta) = erase_type(ty, assocs);
                    ParsedMethod { dyn_ident, is_async: false, ret: Some(text), meta }
                },
            }
        },
    }
}

/// Declares every method for `Dynamic`, in order.
pub fn parse_methods(methods: &Vec<MethodDesc>, assocs: &Vec<ParsedAssocType>) -> (r: Vec<ParsedMethod>)
    ensures
        r@.len() == methods@.len(),
        forall|k: int| 0 <= k < r@.len() ==> parses_to(methods@[k], assocs@, #[trigger] r@[k]),
{
    let mut out: Vec<ParsedMethod> = Vec::new();
    let mut i: usize = 0;
    while i < methods.len()
        invariant
            i <= methods@.len(),
            out@.len() == i,
            forall|k: int| 0 <= k < i ==> parses_to(methods@[k], assocs@, #[trigger] out@[k]),
        decreases methods@.len() - i,
    {
        let p = parse_method(&methods[i], assocs);
        out.push(p);
        i = i + 1;
    }
    out
}

/// `async ` for an `async` method.
pub open spec fn async_kw(a: bool) -> Seq<char> {
    if a { "async "@ } else { seq![] }
}

/// `.await` after a call of an `async` method.
pub open spec fn await_text(a: bool) -> Seq<char> {
    if a { ".await"@ } else { seq![] }
}

/// `-> T`, or nothing.
pub open spec fn ret_text(r: Option<String>) -> Seq<char> {
    match r {
        Some(t) => "-> "@ + t@,
        None => seq![],
    }
}

/// The return type as the service trait writes it.
pub open spec fn orig_ret_text(o: ReturnDesc) -> Seq<char> {
    match o {
        ReturnDesc::Default => seq![],
        ReturnDesc::Type { ty, impl_bounds: _ } => "-> "@ + tokens_text(ty.tokens@),
    }
}

/// The identifiers of the arguments.
pub open spec fn arg_idents(args: Seq<MethodArg>) -> Seq<Seq<char>> {
    args.map_values(|a: MethodArg| a.ident@)
}

/// The patterns of the arguments.
pub open spec fn arg_patterns(args: Seq<MethodArg>) -> Seq<Seq<char>> {
    args.map_values(|a: MethodArg| a.pattern@)
}

/// A call of `callee`, passing `self` first when there is a receiver.
pub open spec fn call_text(callee: Seq<char>, receiver: bool, args: Seq<Seq<char>>) -> Seq<char> {
    callee + "("@ + (if receiver { "self, "@ } else { seq![] }) + join(args, ", "@) + ")"@
}

/// The declaration of a method in `Dynamic`.
pub open spec fn dyn_sig_text(m: MethodDesc, p: ParsedMethod) -> Seq<char> {
    async_kw(p.is_async) + "fn "@ + p.dyn_ident@ + "("@ + m.inputs@ + ") "@ + ret_text(p.ret) + "; "@
}

/// How a service's method is called from `Dynamic`: the call, awaited when
/// `async`; a `Result` has its value boxed and its error converted as the meta
/// says; any other value is boxed as a whole.
pub open spec fn forward_to_service(service: Seq<char>, root: Seq<char>, m: MethodDesc, p: ParsedMethod) -> Seq<char> {
    let call = call_text(service + "::"@ + m.ident@, m.has_receiver, arg_idents(m.args@)) + await_text(p.is_async);
    if p.meta.is_result {
        let mapped = match p.meta.into_box {
            Some(b) => call + ".map(|x| "@ + boxed_text(b, "x"@) + ")"@,
            None => call,
        };
        if p.meta.map_err_into {
            mapped + ".map_err("@ + root + "::error::FromError::from_error)"@
        } else {
            mapped
        }
    } else {
        match p.meta.into_box {
            Some(b) => boxed_text(b, call),
            None => call,
        }
    }
}

/// A method of the impl of `Dynamic` for every service.
pub open spec fn service_body_item(service: Seq<char>, root: Seq<char>, m: MethodDesc, p: ParsedMethod) -> Seq<char> {
    async_kw(p.is_async) + "fn "@ + p.dyn_ident@ + "("@ + m.inputs@ + ") "@ + ret_text(p.ret) + " { "@
        + forward_to_service(service, root, m, p) + " } "@
}

/// How `dyn Dynamic` calls its erased method: awaited inside an `async move` block
/// when `async`.
pub open spec fn forward_to_dynamic(m: MethodDesc, p: ParsedMethod) -> Seq<char> {
    let call = call_text("Dynamic::"@ + p.dyn_ident@, m.has_receiver, arg_patterns(m.args@)) + await_text(p.is_async);
    if p.is_async {
        "async move { "@ + call + " }"@
    } else {
        call
    }
}

/// A method of the impl of the service for `dyn Dynamic`.
pub open spec fn dynamic_method_item(m: MethodDesc, p: ParsedMethod) -> Seq<char> {
    "fn "@ + m.ident@ + "("@ + m.inputs@ + ") "@ + orig_ret_text(m.output) + " { "@ + forward_to_dynamic(m, p) + " } "@
}

fn copy_idents(args: &Vec<MethodArg>, patterns: bool) -> (r: Vec<String>)
    ensures
        texts(r@) == if patterns { arg_patterns(args@) } else { arg_idents(args@) },
{
    let mut out: Vec<String> = Vec::new();
    let mut i: usize = 0;
    while i < args.len()
        invariant
            i <= args@.len(),
            out@.len() == i,
            forall|k: int| 0 <= k < i ==> (#[trigger] out@[k])@ == if patterns { args@[k].pattern@ } else { args@[k].ident@ },
        decreases args@.len() - i,
    {
        let t = if patterns { copy_str(args[i].pattern.as_str()) } else { copy_str(args[i].ident.as_str()) };
        out.push(t);
        i = i + 1;
    }
    if patterns {
        assert(texts(out@) =~= arg_patterns(args@));
    } else {
        assert(texts(out@) =~= arg_idents(args@));
    }
    out
}

fn call(callee: &str, receiver: bool, args: &Vec<String>, is_async: bool) -> (r: String)
    ensures
        r@ == call_text(callee@, receiver, texts(args@)) + await_text(is_async),
{
    let joined = join_strings(args, ", ");
    let mut s = copy_str(callee);
    s.append("(");
    if receiver {
        s.append("self, ");
    }
    s.append(joined.as_str());
    s.append(")");
    if is_async {
        s.append(".await");
    }
    assert(s@ =~= call_text(callee@, receiver, texts(args@)) + await_text(is_async));
    s
}

fn push_ret(s: &mut String, r: &Option<String>)
    ensures
        final(s)@ == old(s)@ + ret_text(*r),
{
    let ghost start = s@;
    if let Some(t) = r {
        s.append("-> ");
        s.append(t.as_str());
    }
    assert(s@ =~= start + ret_text(*r));
}

/// Declares a method in `Dynamic`.
pub fn dyn_sig(m: &MethodDesc, p: &ParsedMethod) -> (r: String)
    ensures
        r@ == dyn_sig_text(*m, *p),
{
    let mut s = String::new();
    if p.is_async {
        s.append("async ");
    }
    s.append("fn ");
    s.append(p.dyn_ident.as_str());
    s.append("(");
    s.append(m.inputs.as_str());
    s.append(") ");
    push_ret(&mut s, &p.ret);
    s.append("; ");
    assert(s@ =~= dyn_sig_text(*m, *p));
    s
}

/// The body of a method of the impl of `Dynamic` for every service.
pub fn forward_to_service_expr(service: &str, root: &str, m: &MethodDesc, p: &ParsedMethod) -> (r: String)
    ensures
        r@ == forward_to_service(service@, root@, *m, *p),
{
    let mut callee = copy_str(service);
    callee.append("::");
    callee.append(m.ident.as_str());
    let args = copy_idents(&m.args, false);
    let c = call(callee.as_str(), m.has_receiver, &args, p.is_async);
    assert(callee@ =~= service@ + "::"@ + m.ident@);
    if p.meta.is_result {
        let mut mapped = c;
        if let Some(b) = p.meta.into_box {
            let boxed = b.into_box("x");
            mapped.append(".map(|x| ");
            mapped.append(boxed.as_str());
            mapped.append(")");
        }
        let ghost after_map = mapped@;
        if p.meta.map_err_into {
            mapped.append(".map_err(");
            mapped.append(root);
            mapped.append("::error::FromError::from_error)");
        }
        assert(mapped@ =~= forward_to_service(service@, root@, *m, *p));
        mapped
    } else {
        match p.meta.into_box {
            Some(b) => b.into_box(c.as_str()),
            None => c,
        }
    }
}

/// The erasure of `Error`: its dynamic error is named after exactly the bounds it
/// keeps, `root::error::Dynamic`, then `Send` if `Error` is bounded by `Send`, then
/// `Sync` if it is bounded by `Sync`, then `Error`. So the four combinations of the
/// two bounds give four distinct types, and an error that is both `Send` and `Sync`
/// stays both.
pub proof fn lemma_error_erasure_keeps_bounds(d: AssocTypeDecl, root: Seq<char>, p: ParsedAssocType)
    requires
        erases_to(d, root, p),
        d.ident@ == "Error"@,
    ensures
        p.erased_ty@ == root + "::error::Dynamic"@
            + (if names_contain(d.bound_traits@, "Send"@) { "Send"@ } else { seq![] })
            + (if names_contain(d.bound_traits@, "Sync"@) { "Sync"@ } else { seq![] })
            + "Error"@,
{
    reveal_strlit("::error::Dynamic");
    reveal_strlit("Send");
    reveal_strlit("Sync");
    reveal_strlit("Error");
    reveal_strlit("::error::DynamicSendSyncError");
    reveal_strlit("::error::DynamicSendError");
    reveal_strlit("::error::DynamicSyncError");
    reveal_strlit("::error::DynamicError");
    let send = names_contain(d.bound_traits@, "Send"@);
    let sync = names_contain(d.bound_traits@, "Sync"@);
    assert("::error::DynamicSendSyncError"@ =~= "::error::Dynamic"@ + "Send"@ + "Sync"@ + "Error"@);
    assert("::error::DynamicSendError"@ =~= "::error::Dynamic"@ + "Send"@ + seq![] + "Error"@);
    assert("::error::DynamicSyncError"@ =~= "::error::Dynamic"@ + seq![] + "Sync"@ + "Error"@);
    assert("::error::DynamicError"@ =~= "::error::Dynamic"@ + seq![] + seq![] + "Error"@);
    assert(p.erased_ty@ =~= root + "::error::Dynamic"@ + (if send { "Send"@ } else { seq![] })
        + (if sync { "Sync"@ } else { seq![] }) + "Error"@);
}

/// The body `Dynamic` forwards a method to, for a method whose return is not a
/// `Result`: when an associated type in the return is erased to a box, the call's
/// value is put in that box (`Box::new`, or `Box::pin` for a stream), so the body
/// has the erased return type; otherwise the body is the call itself.
pub proof fn lemma_forwarded_value_is_boxed(service: Seq<char>, root: Seq<char>, m: MethodDesc, p: ParsedMethod)
    requires
        !p.meta.is_result,
    ensures
        ({
            let c = call_text(service + "::"@ + m.ident@, m.has_receiver, arg_idents(m.args@)) + await_text(p.is_async);
            &&& p.meta.into_box == Some(Boxing::Normal) ==> forward_to_service(service, root, m, p)
                == "::std::boxed::Box::new("@ + c + ") as ::std::boxed::Box<_>"@
            &&& p.meta.into_box == Some(Boxing::Pin) ==> forward_to_service(service, root, m, p)
                == "::std::boxed::Box::pin("@ + c + ") as ::std::pin::Pin<::std::boxed::Box<_>>"@
            &&& p.meta.into_box is None ==> forward_to_service(service, root, m, p) == c
        }),
{
}

/// The body `Dynamic` forwards a method to, for a method that returns a `Result`:
/// the call, then the `Ok` value put in the box its erased type asks for (if any),
/// then the error converted with `FromError` when the erased error is dynamic.
pub proof fn lemma_forwarded_result(service: Seq<char>, root: Seq<char>, m: MethodDesc, p: ParsedMethod)
    requires
        p.meta.is_result,
    ensures
        ({
            let c = call_text(service + "::"@ + m.ident@, m.has_receiver, arg_idents(m.args@)) + await_text(p.is_async);
            let mapped = match p.meta.into_box {
                Some(Boxing::Normal) => c + ".map(|x| ::std::boxed::Box::new(x) as ::std::boxed::Box<_>)"@,
                Some(Boxing::Pin) => c + ".map(|x| ::std::boxed::Box::pin(x) as ::std::pin::Pin<::std::boxed::Box<_>>)"@,
                None => c,
            };
            forward_to_service(service, root, m, p) == if p.meta.map_err_into {
                mapped + ".map_err("@ + root + "::error::FromError::from_error)"@
            } else {
                mapped
            }
        }),
{
    reveal_strlit(".map(|x| ");
    reveal_strlit(")");
    reveal_strlit("x");
    reveal_strlit("::std::boxed::Box::new(");
    reveal_strlit(") as ::std::boxed::Box<_>");
    reveal_strlit("::std::boxed::Box::pin(");
    reveal_strlit(") as ::std::pin::Pin<::std::boxed::Box<_>>");
    reveal_strlit(".map(|x| ::std::boxed::Box::new(x) as ::std::boxed::Box<_>)");
    reveal_strlit(".map(|x| ::std::boxed::Box::pin(x) as ::std::pin::Pin<::std::boxed::Box<_>>)");
    let c = call_text(service + "::"@ + m.ident@, m.has_receiver, arg_idents(m.args@)) + await_text(p.is_async);
    assert(c + ".map(|x| "@ + boxed_text(Boxing::Normal, "x"@) + ")"@
        =~= c + ".map(|x| ::std::boxed::Box::new(x) as ::std::boxed::Box<_>)"@);
    assert(c + ".map(|x| "@ + boxed_text(Boxing::Pin, "x"@) + ")"@
        =~= c + ".map(|x| ::std::boxed::Box::pin(x) as ::std::pin::Pin<::std::boxed::Box<_>>)"@);
}

/// Where the boxing of a return comes from: an associated type other than `Error`
/// is always boxed, with `Box::pin` exactly when one of its bounds is a `Stream`
/// and its erasure is a pinned box, and with `Box::new` exactly when its erasure is
/// a plain box; its errors are not converted. `Error` is never boxed, and its
/// errors are converted.
pub proof fn lemma_boxing_matches_erasure(d: AssocTypeDecl, root: Seq<char>, p: ParsedAssocType)
    requires
        erases_to(d, root, p),
    ensures
        p.ident@ == d.ident@,
        d.ident@ == "Error"@ ==> p.into_box is None && p.map_err_into && p.alias_def is None,
        d.ident@ != "Error"@ ==> p.into_box is Some && !p.map_err_into,
        d.ident@ != "Error"@ ==> (p.into_box == Some(Boxing::Pin)
            <==> exists|i: int| 0 <= i < d.bound_traits@.len() && (#[trigger] d.bound_traits@[i])@ == "Stream"@),
        d.ident@ != "Error"@ ==> (p.into_box == Some(Boxing::Pin) <==> p.erased_ty@ == "::core::pin::Pin<::std::boxed::Box<dyn __"@ + d.ident@ + ">>"@),
        d.ident@ != "Error"@ ==> (p.into_box == Some(Boxing::Normal) <==> p.erased_ty@ == "::std::boxed::Box<dyn __"@ + d.ident@ + ">"@),
{
    reveal_strlit("::core::pin::Pin<::std::boxed::Box<dyn ");
    reveal_strlit("::core::pin::Pin<::std::boxed::Box<dyn __");
    reveal_strlit("::std::boxed::Box<dyn ");
    reveal_strlit("::std::boxed::Box<dyn __");
    reveal_strlit("__");
    reveal_strlit(">>");
    reveal_strlit(">");
    if d.ident@ != "Error"@ {
        let pinned = names_contain(d.bound_traits@, "Stream"@);
        let a = "::core::pin::Pin<::std::boxed::Box<dyn __"@ + d.ident@ + ">>"@;
        let b = "::std::boxed::Box<dyn __"@ + d.ident@ + ">"@;
        assert("::core::pin::Pin<::std::boxed::Box<dyn "@ + alias_ident(d.ident@) + ">>"@ =~= a);
        assert("::std::boxed::Box<dyn "@ + alias_ident(d.ident@) + ">"@ =~= b);
        assert(a[2] == "::core::pin::Pin<::std::boxed::Box<dyn __"@[2]);
        assert(b[2] == "::std::boxed::Box<dyn __"@[2]);
        assert(a[2] != b[2]);
    }
}

/// A method of the impl of `Dynamic` for every service.
pub fn service_body(service: &str, root: &str, m: &MethodDesc, p: &ParsedMethod) -> (r: String)
    ensures
        r@ == service_body_item(service@, root@, *m, *p),
{
    let body = forward_to_service_expr(service, root, m, p);
    let mut s = String::new();
    if p.is_async {
        s.append("async ");
    }
    s.append("fn ");
    s.append(p.dyn_ident.as_str());
    s.append("(");
    s.append(m.inputs.as_str());
    s.append(") ");
    push_ret(&mut s, &p.ret);
    s.append(" { ");
    s.append(body.as_str());
    s.append(" } ");
    assert(s@ =~= service_body_item(service@, root@, *m, *p));
    s
}

/// A method of the impl of the service for `dyn Dynamic`.
pub fn dynamic_method(m: &MethodDesc, p: &ParsedMethod) -> (r: String)
    ensures
        r@ == dynamic_method_item(*m, *p),
{
    let mut callee = String::new();
    callee.append("Dynamic::");
    callee.append(p.dyn_ident.as_str());
    assert(callee@ =~= "Dynamic::"@ + p.dyn_ident@);
    let args = copy_idents(&m.args, true);
    let c = call(callee.as_str(), m.has_receiver, &args, p.is_async);
    let mut s = String::new();
    s.append("fn ");
    s.append(m.ident.as_str());
    s.append("(");
    s.append(m.inputs.as_str());
    s.append(") ");
    let ghost before_ret = s@;
    match &m.output {
        ReturnDesc::Default => {},
        ReturnDesc::Type { ty, impl_bounds: _ } => {
            s.append("-> ");
            let t = tokens_string(&ty.tokens);
            s.append(t.as_str());
        },
    }
    assert(s@ =~= before_ret + orig_ret_text(m.output));
    s.append(" { ");
    if p.is_async {
        s.append("async move { ");
        s.append(c.as_str());
        s.append(" }");
    } else {
        s.append(c.as_str());
    }
    s.append(" } ");
    assert(s@ =~= dynamic_method_item(*m, *p));
    s
}

/// The text of a type.
pub fn tokens_string(ts: &Vec<TypeToken>) -> (r: String)
    ensures
        r@ == tokens_text(ts@),
{
    let mut s = String::new();
    let mut i: usize = 0;
    while i < ts.len()
        invariant
            i <= ts@.len(),
            s@ == tokens_text(ts@.take(i as int)),
        decreases ts@.len() - i,
    {
        let ghost next = ts@.take(i + 1);
        assert(next.drop_last() =~= ts@.take(i as int));
        match &ts[i] {
            TypeToken::Text(t) => s.append(t.as_str()),
            TypeToken::SelfAssoc(n) => {
                s.append("Self::");
                s.append(n.as_str());
            },
        }
        assert(s@ =~= tokens_text(next));
        i = i + 1;
    }
    assert(ts@.take(ts@.len() as int) =~= ts@);
    s
}

/// The generics of the service trait.
pub struct GenericsDesc {
    /// The parameters as an impl header writes them.
    pub params: Vec<String>,
    /// The identifiers of the type parameters.
    pub type_params: Vec<String>,
    /// The arguments after the trait's name (`<T>`), empty when there are none.
    pub ty_generics: String,
    /// The predicates of the where clause.
    pub predicates: Vec<String>,
}

/// The service trait as `#[service]` has expanded it.
pub struct TraitDesc {
    pub ident: String,
    /// Its visibility as written.
    pub vis: String,
    pub generics: GenericsDesc,
    /// Its supertraits as written, empty when it has none.
    pub supertraits: String,
    pub assoc_types: Vec<AssocTypeDecl>,
    pub methods: Vec<MethodDesc>,
}

/// `<params>`, or nothing.
pub open spec fn impl_generics_text(params: Seq<Seq<char>>) -> Seq<char> {
    if params.len() == 0 { seq![] } else { "<"@ + join(params, ", "@) + ">"@ }
}

/// `where preds`, or nothing.
pub open spec fn where_text(preds: Seq<Seq<char>>) -> Seq<char> {
    if preds.len() == 0 { seq![] } else { "where "@ + join(preds, ", "@) }
}

/// Whether some method is dispatched as `async`.
pub open spec fn any_async(ps: Seq<ParsedMethod>) -> bool {
    exists|i: int| 0 <= i < ps.len() && (#[trigger] ps[i]).is_async
}

/// The `async_trait` attribute, needed when some method is `async`.
pub open spec fn async_attr_text(root: Seq<char>, any: bool) -> Seq<char> {
    if any { "#["@ + root + "::async_trait::async_trait] "@ } else { seq![] }
}

/// The header of `Dynamic`: the service's generics, supertraits and where clause.
pub open spec fn header_text(t: TraitDesc, root: Seq<char>, ps: Seq<ParsedMethod>) -> Seq<char> {
    async_attr_text(root, any_async(ps)) + "pub trait Dynamic"@ + t.generics.ty_generics@
        + (if t.supertraits@.len() == 0 { seq![] } else { ": "@ + t.supertraits@ }) + " "@
        + where_text(texts(t.generics.predicates@))
}

/// A check that `Dynamic` is object safe.
pub open spec fn tests_text(t: TraitDesc) -> Seq<char> {
    "mod tests { use super::*; fn check_dyn_compat"@ + impl_generics_text(texts(t.generics.params@))
        + "() { let _is_dyn_compat: Option<&dyn Dynamic"@ + t.generics.ty_generics@ + "> = None; } }"@
}

/// The trait `Dynamic` and its object-safety check.
pub open spec fn dyn_trait_text(t: TraitDesc, root: Seq<char>, ps: Seq<ParsedMethod>) -> Seq<char> {
    header_text(t, root, ps) + " { "@
        + concat_all(Seq::new(ps.len(), |k: int| dyn_sig_text(t.methods@[k], ps[k]))) + "} "@ + tests_text(t)
}

/// The predicates the impl of `Dynamic` for every service adds: the service
/// implements the trait, and each associated type is `'static`.
pub open spec fn service_preds(t: TraitDesc) -> Seq<Seq<char>> {
    seq!["__Service: "@ + t.ident@ + t.generics.ty_generics@] + Seq::new(
        t.assoc_types@.len(),
        |k: int| "<__Service as "@ + t.ident@ + t.generics.ty_generics@ + ">::"@ + t.assoc_types@[k].ident@ + ": 'static"@,
    )
}

/// The impl of `Dynamic` for every service.
pub open spec fn impl_dynamic_text(t: TraitDesc, root: Seq<char>, ps: Seq<ParsedMethod>) -> Seq<char> {
    async_attr_text(root, any_async(ps)) + "impl"@ + impl_generics_text(texts(t.generics.params@).push("__Service"@))
        + " Dynamic"@ + t.generics.ty_generics@ + " for __Service "@
        + where_text(texts(t.generics.predicates@) + service_preds(t)) + " { "@
        + concat_all(Seq::new(ps.len(), |k: int| service_body_item(t.ident@, root, t.methods@[k], ps[k]))) + "}"@
}

/// The predicates the impl of the service for `dyn Dynamic` adds: every type
/// parameter is `'static`.
pub open spec fn static_preds(type_params: Seq<String>) -> Seq<Seq<char>> {
    Seq::new(type_params.len(), |k: int| type_params[k]@ + ": 'static"@)
}

/// The associated type `d` of the impl for `dyn Dynamic`: its erasure.
pub open spec fn assoc_item_text(d: AssocTypeDecl, assocs: Seq<ParsedAssocType>) -> Seq<char> {
    match lookup(assocs, d.ident@) {
        Some(i) => "type "@ + d.ident@ + " = "@ + assocs[i].erased_ty@ + "; "@,
        None => seq![],
    }
}

/// The impl of the service for `dyn Dynamic`.
pub open spec fn impl_service_text(t: TraitDesc, assocs: Seq<ParsedAssocType>, ps: Seq<ParsedMethod>) -> Seq<char> {
    "impl"@ + impl_generics_text(texts(t.generics.params@)) + " "@ + t.ident@ + t.generics.ty_generics@
        + " for dyn Dynamic"@ + t.generics.ty_generics@ + " "@
        + where_text(texts(t.generics.predicates@) + static_preds(t.generics.type_params@)) + " { "@
        + concat_all(Seq::new(t.assoc_types@.len(), |k: int| assoc_item_text(t.assoc_types@[k], assocs)))
        + concat_all(Seq::new(ps.len(), |k: int| dynamic_method_item(t.methods@[k], ps[k]))) + "}"@
}

/// The trait aliases of the erased types, each followed by a space.
pub open spec fn aliases_text(assocs: Seq<ParsedAssocType>) -> Seq<char> {
    concat_all(Seq::new(assocs.len(), |k: int| match assocs[k].alias_def {
        Some(a) => a@ + " "@,
        None => seq![],
    }))
}

/// The module that holds everything, named after the trait.
pub open spec fn module_ident(t: TraitDesc) -> Seq<char> {
    "__dyn_"@ + t.ident@
}

/// All that is generated: the module, and the re-export of `Dynamic` as
/// `Dyn` and the trait's name.
pub open spec fn dyn_module_text(t: TraitDesc, root: Seq<char>, assocs: Seq<ParsedAssocType>, ps: Seq<ParsedMethod>) -> Seq<char> {
    "#[doc(hidden)] #[allow(non_snake_case, reason = \"we keep original structure name which is probably CamelCase\")] mod "@
        + module_ident(t) + " { use super::*; "@ + aliases_text(assocs) + dyn_trait_text(t, root, ps) + " "@
        + impl_dynamic_text(t, root, ps) + " "@ + impl_service_text(t, assocs, ps) + " } "@ + t.vis@ + " use "@
        + module_ident(t) + "::Dynamic as Dyn"@ + t.ident@ + ";"@
}

/// What is generated for a trait with dynamic dispatch: the erasures, the methods
/// as `Dynamic` declares them, and the code.
pub struct DynExpansion {
    pub assoc_types: Vec<ParsedAssocType>,
    pub methods: Vec<ParsedMethod>,
    pub code: String,
}

fn copy_all(v: &Vec<String>) -> (r: Vec<String>)
    ensures
        texts(r@) == texts(v@),
{
    let mut out: Vec<String> = Vec::new();
    let mut i: usize = 0;
    while i < v.len()
        invariant
            i <= v@.len(),
            out@.len() == i,
            forall|k: int| 0 <= k < i ==> (#[trigger] out@[k])@ == v@[k]@,
        decreases v@.len() - i,
    {
        out.push(copy_str(v[i].as_str()));
        i = i + 1;
    }
    assert(texts(out@) =~= texts(v@));
    out
}

fn push_string(v: &mut Vec<String>, s: String)
    ensures
        texts(final(v)@) == texts(old(v)@).push(s@),
{
    let ghost before = v@;
    v.push(s);
    assert(texts(v@) =~= texts(before).push(s@));
}

fn impl_generics_string(params: &Vec<String>) -> (r: String)
    ensures
        r@ == impl_generics_text(texts(params@)),
{
    if params.len() == 0 {
        return String::new();
    }
    let mut s = String::new();
    s.append("<");
    let j = join_strings(params, ", ");
    s.append(j.as_str());
    s.append(">");
    assert(s@ =~= impl_generics_text(texts(params@)));
    s
}

fn where_string(preds: &Vec<String>) -> (r: String)
    ensures
        r@ == where_text(texts(preds@)),
{
    if preds.len() == 0 {
        return String::new();
    }
    let mut s = String::new();
    s.append("where ");
    let j = join_strings(preds, ", ");
    s.append(j.as_str());
    assert(s@ =~= where_text(texts(preds@)));
    s
}

fn async_attr(root: &str, ps: &Vec<ParsedMethod>) -> (r: String)
    ensures
        r@ == async_attr_text(root@, any_async(ps@)),
{
    let mut any = false;
    let mut i: usize = 0;
    while i < ps.len()
        invariant
            i <= ps@.len(),
            any == exists|k: int| 0 <= k < i && (#[trigger] ps@[k]).is_async,
        decreases ps@.len() - i,
    {
        if ps[i].is_async {
            any = true;
        }
        proof {
            if ps@[i as int].is_async {
                assert(0 <= i < i + 1 && ps@[i as int].is_async);
            }
        }
        i = i + 1;
    }
    let mut s = String::new();
    if any {
        s.append("#[");
        s.append(root);
        s.append("::async_trait::async_trait] ");
    }
    assert(s@ =~= async_attr_text(root@, any_async(ps@)));
    s
}

/// The trait `Dynamic` and its object-safety check.
pub fn gen_dyn_trait(t: &TraitDesc, root: &str, ps: &Vec<ParsedMethod>) -> (r: String)
    requires
        ps@.len() == t.methods@.len(),
    ensures
        r@ == dyn_trait_text(*t, root@, ps@),
{
    let mut sigs: Vec<String> = Vec::new();
    let mut i: usize = 0;
    while i < ps.len()
        invariant
            i <= ps@.len(),
            ps@.len() == t.methods@.len(),
            sigs@.len() == i,
            forall|k: int| 0 <= k < i ==> (#[trigger] sigs@[k])@ == dyn_sig_text(t.methods@[k], ps@[k]),
        decreases ps@.len() - i,
    {
        sigs.push(dyn_sig(&t.methods[i], &ps[i]));
        i = i + 1;
    }
    assert(texts(sigs@) =~= Seq::new(ps@.len(), |k: int| dyn_sig_text(t.methods@[k], ps@[k])));
    let body = concat_strings(&sigs);
    let attr = async_attr(root, ps);
    let wh = where_string(&t.generics.predicates);
    let ig = impl_generics_string(&t.generics.params);
    let mut s = attr;
    s.append("pub trait Dynamic");
    s.append(t.generics.ty_generics.as_str());
    if t.supertraits.unicode_len() != 0 {
        s.append(": ");
        s.append(t.supertraits.as_str());
    }
    s.append(" ");
    s.append(wh.as_str());
    assert(s@ =~= header_text(*t, root@, ps@));
    s.append(" { ");
    s.append(body.as_str());
    s.append("} ");
    s.append("mod tests { use super::*; fn check_dyn_compat");
    s.append(ig.as_str());
    s.append("() { let _is_dyn_compat: Option<&dyn Dynamic");
    s.append(t.generics.ty_generics.as_str());
    s.append("> = None; } }");
    assert(s@ =~= dyn_trait_text(*t, root@, ps@));
    s
}

/// The impl of `Dynamic` for every service.
pub fn gen_impl_dynamic_for_service(t: &TraitDesc, root: &str, ps: &Vec<ParsedMethod>) -> (r: String)
    requires
        ps@.len() == t.methods@.len(),
    ensures
        r@ == impl_dynamic_text(*t, root@, ps@),
{
    let mut params = copy_all(&t.generics.params);
    push_string(&mut params, copy_str("__Service"));
    let mut preds = copy_all(&t.generics.predicates);
    let mut first = copy_str("__Service: ");
    first.append(t.ident.as_str());
    first.append(t.generics.ty_generics.as_str());
    push_string(&mut preds, first);
    let ghost base = texts(t.generics.predicates@);
    let mut i: usize = 0;
    while i < t.assoc_types.len()
        invariant
            i <= t.assoc_types@.len(),
            texts(preds@) == base + service_preds(*t).take(i + 1),
        decreases t.assoc_types@.len() - i,
    {
        let mut p = copy_str("<__Service as ");
        p.append(t.ident.as_str());
        p.append(t.generics.ty_generics.as_str());
        p.append(">::");
        p.append(t.assoc_types[i].ident.as_str());
        p.append(": 'static");
        let ghost pv = p@;
        push_string(&mut preds, p);
        assert(service_preds(*t)[i + 1] =~= pv);
        assert(service_preds(*t).take(i + 2) =~= service_preds(*t).take(i + 1).push(pv));
        i = i + 1;
    }
    assert(service_preds(*t).take(t.assoc_types@.len() as int + 1) =~= service_preds(*t));
    let mut bodies: Vec<String> = Vec::new();
    let mut j: usize = 0;
    while j < ps.len()
        invariant
            j <= ps@.len(),
            ps@.len() == t.methods@.len(),
            bodies@.len() == j,
            forall|k: int| 0 <= k < j ==> (#[trigger] bodies@[k])@ == service_body_item(t.ident@, root@, t.methods@[k], ps@[k]),
        decreases ps@.len() - j,
    {
        bodies.push(service_body(t.ident.as_str(), root, &t.methods[j], &ps[j]));
        j = j + 1;
    }
    assert(texts(bodies@) =~= Seq::new(ps@.len(), |k: int| service_body_item(t.ident@, root@, t.methods@[k], ps@[k])));
    let body = concat_strings(&bodies);
    let ig = impl_generics_string(&params);
    let wh = where_string(&preds);
    let mut s = async_attr(root, ps);
    s.append("impl");
    s.append(ig.as_str());
    s.append(" Dynamic");
    s.append(t.generics.ty_generics.as_str());
    s.append(" for __Service ");
    s.append(wh.as_str());
    s.append(" { ");
    s.append(body.as_str());
    s.append("}");
    assert(s@ =~= impl_dynamic_text(*t, root@, ps@));
    s
}

/// The impl of the service for `dyn Dynamic`.
pub fn gen_impl_service_for_dynamic(t: &TraitDesc, assocs: &Vec<ParsedAssocType>, ps: &Vec<ParsedMethod>) -> (r: String)
    requires
        ps@.len() == t.methods@.len(),
    ensures
        r@ == impl_service_text(*t, assocs@, ps@),
{
    let mut preds = copy_all(&t.generics.predicates);
    let ghost base = texts(t.generics.predicates@);
    let mut i: usize = 0;
    while i < t.generics.type_params.len()
        invariant
            i <= t.generics.type_params@.len(),
            texts(preds@) == base + static_preds(t.generics.type_params@).take(i as int),
        decreases t.generics.type_params@.len() - i,
    {
        let mut p = copy_str(t.generics.type_params[i].as_str());
        p.append(": 'static");
        let ghost pv = p@;
        push_string(&mut preds, p);
        assert(static_preds(t.generics.type_params@).take(i + 1) =~= static_preds(t.generics.type_params@).take(i as int).push(pv));
        i = i + 1;
    }
    assert(static_preds(t.generics.type_params@).take(t.generics.type_params@.len() as int) =~= static_preds(t.generics.type_params@));
    let mut items: Vec<String> = Vec::new();
    let mut k: usize = 0;
    while k < t.assoc_types.len()
        invariant
            k <= t.assoc_types@.len(),
            items@.len() == k,
            forall|q: int| 0 <= q < k ==> (#[trigger] items@[q])@ == assoc_item_text(t.assoc_types@[q], assocs@),
        decreases t.assoc_types@.len() - k,
    {
        let d = &t.assoc_types[k];
        let mut line = String::new();
        match find_assoc(assocs, d.ident.as_str()) {
            Some(x) => {
                proof { lemma_lookup_bounds(assocs@, d.ident@); }
                line.append("type ");
                line.append(d.ident.as_str());
                line.append(" = ");
                line.append(assocs[x].erased_ty.as_str());
                line.append("; ");
            },
            None => {},
        }
        assert(line@ =~= assoc_item_text(*d, assocs@));
        items.push(line);
        k = k + 1;
    }
    assert(texts(items@) =~= Seq::new(t.assoc_types@.len(), |q: int| assoc_item_text(t.assoc_types@[q], assocs@)));
    let assoc_text = concat_strings(&items);
    let mut methods: Vec<String> = Vec::new();
    let mut j: usize = 0;
    while j < ps.len()
        invariant
            j <= ps@.len(),
            ps@.len() == t.methods@.len(),
            methods@.len() == j,
            forall|q: int| 0 <= q < j ==> (#[trigger] methods@[q])@ == dynamic_method_item(t.methods@[q], ps@[q]),
        decreases ps@.len() - j,
    {
        methods.push(dynamic_method(&t.methods[j], &ps[j]));
        j = j + 1;
    }
    assert(texts(methods@) =~= Seq::new(ps@.len(), |q: int| dynamic_method_item(t.methods@[q], ps@[q])));
    let method_text = concat_strings(&methods);
    let ig = impl_generics_string(&t.generics.params);
    let wh = where_string(&preds);
    let mut s = String::new();
    s.append("impl");
    s.append(ig.as_str());
    s.append(" ");
    s.append(t.ident.as_str());
    s.append(t.generics.ty_generics.as_str());
    s.append(" for dyn Dynamic");
    s.append(t.generics.ty_generics.as_str());
    s.append(" ");
    s.append(wh.as_str());
    s.append(" { ");
    s.append(assoc_text.as_str());
    s.append(method_text.as_str());
    s.append("}");
    assert(s@ =~= impl_service_text(*t, assocs@, ps@));
    s
}

/// Generates the dynamic companion of a service trait; nothing when dynamic
/// dispatch is not asked for.
pub fn gen_dyn_impl(dynamic_dispatch: bool, t: &TraitDesc, root: &str) -> (r: Option<DynExpansion>)
    ensures
        !dynamic_dispatch ==> r is None,
        dynamic_dispatch ==> (r matches Some(e) && {
            &&& e.assoc_types@.len() == t.assoc_types@.len()
            &&& (forall|k: int| 0 <= k < e.assoc_types@.len() ==> erases_to(t.assoc_types@[k], root@, #[trigger] e.assoc_types@[k]))
            &&& e.methods@.len() == t.methods@.len()
            &&& (forall|k: int| 0 <= k < e.methods@.len() ==> parses_to(t.methods@[k], e.assoc_types@, #[trigger] e.methods@[k]))
            &&& e.code@ == dyn_module_text(*t, root@, e.assoc_types@, e.methods@)
        }),
{
    if !dynamic_dispatch {
        return None;
    }
    let assocs = parse_assoc_types(&t.assoc_types, root);
    let methods = parse_methods(&t.methods, &assocs);
    let mut aliases: Vec<String> = Vec::new();
    let mut i: usize = 0;
    while i < assocs.len()
        invariant
            i <= assocs@.len(),
            aliases@.len() == i,
            forall|q: int| 0 <= q < i ==> (#[trigger] aliases@[q])@ == match assocs@[q].alias_def {
                Some(a) => a@ + " "@,
                None => seq![],
            },
        decreases assocs@.len() - i,
    {
        let mut a = String::new();
        if let Some(def) = &assocs[i].alias_def {
            a.append(def.as_str());
            a.append(" ");
        }
        proof {
            match assocs@[i as int].alias_def {
                Some(d) => assert(a@ =~= d@ + " "@),
                None => assert(a@ =~= Seq::<char>::empty()),
            }
        }
        aliases.push(a);
        i = i + 1;
    }
    assert(texts(aliases@) =~= Seq::new(assocs@.len(), |k: int| match assocs@[k].alias_def {
        Some(a) => a@ + " "@,
        None => seq![],
    }));
    let alias_text = concat_strings(&aliases);
    let dyn_trait = gen_dyn_trait(t, root, &methods);
    let impl_dynamic = gen_impl_dynamic_for_service(t, root, &methods);
    let impl_service = gen_impl_service_for_dynamic(t, &assocs, &methods);
    let mut module = String::new();
    module.append("__dyn_");
    module.append(t.ident.as_str());
    let mut code = String::new();
    code.append("#[doc(hidden)] #[allow(non_snake_case, reason = \"we keep original structure name which is probably CamelCase\")] mod ");
    code.append(module.as_str());
    code.append(" { use super::*; ");
    code.append(alias_text.as_str());
    code.append(dyn_trait.as_str());
    code.append(" ");
    code.append(impl_dynamic.as_str());
    code.append(" ");
    code.append(impl_service.as_str());
    code.append(" } ");
    code.append(t.vis.as_str());
    code.append(" use ");
    code.append(module.as_str());
    code.append("::Dynamic as Dyn");
    code.append(t.ident.as_str());
    code.append(";");
    assert(code@ =~= dyn_module_text(*t, root@, assocs@, methods@));
    Some(DynExpansion { assoc_types: assocs, methods, code })
}

} // verus!
