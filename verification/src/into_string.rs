//! Values that may carry a string, such as a message that is optional.
use vstd::prelude::*;

verus! {

/// A value that can be read as an optional string.
pub trait IntoOptionalString {
    /// The text this value carries, if any.
    spec fn text(&self) -> Option<Seq<char>>;

    fn as_ref(&self) -> (r: Option<&str>)
        ensures
            r is Some <==> self.text() is Some,
            r matches Some(s) ==> self.text() == Some(s@),
    ;
}

impl<'a> IntoOptionalString for &'a str {
    open spec fn text(&self) -> Option<Seq<char>> {
        Some((*self)@)
    }

    fn as_ref(&self) -> (r: Option<&str>) {
        Some(*self)
    }
}

impl IntoOptionalString for String {
    open spec fn text(&self) -> Option<Seq<char>> {
        Some(self@)
    }

    fn as_ref(&self) -> (r: Option<&str>) {
        Some(self.as_str())
    }
}

impl<S: IntoOptionalString> IntoOptionalString for Option<S> {
    open spec fn text(&self) -> Option<Seq<char>> {
        match self {
            Some(s) => s.text(),
            None => None,
        }
    }

    fn as_ref(&self) -> (r: Option<&str>) {
        match self {
            Some(s) => IntoOptionalString::as_ref(s),
            None => None,
        }
    }
}

impl<'a, S: IntoOptionalString> IntoOptionalString for &'a S {
    open spec fn text(&self) -> Option<Seq<char>> {
        (**self).text()
    }

    fn as_ref(&self) -> (r: Option<&str>) {
        S::as_ref(*self)
    }
}

} // verus!
