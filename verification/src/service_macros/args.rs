//! The arguments of `#[service(...)]`: which auto-traits are required, and where
//! calls are dispatched.
use vstd::prelude::*;

verus! {

pub const SEND: u8 = 1;
pub const SYNC: u8 = 2;
pub const DEBUG: u8 = 4;
pub const STATIC: u8 = 8;

/// The auto-traits and lifetime a service requires: `Send`, `Sync`, `Debug` and
/// `'static`, each a bit.
#[derive(Debug, Clone, Copy, PartialEq, Eq, Structural)]
pub struct Requires {
    pub bits: u8,
}

/// Which of `Send`, `Sync`, `Debug` and `'static` are required.
pub open spec fn flags(bits: u8) -> (bool, bool, bool, bool) {
    (bits & 1 != 0, bits & 2 != 0, bits & 4 != 0, bits & 8 != 0)
}

impl Requires {
    pub open spec fn view(self) -> (bool, bool, bool, bool) {
        flags(self.bits)
    }

    /// Only the four known bits are ever set.
    pub open spec fn wf(self) -> bool {
        self.bits <= 15
    }

    /// Everything required.
    pub fn all() -> (r: Requires)
        ensures
            r@ == (true, true, true, true),
            r.wf(),
    {
        assert(15u8 & 1 != 0 && 15u8 & 2 != 0 && 15u8 & 4 != 0 && 15u8 & 8 != 0) by (bit_vector);
        Requires { bits: 15 }
    }

    /// Nothing required.
    pub fn empty() -> (r: Requires)
        ensures
            r@ == (false, false, false, false),
            r.wf(),
    {
        assert(0u8 & 1 == 0 && 0u8 & 2 == 0 && 0u8 & 4 == 0 && 0u8 & 8 == 0) by (bit_vector);
        Requires { bits: 0 }
    }

    /// Whether every flag of `other` is required.
    pub fn contains(&self, other: Requires) -> (r: bool)
        requires
            other.wf(),
        ensures
            r == ((other@.0 ==> self@.0) && (other@.1 ==> self@.1) && (other@.2 ==> self@.2) && (other@.3 ==> self@.3)),
    {
        let a = self.bits;
        let b = other.bits;
        assert((a & b == b) == ((b & 1 != 0 ==> a & 1 != 0) && (b & 2 != 0 ==> a & 2 != 0)
            && (b & 4 != 0 ==> a & 4 != 0) && (b & 8 != 0 ==> a & 8 != 0))) by (bit_vector)
            requires b <= 15;
        (a & b) == b
    }

    /// Drops the flags of `other`.
    pub fn remove(&mut self, other: Requires)
        requires
            old(self).wf(),
        ensures
            final(self).wf(),
            final(self)@ == (old(self)@.0 && !other@.0, old(self)@.1 && !other@.1, old(self)@.2 && !other@.2, old(self)@.3 && !other@.3),
    {
        let a = self.bits;
        let b = other.bits;
        let c = a & !b;
        assert(((a & !b) & 1 != 0) == (a & 1 != 0 && b & 1 == 0)) by (bit_vector);
        assert(((a & !b) & 2 != 0) == (a & 2 != 0 && b & 2 == 0)) by (bit_vector);
        assert(((a & !b) & 4 != 0) == (a & 4 != 0 && b & 4 == 0)) by (bit_vector);
        assert(((a & !b) & 8 != 0) == (a & 8 != 0 && b & 8 == 0)) by (bit_vector);
        assert(a & !b <= 15) by (bit_vector)
            requires a <= 15;
        self.bits = c;
    }

    /// Adds the flags of `other`.
    pub fn insert(&mut self, other: Requires)
        requires
            old(self).wf(),
            other.wf(),
        ensures
            final(self).wf(),
            final(self)@ == (old(self)@.0 || other@.0, old(self)@.1 || other@.1, old(self)@.2 || other@.2, old(self)@.3 || other@.3),
    {
        let a = self.bits;
        let b = other.bits;
        assert(((a | b) & 1 != 0) == (a & 1 != 0 || b & 1 != 0)) by (bit_vector);
        assert(((a | b) & 2 != 0) == (a & 2 != 0 || b & 2 != 0)) by (bit_vector);
        assert(((a | b) & 4 != 0) == (a & 4 != 0 || b & 4 != 0)) by (bit_vector);
        assert(((a | b) & 8 != 0) == (a & 8 != 0 || b & 8 != 0)) by (bit_vector);
        assert(a | b <= 15) by (bit_vector)
            requires a <= 15, b <= 15;
        self.bits = a | b;
    }

    /// A single flag.
    pub fn flag(bit: u8) -> (r: Requires)
        requires
            bit == SEND || bit == SYNC || bit == DEBUG || bit == STATIC,
        ensures
            r.wf(),
            r@ == (bit == SEND, bit == SYNC, bit == DEBUG, bit == STATIC),
    {
        assert(1u8 & 1 != 0 && 1u8 & 2 == 0 && 1u8 & 4 == 0 && 1u8 & 8 == 0) by (bit_vector);
        assert(2u8 & 1 == 0 && 2u8 & 2 != 0 && 2u8 & 4 == 0 && 2u8 & 8 == 0) by (bit_vector);
        assert(4u8 & 1 == 0 && 4u8 & 2 == 0 && 4u8 & 4 != 0 && 4u8 & 8 == 0) by (bit_vector);
        assert(8u8 & 1 == 0 && 8u8 & 2 == 0 && 8u8 & 4 == 0 && 8u8 & 8 != 0) by (bit_vector);
        Requires { bits: bit }
    }
}

/// The flag named by an item of `?(...)`: `Send`, `Sync`, `Debug` or `'static`.
pub open spec fn named_flag(item: Seq<char>) -> (bool, bool, bool, bool) {
    (item == "Send"@, item == "Sync"@, item == "Debug"@, item == "'static"@)
}

/// Whether some item names the flag picked by `k` (0 to 3).
pub open spec fn some_item_names(items: Seq<Seq<char>>, k: int) -> bool {
    exists|i: int| 0 <= i < items.len() && #[trigger] flag_at(named_flag(items[i]), k)
}

/// The `k`-th of four flags.
pub open spec fn flag_at(f: (bool, bool, bool, bool), k: int) -> bool {
    if k == 0 { f.0 } else if k == 1 { f.1 } else if k == 2 { f.2 } else { f.3 }
}

proof fn lemma_names_distinct()
    ensures
        "Send"@ != "Sync"@,
        "Send"@ != "Debug"@,
        "Send"@ != "'static"@,
        "Sync"@ != "Debug"@,
        "Sync"@ != "'static"@,
        "Debug"@ != "'static"@,
{
    reveal_strlit("Send");
    reveal_strlit("Sync");
    reveal_strlit("Debug");
    reveal_strlit("'static");
    assert("Send"@[1] != "Sync"@[1]);
    assert("Send"@.len() != "Debug"@.len());
    assert("Send"@.len() != "'static"@.len());
    assert("Sync"@.len() != "Debug"@.len());
    assert("Sync"@.len() != "'static"@.len());
    assert("Debug"@.len() != "'static"@.len());
}

/// Drops from `required` every flag that an item of `?(...)` names; items that
/// name no flag are ignored.
pub fn try_parse_required(items: &Vec<String>, required: &mut Requires)
    requires
        old(required).wf(),
    ensures
        final(required).wf(),
        forall|k: int| 0 <= k < 4 ==> #[trigger] flag_at(final(required)@, k)
            == (flag_at(old(required)@, k) && !some_item_names(items@.map_values(|s: String| s@), k)),
{
    let mut to_remove = Requires::empty();
    let mut i: usize = 0;
    proof { lemma_names_distinct(); }
    while i < items.len()
        invariant
            i <= items@.len(),
            to_remove.wf(),
            forall|k: int| 0 <= k < 4 ==> #[trigger] flag_at(to_remove@, k)
                == some_item_names(items@.take(i as int).map_values(|s: String| s@), k),
            "Send"@ != "Sync"@, "Send"@ != "Debug"@, "Send"@ != "'static"@,
            "Sync"@ != "Debug"@, "Sync"@ != "'static"@, "Debug"@ != "'static"@,
        decreases items@.len() - i,
    {
        let s = items[i].as_str();
        let ghost prev = items@.take(i as int).map_values(|x: String| x@);
        let ghost next = items@.take(i + 1).map_values(|x: String| x@);
        let ghost before = to_remove@;
        if crate::text::str_eq(s, "Send") {
            to_remove.insert(Requires::flag(SEND));
            assert(named_flag(s@) == (true, false, false, false));
        } else if crate::text::str_eq(s, "Sync") {
            to_remove.insert(Requires::flag(SYNC));
            assert(named_flag(s@) == (false, true, false, false));
        } else if crate::text::str_eq(s, "Debug") {
            to_remove.insert(Requires::flag(DEBUG));
            assert(named_flag(s@) == (false, false, true, false));
        } else if crate::text::str_eq(s, "'static") {
            to_remove.insert(Requires::flag(STATIC));
            assert(named_flag(s@) == (false, false, false, true));
        } else {
            assert(named_flag(s@) == (false, false, false, false));
        }
        proof {
            assert(next =~= prev.push(s@));
            assert forall|k: int| 0 <= k < 4 implies #[trigger] flag_at(to_remove@, k) == some_item_names(next, k) by {
                assert(flag_at(to_remove@, k) == (flag_at(before, k) || flag_at(named_flag(s@), k)));
                assert(flag_at(before, k) == some_item_names(prev, k));
                if some_item_names(next, k) {
                    let j = choose|j: int| 0 <= j < next.len() && #[trigger] flag_at(named_flag(next[j]), k);
                    if j < prev.len() {
                        assert(prev[j] == next[j]);
                        assert(some_item_names(prev, k));
                    } else {
                        assert(next[j] == s@);
                    }
                }
                if some_item_names(prev, k) {
                    let j = choose|j: int| 0 <= j < prev.len() && #[trigger] flag_at(named_flag(prev[j]), k);
                    assert(next[j] == prev[j]);
                    assert(some_item_names(next, k));
                }
                if flag_at(named_flag(s@), k) {
                    assert(next[prev.len() as int] == s@);
                    assert(some_item_names(next, k));
                }
            }
        }
        i = i + 1;
    }
    assert(items@.take(items@.len() as int) =~= items@);
    let ghost removed = to_remove@;
    required.remove(to_remove);
    assert forall|k: int| 0 <= k < 4 implies #[trigger] flag_at(required@, k)
        == (flag_at(old(required)@, k) && !some_item_names(items@.map_values(|s: String| s@), k)) by {
        assert(flag_at(removed, k) == some_item_names(items@.map_values(|s: String| s@), k));
    }
}

/// An argument of `#[service(...)]`.
pub enum AttrItem {
    /// `?(...)`: the flags named there are not required.
    Unrequire(Vec<String>),
    /// `dispatch_to(...)`: the paths calls are dispatched to.
    DispatchTo(Vec<String>),
    /// Any other identifier, which is ignored.
    Other(String),
}

/// The arguments of `#[service(...)]`.
pub struct Args {
    pub required: Requires,
    pub dispatch_to: Option<Vec<String>>,
}

/// What remains required of `f` once the items of a `?(...)` are dropped.
pub open spec fn unrequired(f: (bool, bool, bool, bool), names: Seq<Seq<char>>) -> (bool, bool, bool, bool) {
    (
        f.0 && !some_item_names(names, 0),
        f.1 && !some_item_names(names, 1),
        f.2 && !some_item_names(names, 2),
        f.3 && !some_item_names(names, 3),
    )
}

/// What is required after reading `items` in order, starting from everything.
pub open spec fn required_after(items: Seq<AttrItem>) -> (bool, bool, bool, bool)
    decreases items.len(),
{
    if items.len() == 0 {
        (true, true, true, true)
    } else {
        let f = required_after(items.drop_last());
        match items.last() {
            AttrItem::Unrequire(names) => unrequired(f, names@.map_values(|s: String| s@)),
            _ => f,
        }
    }
}

/// The index of the last `dispatch_to(...)`.
pub open spec fn last_dispatch(items: Seq<AttrItem>) -> Option<int>
    decreases items.len(),
{
    if items.len() == 0 {
        None
    } else if items.last() is DispatchTo {
        Some(items.len() - 1)
    } else {
        last_dispatch(items.drop_last())
    }
}

/// Reads the arguments in order: everything is required unless a `?(...)` drops
/// it, and the last `dispatch_to(...)` gives where calls are dispatched.
pub fn parse_args(items: Vec<AttrItem>) -> (r: Args)
    ensures
        r.required.wf(),
        r.required@ == required_after(items@),
        last_dispatch(items@) is None ==> r.dispatch_to is None,
        last_dispatch(items@) matches Some(i) ==> items@[i] matches AttrItem::DispatchTo(q) && r.dispatch_to == Some(q),
{
    let mut required = Requires::all();
    let mut dispatch_to: Option<Vec<String>> = None;
    let mut rest = items;
    let ghost all = rest@;
    let mut reversed: Vec<AttrItem> = Vec::new();
    while rest.len() > 0
        invariant
            reversed@.len() + rest@.len() == all.len(),
            rest@ == all.take(rest@.len() as int),
            forall|j: int| 0 <= j < reversed@.len() ==> reversed@[j] == all[all.len() - 1 - j],
        decreases rest@.len(),
    {
        let s = rest.pop().unwrap();
        reversed.push(s);
        assert(rest@ =~= all.take(rest@.len() as int));
    }
    assert(all.take(0) =~= Seq::<AttrItem>::empty());
    while reversed.len() > 0
        invariant
            required.wf(),
            reversed@.len() <= all.len(),
            forall|j: int| 0 <= j < reversed@.len() ==> reversed@[j] == all[all.len() - 1 - j],
            required@ == required_after(all.take(all.len() - reversed@.len())),
            last_dispatch(all.take(all.len() - reversed@.len())) is None ==> dispatch_to is None,
            last_dispatch(all.take(all.len() - reversed@.len())) matches Some(i) ==> all[i] matches AttrItem::DispatchTo(q) && dispatch_to == Some(q),
        decreases reversed@.len(),
    {
        let ghost done = all.take(all.len() - reversed@.len());
        let item = reversed.pop().unwrap();
        let ghost next = all.take(all.len() - reversed@.len());
        proof {
            assert(item == all[all.len() - 1 - reversed@.len()]);
            assert(next.drop_last() =~= done);
            assert(next.last() == item);
        }
        match item {
            AttrItem::Unrequire(names) => {
                let ghost before = required@;
                try_parse_required(&names, &mut required);
                proof {
                    let nv = names@.map_values(|s: String| s@);
                    assert(flag_at(required@, 0) == (flag_at(before, 0) && !some_item_names(nv, 0)));
                    assert(flag_at(required@, 1) == (flag_at(before, 1) && !some_item_names(nv, 1)));
                    assert(flag_at(required@, 2) == (flag_at(before, 2) && !some_item_names(nv, 2)));
                    assert(flag_at(required@, 3) == (flag_at(before, 3) && !some_item_names(nv, 3)));
                    assert(required@ == unrequired(before, nv));
                }
            },
            AttrItem::DispatchTo(paths) => {
                dispatch_to = Some(paths);
            },
            AttrItem::Other(_) => {},
        }
        proof {
            if let Some(i) = last_dispatch(next) {
                if i < next.len() - 1 {
                    assert(last_dispatch(next) == last_dispatch(done));
                }
            }
        }
    }
    assert(all.take(all.len() as int) =~= all);
    Args { required, dispatch_to }
}

} // verus!
