//! The laws a well-formed property obeys, stated once over the capability
//! traits and proved for every implementation at once.
//!
//! The laws speak of a property through the relations `may_get` / `may_set`
//! and of the cell layer through a store's contents before and after a
//! write, exactly the terms in which [`GetProp::get`] and [`SetProp::set`]
//! state their contracts. A caller therefore discharges each hypothesis
//! directly from those contracts.

use vstd::prelude::*;

use crate::property::GetProp;
use crate::property::Property;
use crate::property::SetProp;
use crate::store::CellRef;
use crate::store::CellStore;

verus! {

/// The property's read and write capability address one and the same cell.
///
/// Every property built from a well-behaved accessor pair — one whose
/// getter and setter name the same cell of the same owner — has this
/// shape; it is the precondition under which the aliasing and round-trip
/// laws below hold.
pub open spec fn coherent<TProp, P: GetProp<TProp> + SetProp<TProp>>(p: &P) -> bool {
    forall|r: CellRef<TProp>, c: CellRef<TProp>|
        #![trigger p.may_get(r), p.may_set(c)]
        p.may_get(r) && p.may_set(c) ==> r == c
}

/// Aliasing: handles a property's `get` yields are all the one cell that
/// its `set` writes, so after a write of `value` every handle obtained
/// earlier observes `value` — no handle is a stale copy.
///
/// `h1` and `h2` are two results of `get`, `c` and the contents `pre` /
/// `post` describe a later `set(value)`, each as the respective contract
/// states them.
pub proof fn lemma_handles_alias<TProp, P: GetProp<TProp> + SetProp<TProp>>(
    p: &P,
    h1: CellRef<TProp>,
    h2: CellRef<TProp>,
    c: CellRef<TProp>,
    pre: Seq<TProp>,
    post: Seq<TProp>,
    value: TProp,
)
    requires
        coherent(p),
        p.may_get(h1),
        p.may_get(h2),
        p.may_set(c),
        0 <= c.id() < pre.len(),
        post == pre.update(c.id(), value),
    ensures
        h1 == h2,
        post[h1.id()] == value,
        post[h2.id()] == value,
{
}

/// Round trip: a `set(value)` followed by a `get` observes exactly `value`,
/// for every value of the declared type.
///
/// `c` and the contents `pre` / `post` describe the write as `set`'s
/// contract states it; `h` is a handle the following `get` yields.
pub proof fn lemma_set_then_get_round_trip<TProp, P: GetProp<TProp> + SetProp<TProp>>(
    p: &P,
    h: CellRef<TProp>,
    c: CellRef<TProp>,
    pre: Seq<TProp>,
    post: Seq<TProp>,
    value: TProp,
)
    requires
        coherent(p),
        p.may_set(c),
        0 <= c.id() < pre.len(),
        post == pre.update(c.id(), value),
        p.may_get(h),
    ensures
        0 <= h.id() < post.len(),
        post[h.id()] == value,
{
}

/// Independence: a write through one property changes nothing but its own
/// cell, so two properties over distinct cells — for instance, the same
/// field of two distinct owner instances — cannot disturb each other.
///
/// `c` and the contents `pre` / `post` describe a `set(value)` through
/// `a`; `h` is a handle `b`'s `get` yields.
pub proof fn lemma_instances_independent<TProp, PA: SetProp<TProp>, PB: GetProp<TProp>>(
    a: &PA,
    b: &PB,
    c: CellRef<TProp>,
    h: CellRef<TProp>,
    pre: Seq<TProp>,
    post: Seq<TProp>,
    value: TProp,
)
    requires
        a.may_set(c),
        b.may_get(h),
        c.id() != h.id(),
        0 <= c.id() < pre.len(),
        0 <= h.id() < pre.len(),
        post == pre.update(c.id(), value),
    ensures
        post[h.id()] == pre[h.id()],
{
}

/// Writes `value` through an erased property, then reads it back through a
/// fresh handle.
///
/// The function never names an owner type: the one call site serves a
/// [`Property`] built by any owner, and its contract shows the write is
/// observed through the handle the following `get` yields.
pub fn set_then_get<TProp>(p: &Property<TProp>, cells: &mut CellStore<TProp>, value: TProp) -> (h:
    CellRef<TProp>)
    requires
        p.get_wf(),
        p.set_wf(),
        coherent(p),
        forall|c: CellRef<TProp>| #[trigger] p.may_set(c) ==> old(cells).holds(c),
    ensures
        p.may_get(h),
        final(cells).holds(h),
        final(cells).contents()[h.id()] == value,
        final(cells).contents().len() == old(cells).contents().len(),
{
    p.set(cells, value);
    let h = p.get();
    proof {
        let c: CellRef<TProp> = choose|c: CellRef<TProp>|
            #[trigger] p.may_set(c) && cells.contents() == old(cells).contents().update(
                c.id(),
                value,
            );
        assert(h == c);
    }
    h
}

} // verus!
