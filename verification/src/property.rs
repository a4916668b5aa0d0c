//! The property object model: capability traits, accessor bindings, their
//! composition, and the owner-erased handles.
//!
//! A property is declared by binding an owner instance to its two accessor
//! functions. [`PropertyGetter`] and [`PropertySetter`] each bind the owner
//! to one accessor; [`PropertyImplementation`] composes both into one object
//! with read and write capability; [`Property`] erases the owner's type so
//! the handle can be stored and invoked knowing only the value type.
//!
//! The capability traits speak of an accessor only through the relation
//! `may_get` / `may_set`: the handles the bound accessor can yield for the
//! bound owner. A caller that knows the accessor's own contract (for
//! instance, a closure that promises to return a particular field) can
//! therefore pin the addressed cell exactly, while code behind the erasure
//! still knows that every read and write goes to a cell the accessor named.

use vstd::prelude::*;

use crate::store::CellRef;
use crate::store::CellStore;

verus! {

/// Read capability over a value of type `TProp`, owner type erased.
pub trait GetProp<TProp> {
    /// The capability is ready to be invoked.
    spec fn get_wf(&self) -> bool;

    /// The handles that `get` may yield.
    spec fn may_get(&self, r: CellRef<TProp>) -> bool;

    /// Produces a handle to the underlying cell — not a copy of the value,
    /// so later writes stay observable through the handle.
    fn get(&self) -> (r: CellRef<TProp>)
        requires
            self.get_wf(),
        ensures
            self.may_get(r),
    ;
}

/// Write capability over a value of type `TProp`, owner type erased.
pub trait SetProp<TProp> {
    /// The capability is ready to be invoked.
    spec fn set_wf(&self) -> bool;

    /// The cells that `set` may write.
    spec fn may_set(&self, c: CellRef<TProp>) -> bool;

    /// Replaces the contents of the cell the bound accessor addresses;
    /// every other cell keeps its value.
    fn set(&self, cells: &mut CellStore<TProp>, value: TProp)
        requires
            self.set_wf(),
            forall|c: CellRef<TProp>| #[trigger] self.may_set(c) ==> old(cells).holds(c),
        ensures
            exists|c: CellRef<TProp>|
                #[trigger] self.may_set(c) && final(cells).contents() == old(
                    cells,
                ).contents().update(c.id(), value),
    ;
}

/// Combined read and write capability, owner type erased.
///
/// The trait restates both halves rather than extending [`GetProp`] and
/// [`SetProp`], because an erased object only carries the specification
/// functions of the one trait it is boxed as; restating them lets a single
/// boxed object answer for both capabilities.
pub trait ImplProp<TProp> {
    /// The read capability is ready to be invoked.
    spec fn get_wf(&self) -> bool;

    /// The handles that `get` may yield.
    spec fn may_get(&self, r: CellRef<TProp>) -> bool;

    /// The write capability is ready to be invoked.
    spec fn set_wf(&self) -> bool;

    /// The cells that `set` may write.
    spec fn may_set(&self, c: CellRef<TProp>) -> bool;

    /// As [`GetProp::get`].
    fn get(&self) -> (r: CellRef<TProp>)
        requires
            self.get_wf(),
        ensures
            self.may_get(r),
    ;

    /// As [`SetProp::set`].
    fn set(&self, cells: &mut CellStore<TProp>, value: TProp)
        requires
            self.set_wf(),
            forall|c: CellRef<TProp>| #[trigger] self.may_set(c) ==> old(cells).holds(c),
        ensures
            exists|c: CellRef<TProp>|
                #[trigger] self.may_set(c) && final(cells).contents() == old(
                    cells,
                ).contents().update(c.id(), value),
    ;
}

/// Read capability over `TProp` for a caller that still knows the owner
/// type and supplies the owner instance itself.
pub trait GetProperty<TStruct, TProp> {
    /// The capability is ready to be invoked on `item`.
    spec fn get_for_wf(&self, item: &TStruct) -> bool;

    /// The handles that `get` may yield for `item`.
    spec fn may_get_for(&self, item: &TStruct, r: CellRef<TProp>) -> bool;

    /// Produces a handle to `item`'s underlying cell.
    fn get(&self, item: &TStruct) -> (r: CellRef<TProp>)
        requires
            self.get_for_wf(item),
        ensures
            self.may_get_for(item, r),
    ;
}

/// Write capability over `TProp` for a caller that still knows the owner
/// type and supplies the owner instance itself.
pub trait SetProperty<TStruct, TProp> {
    /// The capability is ready to be invoked on `item`.
    spec fn set_for_wf(&self, item: &TStruct) -> bool;

    /// The cells that `set` may write for `item`.
    spec fn may_set_for(&self, item: &TStruct, c: CellRef<TProp>) -> bool;

    /// Replaces the contents of the cell the accessor addresses for `item`;
    /// every other cell keeps its value.
    fn set(&self, item: &TStruct, cells: &mut CellStore<TProp>, value: TProp)
        requires
            self.set_for_wf(item),
            forall|c: CellRef<TProp>| #[trigger] self.may_set_for(item, c) ==> old(cells).holds(c),
        ensures
            exists|c: CellRef<TProp>|
                #[trigger] self.may_set_for(item, c) && final(cells).contents() == old(
                    cells,
                ).contents().update(c.id(), value),
    ;
}

/// Combined read and write capability with the owner type still visible.
pub trait ImplProperty<TStruct, TProp>: GetProperty<TStruct, TProp> + SetProperty<
    TStruct,
    TProp,
> {

}

/// Binds an owner instance to its read accessor: the function that maps the
/// owner to the shared cell holding the property's value.
#[verifier::reject_recursive_types(TStruct)]
#[verifier::reject_recursive_types(TProp)]
pub struct PropertyGetter<TStruct, TProp, G> where G: Fn(&TStruct) -> CellRef<TProp> {
    item: TStruct,
    get_func: G,
}

impl<TStruct, TProp, G> PropertyGetter<TStruct, TProp, G> where G: Fn(&TStruct) -> CellRef<TProp> {
    /// Stores the owner and the accessor verbatim for later invocation.
    pub fn new(item: TStruct, get_func: G) -> (g: Self)
        ensures
            g.get_wf() == call_requires(get_func, (&item,)),
            forall|r: CellRef<TProp>| #[trigger] g.may_get(r) == call_ensures(
                get_func,
                (&item,),
                r,
            ),
    {
        PropertyGetter { item, get_func }
    }
}

impl<TStruct, TProp, G> GetProp<TProp> for PropertyGetter<TStruct, TProp, G> where
    G: Fn(&TStruct) -> CellRef<TProp>,
 {
    closed spec fn get_wf(&self) -> bool {
        call_requires(self.get_func, (&self.item,))
    }

    closed spec fn may_get(&self, r: CellRef<TProp>) -> bool {
        call_ensures(self.get_func, (&self.item,), r)
    }

    fn get(&self) -> (r: CellRef<TProp>) {
        (self.get_func)(&self.item)
    }
}

impl<TStruct, TProp, G> GetProperty<TStruct, TProp> for PropertyGetter<TStruct, TProp, G> where
    G: Fn(&TStruct) -> CellRef<TProp>,
 {
    closed spec fn get_for_wf(&self, item: &TStruct) -> bool {
        call_requires(self.get_func, (item,))
    }

    closed spec fn may_get_for(&self, item: &TStruct, r: CellRef<TProp>) -> bool {
        call_ensures(self.get_func, (item,), r)
    }

    fn get(&self, item: &TStruct) -> (r: CellRef<TProp>) {
        (self.get_func)(item)
    }
}

/// Binds an owner instance to its write accessor: the function that maps the
/// owner to the shared cell whose contents a write replaces.
#[verifier::reject_recursive_types(TStruct)]
#[verifier::reject_recursive_types(TProp)]
pub struct PropertySetter<TStruct, TProp, S> where S: Fn(&TStruct) -> CellRef<TProp> {
    item: TStruct,
    set_func: S,
}

impl<TStruct, TProp, S> PropertySetter<TStruct, TProp, S> where S: Fn(&TStruct) -> CellRef<TProp> {
    /// Stores the owner and the accessor verbatim for later invocation.
    pub fn new(item: TStruct, set_func: S) -> (s: Self)
        ensures
            s.set_wf() == call_requires(set_func, (&item,)),
            forall|c: CellRef<TProp>| #[trigger] s.may_set(c) == call_ensures(
                set_func,
                (&item,),
                c,
            ),
    {
        PropertySetter { item, set_func }
    }
}

impl<TStruct, TProp, S> SetProp<TProp> for PropertySetter<TStruct, TProp, S> where
    S: Fn(&TStruct) -> CellRef<TProp>,
 {
    closed spec fn set_wf(&self) -> bool {
        call_requires(self.set_func, (&self.item,))
    }

    closed spec fn may_set(&self, c: CellRef<TProp>) -> bool {
        call_ensures(self.set_func, (&self.item,), c)
    }

    fn set(&self, cells: &mut CellStore<TProp>, value: TProp) {
        let c = (self.set_func)(&self.item);
        proof {
            assert(self.may_set(c));
        }
        cells.replace(c, value);
    }
}

impl<TStruct, TProp, S> SetProperty<TStruct, TProp> for PropertySetter<TStruct, TProp, S> where
    S: Fn(&TStruct) -> CellRef<TProp>,
 {
    closed spec fn set_for_wf(&self, item: &TStruct) -> bool {
        call_requires(self.set_func, (item,))
    }

    closed spec fn may_set_for(&self, item: &TStruct, c: CellRef<TProp>) -> bool {
        call_ensures(self.set_func, (item,), c)
    }

    fn set(&self, item: &TStruct, cells: &mut CellStore<TProp>, value: TProp) {
        let c = (self.set_func)(item);
        proof {
            assert(self.may_set_for(item, c));
        }
        cells.replace(c, value);
    }
}

/// Composes one [`PropertyGetter`] and one [`PropertySetter`] for the same
/// owner into a single object with both capabilities.
#[verifier::reject_recursive_types(TStruct)]
#[verifier::reject_recursive_types(TProp)]
pub struct PropertyImplementation<TStruct, TProp, G, S> where
    G: Fn(&TStruct) -> CellRef<TProp>,
    S: Fn(&TStruct) -> CellRef<TProp>,
 {
    getter: PropertyGetter<TStruct, TProp, G>,
    setter: PropertySetter<TStruct, TProp, S>,
}

impl<TStruct, TProp, G, S> PropertyImplementation<TStruct, TProp, G, S> where
    G: Fn(&TStruct) -> CellRef<TProp>,
    S: Fn(&TStruct) -> CellRef<TProp>,
 {
    /// Binds the owner to both of its accessors, storing them verbatim.
    pub fn new(item: TStruct, get_func: G, set_func: S) -> (p: Self) where TStruct: Copy
        ensures
            p.get_wf() == call_requires(get_func, (&item,)),
            p.set_wf() == call_requires(set_func, (&item,)),
            forall|r: CellRef<TProp>| #[trigger] p.may_get(r) == call_ensures(
                get_func,
                (&item,),
                r,
            ),
            forall|c: CellRef<TProp>| #[trigger] p.may_set(c) == call_ensures(
                set_func,
                (&item,),
                c,
            ),
    {
        PropertyImplementation {
            getter: PropertyGetter::new(item, get_func),
            setter: PropertySetter::new(item, set_func),
        }
    }

    /// Erases the owner type: the one way to obtain a full [`Property`].
    ///
    /// The erased handle yields and writes exactly the cells this
    /// implementation does.
    pub fn into_property(self) -> (p: Property<TProp>) where
        TStruct: 'static,
        TProp: 'static,
        G: 'static,
        S: 'static,

        ensures
            p.get_wf() == self.get_wf(),
            p.set_wf() == self.set_wf(),
            forall|r: CellRef<TProp>| #[trigger] p.may_get(r) == self.may_get(r),
            forall|c: CellRef<TProp>| #[trigger] p.may_set(c) == self.may_set(c),
    {
        Property { implementation: Box::new(self) }
    }
}

impl<TStruct, TProp, G, S> ImplProp<TProp> for PropertyImplementation<TStruct, TProp, G, S> where
    G: Fn(&TStruct) -> CellRef<TProp>,
    S: Fn(&TStruct) -> CellRef<TProp>,
 {
    closed spec fn get_wf(&self) -> bool {
        self.getter.get_wf()
    }

    closed spec fn may_get(&self, r: CellRef<TProp>) -> bool {
        self.getter.may_get(r)
    }

    closed spec fn set_wf(&self) -> bool {
        self.setter.set_wf()
    }

    closed spec fn may_set(&self, c: CellRef<TProp>) -> bool {
        self.setter.may_set(c)
    }

    fn get(&self) -> (r: CellRef<TProp>) {
        let r = GetProp::get(&self.getter);
        proof {
            assert(self.may_get(r));
        }
        r
    }

    fn set(&self, cells: &mut CellStore<TProp>, value: TProp) {
        let c = (self.setter.set_func)(&self.setter.item);
        proof {
            assert(self.may_set(c));
        }
        cells.replace(c, value);
    }
}

impl<TStruct, TProp, G, S> GetProperty<TStruct, TProp> for PropertyImplementation<
    TStruct,
    TProp,
    G,
    S,
> where G: Fn(&TStruct) -> CellRef<TProp>, S: Fn(&TStruct) -> CellRef<TProp> {
    closed spec fn get_for_wf(&self, item: &TStruct) -> bool {
        self.getter.get_for_wf(item)
    }

    closed spec fn may_get_for(&self, item: &TStruct, r: CellRef<TProp>) -> bool {
        self.getter.may_get_for(item, r)
    }

    fn get(&self, item: &TStruct) -> (r: CellRef<TProp>) {
        GetProperty::get(&self.getter, item)
    }
}

impl<TStruct, TProp, G, S> SetProperty<TStruct, TProp> for PropertyImplementation<
    TStruct,
    TProp,
    G,
    S,
> where G: Fn(&TStruct) -> CellRef<TProp>, S: Fn(&TStruct) -> CellRef<TProp> {
    closed spec fn set_for_wf(&self, item: &TStruct) -> bool {
        self.setter.set_for_wf(item)
    }

    closed spec fn may_set_for(&self, item: &TStruct, c: CellRef<TProp>) -> bool {
        self.setter.may_set_for(item, c)
    }

    fn set(&self, item: &TStruct, cells: &mut CellStore<TProp>, value: TProp) {
        let c = (self.setter.set_func)(item);
        proof {
            assert(self.may_set_for(item, c));
        }
        cells.replace(c, value);
    }
}

impl<TStruct, TProp, G, S> ImplProperty<TStruct, TProp> for PropertyImplementation<
    TStruct,
    TProp,
    G,
    S,
> where G: Fn(&TStruct) -> CellRef<TProp>, S: Fn(&TStruct) -> CellRef<TProp> {

}

/// The owner-erased property handle: read and write capability over `TProp`
/// with no trace of the owner type in its own signature.
///
/// Built exclusively by [`PropertyImplementation::into_property`], so a
/// `Property` always carries a real accessor pair behind the erasure.
#[verifier::reject_recursive_types(TProp)]
pub struct Property<TProp> {
    implementation: Box<dyn ImplProp<TProp>>,
}

impl<TProp> GetProp<TProp> for Property<TProp> {
    closed spec fn get_wf(&self) -> bool {
        self.implementation.get_wf()
    }

    closed spec fn may_get(&self, r: CellRef<TProp>) -> bool {
        self.implementation.may_get(r)
    }

    fn get(&self) -> (r: CellRef<TProp>) {
        self.implementation.get()
    }
}

impl<TProp> SetProp<TProp> for Property<TProp> {
    closed spec fn set_wf(&self) -> bool {
        self.implementation.set_wf()
    }

    closed spec fn may_set(&self, c: CellRef<TProp>) -> bool {
        self.implementation.may_set(c)
    }

    fn set(&self, cells: &mut CellStore<TProp>, value: TProp) {
        proof {
            assert forall|c: CellRef<TProp>| #[trigger] self.implementation.may_set(c) implies old(
                cells,
            ).holds(c) by {
                assert(self.may_set(c));
            }
        }
        self.implementation.set(cells, value);
        proof {
            let c: CellRef<TProp> = choose|c: CellRef<TProp>|
                #[trigger] self.implementation.may_set(c) && cells.contents() == old(
                    cells,
                ).contents().update(c.id(), value);
            assert(self.may_set(c));
        }
    }
}

/// The owner-erased get-only property: it exposes no write operation at
/// all, so granting it grants strictly less than a full [`Property`].
#[verifier::reject_recursive_types(TProp)]
pub struct ReadProperty<TProp> {
    getter: Box<dyn GetProp<TProp>>,
}

impl<TStruct, TProp, G> PropertyGetter<TStruct, TProp, G> where
    TStruct: 'static,
    TProp: 'static,
    G: Fn(&TStruct) -> CellRef<TProp> + 'static,
 {
    /// Erases the owner type, keeping only the read capability.
    pub fn into_read_property(self) -> (p: ReadProperty<TProp>)
        ensures
            p.get_wf() == self.get_wf(),
            forall|r: CellRef<TProp>| #[trigger] p.may_get(r) == self.may_get(r),
    {
        ReadProperty { getter: Box::new(self) }
    }
}

impl<TProp> GetProp<TProp> for ReadProperty<TProp> {
    closed spec fn get_wf(&self) -> bool {
        self.getter.get_wf()
    }

    closed spec fn may_get(&self, r: CellRef<TProp>) -> bool {
        self.getter.may_get(r)
    }

    fn get(&self) -> (r: CellRef<TProp>) {
        self.getter.get()
    }
}

/// The owner-erased set-only property: it exposes no read operation at
/// all, the counterpart of [`ReadProperty`].
#[verifier::reject_recursive_types(TProp)]
pub struct WriteProperty<TProp> {
    setter: Box<dyn SetProp<TProp>>,
}

impl<TStruct, TProp, S> PropertySetter<TStruct, TProp, S> where
    TStruct: 'static,
    TProp: 'static,
    S: Fn(&TStruct) -> CellRef<TProp> + 'static,
 {
    /// Erases the owner type, keeping only the write capability.
    pub fn into_write_property(self) -> (p: WriteProperty<TProp>)
        ensures
            p.set_wf() == self.set_wf(),
            forall|c: CellRef<TProp>| #[trigger] p.may_set(c) == self.may_set(c),
    {
        WriteProperty { setter: Box::new(self) }
    }
}

impl<TProp> SetProp<TProp> for WriteProperty<TProp> {
    closed spec fn set_wf(&self) -> bool {
        self.setter.set_wf()
    }

    closed spec fn may_set(&self, c: CellRef<TProp>) -> bool {
        self.setter.may_set(c)
    }

    fn set(&self, cells: &mut CellStore<TProp>, value: TProp) {
        proof {
            assert forall|c: CellRef<TProp>| #[trigger] self.setter.may_set(c) implies old(
                cells,
            ).holds(c) by {
                assert(self.may_set(c));
            }
        }
        self.setter.set(cells, value);
        proof {
            let c: CellRef<TProp> = choose|c: CellRef<TProp>|
                #[trigger] self.setter.may_set(c) && cells.contents() == old(
                    cells,
                ).contents().update(c.id(), value);
            assert(self.may_set(c));
        }
    }
}

} // verus!
