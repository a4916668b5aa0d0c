use props::property::GetProp;
use props::property::GetProperty;
use props::property::ImplProp;
use props::property::Property;
use props::property::PropertyGetter;
use props::property::PropertyImplementation;
use props::property::PropertySetter;
use props::property::SetProp;
use props::property::SetProperty;
use props::store::CellRef;
use props::store::CellStore;

#[derive(Clone, Copy)]
struct Dog {
    size: CellRef<u64>,
}

#[derive(Clone, Copy)]
struct Crate {
    weight: CellRef<u64>,
}

fn dog_property(cells: &mut CellStore<u64>, size: u64) -> (Dog, Property<u64>) {
    let dog = Dog { size: cells.allocate(size) };
    let imp = PropertyImplementation::new(dog, |d: &Dog| d.size, |d: &Dog| d.size);
    (dog, imp.into_property())
}

fn crate_property(cells: &mut CellStore<u64>, weight: u64) -> Property<u64> {
    let cr = Crate { weight: cells.allocate(weight) };
    let imp = PropertyImplementation::new(cr, |c: &Crate| c.weight, |c: &Crate| c.weight);
    imp.into_property()
}

/// A call site that drives any erased property, never naming an owner type.
fn write_then_read(p: &Property<u64>, cells: &mut CellStore<u64>, value: u64) -> u64 {
    p.set(cells, value);
    *cells.read(p.get())
}

#[test]
fn it_works() {
    assert_eq!(4, 4);
}

#[test]
fn two_handles_observe_a_later_write() {
    let mut cells = CellStore::new();
    let (_, p) = dog_property(&mut cells, 4);
    let h1 = p.get();
    let h2 = p.get();
    assert!(h1.same_cell(&h2));
    assert_eq!(*cells.read(h1), 4);
    p.set(&mut cells, 7);
    assert_eq!(*cells.read(h1), 7);
    assert_eq!(*cells.read(h2), 7);
}

#[test]
fn set_then_get_round_trips_boundary_values() {
    let mut cells = CellStore::new();
    let (_, p) = dog_property(&mut cells, 4);
    for v in [0u64, 1, u64::MAX - 1, u64::MAX] {
        p.set(&mut cells, v);
        assert_eq!(*cells.read(p.get()), v);
    }
}

#[test]
fn erased_properties_share_one_call_site() {
    let mut cells = CellStore::new();
    let (_, from_dog) = dog_property(&mut cells, 4);
    let from_crate = crate_property(&mut cells, 100);
    assert_eq!(write_then_read(&from_dog, &mut cells, 11), 11);
    assert_eq!(write_then_read(&from_crate, &mut cells, 12), 12);
}

#[test]
fn library_driver_returns_handle_to_written_value() {
    let mut cells = CellStore::new();
    let (_, p) = dog_property(&mut cells, 4);
    let h = props::laws::set_then_get(&p, &mut cells, 9);
    assert_eq!(*cells.read(h), 9);
}

#[test]
fn distinct_instances_have_independent_cells() {
    let mut cells = CellStore::new();
    let (_, first) = dog_property(&mut cells, 4);
    let (_, second) = dog_property(&mut cells, 9);
    assert!(!first.get().same_cell(&second.get()));
    first.set(&mut cells, 10);
    assert_eq!(*cells.read(first.get()), 10);
    assert_eq!(*cells.read(second.get()), 9);
}

#[test]
fn read_only_property_exposes_only_reads() {
    let mut cells = CellStore::new();
    let dog = Dog { size: cells.allocate(4) };
    let read_only = PropertyGetter::new(dog, |d: &Dog| d.size).into_read_property();
    let h = read_only.get();
    assert_eq!(*cells.read(h), 4);
    // `read_only` has no write operation at all; writes need a setter-bearing
    // handle over the same cell, whose effect the read handle then observes.
    let write_only = PropertySetter::new(dog, |d: &Dog| d.size).into_write_property();
    write_only.set(&mut cells, 6);
    assert_eq!(*cells.read(h), 6);
    assert_eq!(*cells.read(read_only.get()), 6);
}

#[test]
fn owner_passed_accessors_address_the_given_owner() {
    let mut cells = CellStore::new();
    let first = Dog { size: cells.allocate(3) };
    let second = Dog { size: cells.allocate(5) };
    let getter = PropertyGetter::new(first, |d: &Dog| d.size);
    let setter = PropertySetter::new(first, |d: &Dog| d.size);
    // The owner-typed traits take the owner at the call, so one binding can
    // serve another instance of the same structure type.
    let h = GetProperty::get(&getter, &second);
    assert_eq!(*cells.read(h), 5);
    SetProperty::set(&setter, &second, &mut cells, 8);
    assert_eq!(*cells.read(GetProperty::get(&getter, &second)), 8);
    assert_eq!(*cells.read(GetProp::get(&getter)), 3);
}

#[test]
fn composed_implementation_reads_and_writes_before_erasure() {
    let mut cells = CellStore::new();
    let dog = Dog { size: cells.allocate(2) };
    let imp = PropertyImplementation::new(dog, |d: &Dog| d.size, |d: &Dog| d.size);
    let h = ImplProp::get(&imp);
    assert_eq!(*cells.read(h), 2);
    ImplProp::set(&imp, &mut cells, 15);
    assert_eq!(*cells.read(h), 15);
    let h2 = GetProperty::get(&imp, &dog);
    assert!(h.same_cell(&h2));
    SetProperty::set(&imp, &dog, &mut cells, 16);
    assert_eq!(*cells.read(h), 16);
}

#[test]
fn store_allocates_and_replaces_single_cells() {
    let mut cells = CellStore::new();
    let a = cells.allocate(1u64);
    let b = cells.allocate(2u64);
    assert!(!a.same_cell(&b));
    assert!(a.same_cell(&a.clone()));
    cells.replace(a, 10);
    assert_eq!(*cells.read(a), 10);
    assert_eq!(*cells.read(b), 2);
}

trait HasSize {
    fn size(&self) -> &Property<u64>;
}

struct RegisteredDog {
    size_property: Property<u64>,
}

impl HasSize for RegisteredDog {
    fn size(&self) -> &Property<u64> {
        &self.size_property
    }
}

fn read_size<H: HasSize>(subject: &H, cells: &CellStore<u64>) -> u64 {
    *cells.read(subject.size().get())
}

#[test]
fn trait_declared_property_reaches_the_owners_cell() {
    let mut cells = CellStore::new();
    let dog = Dog { size: cells.allocate(4) };
    let imp = PropertyImplementation::new(dog, |d: &Dog| d.size, |d: &Dog| d.size);
    let registered = RegisteredDog { size_property: imp.into_property() };
    assert_eq!(read_size(&registered, &cells), 4);
    registered.size().set(&mut cells, 21);
    assert_eq!(read_size(&registered, &cells), 21);
}
