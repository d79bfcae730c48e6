use dynamodule::things::Foo;
use dynamodule::things::Nothing;
use dynamodule::things::ThingTable;
use dynamodule::Class;
use dynamodule::Instance;

#[test]
fn destroy() {
    let mut cls: Class<ThingTable> = Class::of::<Foo>();

    let mut count: usize = 0;

    assert_eq!(count, 0);

    {
        let ins: Instance<ThingTable> = cls.new(7);
        count += ins.destroy(&cls);
    }

    assert_eq!(count, 7);

    cls.override_methods(&Class::of::<Nothing>());

    {
        let ins: Instance<ThingTable> = cls.new(4);
        count += ins.destroy(&cls);
    }

    // Destructor overridden.
    assert_eq!(count, 7);
}

#[test]
fn destructor_of_the_constructing_implementation_applies() {
    let cls: Class<ThingTable> = Class::of::<Foo>();
    let ins = cls.new(usize::MAX);
    assert_eq!(usize::MAX, ins.destroy(&cls));

    let ins = cls.new(0);
    assert_eq!(0, ins.destroy(&cls));
}

#[test]
fn override_reaches_instances_constructed_before_it() {
    let mut cls: Class<ThingTable> = Class::of::<Foo>();
    let survivor = cls.new(9);

    cls.override_methods(&Class::of::<Nothing>());

    // The instance was constructed under the counting implementation, but
    // its destruction dispatches through the descriptor's current table.
    assert_eq!(0, survivor.destroy(&cls));
}

#[test]
fn read_access_reports_the_stored_amount() {
    let cls: Class<ThingTable> = Class::of::<Foo>();
    let ins = cls.new(11);
    assert_eq!(11, ins.invoke(&cls));
    assert_eq!(11, ins.invoke(&cls));

    let inert: Class<ThingTable> = Class::of::<Nothing>();
    let ins = inert.new(11);
    assert_eq!(0, ins.invoke(&inert));
}
