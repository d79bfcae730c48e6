use dynamodule::vehicles::Bicycle;
use dynamodule::vehicles::Motorcycle;
use dynamodule::vehicles::VehicleTable;
use dynamodule::Class;
use dynamodule::Instance;

#[test]
fn drive_it_like_you_stole_it() {
    let mut vehicle: Class<VehicleTable> = Class::of::<Bicycle>();
    let bike: Instance<VehicleTable> = vehicle.new(String::from("red"));

    assert_eq!(
        "red bicycle has a basket and a bell that rings",
        bike.invoke(&vehicle).as_str()
    );

    // A live upgrade: the bicycle and motorcycle implementations share one
    // in-memory representation, so the override is layout-compatible.
    vehicle.override_methods(&Class::of::<Motorcycle>());

    assert_eq!(
        "red motorcycle has 600 cc's of whoop-ass",
        bike.invoke(&vehicle).as_str()
    );

    assert_eq!(
        "blue motorcycle has 600 cc's of whoop-ass",
        vehicle.new(String::from("blue")).invoke(&vehicle).as_str()
    );
}

#[test]
fn fresh_descriptor_dispatches_its_own_implementation() {
    let bikes: Class<VehicleTable> = Class::of::<Bicycle>();
    let ride = bikes.new(String::from("green"));
    assert_eq!(
        "green bicycle has a basket and a bell that rings",
        ride.invoke(&bikes).as_str()
    );

    let motos: Class<VehicleTable> = Class::of::<Motorcycle>();
    let ride = motos.new(String::from("green"));
    assert_eq!(
        "green motorcycle has 600 cc's of whoop-ass",
        ride.invoke(&motos).as_str()
    );
}

#[test]
fn repeated_reads_are_stable() {
    let vehicle: Class<VehicleTable> = Class::of::<Bicycle>();
    let bike = vehicle.new(String::from("red"));

    let first = bike.invoke(&vehicle);
    let second = bike.invoke(&vehicle);
    let third = bike.invoke(&vehicle);
    assert_eq!(first, second);
    assert_eq!(second, third);
    assert_eq!("red bicycle has a basket and a bell that rings", first.as_str());
}

#[test]
fn overriding_one_descriptor_leaves_another_alone() {
    let mut first: Class<VehicleTable> = Class::of::<Bicycle>();
    let second: Class<VehicleTable> = Class::of::<Bicycle>();

    let of_first = first.new(String::from("red"));
    let of_second = second.new(String::from("red"));

    first.override_methods(&Class::of::<Motorcycle>());

    assert_eq!(
        "red motorcycle has 600 cc's of whoop-ass",
        of_first.invoke(&first).as_str()
    );
    assert_eq!(
        "red bicycle has a basket and a bell that rings",
        of_second.invoke(&second).as_str()
    );
    assert_eq!(
        "blue bicycle has a basket and a bell that rings",
        second.new(String::from("blue")).invoke(&second).as_str()
    );
}

#[test]
fn empty_color_keeps_the_suffix() {
    let vehicle: Class<VehicleTable> = Class::of::<Bicycle>();
    let bike = vehicle.new(String::new());
    assert_eq!(
        " bicycle has a basket and a bell that rings",
        bike.invoke(&vehicle).as_str()
    );
}
