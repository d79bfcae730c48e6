//! A vehicle capability with two registered implementations.
//!
//! The capability's one method describes the vehicle; both implementations
//! store the same data (the vehicle's colour), so their layouts agree and a
//! descriptor for one may be overridden live with the other.

use vstd::prelude::*;
use vstd::string::StringExecFns;

use crate::Class;
use crate::Class_;
use crate::Ctor;
use crate::MethodTable;
use crate::Proxy;
use crate::ReflectImpl;

verus! {

/// The bytes a vehicle instance occupies: one owned string.
pub const VEHICLE_SIZE: usize = 24;

/// The alignment of a vehicle instance, in bytes.
pub const VEHICLE_ALIGN: usize = 8;

/// The instance data every vehicle implementation stores: its colour.
pub struct VehicleData {
    /// The colour the instance was constructed with.
    pub color: String,
}

impl View for VehicleData {
    type V = Seq<char>;

    open spec fn view(&self) -> Seq<char> {
        self.color@
    }
}

/// The description a bicycle of the given colour yields.
pub open spec fn bicycle_description(color: Seq<char>) -> Seq<char> {
    color + " bicycle has a basket and a bell that rings"@
}

/// The description a motorcycle of the given colour yields.
pub open spec fn motorcycle_description(color: Seq<char>) -> Seq<char> {
    color + " motorcycle has 600 cc's of whoop-ass"@
}

/// The vehicle capability's method tables, one per implementation.
#[derive(Clone, Copy)]
pub enum VehicleTable {
    /// The bicycle implementation's table.
    Bicycle,
    /// The motorcycle implementation's table.
    Motorcycle,
}

impl MethodTable for VehicleTable {
    type Arg = String;

    type Data = VehicleData;

    type Ret = String;

    open spec fn constructed(self, arg: Seq<char>) -> Seq<char> {
        arg
    }

    open spec fn invoked(self, data: Seq<char>) -> Seq<char> {
        match self {
            VehicleTable::Bicycle => bicycle_description(data),
            VehicleTable::Motorcycle => motorcycle_description(data),
        }
    }

    open spec fn destroyed(self, data: Seq<char>) -> usize {
        0
    }

    open spec fn layout_size(self) -> usize {
        VEHICLE_SIZE
    }

    open spec fn layout_align(self) -> usize {
        VEHICLE_ALIGN
    }

    fn construct(&self, arg: String) -> (data: VehicleData) {
        VehicleData { color: arg }
    }

    fn invoke(&self, data: &VehicleData) -> (r: String) {
        match self {
            VehicleTable::Bicycle => data.color.clone().concat(
                " bicycle has a basket and a bell that rings",
            ),
            VehicleTable::Motorcycle => data.color.clone().concat(
                " motorcycle has 600 cc's of whoop-ass",
            ),
        }
    }

    fn destroy(&self, data: VehicleData) -> (effect: usize) {
        0
    }
}

/// The bicycle implementation type.
#[derive(Clone, Copy)]
pub struct Bicycle;

/// The motorcycle implementation type.
#[derive(Clone, Copy)]
pub struct Motorcycle;

impl ReflectImpl<VehicleTable> for Proxy<Bicycle> {
    open spec fn registered_table() -> VehicleTable {
        VehicleTable::Bicycle
    }

    fn get_class(self) -> (class: Class<VehicleTable>) {
        Class(
            Class_ {
                ctor: Ctor { table: VehicleTable::Bicycle },
                vtable: VehicleTable::Bicycle,
                size: VEHICLE_SIZE,
                align: VEHICLE_ALIGN,
            },
        )
    }
}

impl ReflectImpl<VehicleTable> for Proxy<Motorcycle> {
    open spec fn registered_table() -> VehicleTable {
        VehicleTable::Motorcycle
    }

    fn get_class(self) -> (class: Class<VehicleTable>) {
        Class(
            Class_ {
                ctor: Ctor { table: VehicleTable::Motorcycle },
                vtable: VehicleTable::Motorcycle,
                size: VEHICLE_SIZE,
                align: VEHICLE_ALIGN,
            },
        )
    }
}

} // verus!
