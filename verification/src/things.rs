//! A counting capability with two registered implementations.
//!
//! Its point is the destructor: the first implementation's destructor has an
//! observable effect (it reports the stored amount, for a caller-kept
//! counter), the second's has none. Both store the same data, so a live
//! override between them is layout-compatible.

use vstd::prelude::*;

use crate::Class;
use crate::Class_;
use crate::Ctor;
use crate::MethodTable;
use crate::Proxy;
use crate::ReflectImpl;

verus! {

/// The bytes a thing instance occupies: one machine word.
pub const THING_SIZE: usize = 8;

/// The alignment of a thing instance, in bytes.
pub const THING_ALIGN: usize = 8;

/// The instance data every thing implementation stores: an amount.
pub struct ThingData {
    /// The stored amount.
    pub amount: usize,
}

impl View for ThingData {
    type V = usize;

    open spec fn view(&self) -> usize {
        self.amount
    }
}

/// The thing capability's method tables, one per implementation.
#[derive(Clone, Copy)]
pub enum ThingTable {
    /// The counting implementation: stores its argument, reports it on
    /// destruction.
    Foo,
    /// The inert implementation: stores zero, reports nothing on
    /// destruction.
    Nothing,
}

impl MethodTable for ThingTable {
    type Arg = usize;

    type Data = ThingData;

    type Ret = usize;

    open spec fn constructed(self, arg: usize) -> usize {
        match self {
            ThingTable::Foo => arg,
            ThingTable::Nothing => 0,
        }
    }

    open spec fn invoked(self, data: usize) -> usize {
        data
    }

    open spec fn destroyed(self, data: usize) -> usize {
        match self {
            ThingTable::Foo => data,
            ThingTable::Nothing => 0,
        }
    }

    open spec fn layout_size(self) -> usize {
        THING_SIZE
    }

    open spec fn layout_align(self) -> usize {
        THING_ALIGN
    }

    fn construct(&self, arg: usize) -> (data: ThingData) {
        match self {
            ThingTable::Foo => ThingData { amount: arg },
            ThingTable::Nothing => ThingData { amount: 0 },
        }
    }

    fn invoke(&self, data: &ThingData) -> (r: usize) {
        data.amount
    }

    fn destroy(&self, data: ThingData) -> (effect: usize) {
        match self {
            ThingTable::Foo => data.amount,
            ThingTable::Nothing => 0,
        }
    }
}

/// The counting implementation type.
#[derive(Clone, Copy)]
pub struct Foo;

/// The inert implementation type.
#[derive(Clone, Copy)]
pub struct Nothing;

impl ReflectImpl<ThingTable> for Proxy<Foo> {
    open spec fn registered_table() -> ThingTable {
        ThingTable::Foo
    }

    fn get_class(self) -> (class: Class<ThingTable>) {
        Class(
            Class_ {
                ctor: Ctor { table: ThingTable::Foo },
                vtable: ThingTable::Foo,
                size: THING_SIZE,
                align: THING_ALIGN,
            },
        )
    }
}

impl ReflectImpl<ThingTable> for Proxy<Nothing> {
    open spec fn registered_table() -> ThingTable {
        ThingTable::Nothing
    }

    fn get_class(self) -> (class: Class<ThingTable>) {
        Class(
            Class_ {
                ctor: Ctor { table: ThingTable::Nothing },
                vtable: ThingTable::Nothing,
                size: THING_SIZE,
                align: THING_ALIGN,
            },
        )
    }
}

} // verus!
