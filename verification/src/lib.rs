//! A minimal runtime object system with live method-table replacement.
//!
//! A capability (an abstract set of methods) is dispatched through a mutable
//! *class descriptor* rather than through a table frozen into each object.
//! The descriptor holds the capability's current method table as a
//! first-class value, together with the matching constructor and instance
//! layout. Every instance keeps only its own data; each access resolves
//! through the descriptor's *current* table, so replacing the descriptor's
//! table changes the behaviour of all existing and future instances at once.

use vstd::prelude::*;

pub mod things;
pub mod vehicles;

verus! {

/// A capability's method table as a first-class value.
///
/// A value of an implementing type stands for one implementation of the
/// capability: it knows how that implementation constructs its instance
/// data, what its method returns for given data, and what observable effect
/// its destructor has. The spec functions give the mathematical meaning of
/// the three operations; the executable functions are proved against them.
pub trait MethodTable: Sized + Copy {
    /// The constructor argument type of the capability.
    type Arg: View;

    /// The instance data shared by all implementations of the capability.
    ///
    /// Every implementation of one capability stores its instances in this
    /// one type, which is what makes their in-memory layouts compatible and
    /// a live override of one implementation by another sound.
    type Data: View;

    /// The result type of the capability's method.
    type Ret: View;

    /// What the implementation's constructor stores for a given argument.
    spec fn constructed(self, arg: <Self::Arg as View>::V) -> <Self::Data as View>::V;

    /// What the capability's method returns for given instance data.
    spec fn invoked(self, data: <Self::Data as View>::V) -> <Self::Ret as View>::V;

    /// The observable effect of the implementation's destructor: the amount
    /// it adds to a caller-kept counter when an instance is destroyed.
    spec fn destroyed(self, data: <Self::Data as View>::V) -> usize;

    /// The instance size, in bytes, this implementation reports at
    /// registration.
    spec fn layout_size(self) -> usize;

    /// The instance alignment, in bytes, this implementation reports at
    /// registration.
    spec fn layout_align(self) -> usize;

    /// Construct instance data from a constructor argument.
    fn construct(&self, arg: Self::Arg) -> (data: Self::Data)
        ensures
            data@ == self.constructed(arg@),
    ;

    /// Run the capability's method on instance data.
    fn invoke(&self, data: &Self::Data) -> (r: Self::Ret)
        ensures
            r@ == self.invoked(data@),
    ;

    /// Destroy instance data, returning the destructor's observable effect.
    fn destroy(&self, data: Self::Data) -> (effect: usize)
        ensures
            effect == self.destroyed(data@),
    ;
}

/// A stand-in value naming an implementation type, so that a registration
/// can be attached to it as a trait implementation.
pub struct Proxy<T>(pub core::marker::PhantomData<T>);

/// The registration of one implementation type for one capability.
///
/// Implementing `ReflectImpl<V> for Proxy<Impl>` binds the implementation
/// type `Impl` to the capability whose method tables have type `V`: it names
/// the table registered for `Impl` and builds a fresh descriptor around it.
pub trait ReflectImpl<V: MethodTable>: Sized {
    /// The method table registered for this implementation.
    spec fn registered_table() -> V;

    /// Produce a fresh descriptor for the registered implementation.
    fn get_class(self) -> (class: Class<V>)
        ensures
            class.0.wf(),
            class.0.vtable == Self::registered_table(),
    ;
}

/// The allocating constructor a descriptor currently holds, bound at
/// registration to the same implementation as the descriptor's method table.
pub struct Ctor<V: MethodTable> {
    /// The table of the implementation whose constructor this is.
    pub table: V,
}

impl<V: MethodTable> Ctor<V> {
    /// Build instance data for the bound implementation.
    pub fn call(&self, arg: V::Arg) -> (data: V::Data)
        ensures
            data@ == self.table.constructed(arg@),
    {
        self.table.construct(arg)
    }
}

/// The mutable inside of a class descriptor: the capability's current method
/// table, the matching constructor, and the instance layout, describing
/// exactly one implementation version at a time.
pub struct Class_<V: MethodTable> {
    /// The capability's current method table.
    pub vtable: V,
    /// The current allocating constructor.
    pub ctor: Ctor<V>,
    /// The current instance size, in bytes.
    pub size: usize,
    /// The current instance alignment, in bytes.
    pub align: usize,
}

impl<V: MethodTable> Class_<V> {
    /// The descriptor invariant: the four fields are mutually consistent,
    /// all describing the one implementation version `vtable` names.
    pub open spec fn wf(self) -> bool {
        &&& self.ctor.table == self.vtable
        &&& self.size == self.vtable.layout_size()
        &&& self.align == self.vtable.layout_align()
    }
}

impl<V: MethodTable> Clone for Class_<V> {
    /// An exact copy of the descriptor's current triple.
    fn clone(&self) -> (other: Class_<V>)
        ensures
            other == *self,
    {
        Class_ {
            ctor: Ctor { table: self.ctor.table },
            vtable: self.vtable,
            size: self.size,
            align: self.align,
        }
    }
}

/// A class descriptor: the mutable holder of one capability implementation's
/// current method table, constructor, and layout. All instances constructed
/// from a descriptor dispatch through whatever table it holds at the moment
/// of the access, not the one it held when they were constructed.
pub struct Class<V: MethodTable>(pub Class_<V>);

/// An instance: the sole owner of one constructed block of instance data.
///
/// An instance carries no method table of its own. Capability access
/// combines its data with the current table of the descriptor it is used
/// with, which is how a descriptor override reaches instances that already
/// exist.
pub struct Instance<V: MethodTable> {
    /// The instance data, laid out as recorded in the descriptor at
    /// construction time.
    pub data: V::Data,
}

impl<V: MethodTable> Class<V> {
    /// Obtain a fresh descriptor for a registered implementation type.
    ///
    /// The implementation type must be trivially duplicable and must have a
    /// registration (`ReflectImpl`) binding it to this capability; a missing
    /// registration fails at compile time, not at run time.
    pub fn of<Impl: Copy>() -> (class: Class<V>) where
        Proxy<Impl>: ReflectImpl<V>,
        ensures
            class.0.wf(),
            class.0.vtable == <Proxy<Impl> as ReflectImpl<V>>::registered_table(),
    {
        let prx: Proxy<Impl> = Proxy(core::marker::PhantomData);
        prx.get_class()
    }

    /// Construct an instance with the descriptor's *current* constructor.
    pub fn new(&self, arg: V::Arg) -> (ins: Instance<V>)
        ensures
            ins.data@ == self.0.ctor.table.constructed(arg@),
    {
        Instance { data: self.0.ctor.call(arg) }
    }

    /// Replace this descriptor's entire triple — method table, constructor,
    /// and layout — with a copy of `replacement`'s current triple, instantly
    /// changing the behaviour of every instance dispatching through this
    /// descriptor.
    ///
    /// The replacement implementation's instance layout must match the
    /// current one, so that data constructed under the old version stays
    /// meaningful under the new one; the caller discharges that obligation
    /// at verification time.
    pub fn override_methods(&mut self, replacement: &Class<V>)
        requires
            old(self).0.size == replacement.0.size,
            old(self).0.align == replacement.0.align,
        ensures
            final(self).0 == replacement.0,
    {
        self.0 = replacement.0.clone();
    }
}

impl<V: MethodTable> Instance<V> {
    /// Capability access: dereference this instance through its originating
    /// descriptor, dispatching the method of whatever implementation the
    /// descriptor holds *now*.
    ///
    /// Reading mutates nothing: the result is a function of the descriptor's
    /// current table and the instance data alone.
    pub fn invoke(&self, origin: &Class<V>) -> (r: V::Ret)
        ensures
            r@ == origin.0.vtable.invoked(self.data@),
    {
        origin.0.vtable.invoke(&self.data)
    }

    /// Destroy this instance, releasing its data and returning the
    /// observable effect of the destructor of whatever implementation the
    /// originating descriptor holds *at this moment* — not the one that
    /// constructed the instance.
    pub fn destroy(self, origin: &Class<V>) -> (effect: usize)
        ensures
            effect == origin.0.vtable.destroyed(self.data@),
    {
        origin.0.vtable.destroy(self.data)
    }
}

/// Construction/dispatch correctness: a well-formed descriptor constructs
/// with the same implementation it dispatches to, so dereferencing a fresh
/// instance yields exactly the behaviour of the implementation the
/// descriptor is bound to, for that argument.
pub proof fn lemma_construction_dispatch<V: MethodTable>(
    class: Class_<V>,
    table: V,
    arg: <V::Arg as View>::V,
)
    requires
        class.wf(),
        class.vtable == table,
    ensures
        class.vtable.invoked(class.ctor.table.constructed(arg)) == table.invoked(
            table.constructed(arg),
        ),
{
}

/// Override visibility: once a descriptor has taken a replacement's triple,
/// dispatch through it resolves to the replacement's method table for *any*
/// instance data — data constructed before the override as much as after —
/// and the overwritten table plays no part in the result.
pub proof fn lemma_override_visibility<V: MethodTable>(
    after: Class_<V>,
    replacement: Class_<V>,
    data: <V::Data as View>::V,
)
    requires
        after == replacement,
    ensures
        after.vtable.invoked(data) == replacement.vtable.invoked(data),
{
}

/// Destructor override semantics: destruction dispatches the destructor of
/// the table the descriptor holds at destruction time. An instance
/// constructed and destroyed under one implementation sees that
/// implementation's effect; after an override, a newly constructed instance
/// sees the replacement's effect, not the old implementation's.
pub proof fn lemma_destructor_override<V: MethodTable>(
    before: Class_<V>,
    after: Class_<V>,
    replacement: Class_<V>,
    arg: <V::Arg as View>::V,
)
    requires
        before.wf(),
        after == replacement,
        replacement.wf(),
    ensures
        before.vtable.destroyed(before.ctor.table.constructed(arg)) == before.vtable.destroyed(
            before.vtable.constructed(arg),
        ),
        after.vtable.destroyed(after.ctor.table.constructed(arg)) == replacement.vtable.destroyed(
            replacement.vtable.constructed(arg),
        ),
{
}

/// Idempotence of read access: any two dereferences of one instance through
/// one descriptor state — each returning what capability access promises —
/// agree, since the result is a function of the descriptor's current table
/// and the instance data alone, and reading mutates neither.
pub proof fn lemma_read_stable<V: MethodTable>(
    class: Class_<V>,
    data: <V::Data as View>::V,
    first: <V::Ret as View>::V,
    second: <V::Ret as View>::V,
)
    requires
        first == class.vtable.invoked(data),
        second == class.vtable.invoked(data),
    ensures
        first == second,
{
}

/// Isolation across descriptors: what a dereference returns is determined
/// by the current triple of the one descriptor it goes through, never by any
/// other descriptor's state; two descriptors holding equal tables dispatch
/// alike, whatever became of either one's siblings. Overriding a descriptor
/// takes it by exclusive reference, so no other descriptor's triple can
/// change with it.
pub proof fn lemma_descriptor_isolation<V: MethodTable>(
    first: Class_<V>,
    second: Class_<V>,
    data: <V::Data as View>::V,
)
    requires
        first.vtable == second.vtable,
    ensures
        first.vtable.invoked(data) == second.vtable.invoked(data),
        first.vtable.destroyed(data) == second.vtable.destroyed(data),
{
}

} // verus!
