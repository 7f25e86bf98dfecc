//! Three structurally identical record types, declared from one template by
//! hand: each holds two integer fields and exposes an accessor that returns
//! the first field unchanged.

use vstd::prelude::*;

verus! {

/// The first record type of the template: two integer fields.
pub struct Foo {
    pub field_1: i32,
    pub field_2: i32,
}

impl Foo {
    /// Builds the record from its two fields.
    pub fn new(field_1: i32, field_2: i32) -> (r: Foo)
        ensures
            r.field_1 == field_1,
            r.field_2 == field_2,
    {
        Foo { field_1, field_2 }
    }

    /// The accessor: returns the first constructed field unchanged.
    pub fn some_method(&self) -> (r: i32)
        ensures
            r == self.field_1,
    {
        self.field_1
    }
}

/// The second record type of the template: two integer fields.
pub struct Bar {
    pub field_1: i32,
    pub field_2: i32,
}

impl Bar {
    /// Builds the record from its two fields.
    pub fn new(field_1: i32, field_2: i32) -> (r: Bar)
        ensures
            r.field_1 == field_1,
            r.field_2 == field_2,
    {
        Bar { field_1, field_2 }
    }

    /// The accessor: returns the first constructed field unchanged.
    pub fn some_method(&self) -> (r: i32)
        ensures
            r == self.field_1,
    {
        self.field_1
    }
}

/// The third record type of the template: two integer fields.
pub struct Baz {
    pub field_1: i32,
    pub field_2: i32,
}

impl Baz {
    /// Builds the record from its two fields.
    pub fn new(field_1: i32, field_2: i32) -> (r: Baz)
        ensures
            r.field_1 == field_1,
            r.field_2 == field_2,
    {
        Baz { field_1, field_2 }
    }

    /// The accessor: returns the first constructed field unchanged.
    pub fn some_method(&self) -> (r: i32)
        ensures
            r == self.field_1,
    {
        self.field_1
    }
}

/// Declares one record of each generated type and reads each one back
/// through its accessor: every accessor returns the record's first field.
pub fn hygienic_macros() -> (r: (i32, i32, i32))
    ensures
        r.0 == 1,
        r.1 == 3,
        r.2 == 5,
{
    let foo = Foo::new(1, 2);
    let bar = Bar::new(3, 4);
    let baz = Baz::new(5, 6);
    (foo.some_method(), bar.some_method(), baz.some_method())
}

} // verus!
