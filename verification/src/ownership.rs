//! One value allocated under several ownership strategies: a plain local
//! value, an exclusively owned heap value, a reference-counted value, a
//! thread-safe shared value, a guarded mutable value, and an arena-allocated
//! value.

use vstd::prelude::*;
use std::rc::Rc;
use std::sync::Arc;

verus! {

#[verifier::external_type_specification]
#[verifier::external_body]
pub struct ExBump<const MIN_ALIGN: usize>(bumpalo::Bump<MIN_ALIGN>);

/// Relies on bumpalo::Bump::new: constructs a fresh, empty arena.
#[verifier::external_body]
fn arena_new() -> bumpalo::Bump {
    bumpalo::Bump::new()
}

/// Relies on bumpalo::Bump::alloc: the allocated slot holds exactly the
/// value moved into the arena.
#[verifier::external_body]
fn arena_alloc_i32(arena: &bumpalo::Bump, val: i32) -> (r: i32)
    ensures
        r == val,
{
    *arena.alloc(val)
}

/// A mutable value meant to sit behind a mutual-exclusion lock when shared
/// across threads. The lock itself lives with the callers; this type carries
/// the guarded value and the operations on it.
pub struct GuardedValue {
    pub value: i32,
}

impl GuardedValue {
    /// Wraps an initial value.
    pub fn new(value: i32) -> (r: GuardedValue)
        ensures
            r.value == value,
    {
        GuardedValue { value }
    }

    /// Reads the guarded value.
    pub fn load(&self) -> (r: i32)
        ensures
            r == self.value,
    {
        self.value
    }

    /// The update the worker thread performs on the shared counter: it
    /// overwrites the guarded value with 43, whatever was there before.
    pub fn worker_update(&mut self)
        ensures
            final(self).value == 43,
    {
        self.value = 43;
    }
}

/// Allocates the value 42 under each ownership strategy and applies the
/// worker's update to the guarded copy. Returns, in order: the plain local
/// value, the owned heap value, the reference-counted value, the thread-safe
/// shared value, the guarded value after the update, and the arena-allocated
/// value.
pub fn stack_vs_heap() -> (r: (i32, Box<i32>, Rc<i32>, Arc<i32>, GuardedValue, i32))
    ensures
        r.0 == 42,
        *r.1 == 42,
        *r.2 == 42,
        *r.3 == 42,
        r.4.value == 43,
        r.5 == 42,
{
    let stack_value: i32 = 42;
    let heap_value: Box<i32> = Box::new(42);
    let rc_value: Rc<i32> = Rc::new(42);
    let arc_value: Arc<i32> = Arc::new(42);
    let mut guarded_value = GuardedValue::new(42);
    let arena = arena_new();
    let arena_value = arena_alloc_i32(&arena, 42);
    guarded_value.worker_update();
    (stack_value, heap_value, rc_value, arc_value, guarded_value, arena_value)
}

} // verus!
