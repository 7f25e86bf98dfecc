use lang_demos::ownership::{stack_vs_heap, GuardedValue};

#[test]
fn guarded_value_holds_the_worker_write() {
    let mut guarded = GuardedValue::new(42);
    assert_eq!(guarded.load(), 42);
    guarded.worker_update();
    assert_eq!(guarded.load(), 43);
    assert_ne!(guarded.load(), 42);
}

#[test]
fn every_strategy_holds_forty_two() {
    let (stack_value, heap_value, rc_value, arc_value, guarded_value, arena_value) =
        stack_vs_heap();
    assert_eq!(stack_value, 42);
    assert_eq!(*heap_value, 42);
    assert_eq!(*rc_value, 42);
    assert_eq!(*arc_value, 42);
    assert_eq!(guarded_value.load(), 43);
    assert_eq!(arena_value, 42);
}
