use context_logger::ContextStack;
use context_logger::ContextValue;
use context_logger::LogContext;

#[test]
fn test_log_context_guard_enter() {
    let mut stack = ContextStack::new();
    let context = LogContext::new().record("simple", ContextValue::from(42));
    // Make sure the context stack is empty before entering the context.
    assert_eq!(stack.is_empty(), true);

    let guard = context.enter(&mut stack);
    // Check that the record was added to the top context.
    assert_eq!(stack.top().unwrap().properties.len(), 1);

    // Check that the context stack is empty after the guard is spent.
    let _context = guard.exit(&mut stack);
    assert_eq!(stack.len(), 0);
}

#[test]
fn test_log_context_nested_guards() {
    let mut stack = ContextStack::new();
    let outer_context = LogContext::new().record("simple_record", ContextValue::from("outer_value"));
    assert_eq!(stack.len(), 0);

    let outer_guard = outer_context.enter(&mut stack);
    assert_eq!(stack.top().unwrap().properties.len(), 1);

    {
        let property = &stack.top().unwrap().properties[0];
        assert_eq!(property.0, "simple_record");
        assert_eq!(property.1.render(), "outer_value");
    }

    let inner_context = LogContext::new().record("simple_record", ContextValue::from("inner_value"));
    {
        let inner_guard = inner_context.enter(&mut stack);
        // Test log context after inner guard is entered.
        assert_eq!(stack.len(), 2);
        {
            let property = &stack.top().unwrap().properties[0];
            assert_eq!(property.0, "simple_record");
            assert_eq!(property.1.render(), "inner_value");
        }

        let _inner_context = inner_guard.exit(&mut stack);
    }
    // Test log context after inner guard is spent.
    assert_eq!(stack.top().unwrap().properties.len(), 1);
    {
        let property = &stack.top().unwrap().properties[0];
        assert_eq!(property.0, "simple_record");
        assert_eq!(property.1.render(), "outer_value");
    }

    let _outer_context = outer_guard.exit(&mut stack);
    assert_eq!(stack.is_empty(), true);
}

#[test]
fn balanced_nesting_restores_depth() {
    let mut stack = ContextStack::new();
    let depth_before = stack.len();

    let g1 = LogContext::new().record("a", ContextValue::from(1)).enter(&mut stack);
    let g2 = LogContext::new().record("b", ContextValue::from(2)).enter(&mut stack);
    let g3 = LogContext::new().record("c", ContextValue::from(3)).enter(&mut stack);
    assert_eq!(stack.len(), 3);

    let _c3 = g3.exit(&mut stack);
    let _c2 = g2.exit(&mut stack);
    let _c1 = g1.exit(&mut stack);
    assert_eq!(stack.len(), depth_before);
}

#[test]
fn separate_stacks_are_isolated() {
    // Each thread owns a stack of its own; a frame activated on one stack is
    // never visible through another.
    let mut stack_a = ContextStack::new();
    let mut stack_b = ContextStack::new();

    let guard = LogContext::new()
        .record("simple_record", ContextValue::from("first_thread"))
        .enter(&mut stack_a);

    assert_eq!(stack_a.len(), 1);
    assert_eq!(stack_b.len(), 0);
    assert!(stack_b.top().is_none());

    let other_guard = LogContext::new()
        .record("simple_record", ContextValue::from("second_thread"))
        .enter(&mut stack_b);
    let property = &stack_a.top().unwrap().properties[0];
    assert_eq!(property.1.render(), "first_thread");
    let property = &stack_b.top().unwrap().properties[0];
    assert_eq!(property.1.render(), "second_thread");

    let _ = other_guard.exit(&mut stack_b);
    assert_eq!(stack_a.len(), 1);
    let _ = guard.exit(&mut stack_a);
    assert_eq!(stack_a.len(), 0);
}

#[test]
fn add_record_without_active_frame_is_noop() {
    let mut stack = ContextStack::new();
    LogContext::add_record(&mut stack, "duration_ms", ContextValue::from(42));
    assert!(stack.is_empty());
    assert!(stack.top().is_none());
}

#[test]
fn add_record_enriches_active_frame() {
    let mut stack = ContextStack::new();
    let guard = LogContext::new().record("request_id", ContextValue::from(7)).enter(&mut stack);

    LogContext::add_record(&mut stack, "duration_ms", ContextValue::from(42));
    let top = stack.top().unwrap();
    assert_eq!(top.properties.len(), 2);
    assert_eq!(top.properties[1].0, "duration_ms");
    assert_eq!(top.properties[1].1.render(), "42");

    // The guard still pops the (grown) frame.
    let context = guard.exit(&mut stack);
    assert!(stack.is_empty());
    let mut stack2 = ContextStack::new();
    let guard2 = context.enter(&mut stack2);
    assert_eq!(stack2.top().unwrap().properties.len(), 2);
    let _ = guard2.exit(&mut stack2);
}
