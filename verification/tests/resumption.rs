use context_logger::resume_enter;
use context_logger::resume_exit;
use context_logger::ContextStack;
use context_logger::ContextValue;
use context_logger::LogContext;

#[test]
fn context_follows_the_resuming_thread() {
    // A wrapped task owns its context in a local slot between resumptions.
    let mut slot = Some(LogContext::new().record("answer", ContextValue::from(42)));

    // First resumption happens on the original thread's stack; the task
    // suspends, so the context goes back into the slot.
    let mut original_stack = ContextStack::new();
    let guard = resume_enter(&mut slot, &mut original_stack);
    let property = &original_stack.top().unwrap().properties[0];
    assert_eq!(property.0, "answer");
    assert_eq!(property.1.render(), "42");
    resume_exit(&mut slot, guard, &mut original_stack);
    assert!(original_stack.is_empty());

    // The task is then resumed on a different worker thread: the same slot,
    // a different stack. The context is still visible there.
    let mut worker_stack = ContextStack::new();
    let guard = resume_enter(&mut slot, &mut worker_stack);
    let property = &worker_stack.top().unwrap().properties[0];
    assert_eq!(property.0, "answer");
    assert_eq!(property.1.render(), "42");
    resume_exit(&mut slot, guard, &mut worker_stack);

    // After the wrapper completes, neither stack shows the property.
    assert!(original_stack.is_empty());
    assert!(worker_stack.is_empty());
    assert!(original_stack.top().is_none());
    assert!(worker_stack.top().is_none());
}

#[test]
fn empty_context_round_trips_the_stack() {
    // Wrapping a computation with an empty property set and running it to
    // completion leaves the thread's stack exactly as it was.
    let mut stack = ContextStack::new();
    let below = LogContext::new().record("below", ContextValue::from(1)).enter(&mut stack);
    let depth_before = stack.len();

    let mut slot = Some(LogContext::new());
    let guard = resume_enter(&mut slot, &mut stack);
    assert_eq!(stack.top().unwrap().properties.len(), 0);
    resume_exit(&mut slot, guard, &mut stack);

    assert_eq!(stack.len(), depth_before);
    let property = &stack.top().unwrap().properties[0];
    assert_eq!(property.0, "below");
    let _ = below.exit(&mut stack);
}

#[test]
fn nested_wrappers_shadow_only_while_resumed() {
    let mut stack = ContextStack::new();
    let mut outer_slot = Some(LogContext::new().record("answer", ContextValue::from(42)));
    let mut inner_slot = Some(LogContext::new().record("answer", ContextValue::null()));

    let outer_guard = resume_enter(&mut outer_slot, &mut stack);
    {
        let inner_guard = resume_enter(&mut inner_slot, &mut stack);
        let property = &stack.top().unwrap().properties[0];
        assert_eq!(property.1.render(), "None");
        resume_exit(&mut inner_slot, inner_guard, &mut stack);
    }
    let property = &stack.top().unwrap().properties[0];
    assert_eq!(property.1.render(), "42");
    resume_exit(&mut outer_slot, outer_guard, &mut stack);

    assert!(stack.is_empty());
}

#[test]
fn dynamic_records_travel_with_the_context() {
    // A property added while the task is being resumed stays with the
    // wrapper's context for later resumptions.
    let mut slot = Some(LogContext::new().record("answer", ContextValue::from(42)));

    let mut first_stack = ContextStack::new();
    let guard = resume_enter(&mut slot, &mut first_stack);
    LogContext::add_record(&mut first_stack, "duration_ms", ContextValue::from(7));
    resume_exit(&mut slot, guard, &mut first_stack);

    let mut second_stack = ContextStack::new();
    let guard = resume_enter(&mut slot, &mut second_stack);
    let top = second_stack.top().unwrap();
    assert_eq!(top.properties.len(), 2);
    assert_eq!(top.properties[1].0, "duration_ms");
    resume_exit(&mut slot, guard, &mut second_stack);
}
