use slice_reader::{CursorReader, PlanStep, ReadError, ReadPlan};

#[test]
fn plan_walks_seek_then_fill_to_done() {
    let mut plan = ReadPlan::new(100, 10);
    assert_eq!(plan.next_step(), PlanStep::Seek { offset: 100 });
    plan.on_seeked();
    assert_eq!(plan.next_step(), PlanStep::Fill { filled: 0, remaining: 10 });
    plan.on_filled(4);
    assert_eq!(plan.next_step(), PlanStep::Fill { filled: 4, remaining: 6 });
    plan.on_filled(6);
    assert_eq!(plan.next_step(), PlanStep::Done);
}

#[test]
fn plan_checks_bounds_for_zero_length() {
    let mut plan = ReadPlan::new(7, 0);
    assert_eq!(plan.next_step(), PlanStep::QueryLen);
    plan.on_len(10);
    assert_eq!(plan.next_step(), PlanStep::Done);
}

#[test]
fn plan_rejects_zero_length_past_end() {
    let mut plan = ReadPlan::new(7, 0);
    assert_eq!(plan.next_step(), PlanStep::QueryLen);
    plan.on_len(5);
    assert_eq!(
        plan.next_step(),
        PlanStep::Failed {
            error: ReadError::OutOfBounds { offset: 7, length: 0, backend_len: 5 }
        }
    );
}

#[test]
fn plan_fails_short_read_when_data_runs_out() {
    let mut plan = ReadPlan::new(0, 8);
    plan.on_seeked();
    plan.on_filled(3);
    plan.on_filled(0);
    assert_eq!(
        plan.next_step(),
        PlanStep::Failed { error: ReadError::ShortRead { offset: 0, length: 8, filled: 3 } }
    );
}

#[test]
fn plan_surfaces_io_failure_with_context() {
    let mut plan = ReadPlan::new(64, 16);
    plan.on_io_error();
    assert_eq!(
        plan.next_step(),
        PlanStep::Failed { error: ReadError::Io { offset: 64, length: 16 } }
    );
}

#[test]
fn plan_surfaces_cancellation_with_context() {
    let mut plan = ReadPlan::new(64, 16);
    plan.on_seeked();
    plan.on_cancelled();
    assert_eq!(
        plan.next_step(),
        PlanStep::Failed { error: ReadError::Cancelled { offset: 64, length: 16 } }
    );
}

#[test]
fn cursor_reads_deliver_at_most_what_remains() {
    let mut c = CursorReader::new(vec![1u8, 2, 3, 4, 5]);
    c.seek_to(3);
    assert_eq!(c.read_some(10), vec![4u8, 5]);
    assert_eq!(c.read_some(10), Vec::new());
    c.seek_to(0);
    assert_eq!(c.read_some(2), vec![1u8, 2]);
    assert_eq!(c.read_some(0), Vec::new());
}

#[test]
fn error_kind_names() {
    assert_eq!(
        ReadError::OutOfBounds { offset: 0, length: 1, backend_len: 0 }.kind_name(),
        "out of bounds"
    );
    assert_eq!(
        ReadError::ShortRead { offset: 0, length: 1, filled: 0 }.kind_name(),
        "short read"
    );
    assert_eq!(ReadError::Io { offset: 0, length: 1 }.kind_name(), "i/o failure");
    assert_eq!(ReadError::Cancelled { offset: 0, length: 1 }.kind_name(), "cancelled");
}
