use permissions::{
    after_read, after_write, is_in_scope, plan_update, should_log_io_error, Action, Batch, Event,
    IoFailure, Outcome, Step, WriteFailure,
};

#[test]
fn regular_file_gains_group_write_and_other_read() {
    // owner rwx, group r, other nothing
    let mode: u32 = 0o100740;
    assert_eq!(after_read(Ok(mode)), Step::Write(0o100764));
    assert_eq!(after_write(0o100764, Ok(())), Outcome::Updated(0o100764));
}

#[test]
fn conformant_directory_is_not_written() {
    assert_eq!(after_read(Ok(0o040775)), Step::Done(Outcome::Unchanged));
    assert_eq!(after_read(Ok(0o040777)), Step::Done(Outcome::Unchanged));
    assert_eq!(plan_update(0o040775), None);
}

#[test]
fn conformant_regular_file_is_not_written() {
    assert_eq!(after_read(Ok(0o100664)), Step::Done(Outcome::Unchanged));
    assert_eq!(after_read(Ok(0o100775)), Step::Done(Outcome::Unchanged));
}

#[test]
fn normalising_twice_writes_once() {
    for mode in [0o100000u32, 0o100740, 0o040000, 0o040700, 0o104751] {
        let first = plan_update(mode).expect("a write is due");
        assert_eq!(plan_update(first), None);
    }
}

#[test]
fn existing_bits_are_kept() {
    // set-user-ID and owner execute on a regular file stay
    assert_eq!(plan_update(0o104751), Some(0o104775));
    assert_eq!(plan_update(0o100702), Some(0o100766));
    let n = plan_update(0o100123).unwrap();
    assert_eq!(n & 0o100123, 0o100123);
}

#[test]
fn bare_directory_gets_rwxrwxr_x() {
    assert_eq!(after_read(Ok(0o040000)), Step::Write(0o040775));
}

#[test]
fn bare_regular_file_gets_rw_rw_r() {
    assert_eq!(after_read(Ok(0o100000)), Step::Write(0o100664));
}

#[test]
fn other_types_are_skipped() {
    let kinds = [0o120000u32, 0o020000, 0o060000, 0o010000, 0o140000, 0o000000];
    for kind in kinds {
        for perms in [0o000u32, 0o777, 0o644] {
            assert_eq!(after_read(Ok(kind | perms)), Step::Done(Outcome::Skipped));
            assert_eq!(plan_update(kind | perms), None);
            assert!(!is_in_scope(kind | perms));
        }
    }
}

#[test]
fn directories_and_files_are_in_scope() {
    assert!(is_in_scope(0o040000));
    assert!(is_in_scope(0o100644));
    assert!(!is_in_scope(0o120777));
}

#[test]
fn read_not_found_is_benign() {
    assert_eq!(after_read(Err(IoFailure::NotFound)), Step::Done(Outcome::Vanished));
}

#[test]
fn read_failure_is_an_error() {
    assert_eq!(after_read(Err(IoFailure::Other)), Step::Done(Outcome::ReadError));
}

#[test]
fn write_failures_are_classified() {
    let m: u32 = 0o100664;
    assert_eq!(after_write(m, Err(WriteFailure::Io(IoFailure::NotFound))), Outcome::Vanished);
    assert_eq!(after_write(m, Err(WriteFailure::Io(IoFailure::Other))), Outcome::WriteError);
    assert_eq!(after_write(m, Err(WriteFailure::InvalidMode)), Outcome::InvalidMode);
}

#[test]
fn only_missing_paths_go_unreported() {
    assert!(!should_log_io_error(&IoFailure::NotFound));
    assert!(should_log_io_error(&IoFailure::Other));
}

#[test]
fn batch_goes_on_after_read_error() {
    let mut batch = Batch::new(3);
    assert_eq!(batch.next_action(), Action::Read(0));
    assert_eq!(batch.handle(Event::Read(Ok(0o100600))), Action::Write(0, 0o100664));
    assert_eq!(batch.handle(Event::Written(Ok(()))), Action::Read(1));
    assert_eq!(batch.handle(Event::Read(Err(IoFailure::Other))), Action::Read(2));
    assert_eq!(batch.handle(Event::Read(Ok(0o040755))), Action::Write(2, 0o040775));
    assert_eq!(batch.handle(Event::Written(Ok(()))), Action::Finish);
    assert_eq!(
        batch.outcomes().clone(),
        vec![Outcome::Updated(0o100664), Outcome::ReadError, Outcome::Updated(0o040775)]
    );
}

#[test]
fn batch_keeps_duplicates_and_every_outcome() {
    let mut batch = Batch::new(4);
    assert_eq!(batch.handle(Event::Read(Ok(0o100664))), Action::Read(1));
    assert_eq!(batch.handle(Event::Read(Ok(0o100664))), Action::Read(2));
    assert_eq!(batch.handle(Event::Read(Err(IoFailure::NotFound))), Action::Read(3));
    assert_eq!(batch.handle(Event::Read(Ok(0o120777))), Action::Finish);
    assert_eq!(
        batch.outcomes().clone(),
        vec![Outcome::Unchanged, Outcome::Unchanged, Outcome::Vanished, Outcome::Skipped]
    );
}

#[test]
fn batch_write_failure_does_not_stop_it() {
    let mut batch = Batch::new(2);
    assert_eq!(batch.handle(Event::Read(Ok(0o040000))), Action::Write(0, 0o040775));
    assert_eq!(
        batch.handle(Event::Written(Err(WriteFailure::Io(IoFailure::Other)))),
        Action::Read(1)
    );
    assert_eq!(batch.handle(Event::Read(Ok(0o100000))), Action::Write(1, 0o100664));
    assert_eq!(batch.handle(Event::Written(Err(WriteFailure::InvalidMode))), Action::Finish);
    assert_eq!(batch.outcomes().clone(), vec![Outcome::WriteError, Outcome::InvalidMode]);
}

#[test]
fn batch_ignores_an_event_out_of_turn() {
    let mut batch = Batch::new(1);
    assert_eq!(batch.handle(Event::Written(Ok(()))), Action::Read(0));
    assert_eq!(batch.handle(Event::Read(Ok(0o100000))), Action::Write(0, 0o100664));
    assert_eq!(batch.handle(Event::Read(Ok(0o100000))), Action::Write(0, 0o100664));
    assert!(batch.outcomes().is_empty());
}

#[test]
fn empty_batch_is_finished() {
    let mut batch = Batch::new(0);
    assert_eq!(batch.next_action(), Action::Finish);
    assert_eq!(batch.handle(Event::Read(Ok(0o100000))), Action::Finish);
    assert!(batch.outcomes().is_empty());
}
