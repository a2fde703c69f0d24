use batter::writer::{consumer_action, ConsumerAction, ConsumerEvent, JoinStep, Lifecycle, WriteRefused};

#[test]
fn a_new_writer_takes_writes() {
    let writer = Lifecycle::new();
    assert_eq!(writer.accept_write(), Ok(()));
}

#[test]
fn a_write_after_join_is_refused() {
    let mut writer = Lifecycle::new();
    assert_eq!(writer.join(), JoinStep::AwaitConsumer);
    assert_eq!(writer.accept_write(), Err(WriteRefused::NotRunning));
}

#[test]
fn only_the_first_join_waits_for_the_background_task() {
    let mut writer = Lifecycle::new();
    assert_eq!(writer.join(), JoinStep::AwaitConsumer);
    assert_eq!(writer.join(), JoinStep::NothingLeft);
    assert_eq!(writer.join(), JoinStep::NothingLeft);
    assert_eq!(writer.accept_write(), Err(WriteRefused::NotRunning));
}

#[test]
fn the_background_task_starts_jobs_and_reports_finished_ones() {
    assert_eq!(consumer_action(ConsumerEvent::Job), ConsumerAction::Spawn);
    assert_eq!(consumer_action(ConsumerEvent::Finished), ConsumerAction::Report);
}

#[test]
fn the_background_task_closes_its_channel_only_on_shutdown() {
    assert_eq!(consumer_action(ConsumerEvent::Shutdown), ConsumerAction::StopReceiving { close: true });
    assert_eq!(consumer_action(ConsumerEvent::Closed), ConsumerAction::StopReceiving { close: false });
}
