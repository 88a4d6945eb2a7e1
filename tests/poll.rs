use rust_maui::error::MauiError;
use rust_maui::poll::{reply_status, PollKind, PollStep, Poller, Status};

fn run_wait(mut poller: Poller, replies: &[&str]) -> (usize, PollStep) {
    let mut queries = 0;
    loop {
        let _query = poller.query_text();
        let reply = replies[queries];
        queries += 1;
        match poller.on_reply(reply) {
            PollStep::Sleep(_) => continue,
            step => return (queries, step),
        }
    }
}

#[test]
fn opc_wait_queries_until_done() {
    for n in [0usize, 1, 5] {
        let mut replies = vec!["0"; n];
        replies.push("1");
        replies.push("0");
        let (queries, step) = run_wait(Poller::unbounded(PollKind::OperationComplete), &replies);
        assert_eq!(queries, n + 1);
        assert_eq!(step, PollStep::Done);
    }
}

#[test]
fn opc_wait_fails_on_unknown_reply() {
    let (queries, step) = run_wait(Poller::unbounded(PollKind::OperationComplete), &["2", "1"]);
    assert_eq!(queries, 1);
    assert_eq!(step, PollStep::Fail(MauiError::ProtocolViolation));
}

#[test]
fn opc_wait_sleeps_its_interval() {
    let mut poller = Poller::unbounded(PollKind::OperationComplete);
    assert_eq!(poller.query_text(), "*OPC?");
    assert_eq!(poller.on_reply("0"), PollStep::Sleep(10));
}

#[test]
fn fill_wait_reads_fourth_field() {
    let mut poller = Poller::unbounded(PollKind::FillComplete);
    assert_eq!(poller.query_text(), "STST?");
    assert_eq!(poller.on_reply("C1,HDD,AUTO,FILL,x"), PollStep::Sleep(50_000));
    assert_eq!(poller.on_reply("C1,HDD,AUTO,OFF,x"), PollStep::Done);
    assert_eq!(poller.on_reply("C1,HDD,AUTO,OFF"), PollStep::Done);
}

#[test]
fn fill_wait_fails_on_short_reply() {
    let mut poller = Poller::unbounded(PollKind::FillComplete);
    assert_eq!(poller.on_reply("C1,HDD,AUTO"), PollStep::Fail(MauiError::ProtocolViolation));
}

#[test]
fn bounded_wait_times_out() {
    let mut poller = Poller::new(PollKind::OperationComplete, 10, Some(25));
    assert_eq!(poller.on_reply("0"), PollStep::Sleep(10));
    assert_eq!(poller.on_reply("0"), PollStep::Sleep(10));
    assert_eq!(poller.on_reply("0"), PollStep::Fail(MauiError::Timeout));
    assert_eq!(poller.waited_us, 20);
}

#[test]
fn bounded_wait_still_finishes() {
    let mut poller = Poller::new(PollKind::FillComplete, 5, Some(5));
    assert_eq!(poller.on_reply("a,b,c,WRAP"), PollStep::Sleep(5));
    assert_eq!(poller.on_reply("a,b,c,OFF"), PollStep::Done);
}

#[test]
fn reply_status_readings() {
    assert_eq!(reply_status(PollKind::OperationComplete, "1"), Status::Finished);
    assert_eq!(reply_status(PollKind::OperationComplete, "0"), Status::InProgress);
    assert_eq!(reply_status(PollKind::OperationComplete, "10"), Status::Invalid);
    assert_eq!(reply_status(PollKind::OperationComplete, ""), Status::Invalid);
}

#[test]
fn opc_wait_fails_on_unknown_reply_after_busy_ones() {
    let (queries, step) = run_wait(Poller::unbounded(PollKind::OperationComplete), &["0", "0", "busy", "1"]);
    assert_eq!(queries, 3);
    assert_eq!(step, PollStep::Fail(MauiError::ProtocolViolation));
}
