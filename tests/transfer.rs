use rust_maui::error::MauiError;
use rust_maui::transfer::{Direction, Next, Reply, Request, Transfer, TransferPlan};

/// Drives a transfer against scripted outcomes, recording every request.
fn drive(plan: TransferPlan, exists: bool, file: &[u8], response: &[u8]) -> (Vec<Request>, Next) {
    let mut transfer = Transfer::start(plan);
    let mut requests = Vec::new();
    let mut reply = Reply::Start;
    loop {
        match transfer.advance(reply) {
            Next::Do(request) => {
                reply = match &request {
                    Request::CreateFile(_) => {
                        if exists {
                            Reply::Exists
                        } else {
                            Reply::Created
                        }
                    }
                    Request::ReadFile(_) => Reply::Contents(file.to_vec()),
                    Request::Command(_) | Request::SendBlock(_, _) => Reply::Sent,
                    Request::Query(_) | Request::QueryRaw(_) => Reply::Response(response.to_vec()),
                    Request::WriteFile(_) => Reply::Written,
                };
                requests.push(request);
            }
            end => return (requests, end),
        }
    }
}

fn is_channel(r: &Request) -> bool {
    matches!(r, Request::Command(_) | Request::SendBlock(_, _) | Request::Query(_) | Request::QueryRaw(_))
}

#[test]
fn save_panel_setup_adds_extension() {
    let plan = TransferPlan::save_panel_setup("foo");
    assert_eq!(plan.local_path, "foo.lss");
    assert_eq!(plan.direction, Direction::Download);
    let (requests, end) = drive(plan, false, b"", b"#9000000004DATAffffffff");
    assert!(matches!(end, Next::Done));
    assert!(matches!(&requests[0], Request::CreateFile(p) if p == "foo.lss"));
    assert!(matches!(&requests[1], Request::Query(q) if q == "PNSU?"));
    assert!(matches!(&requests[2], Request::WriteFile(b) if b == b"DATA"));
    assert_eq!(requests.len(), 3);
}

#[test]
fn save_panel_setup_keeps_extension() {
    assert_eq!(TransferPlan::save_panel_setup("dir/setup.lss").local_path, "dir/setup.lss");
}

#[test]
fn load_panel_setup_rejects_other_extension() {
    assert_eq!(TransferPlan::load_panel_setup("foo.txt").unwrap_err(), MauiError::InvalidExtension);
    assert_eq!(TransferPlan::load_panel_setup("foo").unwrap_err(), MauiError::InvalidExtension);
}

#[test]
fn load_panel_setup_sends_framed_file() {
    let plan = TransferPlan::load_panel_setup("foo.lss").unwrap();
    let (requests, end) = drive(plan, false, b"XY", b"");
    assert!(matches!(end, Next::Done));
    assert!(matches!(&requests[0], Request::ReadFile(p) if p == "foo.lss"));
    match &requests[1] {
        Request::SendBlock(head, block) => {
            assert_eq!(head, "PNSU ");
            assert_eq!(block, &b"#9000000010XYffffffff".to_vec());
        }
        other => panic!("unexpected request {:?}", other),
    }
}

#[test]
fn download_into_existing_path_fails_without_channel_calls() {
    for plan in [
        TransferPlan::save_panel_setup("foo"),
        TransferPlan::file_from_device("d/f.txt", "local.txt"),
        TransferPlan::screen_capture("shot"),
    ] {
        let (requests, end) = drive(plan, true, b"", b"");
        assert!(matches!(end, Next::Fail(MauiError::DestinationExists)));
        assert_eq!(requests.len(), 1);
        assert!(!requests.iter().any(is_channel));
    }
}

#[test]
fn file_to_device_request_text() {
    let plan = TransferPlan::file_to_device("a/b.txt", "local.txt");
    assert_eq!(plan.request, "TRANSFER_FILE DISK,HDD,FILE,'a\\b.txt',");
    let (requests, end) = drive(plan, false, b"hi", b"");
    assert!(matches!(end, Next::Done));
    assert!(matches!(&requests[1], Request::SendBlock(_, b) if b == b"#9000000010hiffffffff"));
}

#[test]
fn file_from_device_request_text() {
    let plan = TransferPlan::file_from_device("a/b.txt", "local.txt");
    assert_eq!(plan.request, "TRANSFER_FILE? DISK,HDD,FILE,'a\\b.txt'");
    let (requests, end) = drive(plan, false, b"", b"#9000000002hi00000000");
    assert!(matches!(end, Next::Done));
    assert!(matches!(&requests[2], Request::WriteFile(b) if b == b"hi"));
}

#[test]
fn download_of_bad_block_fails() {
    let plan = TransferPlan::file_from_device("f", "local.txt");
    let (_, end) = drive(plan, false, b"", b"short");
    assert!(matches!(end, Next::Fail(MauiError::Decoding)));
}

#[test]
fn screen_capture_configures_then_reads_raw() {
    let plan = TransferPlan::screen_capture("shot");
    assert_eq!(plan.local_path, "shot.jpeg");
    let (requests, end) = drive(plan, false, b"", b"#9000000003IMGffffffff");
    assert!(matches!(end, Next::Done));
    assert!(matches!(&requests[1], Request::Command(c)
        if c == "HCSU DEV,JPEG,FORMAT,LANDSCAPE,BCKG,BLACK,DEST,REMOTE,AREA,FULLSCREEN"));
    assert!(matches!(&requests[2], Request::QueryRaw(q) if q == "SCDP?"));
    assert!(matches!(&requests[3], Request::WriteFile(b) if b == b"IMG"));
    assert_eq!(TransferPlan::screen_capture("a.jpeg").local_path, "a.jpeg");
}

#[test]
fn reply_out_of_sequence_fails() {
    let mut transfer = Transfer::start(TransferPlan::save_panel_setup("foo"));
    assert!(matches!(transfer.advance(Reply::Written), Next::Fail(MauiError::OutOfSequence)));
    assert!(transfer.is_finished());
}
