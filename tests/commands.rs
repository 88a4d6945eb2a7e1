use rust_maui::commands::{
    attenuation_command, auto_setup_command, autosave_path_commands, autosave_trace_command,
    bandwidth_limit_command, channel_query, check_channel, connection_setup_commands,
    create_directory_commands, delete_all_commands, delete_file_command, is_trace,
    parse_bandwidth_limit, parse_log_level, parse_u16, remote_log_query, vbs_command_text,
    vbs_query_text, wait_command,
};
use rust_maui::error::MauiError;

#[test]
fn channel_range() {
    assert_eq!(check_channel(0), Err(MauiError::InvalidParameter));
    assert_eq!(check_channel(1), Ok(()));
    assert_eq!(check_channel(4), Ok(()));
    assert_eq!(check_channel(5), Err(MauiError::InvalidParameter));
}

#[test]
fn wait_texts() {
    assert_eq!(wait_command(None), "WAIT");
    assert_eq!(wait_command(Some(12)), "WAIT 12");
    assert_eq!(wait_command(Some(0)), "WAIT 0");
}

#[test]
fn auto_setup_texts() {
    assert_eq!(auto_setup_command(2, true).unwrap(), "C2:ASET FIND");
    assert_eq!(auto_setup_command(3, false).unwrap(), "C3:ASET");
    assert_eq!(auto_setup_command(9, false), Err(MauiError::InvalidParameter));
}

#[test]
fn attenuation_texts() {
    assert_eq!(attenuation_command(1, 10).unwrap(), "C1:ATTN 10");
    assert_eq!(attenuation_command(4, 10000).unwrap(), "C4:ATTN 10000");
    assert_eq!(attenuation_command(1, 0), Err(MauiError::InvalidParameter));
    assert_eq!(attenuation_command(1, 10001), Err(MauiError::InvalidParameter));
    assert_eq!(channel_query(2, "ATTN?").unwrap(), "C2:ATTN?");
}

#[test]
fn parse_numbers() {
    assert_eq!(parse_u16("10"), Ok(10));
    assert_eq!(parse_u16("0065535"), Ok(65535));
    assert_eq!(parse_u16("65536"), Err(MauiError::ProtocolViolation));
    assert_eq!(parse_u16("12a"), Err(MauiError::ProtocolViolation));
    assert_eq!(parse_u16(""), Err(MauiError::ProtocolViolation));
    assert_eq!(parse_u16("999999x"), Err(MauiError::ProtocolViolation));
}

#[test]
fn bandwidth_limit_texts() {
    assert_eq!(bandwidth_limit_command(1, None).unwrap(), "C1:BWL OFF");
    assert_eq!(bandwidth_limit_command(1, Some(20_000_000)), Err(MauiError::InvalidParameter));
    assert_eq!(parse_bandwidth_limit("OFF"), Ok(None));
    assert_eq!(parse_bandwidth_limit("200MHZ"), Ok(Some(200_000_000)));
    assert_eq!(parse_bandwidth_limit("6GHZ"), Ok(Some(6_000_000_000)));
    assert_eq!(parse_bandwidth_limit("7GHZ"), Err(MauiError::ProtocolViolation));
}

#[test]
fn log_texts() {
    assert_eq!(remote_log_query(true), "CHL? CLR");
    assert_eq!(remote_log_query(false), "CHL?");
    assert_eq!(parse_log_level("FD,YES").unwrap(), "full dialog");
    assert_eq!(parse_log_level("EO").unwrap(), "errors only");
    assert_eq!(parse_log_level("OFF,NO").unwrap(), "off");
    assert_eq!(parse_log_level("XX,YES"), Err(MauiError::ProtocolViolation));
}

#[test]
fn autosave_texts() {
    assert!(is_trace("F3"));
    assert!(!is_trace("C5"));
    assert_eq!(autosave_trace_command("ALL_DISPLAYED").unwrap(), "STORE_SETUP ALL_DISPLAYED,HDD");
    assert_eq!(autosave_trace_command("c1"), Err(MauiError::InvalidParameter));
    let (a, b, c) = autosave_path_commands("data/run1", "trace");
    assert_eq!(a, "VBS 'app.SaveRecall.Waveform.SaveTo=\"File\"'");
    assert_eq!(b, "VBS 'app.SaveRecall.Waveform.WaveformDir=\"\\data\\run1\\\"'");
    assert_eq!(c, "VBS 'app.SaveRecall.Waveform.TraceTitle=\"trace\"'");
}

#[test]
fn storage_texts() {
    let (a, b) = create_directory_commands("x/y");
    assert_eq!(a, "VBS 'app.SaveRecall.Utilities.Directory=\"\\x\\y\\\"'");
    assert_eq!(b, "VBS 'app.SaveRecall.Utilities.CreateDir';");
    let (c, d) = delete_all_commands("\\x\\");
    assert_eq!(c, "VBS 'app.SaveRecall.Utilities.Directory=\"\\x\\\"'");
    assert_eq!(d, "VBS 'app.SaveRecall.Utilities.DeleteAll'");
    assert_eq!(delete_file_command("x/y.txt"), "DELETE_FILE DISK,HDD,FILE,'x\\y.txt'");
}

#[test]
fn vbs_and_setup_texts() {
    assert_eq!(vbs_command_text("app.Acquisition.C1.View=True"), "VBS'app.Acquisition.C1.View=True';");
    assert_eq!(vbs_query_text("app.InstrumentID"), "VBS'Return=app.InstrumentID';");
    assert_eq!(connection_setup_commands(), vec!["CHDR OFF", "*ESE 255", "INE 32735"]);
}
