//! Command texts of the device's parameter catalogue, the checks made before
//! they are sent, and the readings of the device's replies.
use vstd::prelude::*;
use crate::error::MauiError;
use crate::fields::{field, nth_field};
use crate::path::{device_path, to_device_path};
use crate::text::{decimal, push_decimal, push_text, same_text, text_of};

verus! {

/// Lowest input channel number.
pub const FIRST_CHANNEL: u8 = 1;

/// Highest input channel number.
pub const LAST_CHANNEL: u8 = 4;

/// Largest probe attenuation factor.
pub const MAX_ATTENUATION: u16 = 10000;

/// Whether `channel` names an input channel.
pub open spec fn is_channel(channel: u8) -> bool {
    FIRST_CHANNEL <= channel <= LAST_CHANNEL
}

/// `C<n>:` followed by `tail`.
pub open spec fn channel_command(channel: u8, tail: Seq<char>) -> Seq<char> {
    "C"@ + decimal(channel as nat) + ":"@ + tail
}

/// Checks a channel number; fails with `InvalidParameter` outside one to four.
pub fn check_channel(channel: u8) -> (r: Result<(), MauiError>)
    ensures
        r is Ok <==> is_channel(channel),
        !is_channel(channel) ==> r == Err::<(), MauiError>(MauiError::InvalidParameter),
{
    if channel < FIRST_CHANNEL || channel > LAST_CHANNEL {
        Err(MauiError::InvalidParameter)
    } else {
        Ok(())
    }
}

fn channel_text(channel: u8, tail: &str) -> (r: String)
    ensures
        r@ == channel_command(channel, tail@),
{
    let mut s = text_of("C");
    push_decimal(&mut s, channel as u64);
    push_text(&mut s, ":");
    push_text(&mut s, tail);
    s
}

/// The `WAIT` command, with its timeout in seconds when one is given.
pub fn wait_command(timeout_secs: Option<u64>) -> (r: String)
    ensures
        timeout_secs is None ==> r@ == "WAIT"@,
        timeout_secs is Some ==> r@ == "WAIT "@ + decimal(timeout_secs->Some_0 as nat),
{
    match timeout_secs {
        None => text_of("WAIT"),
        Some(secs) => {
            let mut s = text_of("WAIT ");
            push_decimal(&mut s, secs);
            s
        },
    }
}

/// The auto-setup command of a channel, restricted to that channel with `find`.
pub fn auto_setup_command(channel: u8, find: bool) -> (r: Result<String, MauiError>)
    ensures
        !is_channel(channel) ==> r == Err::<String, MauiError>(MauiError::InvalidParameter),
        is_channel(channel) && find ==> r is Ok && r->Ok_0@ == channel_command(channel, "ASET FIND"@),
        is_channel(channel) && !find ==> r is Ok && r->Ok_0@ == channel_command(channel, "ASET"@),
{
    check_channel(channel)?;
    if find {
        Ok(channel_text(channel, "ASET FIND"))
    } else {
        Ok(channel_text(channel, "ASET"))
    }
}

/// The command that sets a channel's probe attenuation, from one to ten thousand.
pub fn attenuation_command(channel: u8, attenuation: u16) -> (r: Result<String, MauiError>)
    ensures
        is_channel(channel) && 1 <= attenuation <= MAX_ATTENUATION ==> r is Ok && r->Ok_0@
            == channel_command(channel, "ATTN "@ + decimal(attenuation as nat)),
        !(is_channel(channel) && 1 <= attenuation <= MAX_ATTENUATION) ==> r == Err::<String, MauiError>(
            MauiError::InvalidParameter,
        ),
{
    check_channel(channel)?;
    if attenuation < 1 || attenuation > MAX_ATTENUATION {
        return Err(MauiError::InvalidParameter);
    }
    let mut s = channel_text(channel, "ATTN ");
    push_decimal(&mut s, attenuation as u64);
    Ok(s)
}

/// A channel query such as `C1:ATTN?`, for a valid channel.
pub fn channel_query(channel: u8, tail: &str) -> (r: Result<String, MauiError>)
    ensures
        is_channel(channel) ==> r is Ok && r->Ok_0@ == channel_command(channel, tail@),
        !is_channel(channel) ==> r == Err::<String, MauiError>(MauiError::InvalidParameter),
{
    check_channel(channel)?;
    Ok(channel_text(channel, tail))
}

/// Whether `c` is an ASCII decimal digit.
pub open spec fn is_digit(c: char) -> bool {
    '0' <= c <= '9'
}

/// The value of a text of decimal digits.
pub open spec fn decimal_value(s: Seq<char>) -> nat
    decreases s.len(),
{
    if s.len() == 0 {
        0
    } else {
        decimal_value(s.drop_last()) * 10 + (s.last() as nat - '0' as nat) as nat
    }
}

/// Whether `s` is a non-empty run of decimal digits.
pub open spec fn is_decimal_text(s: Seq<char>) -> bool {
    s.len() > 0 && forall|i: int| 0 <= i < s.len() ==> is_digit(#[trigger] s[i])
}

proof fn lemma_value_grows(s: Seq<char>, i: int)
    requires
        0 <= i <= s.len(),
        forall|j: int| 0 <= j < s.len() ==> is_digit(#[trigger] s[j]),
    ensures
        decimal_value(s.subrange(0, i)) <= decimal_value(s),
    decreases s.len() - i,
{
    if i < s.len() {
        lemma_value_grows(s, i + 1);
        let t = s.subrange(0, i + 1);
        assert(t.drop_last() =~= s.subrange(0, i));
    } else {
        assert(s.subrange(0, i) =~= s);
    }
}

/// Reads a reply holding an unsigned sixteen-bit decimal number. Anything
/// else is a `ProtocolViolation`.
pub fn parse_u16(reply: &str) -> (r: Result<u16, MauiError>)
    ensures
        is_decimal_text(reply@) && decimal_value(reply@) <= u16::MAX ==> r == Ok::<u16, MauiError>(
            decimal_value(reply@) as u16,
        ),
        !(is_decimal_text(reply@) && decimal_value(reply@) <= u16::MAX) ==> r == Err::<u16, MauiError>(
            MauiError::ProtocolViolation,
        ),
{
    let n = reply.unicode_len();
    if n == 0 {
        return Err(MauiError::ProtocolViolation);
    }
    let mut acc: u32 = 0;
    let mut i: usize = 0;
    while i < n
        invariant
            n == reply@.len(),
            i <= n,
            acc <= u16::MAX,
            acc == decimal_value(reply@.subrange(0, i as int)),
            forall|j: int| 0 <= j < i ==> is_digit(#[trigger] reply@[j]),
        decreases n - i,
    {
        let c = reply.get_char(i);
        if c < '0' || c > '9' {
            return Err(MauiError::ProtocolViolation);
        }
        let d: u32 = (c as u32) - ('0' as u32);
        let next: u32 = acc * 10 + d;
        assert(reply@.subrange(0, i + 1).drop_last() =~= reply@.subrange(0, i as int));
        if next > u16::MAX as u32 {
            proof {
                if is_decimal_text(reply@) {
                    lemma_value_grows(reply@, i + 1);
                }
            }
            return Err(MauiError::ProtocolViolation);
        }
        acc = next;
        i = i + 1;
    }
    assert(reply@.subrange(0, n as int) =~= reply@);
    Ok(acc as u16)
}

/// The command that sets a channel's bandwidth limit. Only switching the
/// limit off (`None`) is supported; any value is refused.
pub fn bandwidth_limit_command(channel: u8, bandwidth_limit: Option<u64>) -> (r: Result<String, MauiError>)
    ensures
        is_channel(channel) && bandwidth_limit is None ==> r is Ok && r->Ok_0@ == channel_command(
            channel,
            "BWL OFF"@,
        ),
        !(is_channel(channel) && bandwidth_limit is None) ==> r == Err::<String, MauiError>(
            MauiError::InvalidParameter,
        ),
{
    check_channel(channel)?;
    match bandwidth_limit {
        Some(_) => Err(MauiError::InvalidParameter),
        None => Ok(channel_text(channel, "BWL OFF")),
    }
}

/// The bandwidth limit in hertz that a reply to `BWL?` names: `None` for
/// `OFF`, no reading for a word outside the documented set.
pub open spec fn bandwidth_of(reply: Seq<char>) -> Option<Option<u64>> {
    if reply == "OFF"@ { Some(None) }
    else if reply == "20MHZ"@ { Some(Some(20_000_000)) }
    else if reply == "200MHZ"@ { Some(Some(200_000_000)) }
    else if reply == "500MHZ"@ { Some(Some(500_000_000)) }
    else if reply == "1GHZ"@ { Some(Some(1_000_000_000)) }
    else if reply == "2GHZ"@ { Some(Some(2_000_000_000)) }
    else if reply == "3GHZ"@ { Some(Some(3_000_000_000)) }
    else if reply == "4GHZ"@ { Some(Some(4_000_000_000)) }
    else if reply == "6GHZ"@ { Some(Some(6_000_000_000)) }
    else { None }
}

/// Reads a reply to `BWL?`; a word outside the documented set is a
/// `ProtocolViolation`.
pub fn parse_bandwidth_limit(reply: &str) -> (r: Result<Option<u64>, MauiError>)
    ensures
        match bandwidth_of(reply@) {
            Some(v) => r == Ok::<Option<u64>, MauiError>(v),
            None => r == Err::<Option<u64>, MauiError>(MauiError::ProtocolViolation),
        },
{
    if same_text(reply, "OFF") { Ok(None) }
    else if same_text(reply, "20MHZ") { Ok(Some(20_000_000)) }
    else if same_text(reply, "200MHZ") { Ok(Some(200_000_000)) }
    else if same_text(reply, "500MHZ") { Ok(Some(500_000_000)) }
    else if same_text(reply, "1GHZ") { Ok(Some(1_000_000_000)) }
    else if same_text(reply, "2GHZ") { Ok(Some(2_000_000_000)) }
    else if same_text(reply, "3GHZ") { Ok(Some(3_000_000_000)) }
    else if same_text(reply, "4GHZ") { Ok(Some(4_000_000_000)) }
    else if same_text(reply, "6GHZ") { Ok(Some(6_000_000_000)) }
    else { Err(MauiError::ProtocolViolation) }
}

/// The query for the remote log, which asks the device to clear the log
/// once sent when `clear_log` is set.
pub fn remote_log_query(clear_log: bool) -> (r: String)
    ensures
        clear_log ==> r@ == "CHL? CLR"@,
        !clear_log ==> r@ == "CHL?"@,
{
    if clear_log {
        text_of("CHL? CLR")
    } else {
        text_of("CHL?")
    }
}

/// The readable name of a log level word.
pub open spec fn log_level_of(word: Seq<char>) -> Option<Seq<char>> {
    if word == "OFF"@ { Some("off"@) }
    else if word == "FD"@ { Some("full dialog"@) }
    else if word == "EO"@ { Some("errors only"@) }
    else { None }
}

/// Reads a reply to `CHLP?`, whose first comma-separated field is the log
/// level; a level outside the documented set is a `ProtocolViolation`.
pub fn parse_log_level(reply: &str) -> (r: Result<String, MauiError>)
    ensures
        match log_level_of(field(reply@, ',', 0).unwrap()) {
            Some(name) => r is Ok && r->Ok_0@ == name,
            None => r == Err::<String, MauiError>(MauiError::ProtocolViolation),
        },
{
    let word = match nth_field(reply, ',', 0) {
        Some(w) => w,
        None => return Err(MauiError::ProtocolViolation),
    };
    if same_text(word.as_str(), "OFF") {
        Ok(text_of("off"))
    } else if same_text(word.as_str(), "FD") {
        Ok(text_of("full dialog"))
    } else if same_text(word.as_str(), "EO") {
        Ok(text_of("errors only"))
    } else {
        Err(MauiError::ProtocolViolation)
    }
}

/// The traces whose data autosave can write.
pub open spec fn traces() -> Seq<Seq<char>> {
    seq!["C1"@, "C2"@, "C3"@, "C4"@, "F1"@, "F2"@, "F3"@, "F4"@, "ALL_DISPLAYED"@]
}

/// Whether `trace` is one of the traces autosave can write.
pub fn is_trace(trace: &str) -> (r: bool)
    ensures
        r == traces().contains(trace@),
{
    let names: [&str; 9] = ["C1", "C2", "C3", "C4", "F1", "F2", "F3", "F4", "ALL_DISPLAYED"];
    let mut i: usize = 0;
    while i < 9
        invariant
            i <= 9,
            forall|j: int| 0 <= j < 9 ==> (#[trigger] names@[j])@ == traces()[j],
            forall|j: int| 0 <= j < i ==> traces()[j] != trace@,
        decreases 9 - i,
    {
        if same_text(trace, names[i]) {
            assert(traces()[i as int] == trace@);
            return true;
        }
        i = i + 1;
    }
    false
}

/// The command that selects the trace autosave writes; fails with
/// `InvalidParameter` for a trace outside the set.
pub fn autosave_trace_command(trace: &str) -> (r: Result<String, MauiError>)
    ensures
        traces().contains(trace@) ==> r is Ok && r->Ok_0@ == "STORE_SETUP "@ + trace@ + ",HDD"@,
        !traces().contains(trace@) ==> r == Err::<String, MauiError>(MauiError::InvalidParameter),
{
    if !is_trace(trace) {
        return Err(MauiError::InvalidParameter);
    }
    let mut s = text_of("STORE_SETUP ");
    push_text(&mut s, trace);
    push_text(&mut s, ",HDD");
    Ok(s)
}

/// The three commands that make autosave write files named after
/// `trace_title` into `directory`.
pub fn autosave_path_commands(directory: &str, trace_title: &str) -> (r: (String, String, String))
    ensures
        r.0@ == "VBS 'app.SaveRecall.Waveform.SaveTo=\"File\"'"@,
        r.1@ == "VBS 'app.SaveRecall.Waveform.WaveformDir=\""@ + device_path(directory@, true) + "\"'"@,
        r.2@ == "VBS 'app.SaveRecall.Waveform.TraceTitle=\""@ + trace_title@ + "\"'"@,
{
    let save_to = text_of("VBS 'app.SaveRecall.Waveform.SaveTo=\"File\"'");
    let mut dir = text_of("VBS 'app.SaveRecall.Waveform.WaveformDir=\"");
    let d = to_device_path(directory, true);
    push_text(&mut dir, d.as_str());
    push_text(&mut dir, "\"'");
    let mut title = text_of("VBS 'app.SaveRecall.Waveform.TraceTitle=\"");
    push_text(&mut title, trace_title);
    push_text(&mut title, "\"'");
    (save_to, dir, title)
}

/// The command that points the device's file utilities at a directory.
pub open spec fn select_directory(directory: Seq<char>) -> Seq<char> {
    "VBS 'app.SaveRecall.Utilities.Directory=\""@ + device_path(directory, true) + "\"'"@
}

fn select_directory_command(directory: &str) -> (r: String)
    ensures
        r@ == select_directory(directory@),
{
    let mut s = text_of("VBS 'app.SaveRecall.Utilities.Directory=\"");
    let d = to_device_path(directory, true);
    push_text(&mut s, d.as_str());
    push_text(&mut s, "\"'");
    s
}

/// The two commands that create a directory on the device.
pub fn create_directory_commands(directory: &str) -> (r: (String, String))
    ensures
        r.0@ == select_directory(directory@),
        r.1@ == "VBS 'app.SaveRecall.Utilities.CreateDir';"@,
{
    (select_directory_command(directory), text_of("VBS 'app.SaveRecall.Utilities.CreateDir';"))
}

/// The two commands that delete every file in a directory on the device.
pub fn delete_all_commands(directory: &str) -> (r: (String, String))
    ensures
        r.0@ == select_directory(directory@),
        r.1@ == "VBS 'app.SaveRecall.Utilities.DeleteAll'"@,
{
    (select_directory_command(directory), text_of("VBS 'app.SaveRecall.Utilities.DeleteAll'"))
}

/// The command that deletes one file on the device.
pub fn delete_file_command(filepath: &str) -> (r: String)
    ensures
        r@ == "DELETE_FILE DISK,HDD,FILE,'"@ + device_path(filepath@, false) + "'"@,
{
    let mut s = text_of("DELETE_FILE DISK,HDD,FILE,'");
    let d = to_device_path(filepath, false);
    push_text(&mut s, d.as_str());
    push_text(&mut s, "'");
    s
}

/// A VBS command wrapped for the device.
pub fn vbs_command_text(vbs_cmd: &str) -> (r: String)
    ensures
        r@ == "VBS'"@ + vbs_cmd@ + "';"@,
{
    let mut s = text_of("VBS'");
    push_text(&mut s, vbs_cmd);
    push_text(&mut s, "';");
    s
}

/// A VBS query wrapped for the device; `Return=` is added here.
pub fn vbs_query_text(vbs_cmd: &str) -> (r: String)
    ensures
        r@ == "VBS'Return="@ + vbs_cmd@ + "';"@,
{
    let mut s = text_of("VBS'Return=");
    push_text(&mut s, vbs_cmd);
    push_text(&mut s, "';");
    s
}

/// Event-enable mask reflecting every standard event in the status byte.
pub const EVENT_MASK: u64 = 255;

/// Mask reflecting the device's internal state changes in the status byte.
pub const INTERNAL_STATE_MASK: u64 = 32735;

/// The commands sent once after connecting: headers off, then the two
/// status masks.
pub fn connection_setup_commands() -> (r: Vec<String>)
    ensures
        r@.len() == 3,
        r@[0]@ == "CHDR OFF"@,
        r@[1]@ == "*ESE "@ + decimal(EVENT_MASK as nat),
        r@[2]@ == "INE "@ + decimal(INTERNAL_STATE_MASK as nat),
{
    let mut ese = text_of("*ESE ");
    push_decimal(&mut ese, EVENT_MASK);
    let mut ine = text_of("INE ");
    push_decimal(&mut ine, INTERNAL_STATE_MASK);
    let mut v: Vec<String> = Vec::new();
    v.push(text_of("CHDR OFF"));
    v.push(ese);
    v.push(ine);
    v
}

} // verus!
