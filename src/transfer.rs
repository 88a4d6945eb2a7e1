//! Block transfers between the controller and the device: panel setups,
//! files and screen captures.
//!
//! A transfer is first planned, which validates its paths before anything
//! touches the device. A `Transfer` then runs the plan one step at a time:
//! each `Next` asks the caller to act on the local filesystem or on the
//! channel, and the caller reports the outcome as a `Reply`. Any failure of
//! the channel or the filesystem ends the transfer at the caller.
//!
//! A download creates its local file before it asks the device for anything,
//! so a destination that already exists ends the transfer with no channel
//! traffic. An upload frames the file's bytes with `encode_upload_block`, whose
//! length field counts the contents and the trailer token; a download
//! unframes the device's reply with `decode_block`.
use vstd::prelude::*;
use crate::codec::{decode_block, encode_upload_block, is_block, unframed, upload_framed, MAX_PAYLOAD, TRAILER_LEN};
use crate::error::MauiError;
use crate::path::{device_path, to_device_path};
use crate::text::{ends_with, has_suffix, push_text, text_of};

verus! {

/// Which way the payload travels.
#[derive(Debug, Clone, Copy, PartialEq, Eq, Structural)]
pub enum Direction {
    /// From a local file to the device.
    Upload,
    /// From the device to a new local file.
    Download,
}

/// The steps of one transfer, fixed before it starts.
#[derive(Debug, Clone)]
pub struct TransferPlan {
    pub direction: Direction,
    /// The local file read (upload) or created (download).
    pub local_path: String,
    /// A command sent before a download's query, if any.
    pub prelude: Option<String>,
    /// A download's query, or the text that precedes an upload's block.
    pub request: String,
    /// Whether a download's reply is read as raw bytes.
    pub raw: bool,
}

/// What the caller is asked to do.
#[derive(Debug, Clone)]
pub enum Request {
    /// Create a new local file; report `Exists` if the path is taken.
    CreateFile(String),
    /// Read a local file whole; report `Contents`.
    ReadFile(String),
    /// Send a command; report `Sent`.
    Command(String),
    /// Send a command made of the text followed by the framed block; report `Sent`.
    SendBlock(String, Vec<u8>),
    /// Send a query; report `Response` with the reply's bytes.
    Query(String),
    /// Send a query read as raw bytes; report `Response`.
    QueryRaw(String),
    /// Write the bytes into the file created earlier; report `Written`.
    WriteFile(Vec<u8>),
}

/// What the caller observed.
#[derive(Debug, Clone)]
pub enum Reply {
    Start,
    Created,
    Exists,
    Contents(Vec<u8>),
    Sent,
    Response(Vec<u8>),
    Written,
}

/// The transfer's next move.
#[derive(Debug, Clone)]
pub enum Next {
    Do(Request),
    Done,
    Fail(MauiError),
}

/// A plan in mathematical form.
pub struct PlanV {
    pub direction: Direction,
    pub local_path: Seq<char>,
    pub prelude: Option<Seq<char>>,
    pub request: Seq<char>,
    pub raw: bool,
}

pub enum RequestV {
    CreateFile(Seq<char>),
    ReadFile(Seq<char>),
    Command(Seq<char>),
    SendBlock(Seq<char>, Seq<u8>),
    Query(Seq<char>),
    QueryRaw(Seq<char>),
    WriteFile(Seq<u8>),
}

pub enum ReplyV {
    Start,
    Created,
    Exists,
    Contents(Seq<u8>),
    Sent,
    Response(Seq<u8>),
    Written,
}

pub enum NextV {
    Do(RequestV),
    Done,
    Fail(MauiError),
}

impl View for TransferPlan {
    type V = PlanV;

    open spec fn view(&self) -> PlanV {
        PlanV {
            direction: self.direction,
            local_path: self.local_path@,
            prelude: match self.prelude {
                Some(p) => Some(p@),
                None => None,
            },
            request: self.request@,
            raw: self.raw,
        }
    }
}

impl View for Request {
    type V = RequestV;

    open spec fn view(&self) -> RequestV {
        match self {
            Request::CreateFile(p) => RequestV::CreateFile(p@),
            Request::ReadFile(p) => RequestV::ReadFile(p@),
            Request::Command(c) => RequestV::Command(c@),
            Request::SendBlock(c, b) => RequestV::SendBlock(c@, b@),
            Request::Query(q) => RequestV::Query(q@),
            Request::QueryRaw(q) => RequestV::QueryRaw(q@),
            Request::WriteFile(b) => RequestV::WriteFile(b@),
        }
    }
}

impl View for Reply {
    type V = ReplyV;

    open spec fn view(&self) -> ReplyV {
        match self {
            Reply::Start => ReplyV::Start,
            Reply::Created => ReplyV::Created,
            Reply::Exists => ReplyV::Exists,
            Reply::Contents(b) => ReplyV::Contents(b@),
            Reply::Sent => ReplyV::Sent,
            Reply::Response(b) => ReplyV::Response(b@),
            Reply::Written => ReplyV::Written,
        }
    }
}

impl View for Next {
    type V = NextV;

    open spec fn view(&self) -> NextV {
        match self {
            Next::Do(r) => NextV::Do(r@),
            Next::Done => NextV::Done,
            Next::Fail(e) => NextV::Fail(*e),
        }
    }
}

/// Stage of a transfer that has ended.
pub const FINISHED: u8 = 9;

/// Whether a request goes to the device.
pub open spec fn is_channel_request(r: RequestV) -> bool {
    match r {
        RequestV::Command(_) | RequestV::SendBlock(_, _) | RequestV::Query(_) | RequestV::QueryRaw(_) => true,
        _ => false,
    }
}

/// The query of a download, raw or not.
pub open spec fn download_query(plan: PlanV) -> RequestV {
    if plan.raw {
        RequestV::QueryRaw(plan.request)
    } else {
        RequestV::Query(plan.request)
    }
}

/// One step of a transfer: from its stage and the caller's reply to the next
/// stage and move.
///
/// A download goes: create the file (stage 0), send the prelude if there is
/// one (1), query (2), write the unframed reply (3), finish (4). An upload
/// goes: read the file (0), send the framed contents (1), finish (2). A reply
/// that the stage did not ask for ends the transfer with `OutOfSequence`.
pub open spec fn transfer_after(plan: PlanV, stage: u8, reply: ReplyV) -> (u8, NextV) {
    match plan.direction {
        Direction::Download => match (stage, reply) {
            (0, ReplyV::Start) => (1, NextV::Do(RequestV::CreateFile(plan.local_path))),
            (1, ReplyV::Exists) => (FINISHED, NextV::Fail(MauiError::DestinationExists)),
            (1, ReplyV::Created) => match plan.prelude {
                Some(c) => (2, NextV::Do(RequestV::Command(c))),
                None => (3, NextV::Do(download_query(plan))),
            },
            (2, ReplyV::Sent) => (3, NextV::Do(download_query(plan))),
            (3, ReplyV::Response(w)) => if is_block(w) {
                (4, NextV::Do(RequestV::WriteFile(unframed(w))))
            } else {
                (FINISHED, NextV::Fail(MauiError::Decoding))
            },
            (4, ReplyV::Written) => (FINISHED, NextV::Done),
            _ => (FINISHED, NextV::Fail(MauiError::OutOfSequence)),
        },
        Direction::Upload => match (stage, reply) {
            (0, ReplyV::Start) => (1, NextV::Do(RequestV::ReadFile(plan.local_path))),
            (1, ReplyV::Contents(c)) => if c.len() + TRAILER_LEN < MAX_PAYLOAD {
                (2, NextV::Do(RequestV::SendBlock(plan.request, upload_framed(c))))
            } else {
                (FINISHED, NextV::Fail(MauiError::Encoding))
            },
            (2, ReplyV::Sent) => (FINISHED, NextV::Done),
            _ => (FINISHED, NextV::Fail(MauiError::OutOfSequence)),
        },
    }
}

/// A running transfer.
pub struct Transfer {
    pub plan: TransferPlan,
    pub stage: u8,
}

impl Transfer {
    /// A transfer of the plan, not started yet.
    pub fn start(plan: TransferPlan) -> (r: Transfer)
        ensures
            r.plan@ == plan@,
            r.stage == 0,
    {
        Transfer { plan, stage: 0 }
    }

    /// Whether the transfer has ended.
    pub fn is_finished(&self) -> (r: bool)
        ensures
            r == (self.stage == FINISHED),
    {
        self.stage == FINISHED
    }

    fn query(&self) -> (r: Request)
        ensures
            r@ == download_query(self.plan@),
    {
        if self.plan.raw {
            Request::QueryRaw(self.plan.request.clone())
        } else {
            Request::Query(self.plan.request.clone())
        }
    }

    /// Takes the outcome of the last step and gives the next one.
    pub fn advance(&mut self, reply: Reply) -> (r: Next)
        ensures
            final(self).plan@ == old(self).plan@,
            (final(self).stage, r@) == transfer_after(old(self).plan@, old(self).stage, reply@),
    {
        let (stage, next) = match self.plan.direction {
            Direction::Download => match (self.stage, reply) {
                (0, Reply::Start) => (1, Next::Do(Request::CreateFile(self.plan.local_path.clone()))),
                (1, Reply::Exists) => (FINISHED, Next::Fail(MauiError::DestinationExists)),
                (1, Reply::Created) => match &self.plan.prelude {
                    Some(c) => (2, Next::Do(Request::Command(c.clone()))),
                    None => (3, Next::Do(self.query())),
                },
                (2, Reply::Sent) => (3, Next::Do(self.query())),
                (3, Reply::Response(w)) => match decode_block(w.as_slice()) {
                    Ok(payload) => (4, Next::Do(Request::WriteFile(payload))),
                    Err(e) => (FINISHED, Next::Fail(e)),
                },
                (4, Reply::Written) => (FINISHED, Next::Done),
                _ => (FINISHED, Next::Fail(MauiError::OutOfSequence)),
            },
            Direction::Upload => match (self.stage, reply) {
                (0, Reply::Start) => (1, Next::Do(Request::ReadFile(self.plan.local_path.clone()))),
                (1, Reply::Contents(c)) => match encode_upload_block(c.as_slice()) {
                    Ok(block) => (2, Next::Do(Request::SendBlock(self.plan.request.clone(), block))),
                    Err(e) => (FINISHED, Next::Fail(e)),
                },
                (2, Reply::Sent) => (FINISHED, Next::Done),
                _ => (FINISHED, Next::Fail(MauiError::OutOfSequence)),
            },
        };
        self.stage = stage;
        next
    }
}

/// `path` with `ext` added at the end unless it already ends with it.
pub open spec fn with_extension(path: Seq<char>, ext: Seq<char>) -> Seq<char> {
    if has_suffix(path, ext) {
        path
    } else {
        path + ext
    }
}

/// Extension of panel-setup files.
pub open spec fn setup_ext() -> Seq<char> {
    ".lss"@
}

/// Extension of screen captures.
pub open spec fn capture_ext() -> Seq<char> {
    ".jpeg"@
}

/// The device's screen-dump settings used before a capture.
pub open spec fn capture_settings() -> Seq<char> {
    "HCSU DEV,JPEG,FORMAT,LANDSCAPE,BCKG,BLACK,DEST,REMOTE,AREA,FULLSCREEN"@
}

/// A fresh string holding `path`, with `ext` added unless it is there.
pub fn add_extension(path: &str, ext: &str) -> (r: String)
    ensures
        r@ == with_extension(path@, ext@),
{
    let mut out = text_of(path);
    if !ends_with(path, ext) {
        push_text(&mut out, ext);
    }
    out
}

impl TransferPlan {
    /// Saving the device's panel setup to a new local file. The file name
    /// gets the `.lss` extension when it lacks it.
    pub fn save_panel_setup(filepath: &str) -> (r: TransferPlan)
        ensures
            r@ == (PlanV {
                direction: Direction::Download,
                local_path: with_extension(filepath@, setup_ext()),
                prelude: None,
                request: "PNSU?"@,
                raw: false,
            }),
    {
        TransferPlan {
            direction: Direction::Download,
            local_path: add_extension(filepath, ".lss"),
            prelude: None,
            request: text_of("PNSU?"),
            raw: false,
        }
    }

    /// Loading a panel setup from a local file into the device. Fails with
    /// `InvalidExtension`, before anything else, unless the file name ends
    /// with `.lss`.
    pub fn load_panel_setup(filepath: &str) -> (r: Result<TransferPlan, MauiError>)
        ensures
            has_suffix(filepath@, setup_ext()) ==> r is Ok && r->Ok_0@ == (PlanV {
                direction: Direction::Upload,
                local_path: filepath@,
                prelude: None,
                request: "PNSU "@,
                raw: false,
            }),
            !has_suffix(filepath@, setup_ext()) ==> r == Err::<TransferPlan, MauiError>(MauiError::InvalidExtension),
    {
        if !ends_with(filepath, ".lss") {
            return Err(MauiError::InvalidExtension);
        }
        Ok(TransferPlan {
            direction: Direction::Upload,
            local_path: text_of(filepath),
            prelude: None,
            request: text_of("PNSU "),
            raw: false,
        })
    }

    /// Copying a local file to a path on the device.
    pub fn file_to_device(device_filepath: &str, controller_filepath: &str) -> (r: TransferPlan)
        ensures
            r@ == (PlanV {
                direction: Direction::Upload,
                local_path: controller_filepath@,
                prelude: None,
                request: "TRANSFER_FILE DISK,HDD,FILE,'"@ + device_path(device_filepath@, false) + "',"@,
                raw: false,
            }),
    {
        let mut request = text_of("TRANSFER_FILE DISK,HDD,FILE,'");
        let device = to_device_path(device_filepath, false);
        push_text(&mut request, device.as_str());
        push_text(&mut request, "',");
        TransferPlan {
            direction: Direction::Upload,
            local_path: text_of(controller_filepath),
            prelude: None,
            request,
            raw: false,
        }
    }

    /// Copying a file of the device to a new local file.
    pub fn file_from_device(device_filepath: &str, controller_filepath: &str) -> (r: TransferPlan)
        ensures
            r@ == (PlanV {
                direction: Direction::Download,
                local_path: controller_filepath@,
                prelude: None,
                request: "TRANSFER_FILE? DISK,HDD,FILE,'"@ + device_path(device_filepath@, false) + "'"@,
                raw: false,
            }),
    {
        let mut request = text_of("TRANSFER_FILE? DISK,HDD,FILE,'");
        let device = to_device_path(device_filepath, false);
        push_text(&mut request, device.as_str());
        push_text(&mut request, "'");
        TransferPlan {
            direction: Direction::Download,
            local_path: text_of(controller_filepath),
            prelude: None,
            request,
            raw: false,
        }
    }

    /// Capturing the screen into a new local image file. The file name gets
    /// the `.jpeg` extension when it lacks it.
    pub fn screen_capture(filepath: &str) -> (r: TransferPlan)
        ensures
            r@ == (PlanV {
                direction: Direction::Download,
                local_path: with_extension(filepath@, capture_ext()),
                prelude: Some(capture_settings()),
                request: "SCDP?"@,
                raw: true,
            }),
    {
        TransferPlan {
            direction: Direction::Download,
            local_path: add_extension(filepath, ".jpeg"),
            prelude: Some(text_of("HCSU DEV,JPEG,FORMAT,LANDSCAPE,BCKG,BLACK,DEST,REMOTE,AREA,FULLSCREEN")),
            request: text_of("SCDP?"),
            raw: true,
        }
    }
}

/// A download whose destination already exists ends with `DestinationExists`
/// after asking only to create the file: nothing goes to the device.
pub proof fn lemma_no_overwrite(plan: PlanV)
    requires
        plan.direction == Direction::Download,
    ensures
        transfer_after(plan, 0, ReplyV::Start) == (1u8, NextV::Do(RequestV::CreateFile(plan.local_path))),
        !is_channel_request(RequestV::CreateFile(plan.local_path)),
        transfer_after(plan, 1, ReplyV::Exists) == (FINISHED, NextV::Fail(MauiError::DestinationExists)),
{
}

/// The block an upload sends decodes on the device's side to exactly the
/// file's contents.
pub proof fn lemma_upload_sends_contents(plan: PlanV, contents: Seq<u8>)
    requires
        plan.direction == Direction::Upload,
        contents.len() + TRAILER_LEN < MAX_PAYLOAD,
    ensures
        ({
            let (stage, next) = transfer_after(plan, 1, ReplyV::Contents(contents));
            &&& stage == 2
            &&& next == NextV::Do(RequestV::SendBlock(plan.request, upload_framed(contents)))
            &&& is_block(upload_framed(contents))
            &&& unframed(upload_framed(contents)) == contents
        }),
{
    crate::codec::lemma_upload_round_trip(contents);
}

/// Every plan made from a file name for a panel setup names a local file
/// that ends with `.lss`: saving adds the extension, loading requires it.
pub proof fn lemma_setup_extension(filepath: Seq<char>)
    ensures
        has_suffix(with_extension(filepath, setup_ext()), setup_ext()),
{
    let ext = setup_ext();
    if !has_suffix(filepath, ext) {
        let w = filepath + ext;
        assert(w.subrange(w.len() - ext.len(), w.len() as int) =~= ext);
    }
}

} // verus!
