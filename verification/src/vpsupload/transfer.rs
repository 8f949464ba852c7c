//! One chunked upload to YouTube as a sequence of steps: queued, reading the token,
//! opening the upload session, and sending chunk after chunk.
use vstd::prelude::*;
use crate::media_control::format::{display_text, valid_reading, LocalDateTime};
use crate::vpsupload::upload::{
    content_range_text, first_chars, json_string_field, string_field, success_message, token_error, token_from,
    access_token_from_json, token_error_text, upload_description, upload_description_text, upload_title, vp_success_text,
    with_file, with_file_text, ChunkCursor,
};

verus! {

/// Work an upload asks for.
#[derive(Debug)]
pub enum TransferAction {
    /// Set the upload's status in the queue.
    SetStatus(String),
    /// Edit the upload's message to this HTML text.
    EditText(String),
    /// Edit the upload's message to this plain text.
    EditPlain(String),
    /// Read the token file.
    ReadToken,
    /// Open an upload session with this token, for a video with this title,
    /// description, category and privacy status and a file of `size` bytes.
    OpenSession { token: String, title: String, description: String, category_id: String, privacy: String, size: u64 },
    /// Send the next `len` bytes of the file with this `Content-Range`.
    SendChunk { len: u64, range: String },
    /// Show the progress: `sent` of `size` bytes; `done` once all are sent.
    ShowProgress { sent: u64, size: u64, done: bool },
    /// The upload ends.
    Finish,
}

/// An action with its texts as sequences.
pub enum TransferView {
    SetStatus(Seq<char>),
    EditText(Seq<char>),
    EditPlain(Seq<char>),
    ReadToken,
    OpenSession(Seq<char>, Seq<char>, Seq<char>, Seq<char>, Seq<char>, u64),
    SendChunk(u64, Seq<char>),
    ShowProgress(u64, u64, bool),
    Finish,
}

/// The plain form of an action.
pub open spec fn transfer_view(a: TransferAction) -> TransferView {
    match a {
        TransferAction::SetStatus(s) => TransferView::SetStatus(s@),
        TransferAction::EditText(t) => TransferView::EditText(t@),
        TransferAction::EditPlain(t) => TransferView::EditPlain(t@),
        TransferAction::ReadToken => TransferView::ReadToken,
        TransferAction::OpenSession { token, title, description, category_id, privacy, size } => TransferView::OpenSession(
            token@,
            title@,
            description@,
            category_id@,
            privacy@,
            size,
        ),
        TransferAction::SendChunk { len, range } => TransferView::SendChunk(len, range@),
        TransferAction::ShowProgress { sent, size, done } => TransferView::ShowProgress(sent, size, done),
        TransferAction::Finish => TransferView::Finish,
    }
}

/// The plain form of a list of actions.
pub open spec fn transfer_views(s: Seq<TransferAction>) -> Seq<TransferView> {
    s.map_values(|a: TransferAction| transfer_view(a))
}

/// Where an upload stands, and what it waits for.
pub enum TransferStage {
    /// Waits for a slot among the concurrent uploads.
    Queued,
    /// Waits for the token file.
    Reading,
    /// Waits for the upload session.
    Opening,
    /// Waits for the cancellation check before the next chunk.
    Checking,
    /// Waits for the outcome of sending a chunk of `len` bytes.
    Sending { len: u64 },
    /// Finished.
    Done,
}

/// What an upload is told.
pub enum TransferEvent {
    /// A slot was granted; whether the upload was cancelled meanwhile.
    Admitted { cancelled: bool },
    /// The token file's content, or why it could not be read.
    TokenFile { content: Result<String, String> },
    /// Whether the upload session was opened.
    SessionOpened { ok: bool },
    /// Whether the upload was cancelled before the next chunk.
    CancelCheck { cancelled: bool },
    /// A chunk went out; the response body when the server accepted it.
    ChunkSent { accepted_body: Option<String> },
}

/// The message while the upload waits in the queue.
pub open spec fn queued_text(filename: Seq<char>) -> Seq<char> {
    with_file_text("⏳ <b>[YouTube] 队列排队中...</b>\n"@, filename)
}

/// The message while the upload session is opened.
pub open spec fn opening_text(filename: Seq<char>) -> Seq<char> {
    with_file_text("🚀 <b>[YouTube] 正在建立远程分片会话...</b>\n"@, filename)
}

/// The message when the upload is cancelled.
pub open spec fn transfer_cancelled_text(filename: Seq<char>) -> Seq<char> {
    with_file_text("🛑 <b>[YouTube] 上传被取消</b>\n"@, filename)
}

/// The message when the session cannot be opened.
pub open spec fn session_failed_text() -> Seq<char> {
    "❌ 初始化 YouTube 接口失败，可能您的 token.json 已过期，请运行 Python 脚本刷新 Token 凭证。"@
}

/// The message when the last chunk brought no video id.
pub open spec fn no_id_text() -> Seq<char> {
    "❌ 上传结束，未能正常捕获 YouTube 分发 ID 响应。"@
}

/// The video id in an accepted response body: its string field `id`.
pub open spec fn video_id_of(body: Option<Seq<char>>) -> Option<Seq<char>> {
    match body {
        Some(b) => match json_string_field(b, "id"@) {
            Ok(Some(id)) => Some(id),
            _ => None,
        },
        None => None,
    }
}

/// An upload of a file in chunks.
pub struct TransferJob {
    /// The file's name, as shown.
    pub filename: String,
    /// The bytes sent so far, and the chunks still to send.
    pub cursor: ChunkCursor,
    /// Where the upload stands.
    pub stage: TransferStage,
}

fn failed_plain(text: &str) -> (r: Vec<TransferAction>)
    ensures
        transfer_views(r@) == seq![TransferView::EditPlain(text@), TransferView::Finish],
{
    let r = vec![TransferAction::EditPlain(text.to_owned()), TransferAction::Finish];
    assert(transfer_views(r@) =~= seq![TransferView::EditPlain(text@), TransferView::Finish]);
    r
}

fn body_id(body: &Option<String>) -> (r: Option<String>)
    ensures
        (match r {
            Some(id) => video_id_of(match body { Some(b) => Some(b@), None => None }) == Some(id@),
            None => video_id_of(match body { Some(b) => Some(b@), None => None }) is None,
        }),
{
    match body {
        Some(b) => match string_field(b.as_str(), "id") {
            Ok(Some(id)) => Some(id),
            _ => None,
        },
        None => None,
    }
}

impl TransferJob {
    /// The job's invariant: the cursor is sound, and a chunk in flight fits in the file.
    pub open spec fn wf(&self) -> bool {
        &&& self.cursor.wf()
        &&& match self.stage {
            TransferStage::Sending { len } => self.cursor.offset + len <= self.cursor.size,
            TransferStage::Checking => self.cursor.offset < self.cursor.size,
            _ => true,
        }
    }

    /// Queues the upload of `filename`, a file of `size` bytes, sent in chunks of
    /// `chunk_mb` MiB; it shows the queued message.
    pub fn start(filename: &str, size: u64, chunk_mb: u64) -> (r: (TransferJob, Vec<TransferAction>))
        requires
            chunk_mb > 0,
            chunk_mb * 1024 * 1024 <= u64::MAX,
        ensures
            r.0.wf(),
            r.0.filename@ == filename@,
            r.0.cursor.offset == 0 && r.0.cursor.size == size && r.0.cursor.chunk == chunk_mb * 1024 * 1024,
            r.0.stage == TransferStage::Queued,
            transfer_views(r.1@) == seq![TransferView::EditText(queued_text(filename@))],
    {
        let acts = vec![TransferAction::EditText(with_file("⏳ <b>[YouTube] 队列排队中...</b>\n", filename))];
        assert(transfer_views(acts@) =~= seq![TransferView::EditText(queued_text(filename@))]);
        (TransferJob { filename: filename.to_owned(), cursor: ChunkCursor::new(size, chunk_mb), stage: TransferStage::Queued }, acts)
    }

    /// Advances the upload by one event. A cancellation when admitted ends it silently;
    /// a token that cannot be read, or a session that cannot be opened, ends it with a
    /// message; otherwise chunks are sent one by one, each after a cancellation check,
    /// and the response to the last one must carry the video's id. An event the stage
    /// does not wait for changes nothing.
    pub fn step(&mut self, e: TransferEvent) -> (r: Vec<TransferAction>)
        requires
            old(self).wf(),
        ensures
            final(self).wf(),
            final(self).filename == old(self).filename,
            final(self).cursor.size == old(self).cursor.size,
            final(self).cursor.chunk == old(self).cursor.chunk,
            ({
                let name = old(self).filename@;
                let c = old(self).cursor;
                match (old(self).stage, e) {
                    (TransferStage::Queued, TransferEvent::Admitted { cancelled }) => if cancelled {
                        final(self).stage == TransferStage::Done && transfer_views(r@) == seq![TransferView::Finish]
                    } else {
                        final(self).stage == TransferStage::Reading && transfer_views(r@) == seq![
                            TransferView::SetStatus("初始化中"@), TransferView::ReadToken]
                    },
                    (TransferStage::Reading, TransferEvent::TokenFile { content }) => {
                        let token = match content {
                            Ok(t) => token_from(t@),
                            Err(m) => Err(m@),
                        };
                        match token {
                            Err(m) => final(self).stage == TransferStage::Done && transfer_views(r@) == seq![
                                TransferView::EditText(token_error_text(m)), TransferView::Finish],
                            Ok(t) => final(self).stage == TransferStage::Opening && transfer_views(r@) == seq![
                                TransferView::EditText(opening_text(name)),
                                TransferView::OpenSession(t, first_chars(name, 95), upload_description_text(name), "22"@, "private"@, c.size),
                            ],
                        }
                    },
                    (TransferStage::Opening, TransferEvent::SessionOpened { ok }) => if !ok {
                        final(self).stage == TransferStage::Done && transfer_views(r@) == seq![
                            TransferView::EditPlain(session_failed_text()), TransferView::Finish]
                    } else if c.offset >= c.size {
                        final(self).stage == TransferStage::Done && transfer_views(r@) == seq![
                            TransferView::EditPlain(no_id_text()), TransferView::Finish]
                    } else {
                        final(self).stage == TransferStage::Checking && transfer_views(r@) == Seq::<TransferView>::empty()
                    },
                    (TransferStage::Checking, TransferEvent::CancelCheck { cancelled }) => if cancelled {
                        final(self).stage == TransferStage::Done && transfer_views(r@) == seq![
                            TransferView::EditText(transfer_cancelled_text(name)), TransferView::Finish]
                    } else {
                        let len: u64 = if c.chunk < c.size - c.offset { c.chunk } else { (c.size - c.offset) as u64 };
                        &&& final(self).stage == (TransferStage::Sending { len })
                        &&& final(self).cursor == c
                        &&& transfer_views(r@) == seq![TransferView::SendChunk(len, content_range_text(
                            c.offset as nat, len as nat, c.size as nat))]
                    },
                    (TransferStage::Sending { len }, TransferEvent::ChunkSent { accepted_body }) => {
                        let sent = (c.offset + len) as u64;
                        let progress = seq![TransferView::SetStatus("正在传输"@), TransferView::ShowProgress(sent, c.size, sent >= c.size)];
                        &&& final(self).cursor.offset == sent
                        &&& sent < c.size ==> final(self).stage == TransferStage::Checking && transfer_views(r@) == progress
                        &&& sent >= c.size ==> final(self).stage == TransferStage::Done && match video_id_of(
                            match accepted_body { Some(b) => Some(b@), None => None },
                        ) {
                            Some(id) => exists|t: LocalDateTime| valid_reading(t) && transfer_views(r@) == progress + seq![
                                TransferView::EditText(vp_success_text(name, display_text(t), id)), TransferView::Finish],
                            None => transfer_views(r@) == progress + seq![TransferView::EditPlain(no_id_text()), TransferView::Finish],
                        }
                    },
                    _ => final(self).stage == old(self).stage && final(self).cursor == old(self).cursor
                        && transfer_views(r@) == Seq::<TransferView>::empty(),
                }
            }),
    {
        let mut st = TransferStage::Done;
        std::mem::swap(&mut st, &mut self.stage);
        let mut acts: Vec<TransferAction> = Vec::new();
        match (st, e) {
            (TransferStage::Queued, TransferEvent::Admitted { cancelled }) => {
                if cancelled {
                    acts.push(TransferAction::Finish);
                    self.stage = TransferStage::Done;
                    assert(transfer_views(acts@) =~= seq![TransferView::Finish]);
                } else {
                    acts.push(TransferAction::SetStatus("初始化中".to_owned()));
                    acts.push(TransferAction::ReadToken);
                    self.stage = TransferStage::Reading;
                    assert(transfer_views(acts@) =~= seq![TransferView::SetStatus("初始化中"@), TransferView::ReadToken]);
                }
            },
            (TransferStage::Reading, TransferEvent::TokenFile { content }) => {
                let token = match content {
                    Ok(t) => access_token_from_json(t.as_str()),
                    Err(m) => Err(m),
                };
                match token {
                    Err(m) => {
                        acts.push(TransferAction::EditText(token_error(m.as_str())));
                        acts.push(TransferAction::Finish);
                        self.stage = TransferStage::Done;
                        assert(transfer_views(acts@) =~= seq![TransferView::EditText(token_error_text(m@)), TransferView::Finish]);
                    },
                    Ok(t) => {
                        let name = self.filename.as_str();
                        let opening = with_file("🚀 <b>[YouTube] 正在建立远程分片会话...</b>\n", name);
                        let title = upload_title(name);
                        let description = upload_description(name);
                        acts.push(TransferAction::EditText(opening));
                        acts.push(TransferAction::OpenSession {
                            token: t,
                            title,
                            description,
                            category_id: "22".to_owned(),
                            privacy: "private".to_owned(),
                            size: self.cursor.size,
                        });
                        self.stage = TransferStage::Opening;
                        assert(transfer_views(acts@) =~= seq![
                            TransferView::EditText(opening_text(self.filename@)),
                            TransferView::OpenSession(t@, first_chars(self.filename@, 95), upload_description_text(self.filename@), "22"@, "private"@, self.cursor.size),
                        ]);
                    },
                }
            },
            (TransferStage::Opening, TransferEvent::SessionOpened { ok }) => {
                if !ok {
                    acts = failed_plain("❌ 初始化 YouTube 接口失败，可能您的 token.json 已过期，请运行 Python 脚本刷新 Token 凭证。");
                    self.stage = TransferStage::Done;
                } else if self.cursor.offset >= self.cursor.size {
                    acts = failed_plain("❌ 上传结束，未能正常捕获 YouTube 分发 ID 响应。");
                    self.stage = TransferStage::Done;
                } else {
                    self.stage = TransferStage::Checking;
                    assert(transfer_views(acts@) =~= Seq::<TransferView>::empty());
                }
            },
            (TransferStage::Checking, TransferEvent::CancelCheck { cancelled }) => {
                if cancelled {
                    acts.push(TransferAction::EditText(with_file("🛑 <b>[YouTube] 上传被取消</b>\n", self.filename.as_str())));
                    acts.push(TransferAction::Finish);
                    self.stage = TransferStage::Done;
                    assert(transfer_views(acts@) =~= seq![TransferView::EditText(transfer_cancelled_text(self.filename@)), TransferView::Finish]);
                } else {
                    match self.cursor.next_chunk() {
                        Some((len, range)) => {
                            acts.push(TransferAction::SendChunk { len, range });
                            self.stage = TransferStage::Sending { len };
                            assert(transfer_views(acts@) =~= seq![TransferView::SendChunk(len, content_range_text(
                                self.cursor.offset as nat, len as nat, self.cursor.size as nat))]);
                        },
                        None => {
                            self.stage = TransferStage::Checking;
                        },
                    }
                }
            },
            (TransferStage::Sending { len }, TransferEvent::ChunkSent { accepted_body }) => {
                self.cursor.advance(len);
                let sent = self.cursor.offset;
                let size = self.cursor.size;
                acts.push(TransferAction::SetStatus("正在传输".to_owned()));
                acts.push(TransferAction::ShowProgress { sent, size, done: sent >= size });
                let ghost progress = transfer_views(acts@);
                assert(progress =~= seq![TransferView::SetStatus("正在传输"@), TransferView::ShowProgress(sent, size, sent >= size)]);
                if sent < size {
                    self.stage = TransferStage::Checking;
                } else {
                    self.stage = TransferStage::Done;
                    match body_id(&accepted_body) {
                        Some(id) => {
                            let text = success_message(self.filename.as_str(), id.as_str());
                            let ghost t = choose|t: LocalDateTime| valid_reading(t) && text@ == vp_success_text(self.filename@, display_text(t), id@);
                            acts.push(TransferAction::EditText(text));
                            acts.push(TransferAction::Finish);
                            assert(transfer_views(acts@) =~= progress + seq![
                                TransferView::EditText(vp_success_text(self.filename@, display_text(t), id@)), TransferView::Finish]);
                        },
                        None => {
                            acts.push(TransferAction::EditPlain("❌ 上传结束，未能正常捕获 YouTube 分发 ID 响应。".to_owned()));
                            acts.push(TransferAction::Finish);
                            assert(transfer_views(acts@) =~= progress + seq![TransferView::EditPlain(no_id_text()), TransferView::Finish]);
                        },
                    }
                }
            },
            (other, _) => {
                self.stage = other;
                assert(transfer_views(acts@) =~= Seq::<TransferView>::empty());
            },
        }
        acts
    }
}

} // verus!
