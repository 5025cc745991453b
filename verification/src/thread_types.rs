//! Core thread-level types: message roles, threads, messages, message
//! inputs, and the typed items of a run's event stream.

use vstd::prelude::*;

use crate::retrieval::{Attachment, AttachmentCode, AttachmentCodeScores, CodeSearchHit};

pub use crate::retrieval::MessageDocSearchHit;

verus! {

/// Who authored a message. A closed two-valued enumeration: within a thread,
/// consecutive messages never share a role.
#[derive(Clone, Copy, PartialEq, Eq, Structural, Debug)]
pub enum Role {
    User,
    Assistant,
}

/// One message of a thread, as the outward interface presents it.
#[derive(Clone, PartialEq, Debug)]
pub struct Message {
    pub id: i64,
    pub thread_id: i64,
    pub code_source_id: Option<String>,
    pub role: Role,
    pub content: String,
    pub attachment: Attachment,
    pub created_at: i64,
    pub updated_at: i64,
}

/// A request to rewrite a message's content. Empty content is rejected.
#[derive(Clone, PartialEq, Debug)]
pub struct UpdateMessageInput {
    pub id: i64,
    pub thread_id: i64,
    pub content: String,
}

/// Why an input was rejected.
#[derive(Clone, Copy, PartialEq, Eq, Structural, Debug)]
pub enum ValidationError {
    EmptyContent,
}

impl UpdateMessageInput {
    /// Accepts the input exactly when its content is non-empty.
    pub fn validate(&self) -> (r: Result<(), ValidationError>)
        ensures
            r is Ok <==> self.content@.len() > 0,
            r is Err ==> r == Err::<(), ValidationError>(ValidationError::EmptyContent),
    {
        if self.content.as_str().is_empty() {
            Err(ValidationError::EmptyContent)
        } else {
            Ok(())
        }
    }
}

#[derive(Clone, PartialEq, Debug)]
pub struct MessageAttachmentCodeFileList {
    pub file_list: Vec<String>,
}

/// A code snippet supplied by the client alongside its message.
#[derive(Clone, PartialEq, Debug)]
pub struct MessageAttachmentClientCode {
    pub filepath: Option<String>,
    pub start_line: Option<i32>,
    pub content: String,
}

/// The input form of a client code attachment.
#[derive(Clone, PartialEq, Debug)]
pub struct MessageAttachmentCodeInput {
    pub filepath: Option<String>,
    pub start_line: Option<i32>,
    pub content: String,
}

impl MessageAttachmentCodeInput {
    /// Carries a client code attachment over field for field.
    pub fn from(val: MessageAttachmentClientCode) -> (r: Self)
        ensures
            r.filepath == val.filepath,
            r.start_line == val.start_line,
            r.content == val.content,
    {
        MessageAttachmentCodeInput {
            filepath: val.filepath,
            start_line: val.start_line,
            content: val.content,
        }
    }
}

/// A code-search hit shaped for a message: the attachment and its scores.
#[derive(Clone, PartialEq, Debug)]
pub struct MessageCodeSearchHit {
    pub code: AttachmentCode,
    pub scores: AttachmentCodeScores,
}

impl MessageCodeSearchHit {
    /// Converts a retrieved code-search hit; the rrf, bm25 and embedding
    /// scores are preserved exactly.
    pub fn from(hit: CodeSearchHit) -> (r: Self)
        requires
            hit.doc.start_line is Some ==> hit.doc.start_line.unwrap() <= i32::MAX,
        ensures
            r.code.git_url == hit.doc.git_url,
            r.code.commit == hit.doc.commit,
            r.code.filepath == hit.doc.filepath,
            r.code.language == hit.doc.language,
            r.code.content == hit.doc.body,
            r.code.start_line is Some <==> hit.doc.start_line is Some,
            hit.doc.start_line is Some ==> r.code.start_line == Some(
                hit.doc.start_line.unwrap() as i32,
            ),
            r.scores.rrf == hit.scores.rrf,
            r.scores.bm25 == hit.scores.bm25,
            r.scores.embedding == hit.scores.embedding,
    {
        MessageCodeSearchHit {
            code: AttachmentCode::from(hit.doc),
            scores: AttachmentCodeScores::from(hit.scores),
        }
    }
}

/// One thread of conversation, as the outward interface presents it.
#[derive(Clone, PartialEq, Debug)]
pub struct Thread {
    pub id: i64,
    pub user_id: i64,
    /// Ephemeral threads are a presentation flag, not a distinct entity.
    pub is_ephemeral: bool,
    pub created_at: i64,
    pub updated_at: i64,
}

#[derive(Clone, PartialEq, Debug)]
pub struct ThreadCreated {
    pub id: i64,
}

#[derive(Clone, PartialEq, Debug)]
pub struct ThreadRelevantQuestions {
    pub questions: Vec<String>,
}

#[derive(Clone, PartialEq, Debug)]
pub struct ThreadUserMessageCreated {
    pub id: i64,
}

#[derive(Clone, PartialEq, Debug)]
pub struct ThreadAssistantMessageCreated {
    pub id: i64,
}

#[derive(Clone, Copy, PartialEq, Eq, Structural, Debug)]
pub struct ThreadAssistantMessageReadingCode {
    pub snippet: bool,
    pub file_list: bool,
}

#[derive(Clone, PartialEq, Debug)]
pub struct ThreadAssistantMessageAttachmentsCodeFileList {
    pub file_list: Vec<String>,
}

#[derive(Clone, PartialEq, Debug)]
pub struct ThreadAssistantMessageAttachmentsCode {
    pub hits: Vec<MessageCodeSearchHit>,
}

#[derive(Clone, PartialEq, Debug)]
pub struct ThreadAssistantMessageAttachmentsDoc {
    pub hits: Vec<MessageDocSearchHit>,
}

#[derive(Clone, PartialEq, Debug)]
pub struct ThreadAssistantMessageContentDelta {
    pub delta: String,
}

#[derive(Clone, PartialEq, Debug)]
pub struct ThreadAssistantMessageCompleted {
    pub id: i64,
}

/// One item of a thread run's event stream.
///
/// Apart from the content delta, every item appears at most once in a run's
/// stream; the concatenation of all deltas, in emission order, is the final
/// assistant message content.
#[derive(Clone, PartialEq, Debug)]
pub enum ThreadRunItem {
    ThreadCreated(ThreadCreated),
    ThreadRelevantQuestions(ThreadRelevantQuestions),
    ThreadUserMessageCreated(ThreadUserMessageCreated),
    ThreadAssistantMessageCreated(ThreadAssistantMessageCreated),
    ThreadAssistantMessageReadingCode(ThreadAssistantMessageReadingCode),
    ThreadAssistantMessageAttachmentsCodeFileList(ThreadAssistantMessageAttachmentsCodeFileList),
    ThreadAssistantMessageAttachmentsCode(ThreadAssistantMessageAttachmentsCode),
    ThreadAssistantMessageAttachmentsDoc(ThreadAssistantMessageAttachmentsDoc),
    ThreadAssistantMessageContentDelta(ThreadAssistantMessageContentDelta),
    ThreadAssistantMessageCompleted(ThreadAssistantMessageCompleted),
}

} // verus!
