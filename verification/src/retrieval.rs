//! The attachment model: raw search-hit records from the retrieval engine
//! (code, web, issue, pull request) turned into one polymorphic attachment
//! type with a uniform content accessor.
//!
//! Conversion is pure: every field of the output is pinned to a field of the
//! input. Relevance scores are carried in the engine's own 32-bit encoding
//! and never interpreted by this library.

use vstd::prelude::*;

verus! {

/// A code document as the retrieval engine hands it over.
#[derive(Clone, PartialEq, Debug)]
pub struct CodeSearchDocument {
    pub git_url: String,
    pub commit: Option<String>,
    pub filepath: String,
    pub language: String,
    pub body: String,
    pub start_line: Option<usize>,
}

/// The three relevance scores of a retrieved code document, in the engine's
/// 32-bit encoding. The library carries them; it never computes with them.
#[derive(Clone, Copy, PartialEq, Eq, Structural, Debug)]
pub struct CodeSearchScores {
    pub rrf: u32,
    pub bm25: u32,
    pub embedding: u32,
}

/// One hit of a code search: the document and its scores.
#[derive(Clone, PartialEq, Debug)]
pub struct CodeSearchHit {
    pub scores: CodeSearchScores,
    pub doc: CodeSearchDocument,
}

/// A web page as the retrieval engine hands it over.
#[derive(Clone, PartialEq, Debug)]
pub struct DocSearchWebDocument {
    pub title: String,
    pub link: String,
    pub snippet: String,
}

/// An issue as the retrieval engine hands it over.
#[derive(Clone, PartialEq, Debug)]
pub struct DocSearchIssueDocument {
    pub title: String,
    pub link: String,
    pub body: String,
    pub closed: bool,
}

/// A pull request as the retrieval engine hands it over.
#[derive(Clone, PartialEq, Debug)]
pub struct DocSearchPullDocument {
    pub title: String,
    pub link: String,
    pub body: String,
    pub diff: String,
    pub merged: bool,
}

/// A retrieved document of any kind.
#[derive(Clone, PartialEq, Debug)]
pub enum DocSearchDocument {
    Web(DocSearchWebDocument),
    Issue(DocSearchIssueDocument),
    Pull(DocSearchPullDocument),
}

/// Represents an attachment to a message, which can include various types of
/// content.
#[derive(Clone, PartialEq, Debug)]
pub struct Attachment {
    /// Code snippets supplied by the client.
    pub client_code: Vec<AttachmentClientCode>,
    /// Code snippets retrieved from the server-side codebase.
    pub code: Vec<AttachmentCode>,
    /// Documents retrieved from various server-side sources.
    pub doc: Vec<AttachmentDoc>,
    /// File list of the server-side codebase used for generating the message.
    pub code_file_list: Option<AttachmentCodeFileList>,
}

impl Default for Attachment {
    /// An attachment with nothing in it.
    fn default() -> (r: Self)
        ensures
            r.client_code@.len() == 0,
            r.code@.len() == 0,
            r.doc@.len() == 0,
            r.code_file_list is None,
    {
        Attachment { client_code: Vec::new(), code: Vec::new(), doc: Vec::new(), code_file_list: None }
    }
}

#[derive(Clone, PartialEq, Debug)]
pub struct AttachmentCodeFileList {
    pub file_list: Vec<String>,
}

/// A code snippet supplied by the caller rather than retrieved server-side.
#[derive(Clone, PartialEq, Debug)]
pub struct AttachmentClientCode {
    pub filepath: Option<String>,
    pub start_line: Option<i32>,
    pub content: String,
}

/// A code snippet retrieved from the server-side codebase.
#[derive(Clone, PartialEq, Debug)]
pub struct AttachmentCode {
    pub git_url: String,
    pub commit: Option<String>,
    pub filepath: String,
    pub language: String,
    pub content: String,
    /// When the start line is absent, the attachment is the entire file.
    pub start_line: Option<i32>,
}

/// The relevance scores of a retrieved code attachment, carried unchanged
/// from the search hit in the engine's 32-bit encoding.
#[derive(Clone, Copy, PartialEq, Eq, Structural, Debug)]
pub struct AttachmentCodeScores {
    pub rrf: u32,
    pub bm25: u32,
    pub embedding: u32,
}

impl AttachmentCode {
    /// Maps a retrieved code document field for field onto an attachment,
    /// keeping the optional-start-line convention: absent means the whole
    /// file.
    pub fn from(doc: CodeSearchDocument) -> (r: Self)
        requires
            doc.start_line is Some ==> doc.start_line.unwrap() <= i32::MAX,
        ensures
            r.git_url == doc.git_url,
            r.commit == doc.commit,
            r.filepath == doc.filepath,
            r.language == doc.language,
            r.content == doc.body,
            r.start_line is Some <==> doc.start_line is Some,
            doc.start_line is Some ==> r.start_line == Some(doc.start_line.unwrap() as i32),
    {
        let start_line = match doc.start_line {
            None => None,
            Some(x) => Some(x as i32),
        };
        AttachmentCode {
            git_url: doc.git_url,
            commit: doc.commit,
            filepath: doc.filepath,
            language: doc.language,
            content: doc.body,
            start_line,
        }
    }
}

impl AttachmentCodeScores {
    /// Carries a hit's scores over unchanged: rrf, bm25 and embedding
    /// similarity are preserved exactly.
    pub fn from(scores: CodeSearchScores) -> (r: Self)
        ensures
            r.rrf == scores.rrf,
            r.bm25 == scores.bm25,
            r.embedding == scores.embedding,
    {
        AttachmentCodeScores { rrf: scores.rrf, bm25: scores.bm25, embedding: scores.embedding }
    }
}

/// A document attachment, polymorphic over its source.
#[derive(Clone, PartialEq, Debug)]
pub enum AttachmentDoc {
    Web(AttachmentWebDoc),
    Issue(AttachmentIssueDoc),
    Pull(AttachmentPullDoc),
}

#[derive(Clone, PartialEq, Debug)]
pub struct AttachmentWebDoc {
    pub title: String,
    pub link: String,
    pub content: String,
}

#[derive(Clone, PartialEq, Debug)]
pub struct AttachmentIssueDoc {
    pub title: String,
    pub link: String,
    /// The resolved author, where one could be resolved.
    pub author: Option<String>,
    pub body: String,
    pub closed: bool,
}

#[derive(Clone, PartialEq, Debug)]
pub struct AttachmentPullDoc {
    pub title: String,
    pub link: String,
    /// The resolved author, where one could be resolved.
    pub author: Option<String>,
    pub body: String,
    pub patch: String,
    pub merged: bool,
}

impl AttachmentDoc {
    /// The title of a document attachment, whatever its source.
    pub open spec fn spec_title(self) -> Seq<char> {
        match self {
            AttachmentDoc::Web(web) => web.title@,
            AttachmentDoc::Issue(issue) => issue.title@,
            AttachmentDoc::Pull(pull) => pull.title@,
        }
    }

    /// The link of a document attachment, whatever its source.
    pub open spec fn spec_link(self) -> Seq<char> {
        match self {
            AttachmentDoc::Web(web) => web.link@,
            AttachmentDoc::Issue(issue) => issue.link@,
            AttachmentDoc::Pull(pull) => pull.link@,
        }
    }

    /// The normalized content of a document attachment: the snippet of a web
    /// page, the body of an issue or a pull request.
    pub open spec fn spec_content(self) -> Seq<char> {
        match self {
            AttachmentDoc::Web(web) => web.content@,
            AttachmentDoc::Issue(issue) => issue.body@,
            AttachmentDoc::Pull(pull) => pull.body@,
        }
    }

    /// Dispatches on the retrieved document's kind: each input kind maps to
    /// the correspondingly named variant, field for field; the author — which
    /// an external resolver may have failed to resolve — is attached to
    /// issues and pull requests.
    pub fn from_doc_search_document(doc: DocSearchDocument, author: Option<String>) -> (r: Self)
        ensures
            doc matches DocSearchDocument::Web(web) ==> r == AttachmentDoc::Web(
                AttachmentWebDoc { title: web.title, link: web.link, content: web.snippet },
            ),
            doc matches DocSearchDocument::Issue(issue) ==> r == AttachmentDoc::Issue(
                AttachmentIssueDoc {
                    title: issue.title,
                    link: issue.link,
                    author: author,
                    body: issue.body,
                    closed: issue.closed,
                },
            ),
            doc matches DocSearchDocument::Pull(pull) ==> r == AttachmentDoc::Pull(
                AttachmentPullDoc {
                    title: pull.title,
                    link: pull.link,
                    author: author,
                    body: pull.body,
                    patch: pull.diff,
                    merged: pull.merged,
                },
            ),
    {
        match doc {
            DocSearchDocument::Web(web) => AttachmentDoc::Web(AttachmentWebDoc {
                title: web.title,
                link: web.link,
                content: web.snippet,
            }),
            DocSearchDocument::Issue(issue) => AttachmentDoc::Issue(AttachmentIssueDoc {
                title: issue.title,
                link: issue.link,
                author,
                body: issue.body,
                closed: issue.closed,
            }),
            DocSearchDocument::Pull(pull) => AttachmentDoc::Pull(AttachmentPullDoc {
                title: pull.title,
                link: pull.link,
                author,
                body: pull.body,
                patch: pull.diff,
                merged: pull.merged,
            }),
        }
    }

    /// The variant-exhaustive content accessor: the snippet for a web page,
    /// the body for an issue or a pull request.
    pub fn content(&self) -> (r: &str)
        ensures
            r@ == self.spec_content(),
    {
        match self {
            AttachmentDoc::Web(web) => web.content.as_str(),
            AttachmentDoc::Issue(issue) => issue.body.as_str(),
            AttachmentDoc::Pull(pull) => pull.body.as_str(),
        }
    }
}

/// A retrieved document hit together with its relevance score, carried in
/// the engine's 32-bit encoding.
#[derive(Clone, PartialEq, Debug)]
pub struct MessageDocSearchHit {
    pub doc: AttachmentDoc,
    pub score: u32,
}

} // verus!
