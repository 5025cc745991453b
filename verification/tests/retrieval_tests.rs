use tabby_threads::rate_limit::{validate_requests_per_minute, RateLimitError};
use tabby_threads::retrieval::{
    Attachment, AttachmentCode, AttachmentCodeScores, AttachmentDoc, CodeSearchDocument,
    CodeSearchHit, CodeSearchScores, DocSearchDocument, DocSearchIssueDocument,
    DocSearchPullDocument, DocSearchWebDocument,
};
use tabby_threads::thread_types::{
    Message, MessageAttachmentClientCode, MessageAttachmentCodeInput, MessageCodeSearchHit,
    Thread, UpdateMessageInput, ValidationError,
};
use tabby_threads::Role;

fn sample_code_doc() -> CodeSearchDocument {
    CodeSearchDocument {
        git_url: "https://example.com/repo.git".to_string(),
        commit: Some("abc123".to_string()),
        filepath: "src/main.rs".to_string(),
        language: "rust".to_string(),
        body: "fn main() {}".to_string(),
        start_line: Some(10),
    }
}

#[test]
fn code_attachment_maps_fields_one_to_one() {
    let code = AttachmentCode::from(sample_code_doc());
    assert_eq!(code.git_url, "https://example.com/repo.git");
    assert_eq!(code.commit.as_deref(), Some("abc123"));
    assert_eq!(code.filepath, "src/main.rs");
    assert_eq!(code.language, "rust");
    assert_eq!(code.content, "fn main() {}");
    assert_eq!(code.start_line, Some(10));
}

#[test]
fn absent_start_line_means_whole_file() {
    let mut doc = sample_code_doc();
    doc.start_line = None;
    let code = AttachmentCode::from(doc);
    assert_eq!(code.start_line, None);
}

#[test]
fn code_search_hit_round_trip_preserves_scores() {
    let hit = CodeSearchHit {
        scores: CodeSearchScores { rrf: 11, bm25: 22, embedding: 33 },
        doc: sample_code_doc(),
    };
    let converted = MessageCodeSearchHit::from(hit.clone());
    assert_eq!(converted.scores.rrf, hit.scores.rrf);
    assert_eq!(converted.scores.bm25, hit.scores.bm25);
    assert_eq!(converted.scores.embedding, hit.scores.embedding);
    assert_eq!(converted.code.content, hit.doc.body);
}

#[test]
fn scores_conversion_is_exact() {
    let scores = CodeSearchScores { rrf: 0, bm25: u32::MAX, embedding: 7 };
    let converted = AttachmentCodeScores::from(scores);
    assert_eq!(converted.rrf, 0);
    assert_eq!(converted.bm25, u32::MAX);
    assert_eq!(converted.embedding, 7);
}

#[test]
fn web_document_maps_to_web_variant_with_snippet_content() {
    let doc = DocSearchDocument::Web(DocSearchWebDocument {
        title: "Title".to_string(),
        link: "https://example.com".to_string(),
        snippet: "a snippet".to_string(),
    });
    let attachment = AttachmentDoc::from_doc_search_document(doc, Some("alice".to_string()));
    match &attachment {
        AttachmentDoc::Web(web) => {
            assert_eq!(web.title, "Title");
            assert_eq!(web.link, "https://example.com");
            assert_eq!(web.content, "a snippet");
        }
        _ => panic!("web input must map to the web variant"),
    }
    assert_eq!(attachment.content(), "a snippet");
}

#[test]
fn issue_document_maps_to_issue_variant_with_body_content() {
    let doc = DocSearchDocument::Issue(DocSearchIssueDocument {
        title: "Bug".to_string(),
        link: "https://example.com/1".to_string(),
        body: "it breaks".to_string(),
        closed: true,
    });
    let attachment = AttachmentDoc::from_doc_search_document(doc, Some("bob".to_string()));
    match &attachment {
        AttachmentDoc::Issue(issue) => {
            assert_eq!(issue.title, "Bug");
            assert_eq!(issue.author.as_deref(), Some("bob"));
            assert!(issue.closed);
        }
        _ => panic!("issue input must map to the issue variant"),
    }
    assert_eq!(attachment.content(), "it breaks");
}

#[test]
fn pull_document_maps_to_pull_variant_with_body_content() {
    let doc = DocSearchDocument::Pull(DocSearchPullDocument {
        title: "Feature".to_string(),
        link: "https://example.com/2".to_string(),
        body: "adds things".to_string(),
        diff: "+1 -1".to_string(),
        merged: false,
    });
    // an unresolvable author is carried as absent, not an error
    let attachment = AttachmentDoc::from_doc_search_document(doc, None);
    match &attachment {
        AttachmentDoc::Pull(pull) => {
            assert_eq!(pull.author, None);
            assert_eq!(pull.patch, "+1 -1");
            assert!(!pull.merged);
        }
        _ => panic!("pull input must map to the pull variant"),
    }
    assert_eq!(attachment.content(), "adds things");
}

#[test]
fn client_code_converts_to_input() {
    let client = MessageAttachmentClientCode {
        filepath: Some("lib.rs".to_string()),
        start_line: Some(3),
        content: "let x = 1;".to_string(),
    };
    let input = MessageAttachmentCodeInput::from(client);
    assert_eq!(input.filepath.as_deref(), Some("lib.rs"));
    assert_eq!(input.start_line, Some(3));
    assert_eq!(input.content, "let x = 1;");
}

#[test]
fn default_attachment_is_empty() {
    let attachment = Attachment::default();
    assert!(attachment.client_code.is_empty());
    assert!(attachment.code.is_empty());
    assert!(attachment.doc.is_empty());
    assert!(attachment.code_file_list.is_none());
}

#[test]
fn update_message_input_rejects_empty_content() {
    let input = UpdateMessageInput { id: 1, thread_id: 1, content: String::new() };
    assert_eq!(input.validate(), Err(ValidationError::EmptyContent));
    let input = UpdateMessageInput { id: 1, thread_id: 1, content: "ok".to_string() };
    assert_eq!(input.validate(), Ok(()));
}

#[test]
fn zero_requests_per_minute_is_rejected() {
    assert_eq!(
        validate_requests_per_minute(0),
        Err(RateLimitError::ZeroRequestsPerMinute)
    );
    assert_eq!(validate_requests_per_minute(120), Ok(120));
}

#[test]
fn outward_message_and_thread_shapes() {
    let thread = Thread { id: 1, user_id: 2, is_ephemeral: false, created_at: 0, updated_at: 0 };
    let message = Message {
        id: 1,
        thread_id: thread.id,
        code_source_id: None,
        role: Role::User,
        content: "Hi".to_string(),
        attachment: Attachment::default(),
        created_at: 0,
        updated_at: 0,
    };
    assert_eq!(message.thread_id, thread.id);
    assert_eq!(message.role, Role::User);
    assert!(message.attachment.doc.is_empty());
}
