use tabby_threads::retrieval::{AttachmentCode, AttachmentCodeScores, AttachmentDoc, AttachmentWebDoc};
use tabby_threads::thread_types::{MessageCodeSearchHit, MessageDocSearchHit, ThreadRunItem};
use tabby_threads::threads::ThreadStore;
use tabby_threads::run::ThreadRun;
use tabby_threads::Role;

fn sample_code_hit() -> MessageCodeSearchHit {
    MessageCodeSearchHit {
        code: AttachmentCode {
            git_url: "https://example.com/repo.git".to_string(),
            commit: None,
            filepath: "src/lib.rs".to_string(),
            language: "rust".to_string(),
            content: "pub fn f() {}".to_string(),
            start_line: None,
        },
        scores: AttachmentCodeScores { rrf: 1, bm25: 2, embedding: 3 },
    }
}

fn sample_doc_hit() -> MessageDocSearchHit {
    MessageDocSearchHit {
        doc: AttachmentDoc::Web(AttachmentWebDoc {
            title: "Docs".to_string(),
            link: "https://example.com/docs".to_string(),
            content: "how to".to_string(),
        }),
        score: 9,
    }
}

#[test]
fn start_emits_the_three_creation_items() {
    let mut store = ThreadStore::new();
    let (run, items) = ThreadRun::start(&mut store, 1, "Hi".to_string());
    assert_eq!(items.len(), 3);
    assert!(matches!(&items[0], ThreadRunItem::ThreadCreated(c) if c.id == run.thread_id));
    assert!(
        matches!(&items[1], ThreadRunItem::ThreadUserMessageCreated(c) if c.id == run.user_message_id)
    );
    assert!(
        matches!(&items[2], ThreadRunItem::ThreadAssistantMessageCreated(c) if c.id == run.assistant_message_id)
    );
    let messages = store.get_thread_messages(run.thread_id);
    assert_eq!(messages.len(), 2);
    assert_eq!(messages[0].role, Role::User);
    assert_eq!(messages[0].content, "Hi");
    assert_eq!(messages[1].role, Role::Assistant);
    assert_eq!(messages[1].content, "");
}

#[test]
fn full_run_streams_and_persists_consistently() {
    let mut store = ThreadStore::new();
    let (mut run, _items) = ThreadRun::start(&mut store, 1, "Hi".to_string());

    let item = run.emit_reading_code(&store, true, false);
    assert!(matches!(
        item,
        ThreadRunItem::ThreadAssistantMessageReadingCode(rc) if rc.snippet && !rc.file_list
    ));

    let item = run.emit_attachments_file_list(&store, vec!["src/lib.rs".to_string()]);
    assert!(matches!(
        &item,
        ThreadRunItem::ThreadAssistantMessageAttachmentsCodeFileList(f) if f.file_list == vec!["src/lib.rs".to_string()]
    ));

    let item = run.emit_attachments_code(&mut store, vec![sample_code_hit()]);
    assert!(matches!(
        &item,
        ThreadRunItem::ThreadAssistantMessageAttachmentsCode(c) if c.hits.len() == 1
    ));

    let item = run.emit_attachments_doc(&mut store, vec![sample_doc_hit()]);
    assert!(matches!(
        &item,
        ThreadRunItem::ThreadAssistantMessageAttachmentsDoc(d) if d.hits.len() == 1
    ));

    let item = run.emit_relevant_questions(&mut store, vec!["what next?".to_string()]);
    assert!(matches!(
        &item,
        ThreadRunItem::ThreadRelevantQuestions(q) if q.questions == vec!["what next?".to_string()]
    ));

    let item = run.emit_content_delta(&mut store, "Hel".to_string());
    assert!(matches!(
        &item,
        ThreadRunItem::ThreadAssistantMessageContentDelta(d) if d.delta == "Hel"
    ));
    let _ = run.emit_content_delta(&mut store, "lo".to_string());

    let item = run.complete(&store);
    assert!(matches!(
        item,
        ThreadRunItem::ThreadAssistantMessageCompleted(c) if c.id == run.assistant_message_id
    ));

    // the persisted state matches everything that was streamed
    let messages = store.get_thread_messages(run.thread_id);
    assert_eq!(messages.len(), 2);
    let assistant = &messages[1];
    assert_eq!(assistant.content, "Hello");
    let code = assistant.code_attachments.as_ref().unwrap();
    assert_eq!(code.len(), 1);
    assert_eq!(code[0].filepath.as_deref(), Some("src/lib.rs"));
    assert_eq!(code[0].content, "pub fn f() {}");
    let docs = assistant.doc_attachments.as_ref().unwrap();
    assert_eq!(docs.len(), 1);
    assert_eq!(docs[0].title, "Docs");
    assert_eq!(docs[0].link, "https://example.com/docs");
    assert_eq!(docs[0].content, "how to");
    let thread = store.get_thread(run.thread_id).unwrap();
    assert_eq!(thread.relevant_questions.unwrap(), vec!["what next?".to_string()]);
}

#[test]
fn runs_on_separate_threads_do_not_interfere() {
    let mut store = ThreadStore::new();
    let (mut run_a, _) = ThreadRun::start(&mut store, 1, "first".to_string());
    let (mut run_b, _) = ThreadRun::start(&mut store, 2, "second".to_string());
    let _ = run_a.emit_content_delta(&mut store, "A".to_string());
    let _ = run_b.emit_content_delta(&mut store, "B".to_string());
    let _ = run_a.complete(&store);
    let _ = run_b.complete(&store);
    assert_eq!(store.get_thread_messages(run_a.thread_id)[1].content, "A");
    assert_eq!(store.get_thread_messages(run_b.thread_id)[1].content, "B");
}
