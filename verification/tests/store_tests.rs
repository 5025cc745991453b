use tabby_threads::threads::{AttachmentsUpdate, ThreadError, ThreadMessageAttachmentCode, ThreadStore};
use tabby_threads::Role;

#[test]
fn create_thread_assigns_monotonic_ids() {
    let mut store = ThreadStore::new();
    let a = store.create_thread(1);
    let b = store.create_thread(2);
    assert!(a < b);
    assert_eq!(a, 1);
    assert_eq!(b, 2);
}

#[test]
fn get_thread_finds_existing_and_misses_absent() {
    let mut store = ThreadStore::new();
    let id = store.create_thread(7);
    let thread = store.get_thread(id).expect("created thread must be found");
    assert_eq!(thread.id, id);
    assert_eq!(thread.user_id, 7);
    assert!(thread.relevant_questions.is_none());
    assert!(store.get_thread(id + 1).is_none());
}

#[test]
fn relevant_questions_overwrite_is_idempotent() {
    let mut store = ThreadStore::new();
    let id = store.create_thread(1);
    let qs = vec!["one?".to_string(), "two?".to_string()];
    store.update_thread_relevant_questions(id, qs.clone()).unwrap();
    store.update_thread_relevant_questions(id, qs.clone()).unwrap();
    let thread = store.get_thread(id).unwrap();
    assert_eq!(thread.relevant_questions.unwrap(), qs);
}

#[test]
fn relevant_questions_on_absent_thread_is_not_found() {
    let mut store = ThreadStore::new();
    let err = store
        .update_thread_relevant_questions(42, vec!["q".to_string()])
        .unwrap_err();
    assert_eq!(err, ThreadError::NotFound);
}

#[test]
fn alternation_rejects_same_role_twice() {
    let mut store = ThreadStore::new();
    let tid = store.create_thread(1);
    store
        .create_thread_message(tid, Role::User, "hi".to_string(), None, None, true)
        .unwrap();
    let err = store
        .create_thread_message(tid, Role::User, "again".to_string(), None, None, true)
        .unwrap_err();
    assert_eq!(err, ThreadError::RoleConflict);
    // the rejected call wrote nothing
    assert_eq!(store.get_thread_messages(tid).len(), 1);
    store
        .create_thread_message(tid, Role::Assistant, "hello".to_string(), None, None, true)
        .unwrap();
    let err = store
        .create_thread_message(tid, Role::Assistant, "more".to_string(), None, None, true)
        .unwrap_err();
    assert_eq!(err, ThreadError::RoleConflict);
    let roles: Vec<Role> = store.get_thread_messages(tid).iter().map(|m| m.role).collect();
    assert_eq!(roles, vec![Role::User, Role::Assistant]);
}

#[test]
fn alternation_unchecked_allows_same_role() {
    let mut store = ThreadStore::new();
    let tid = store.create_thread(1);
    store
        .create_thread_message(tid, Role::User, "a".to_string(), None, None, false)
        .unwrap();
    store
        .create_thread_message(tid, Role::User, "b".to_string(), None, None, false)
        .unwrap();
    assert_eq!(store.get_thread_messages(tid).len(), 2);
}

#[test]
fn create_message_on_absent_thread_is_not_found() {
    let mut store = ThreadStore::new();
    let err = store
        .create_thread_message(9, Role::User, "hi".to_string(), None, None, true)
        .unwrap_err();
    assert_eq!(err, ThreadError::NotFound);
}

#[test]
fn append_builds_concatenation_in_order() {
    let mut store = ThreadStore::new();
    let tid = store.create_thread(1);
    let mid = store
        .create_thread_message(tid, Role::User, String::new(), None, None, false)
        .unwrap();
    store.append_thread_message_content(mid, "Hel").unwrap();
    store.append_thread_message_content(mid, "lo").unwrap();
    let messages = store.get_thread_messages(tid);
    assert_eq!(messages[0].content, "Hello");
}

#[test]
fn append_to_absent_message_is_not_found() {
    let mut store = ThreadStore::new();
    let err = store.append_thread_message_content(5, "x").unwrap_err();
    assert_eq!(err, ThreadError::NotFound);
}

#[test]
fn list_messages_is_in_increasing_id_order_per_thread() {
    let mut store = ThreadStore::new();
    let t1 = store.create_thread(1);
    let t2 = store.create_thread(2);
    store
        .create_thread_message(t1, Role::User, "a".to_string(), None, None, false)
        .unwrap();
    store
        .create_thread_message(t2, Role::User, "b".to_string(), None, None, false)
        .unwrap();
    store
        .create_thread_message(t1, Role::Assistant, "c".to_string(), None, None, false)
        .unwrap();
    store
        .create_thread_message(t2, Role::Assistant, "d".to_string(), None, None, false)
        .unwrap();
    let m1 = store.get_thread_messages(t1);
    assert_eq!(m1.len(), 2);
    assert!(m1[0].id < m1[1].id);
    assert_eq!(m1[0].content, "a");
    assert_eq!(m1[1].content, "c");
    let m2 = store.get_thread_messages(t2);
    assert_eq!(m2.len(), 2);
    assert!(m2[0].id < m2[1].id);
    assert_eq!(m2[0].content, "b");
    assert_eq!(m2[1].content, "d");
}

#[test]
fn get_last_thread_message_returns_highest_id() {
    let mut store = ThreadStore::new();
    let tid = store.create_thread(1);
    assert!(store.get_last_thread_message(tid).is_none());
    store
        .create_thread_message(tid, Role::User, "first".to_string(), None, None, false)
        .unwrap();
    let last = store
        .create_thread_message(tid, Role::Assistant, "second".to_string(), None, None, false)
        .unwrap();
    let m = store.get_last_thread_message(tid).unwrap();
    assert_eq!(m.id, last);
    assert_eq!(m.content, "second");
    assert_eq!(m.role, Role::Assistant);
}

#[test]
fn attachment_update_keeps_or_replaces() {
    let mut store = ThreadStore::new();
    let tid = store.create_thread(1);
    let initial = vec![ThreadMessageAttachmentCode {
        filepath: Some("a.rs".to_string()),
        content: "fn a() {}".to_string(),
    }];
    let mid = store
        .create_thread_message(tid, Role::User, "hi".to_string(), Some(initial), None, false)
        .unwrap();
    // Keep leaves the stored value in place
    store
        .update_thread_message_attachments(mid, AttachmentsUpdate::Keep, AttachmentsUpdate::Keep)
        .unwrap();
    let m = store.get_last_thread_message(tid).unwrap();
    let kept = m.code_attachments.unwrap();
    assert_eq!(kept.len(), 1);
    assert_eq!(kept[0].filepath.as_deref(), Some("a.rs"));
    // Replace overwrites it
    let replacement = vec![
        ThreadMessageAttachmentCode { filepath: None, content: "x".to_string() },
        ThreadMessageAttachmentCode {
            filepath: Some("b.rs".to_string()),
            content: "y".to_string(),
        },
    ];
    store
        .update_thread_message_attachments(
            mid,
            AttachmentsUpdate::Replace(replacement),
            AttachmentsUpdate::Keep,
        )
        .unwrap();
    let m = store.get_last_thread_message(tid).unwrap();
    let code = m.code_attachments.unwrap();
    assert_eq!(code.len(), 2);
    assert_eq!(code[0].filepath, None);
    assert_eq!(code[1].filepath.as_deref(), Some("b.rs"));
    assert!(m.doc_attachments.is_none());
}

#[test]
fn attachment_update_on_absent_message_is_not_found() {
    let mut store = ThreadStore::new();
    let err = store
        .update_thread_message_attachments(3, AttachmentsUpdate::Keep, AttachmentsUpdate::Keep)
        .unwrap_err();
    assert_eq!(err, ThreadError::NotFound);
}

#[test]
fn end_to_end_turn() {
    let mut store = ThreadStore::new();
    let tid = store.create_thread(1);
    store
        .create_thread_message(tid, Role::User, "Hi".to_string(), None, None, true)
        .unwrap();
    let assistant = store
        .create_thread_message(tid, Role::Assistant, "Hello".to_string(), None, None, true)
        .unwrap();
    let err = store
        .create_thread_message(tid, Role::Assistant, "oops".to_string(), None, None, true)
        .unwrap_err();
    assert_eq!(err, ThreadError::RoleConflict);
    store.append_thread_message_content(assistant, "!").unwrap();
    store.append_thread_message_content(assistant, "!!").unwrap();
    let messages = store.get_thread_messages(tid);
    let contents: Vec<&str> = messages.iter().map(|m| m.content.as_str()).collect();
    assert_eq!(contents, vec!["Hi", "Hello!!!"]);
    let roles: Vec<Role> = messages.iter().map(|m| m.role).collect();
    assert_eq!(roles, vec![Role::User, Role::Assistant]);
}
