//! The run-event stream: the state machine of one assistant turn.
//!
//! A run emits typed items to one consumer while driving the store. The
//! ordering contract: the stream opens with the thread, user-message and
//! assistant-message creations; every item other than the content delta
//! occurs at most once; all deltas precede completion; and the
//! concatenation of the delta payloads, in emission order, is exactly the
//! stored assistant message content. Every emitted milestone corresponds to
//! a store write issued before the item is handed out.

use vstd::prelude::*;

use crate::retrieval::AttachmentDoc;
use crate::thread_types::{
    MessageCodeSearchHit, MessageDocSearchHit, Role, ThreadAssistantMessageAttachmentsCode,
    ThreadAssistantMessageAttachmentsCodeFileList, ThreadAssistantMessageAttachmentsDoc,
    ThreadAssistantMessageCompleted, ThreadAssistantMessageContentDelta,
    ThreadAssistantMessageCreated, ThreadAssistantMessageReadingCode, ThreadCreated,
    ThreadRelevantQuestions, ThreadRunItem, ThreadUserMessageCreated,
};
use crate::threads::{
    clone_string_vec, AttachmentsUpdate, ThreadError, ThreadMessageAttachmentCode,
    ThreadMessageAttachmentDoc, ThreadStore,
};

verus! {

/// The kind of a run item, with the payload forgotten.
#[derive(Clone, Copy, PartialEq, Eq, Structural, Debug)]
pub enum RunItemKind {
    Created,
    RelevantQuestions,
    UserMessageCreated,
    AssistantMessageCreated,
    ReadingCode,
    AttachmentsCodeFileList,
    AttachmentsCode,
    AttachmentsDoc,
    ContentDelta,
    Completed,
}

/// The kind of a run item.
pub open spec fn kind_of(item: ThreadRunItem) -> RunItemKind {
    match item {
        ThreadRunItem::ThreadCreated(_) => RunItemKind::Created,
        ThreadRunItem::ThreadRelevantQuestions(_) => RunItemKind::RelevantQuestions,
        ThreadRunItem::ThreadUserMessageCreated(_) => RunItemKind::UserMessageCreated,
        ThreadRunItem::ThreadAssistantMessageCreated(_) => RunItemKind::AssistantMessageCreated,
        ThreadRunItem::ThreadAssistantMessageReadingCode(_) => RunItemKind::ReadingCode,
        ThreadRunItem::ThreadAssistantMessageAttachmentsCodeFileList(_) => RunItemKind::AttachmentsCodeFileList,
        ThreadRunItem::ThreadAssistantMessageAttachmentsCode(_) => RunItemKind::AttachmentsCode,
        ThreadRunItem::ThreadAssistantMessageAttachmentsDoc(_) => RunItemKind::AttachmentsDoc,
        ThreadRunItem::ThreadAssistantMessageContentDelta(_) => RunItemKind::ContentDelta,
        ThreadRunItem::ThreadAssistantMessageCompleted(_) => RunItemKind::Completed,
    }
}

/// An item of this kind has been emitted.
pub open spec fn has_kind(events: Seq<ThreadRunItem>, k: RunItemKind) -> bool {
    exists|i: int| 0 <= i < events.len() && kind_of(#[trigger] events[i]) == k
}

/// Every kind but the content delta occurs at most once.
pub open spec fn one_shot_unique(events: Seq<ThreadRunItem>) -> bool {
    forall|i: int, j: int|
        0 <= i < j < events.len() && #[trigger] kind_of(events[i]) == #[trigger] kind_of(
            events[j],
        ) ==> kind_of(events[i]) == RunItemKind::ContentDelta
}

/// The payload a run item contributes to the assistant message content: a
/// delta's fragment, nothing for any other item.
pub open spec fn delta_payload(item: ThreadRunItem) -> Seq<char> {
    match item {
        ThreadRunItem::ThreadAssistantMessageContentDelta(d) => d.delta@,
        _ => Seq::empty(),
    }
}

/// The concatenation of all delta payloads, in emission order.
pub open spec fn deltas_concat(events: Seq<ThreadRunItem>) -> Seq<char>
    decreases events.len(),
{
    if events.len() == 0 {
        Seq::empty()
    } else {
        deltas_concat(events.drop_last()) + delta_payload(events.last())
    }
}

pub proof fn lemma_deltas_concat_push(events: Seq<ThreadRunItem>, item: ThreadRunItem)
    ensures
        deltas_concat(events.push(item)) == deltas_concat(events) + delta_payload(item),
{
    assert(events.push(item).drop_last() =~= events);
    assert(events.push(item).last() == item);
}

proof fn lemma_has_kind_push(events: Seq<ThreadRunItem>, item: ThreadRunItem)
    ensures
        forall|k: RunItemKind| #[trigger]
            has_kind(events.push(item), k) <==> (has_kind(events, k) || kind_of(item) == k),
{
    assert forall|k: RunItemKind| #[trigger] has_kind(events.push(item), k) <==> (has_kind(
        events,
        k,
    ) || kind_of(item) == k) by {
        if has_kind(events, k) {
            let w = choose|i: int| 0 <= i < events.len() && kind_of(#[trigger] events[i]) == k;
            assert(kind_of(events.push(item)[w]) == k);
        }
        if kind_of(item) == k {
            assert(kind_of(events.push(item)[events.len() as int]) == k);
        }
        if has_kind(events.push(item), k) {
            let w = choose|i: int|
                0 <= i < events.push(item).len() && kind_of(#[trigger] events.push(item)[i]) == k;
            if w < events.len() {
                assert(kind_of(events[w]) == k);
            } else {
                assert(events.push(item)[w] == item);
            }
        }
    }
}

proof fn lemma_one_shot_push(events: Seq<ThreadRunItem>, item: ThreadRunItem)
    requires
        one_shot_unique(events),
        kind_of(item) == RunItemKind::ContentDelta || !has_kind(events, kind_of(item)),
    ensures
        one_shot_unique(events.push(item)),
{
    let post = events.push(item);
    assert forall|i: int, j: int|
        0 <= i < j < post.len() && #[trigger] kind_of(post[i]) == #[trigger] kind_of(
            post[j],
        ) implies kind_of(post[i]) == RunItemKind::ContentDelta by {
        if j < events.len() {
            assert(post[i] == events[i] && post[j] == events[j]);
        } else {
            assert(post[j] == item);
            assert(post[i] == events[i]);
            if kind_of(item) != RunItemKind::ContentDelta {
                assert(has_kind(events, kind_of(item))) by {
                    assert(kind_of(events[i]) == kind_of(item));
                }
            }
        }
    }
}

/// One in-progress assistant turn: the rows it writes to, which one-shot
/// items it has emitted, and — as ghost history — the items themselves.
pub struct ThreadRun {
    pub thread_id: i64,
    pub user_message_id: i64,
    pub assistant_message_id: i64,
    pub relevant_questions_emitted: bool,
    pub reading_code_emitted: bool,
    pub attachments_file_list_emitted: bool,
    pub attachments_code_emitted: bool,
    pub attachments_doc_emitted: bool,
    pub completed: bool,
    pub events: Ghost<Seq<ThreadRunItem>>,
}

impl ThreadRun {
    /// The invariant tying a run to the store: its rows exist, the stream
    /// opened with the three creation items, no one-shot item repeats, the
    /// flags mirror the emitted kinds, completion is terminal, and the
    /// stored assistant content is exactly the concatenation of the emitted
    /// deltas.
    pub open spec fn wf(self, store: ThreadStore) -> bool {
        &&& store.wf()
        &&& store.spec_has_thread(self.thread_id)
        &&& store.spec_has_message(self.user_message_id)
        &&& store.spec_has_message(self.assistant_message_id)
        &&& self.events@.len() >= 3
        &&& self.events@[0] == ThreadRunItem::ThreadCreated(ThreadCreated { id: self.thread_id })
        &&& self.events@[1] == ThreadRunItem::ThreadUserMessageCreated(
            ThreadUserMessageCreated { id: self.user_message_id },
        )
        &&& self.events@[2] == ThreadRunItem::ThreadAssistantMessageCreated(
            ThreadAssistantMessageCreated { id: self.assistant_message_id },
        )
        &&& one_shot_unique(self.events@)
        &&& store.message_content(self.assistant_message_id) == deltas_concat(self.events@)
        &&& self.relevant_questions_emitted == has_kind(
            self.events@,
            RunItemKind::RelevantQuestions,
        )
        &&& self.reading_code_emitted == has_kind(self.events@, RunItemKind::ReadingCode)
        &&& self.attachments_file_list_emitted == has_kind(
            self.events@,
            RunItemKind::AttachmentsCodeFileList,
        )
        &&& self.attachments_code_emitted == has_kind(self.events@, RunItemKind::AttachmentsCode)
        &&& self.attachments_doc_emitted == has_kind(self.events@, RunItemKind::AttachmentsDoc)
        &&& self.completed == has_kind(self.events@, RunItemKind::Completed)
        &&& self.completed ==> kind_of(self.events@.last()) == RunItemKind::Completed
    }

    /// Opens a run: creates the thread, the user message carrying the given
    /// content, and the empty assistant message, in that order, each under
    /// the alternation check, and hands back the three creation items. The
    /// user message lands on a fresh thread and the assistant message
    /// follows a user message, so both checks succeed.
    pub fn start(store: &mut ThreadStore, user_id: i64, user_message_content: String) -> (r: (
        ThreadRun,
        Vec<ThreadRunItem>,
    ))
        requires
            old(store).wf(),
            old(store).can_assign_thread_id(),
            old(store).next_message_id + 1 < i64::MAX,
        ensures
            r.0.wf(*final(store)),
            !r.0.completed,
            !r.0.relevant_questions_emitted,
            !r.0.reading_code_emitted,
            !r.0.attachments_file_list_emitted,
            !r.0.attachments_code_emitted,
            !r.0.attachments_doc_emitted,
            r.0.events@ == r.1@,
            r.1@ =~= seq![
                ThreadRunItem::ThreadCreated(ThreadCreated { id: r.0.thread_id }),
                ThreadRunItem::ThreadUserMessageCreated(
                    ThreadUserMessageCreated { id: r.0.user_message_id },
                ),
                ThreadRunItem::ThreadAssistantMessageCreated(
                    ThreadAssistantMessageCreated { id: r.0.assistant_message_id },
                ),
            ],
            final(store).thread_messages(r.0.thread_id).len() == 2,
            final(store).thread_messages(r.0.thread_id)[0].role == Role::User,
            final(store).thread_messages(r.0.thread_id)[0].content@ == user_message_content@,
            final(store).thread_messages(r.0.thread_id)[1].role == Role::Assistant,
            final(store).thread_messages(r.0.thread_id)[1].content@ == Seq::<char>::empty(),
            final(store).message_content(r.0.assistant_message_id) == Seq::<char>::empty(),
            r.0.user_message_id == final(store).thread_messages(r.0.thread_id)[0].id,
            r.0.assistant_message_id == final(store).thread_messages(r.0.thread_id)[1].id,
            forall|t: i64|
                t != r.0.thread_id ==> #[trigger] final(store).thread_messages(t) == old(
                    store,
                ).thread_messages(t),
    {
        let thread_id = store.create_thread(user_id);
        let user_res = store.create_thread_message(
            thread_id,
            Role::User,
            user_message_content,
            None,
            None,
            true,
        );
        let user_message_id = match user_res {
            Ok(id) => id,
            Err(ThreadError::RoleConflict) => {
                proof {
                    assert(false);
                }
                0
            },
            Err(ThreadError::NotFound) => {
                proof {
                    assert(false);
                }
                0
            },
        };
        let assistant_res = store.create_thread_message(
            thread_id,
            Role::Assistant,
            String::new(),
            None,
            None,
            true,
        );
        let assistant_message_id = match assistant_res {
            Ok(id) => id,
            Err(ThreadError::RoleConflict) => {
                proof {
                    assert(false);
                }
                0
            },
            Err(ThreadError::NotFound) => {
                proof {
                    assert(false);
                }
                0
            },
        };
        let mut items: Vec<ThreadRunItem> = Vec::new();
        items.push(ThreadRunItem::ThreadCreated(ThreadCreated { id: thread_id }));
        items.push(
            ThreadRunItem::ThreadUserMessageCreated(
                ThreadUserMessageCreated { id: user_message_id },
            ),
        );
        items.push(
            ThreadRunItem::ThreadAssistantMessageCreated(
                ThreadAssistantMessageCreated { id: assistant_message_id },
            ),
        );
        let run = ThreadRun {
            thread_id,
            user_message_id,
            assistant_message_id,
            relevant_questions_emitted: false,
            reading_code_emitted: false,
            attachments_file_list_emitted: false,
            attachments_code_emitted: false,
            attachments_doc_emitted: false,
            completed: false,
            events: Ghost(items@),
        };
        proof {
            let e = items@;
            assert(kind_of(e[0]) == RunItemKind::Created);
            assert(kind_of(e[1]) == RunItemKind::UserMessageCreated);
            assert(kind_of(e[2]) == RunItemKind::AssistantMessageCreated);
            assert(deltas_concat(e) =~= Seq::<char>::empty()) by {
                lemma_deltas_concat_push(e.drop_last(), e.last());
                lemma_deltas_concat_push(e.drop_last().drop_last(), e.drop_last().last());
                lemma_deltas_concat_push(
                    e.drop_last().drop_last().drop_last(),
                    e.drop_last().drop_last().last(),
                );
                assert(e.drop_last().drop_last().drop_last() =~= Seq::empty());
                assert(e.drop_last().drop_last().drop_last().push(e.drop_last().drop_last().last())
                    =~= e.drop_last().drop_last());
                assert(e.drop_last().drop_last().push(e.drop_last().last()) =~= e.drop_last());
                assert(e.drop_last().push(e.last()) =~= e);
            }
            assert forall|k: RunItemKind| has_kind(e, k) implies (k == RunItemKind::Created || k
                == RunItemKind::UserMessageCreated || k
                == RunItemKind::AssistantMessageCreated) by {
                let w = choose|i: int| 0 <= i < e.len() && kind_of(#[trigger] e[i]) == k;
                assert(w == 0 || w == 1 || w == 2);
            }
            // the assistant row is the last message row; its id names it
            crate::threads::lemma_msg_idx_unique(
                store.messages@,
                assistant_message_id,
                store.messages@.len() - 1,
            );
        }
        (run, items)
    }

    /// Emits the cached-relevant-questions item, after persisting the list
    /// on the thread. One-shot; the stored list is exactly the emitted one.
    pub fn emit_relevant_questions(
        &mut self,
        store: &mut ThreadStore,
        questions: Vec<String>,
    ) -> (r: ThreadRunItem)
        requires
            old(self).wf(*old(store)),
            !old(self).completed,
            !old(self).relevant_questions_emitted,
        ensures
            final(self).wf(*final(store)),
            r == ThreadRunItem::ThreadRelevantQuestions(
                ThreadRelevantQuestions { questions: questions },
            ),
            final(self).events@ == old(self).events@.push(r),
            !final(self).completed,
            final(self).relevant_questions_emitted,
            same_run(*old(self), *final(self)),
            crate::threads::opt_vec_view(
                final(store).threads@[crate::threads::thread_idx(
                    old(store).threads@,
                    old(self).thread_id,
                )].relevant_questions,
            ) == Some(questions@),
            final(store).messages@ == old(store).messages@,
    {
        let stored = clone_string_vec(&questions);
        let res = store.update_thread_relevant_questions(self.thread_id, stored);
        proof {
            assert(res is Ok);
        }
        let item = ThreadRunItem::ThreadRelevantQuestions(ThreadRelevantQuestions { questions });
        self.relevant_questions_emitted = true;
        proof {
            lemma_one_shot_push(self.events@, item);
            lemma_has_kind_push(self.events@, item);
            lemma_deltas_concat_push(self.events@, item);
            assert(deltas_concat(self.events@) + Seq::<char>::empty() =~= deltas_concat(
                self.events@,
            ));
        }
        self.events = Ghost(self.events@.push(item));
        item
    }

    /// Emits the reading-code status item. One-shot; no store write backs
    /// it, it only reports what retrieval is about to do.
    pub fn emit_reading_code(
        &mut self,
        store: &ThreadStore,
        snippet: bool,
        file_list: bool,
    ) -> (r: ThreadRunItem)
        requires
            old(self).wf(*store),
            !old(self).completed,
            !old(self).reading_code_emitted,
        ensures
            final(self).wf(*store),
            r == ThreadRunItem::ThreadAssistantMessageReadingCode(
                ThreadAssistantMessageReadingCode { snippet, file_list },
            ),
            final(self).events@ == old(self).events@.push(r),
            !final(self).completed,
            final(self).reading_code_emitted,
            same_run(*old(self), *final(self)),
    {
        let item = ThreadRunItem::ThreadAssistantMessageReadingCode(
            ThreadAssistantMessageReadingCode { snippet, file_list },
        );
        self.reading_code_emitted = true;
        proof {
            lemma_one_shot_push(self.events@, item);
            lemma_has_kind_push(self.events@, item);
            lemma_deltas_concat_push(self.events@, item);
            assert(deltas_concat(self.events@) + Seq::<char>::empty() =~= deltas_concat(
                self.events@,
            ));
        }
        self.events = Ghost(self.events@.push(item));
        item
    }

    /// Emits the file-list item. One-shot.
    pub fn emit_attachments_file_list(
        &mut self,
        store: &ThreadStore,
        file_list: Vec<String>,
    ) -> (r: ThreadRunItem)
        requires
            old(self).wf(*store),
            !old(self).completed,
            !old(self).attachments_file_list_emitted,
        ensures
            final(self).wf(*store),
            r == ThreadRunItem::ThreadAssistantMessageAttachmentsCodeFileList(
                ThreadAssistantMessageAttachmentsCodeFileList { file_list: file_list },
            ),
            final(self).events@ == old(self).events@.push(r),
            !final(self).completed,
            final(self).attachments_file_list_emitted,
            same_run(*old(self), *final(self)),
    {
        let item = ThreadRunItem::ThreadAssistantMessageAttachmentsCodeFileList(
            ThreadAssistantMessageAttachmentsCodeFileList { file_list },
        );
        self.attachments_file_list_emitted = true;
        proof {
            lemma_one_shot_push(self.events@, item);
            lemma_has_kind_push(self.events@, item);
            lemma_deltas_concat_push(self.events@, item);
            assert(deltas_concat(self.events@) + Seq::<char>::empty() =~= deltas_concat(
                self.events@,
            ));
        }
        self.events = Ghost(self.events@.push(item));
        item
    }
    /// Emits the retrieved-code item, after persisting the hits as the code
    /// attachments of the assistant message. One-shot; each stored
    /// attachment carries the filepath and content of the hit it came from.
    pub fn emit_attachments_code(
        &mut self,
        store: &mut ThreadStore,
        hits: Vec<MessageCodeSearchHit>,
    ) -> (r: ThreadRunItem)
        requires
            old(self).wf(*old(store)),
            !old(self).completed,
            !old(self).attachments_code_emitted,
        ensures
            final(self).wf(*final(store)),
            r == ThreadRunItem::ThreadAssistantMessageAttachmentsCode(
                ThreadAssistantMessageAttachmentsCode { hits: hits },
            ),
            final(self).events@ == old(self).events@.push(r),
            !final(self).completed,
            final(self).attachments_code_emitted,
            same_run(*old(self), *final(self)),
            ({
                let i = crate::threads::msg_idx(
                    old(store).messages@,
                    old(self).assistant_message_id,
                );
                let ca = final(store).messages@[i].code_attachments;
                &&& ca is Some
                &&& ca.unwrap()@.len() == hits@.len()
                &&& forall|k: int|
                    0 <= k < hits@.len() ==> code_attachment_matches(
                        #[trigger] ca.unwrap()@[k],
                        hits@[k],
                    )
            }),
            final(store).threads@ == old(store).threads@,
    {
        let n = hits.len();
        let mut attachments: Vec<ThreadMessageAttachmentCode> = Vec::new();
        let mut i: usize = 0;
        while i < n
            invariant
                i <= n,
                n == hits@.len(),
                attachments@.len() == i,
                forall|k: int|
                    0 <= k < i ==> code_attachment_matches(#[trigger] attachments@[k], hits@[k]),
            decreases n - i,
        {
            attachments.push(
                ThreadMessageAttachmentCode {
                    filepath: Some(hits[i].code.filepath.clone()),
                    content: hits[i].code.content.clone(),
                },
            );
            i += 1;
        }
        let res = store.update_thread_message_attachments(
            self.assistant_message_id,
            AttachmentsUpdate::Replace(attachments),
            AttachmentsUpdate::Keep,
        );
        proof {
            assert(res is Ok);
        }
        let item = ThreadRunItem::ThreadAssistantMessageAttachmentsCode(
            ThreadAssistantMessageAttachmentsCode { hits },
        );
        self.attachments_code_emitted = true;
        proof {
            lemma_one_shot_push(self.events@, item);
            lemma_has_kind_push(self.events@, item);
            lemma_deltas_concat_push(self.events@, item);
            assert(deltas_concat(self.events@) + Seq::<char>::empty() =~= deltas_concat(
                self.events@,
            ));
            lemma_content_untouched(*old(store), *store, self.assistant_message_id);
        }
        self.events = Ghost(self.events@.push(item));
        item
    }

    /// Emits the retrieved-documents item, after persisting the hits as the
    /// document attachments of the assistant message. One-shot; each stored
    /// attachment carries the title, link and normalized content of the hit
    /// it came from.
    pub fn emit_attachments_doc(
        &mut self,
        store: &mut ThreadStore,
        hits: Vec<MessageDocSearchHit>,
    ) -> (r: ThreadRunItem)
        requires
            old(self).wf(*old(store)),
            !old(self).completed,
            !old(self).attachments_doc_emitted,
        ensures
            final(self).wf(*final(store)),
            r == ThreadRunItem::ThreadAssistantMessageAttachmentsDoc(
                ThreadAssistantMessageAttachmentsDoc { hits: hits },
            ),
            final(self).events@ == old(self).events@.push(r),
            !final(self).completed,
            final(self).attachments_doc_emitted,
            same_run(*old(self), *final(self)),
            ({
                let i = crate::threads::msg_idx(
                    old(store).messages@,
                    old(self).assistant_message_id,
                );
                let da = final(store).messages@[i].doc_attachments;
                &&& da is Some
                &&& da.unwrap()@.len() == hits@.len()
                &&& forall|k: int|
                    0 <= k < hits@.len() ==> doc_attachment_matches(
                        #[trigger] da.unwrap()@[k],
                        hits@[k],
                    )
            }),
            final(store).threads@ == old(store).threads@,
    {
        let n = hits.len();
        let mut attachments: Vec<ThreadMessageAttachmentDoc> = Vec::new();
        let mut i: usize = 0;
        while i < n
            invariant
                i <= n,
                n == hits@.len(),
                attachments@.len() == i,
                forall|k: int|
                    0 <= k < i ==> doc_attachment_matches(#[trigger] attachments@[k], hits@[k]),
            decreases n - i,
        {
            attachments.push(doc_attachment_of(&hits[i].doc));
            i += 1;
        }
        let res = store.update_thread_message_attachments(
            self.assistant_message_id,
            AttachmentsUpdate::Keep,
            AttachmentsUpdate::Replace(attachments),
        );
        proof {
            assert(res is Ok);
        }
        let item = ThreadRunItem::ThreadAssistantMessageAttachmentsDoc(
            ThreadAssistantMessageAttachmentsDoc { hits },
        );
        self.attachments_doc_emitted = true;
        proof {
            lemma_one_shot_push(self.events@, item);
            lemma_has_kind_push(self.events@, item);
            lemma_deltas_concat_push(self.events@, item);
            assert(deltas_concat(self.events@) + Seq::<char>::empty() =~= deltas_concat(
                self.events@,
            ));
            lemma_content_untouched(*old(store), *store, self.assistant_message_id);
        }
        self.events = Ghost(self.events@.push(item));
        item
    }

    /// Emits one content delta, after appending its fragment to the stored
    /// assistant message. Repeatable: the stored content stays the
    /// concatenation of all fragments emitted so far, in order.
    pub fn emit_content_delta(&mut self, store: &mut ThreadStore, delta: String) -> (r:
        ThreadRunItem)
        requires
            old(self).wf(*old(store)),
            !old(self).completed,
        ensures
            final(self).wf(*final(store)),
            r == ThreadRunItem::ThreadAssistantMessageContentDelta(
                ThreadAssistantMessageContentDelta { delta: delta },
            ),
            final(self).events@ == old(self).events@.push(r),
            !final(self).completed,
            same_run(*old(self), *final(self)),
            final(store).message_content(old(self).assistant_message_id) == old(
                store,
            ).message_content(old(self).assistant_message_id) + delta@,
            final(store).threads@ == old(store).threads@,
    {
        let res = store.append_thread_message_content(self.assistant_message_id, delta.as_str());
        proof {
            assert(res is Ok);
        }
        let item = ThreadRunItem::ThreadAssistantMessageContentDelta(
            ThreadAssistantMessageContentDelta { delta },
        );
        proof {
            lemma_one_shot_push(self.events@, item);
            lemma_has_kind_push(self.events@, item);
            lemma_deltas_concat_push(self.events@, item);
        }
        self.events = Ghost(self.events@.push(item));
        item
    }

    /// Closes the run with the completion item. Afterwards nothing more can
    /// be emitted, and the stored assistant content is exactly the
    /// concatenation of all emitted deltas, in emission order.
    pub fn complete(&mut self, store: &ThreadStore) -> (r: ThreadRunItem)
        requires
            old(self).wf(*store),
            !old(self).completed,
        ensures
            final(self).wf(*store),
            final(self).completed,
            r == ThreadRunItem::ThreadAssistantMessageCompleted(
                ThreadAssistantMessageCompleted { id: old(self).assistant_message_id },
            ),
            final(self).events@ == old(self).events@.push(r),
            same_run(*old(self), *final(self)),
            store.message_content(old(self).assistant_message_id) == deltas_concat(
                final(self).events@,
            ),
            one_shot_unique(final(self).events@),
    {
        let item = ThreadRunItem::ThreadAssistantMessageCompleted(
            ThreadAssistantMessageCompleted { id: self.assistant_message_id },
        );
        self.completed = true;
        proof {
            lemma_one_shot_push(self.events@, item);
            lemma_has_kind_push(self.events@, item);
            lemma_deltas_concat_push(self.events@, item);
            assert(deltas_concat(self.events@) + Seq::<char>::empty() =~= deltas_concat(
                self.events@,
            ));
        }
        self.events = Ghost(self.events@.push(item));
        item
    }
}

/// A stored code attachment carries the filepath and content of the hit it
/// was made from.
pub open spec fn code_attachment_matches(
    a: ThreadMessageAttachmentCode,
    h: MessageCodeSearchHit,
) -> bool {
    &&& a.filepath is Some
    &&& a.filepath.unwrap()@ == h.code.filepath@
    &&& a.content@ == h.code.content@
}

/// A stored document attachment carries the title, link and normalized
/// content of the hit it was made from.
pub open spec fn doc_attachment_matches(
    a: ThreadMessageAttachmentDoc,
    h: MessageDocSearchHit,
) -> bool {
    &&& a.title@ == h.doc.spec_title()
    &&& a.link@ == h.doc.spec_link()
    &&& a.content@ == h.doc.spec_content()
}

/// The persisted form of a document attachment: its title, link and
/// normalized content.
fn doc_attachment_of(doc: &AttachmentDoc) -> (r: ThreadMessageAttachmentDoc)
    ensures
        r.title@ == doc.spec_title(),
        r.link@ == doc.spec_link(),
        r.content@ == doc.spec_content(),
{
    match doc {
        AttachmentDoc::Web(web) => ThreadMessageAttachmentDoc {
            title: web.title.clone(),
            link: web.link.clone(),
            content: web.content.clone(),
        },
        AttachmentDoc::Issue(issue) => ThreadMessageAttachmentDoc {
            title: issue.title.clone(),
            link: issue.link.clone(),
            content: issue.body.clone(),
        },
        AttachmentDoc::Pull(pull) => ThreadMessageAttachmentDoc {
            title: pull.title.clone(),
            link: pull.link.clone(),
            content: pull.body.clone(),
        },
    }
}

/// After a write that leaves every message's id and content in place, each
/// stored message content reads the same.
proof fn lemma_content_untouched(pre: ThreadStore, post: ThreadStore, id: i64)
    requires
        pre.wf(),
        post.wf(),
        pre.spec_has_message(id),
        post.messages@.len() == pre.messages@.len(),
        forall|j: int|
            0 <= j < pre.messages@.len() ==> #[trigger] post.messages@[j].id
                == pre.messages@[j].id,
        forall|j: int|
            0 <= j < pre.messages@.len() ==> #[trigger] post.messages@[j].content
                == pre.messages@[j].content,
    ensures
        post.message_content(id) == pre.message_content(id),
        post.spec_has_message(id),
{
    let w = choose|k: int| 0 <= k < pre.messages@.len() && #[trigger] pre.messages@[k].id == id;
    crate::threads::lemma_msg_idx_unique(pre.messages@, id, w);
    crate::threads::lemma_msg_idx_unique(post.messages@, id, w);
}

/// The identifying fields of a run are fixed for its whole life.
pub open spec fn same_run(a: ThreadRun, b: ThreadRun) -> bool {
    &&& a.thread_id == b.thread_id
    &&& a.user_message_id == b.user_message_id
    &&& a.assistant_message_id == b.assistant_message_id
}

} // verus!
