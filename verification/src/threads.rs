//! The thread store: threads and their messages, kept under monotonically
//! increasing ids.
//!
//! The store is the persistence model of the library: rows live in insertion
//! order, message ids give the total order used for retrieval, the
//! role-alternation check guards `create_thread_message` on request, and
//! streamed assistant text grows a message only by ordered appends.

use vstd::prelude::*;
use vstd::string::StringExecFns;

use crate::thread_types::Role;

verus! {

/// A document attachment as persisted on a message row.
#[verifier::ext_equal]
pub struct ThreadMessageAttachmentDoc {
    pub title: String,
    pub link: String,
    pub content: String,
}

/// A code attachment as persisted on a message row.
#[verifier::ext_equal]
pub struct ThreadMessageAttachmentCode {
    pub filepath: Option<String>,
    pub content: String,
}

/// A stored thread row.
#[verifier::ext_equal]
pub struct ThreadDAO {
    pub id: i64,
    pub user_id: i64,
    pub relevant_questions: Option<Vec<String>>,
    pub created_at: i64,
    pub updated_at: i64,
}

/// A stored message row.
#[verifier::ext_equal]
pub struct ThreadMessageDAO {
    pub id: i64,
    pub thread_id: i64,
    pub role: Role,
    pub content: String,
    pub code_attachments: Option<Vec<ThreadMessageAttachmentCode>>,
    pub doc_attachments: Option<Vec<ThreadMessageAttachmentDoc>>,
    pub created_at: i64,
    pub updated_at: i64,
}

/// How a message-attachment field is changed: left as it is, or overwritten.
/// An explicit two-case input, so that "unchanged" is never read as "clear".
pub enum AttachmentsUpdate<T> {
    Keep,
    Replace(Vec<T>),
}

/// The store's failure conditions. Role conflicts reject a turn; addressing
/// an absent row is surfaced, never retried.
#[derive(Clone, Copy, PartialEq, Eq, Structural, Debug)]
pub enum ThreadError {
    RoleConflict,
    NotFound,
}

/// The view of an optional list as an optional sequence.
pub open spec fn opt_vec_view<T>(o: Option<Vec<T>>) -> Option<Seq<T>> {
    match o {
        Option::None => Option::<Seq<T>>::None,
        Option::Some(v) => Option::Some(v@),
    }
}

/// Row equivalence up to string and list identity: the same stored data.
pub open spec fn row_like(a: ThreadMessageDAO, b: ThreadMessageDAO) -> bool {
    &&& a.id == b.id
    &&& a.thread_id == b.thread_id
    &&& a.role == b.role
    &&& a.content@ == b.content@
    &&& opt_vec_view(a.code_attachments) == opt_vec_view(b.code_attachments)
    &&& opt_vec_view(a.doc_attachments) == opt_vec_view(b.doc_attachments)
    &&& a.created_at == b.created_at
    &&& a.updated_at == b.updated_at
}

/// Pointwise `row_like` on whole sequences of rows.
pub open spec fn rows_like(a: Seq<ThreadMessageDAO>, b: Seq<ThreadMessageDAO>) -> bool {
    &&& a.len() == b.len()
    &&& forall|i: int| 0 <= i < a.len() ==> row_like(#[trigger] a[i], b[i])
}

/// Thread-row equivalence up to string and list identity.
pub open spec fn thread_like(a: ThreadDAO, b: ThreadDAO) -> bool {
    &&& a.id == b.id
    &&& a.user_id == b.user_id
    &&& opt_vec_view(a.relevant_questions) == opt_vec_view(b.relevant_questions)
    &&& a.created_at == b.created_at
    &&& a.updated_at == b.updated_at
}

/// The messages of one thread, in stored order.
pub open spec fn messages_of(msgs: Seq<ThreadMessageDAO>, thread_id: i64) -> Seq<ThreadMessageDAO>
    decreases msgs.len(),
{
    if msgs.len() == 0 {
        Seq::empty()
    } else if msgs.last().thread_id == thread_id {
        messages_of(msgs.drop_last(), thread_id).push(msgs.last())
    } else {
        messages_of(msgs.drop_last(), thread_id)
    }
}

/// The roles of a sequence of rows, in order.
pub open spec fn roles_of(msgs: Seq<ThreadMessageDAO>) -> Seq<Role> {
    msgs.map_values(|m: ThreadMessageDAO| m.role)
}

/// No two consecutive roles are equal.
pub open spec fn alternating(roles: Seq<Role>) -> bool {
    forall|i: int| 0 <= i < roles.len() - 1 ==> #[trigger] roles[i] != roles[i + 1]
}

/// Ids strictly increase along the sequence.
pub open spec fn ids_increasing(msgs: Seq<ThreadMessageDAO>) -> bool {
    forall|i: int, j: int|
        0 <= i < j < msgs.len() ==> #[trigger] msgs[i].id < #[trigger] msgs[j].id
}

/// The index of the message row with the given id, where one exists.
pub open spec fn msg_idx(msgs: Seq<ThreadMessageDAO>, id: i64) -> int {
    choose|i: int| 0 <= i < msgs.len() && msgs[i].id == id
}

/// The index of the thread row with the given id, where one exists.
pub open spec fn thread_idx(threads: Seq<ThreadDAO>, id: i64) -> int {
    choose|i: int| 0 <= i < threads.len() && threads[i].id == id
}

proof fn lemma_messages_of_push(msgs: Seq<ThreadMessageDAO>, m: ThreadMessageDAO, thread_id: i64)
    ensures
        messages_of(msgs.push(m), thread_id) == (if m.thread_id == thread_id {
            messages_of(msgs, thread_id).push(m)
        } else {
            messages_of(msgs, thread_id)
        }),
{
    assert(msgs.push(m).drop_last() =~= msgs);
    assert(msgs.push(m).last() == m);
}

proof fn lemma_roles_push(msgs: Seq<ThreadMessageDAO>, m: ThreadMessageDAO)
    ensures
        roles_of(msgs.push(m)) =~= roles_of(msgs).push(m.role),
{
}

/// An alternating role sequence stays alternating when a role different
/// from its last is appended — the step by which the alternation check
/// keeps every thread's history free of two consecutive equal roles.
pub proof fn lemma_alternation_extends(roles: Seq<Role>, r: Role)
    requires
        alternating(roles),
        roles.len() > 0 ==> roles.last() != r,
    ensures
        alternating(roles.push(r)),
{
    let post = roles.push(r);
    assert forall|i: int| 0 <= i < post.len() - 1 implies #[trigger] post[i] != post[i + 1] by {
        if i < roles.len() - 1 {
            assert(roles[i] != roles[i + 1]);
        } else {
            assert(post[i] == roles.last());
        }
    }
}

/// With strictly increasing thread ids, the row found at `i` is the row
/// `thread_idx` names.
pub proof fn lemma_thread_idx_unique(threads: Seq<ThreadDAO>, id: i64, i: int)
    requires
        forall|a: int, b: int|
            0 <= a < b < threads.len() ==> #[trigger] threads[a].id < #[trigger] threads[b].id,
        0 <= i < threads.len(),
        threads[i].id == id,
    ensures
        thread_idx(threads, id) == i,
{
    assert(exists|k: int| 0 <= k < threads.len() && threads[k].id == id) by {
        assert(0 <= i < threads.len() && threads[i].id == id);
    }
    let w = thread_idx(threads, id);
    if w < i {
        assert(threads[w].id < threads[i].id);
    }
    if i < w {
        assert(threads[i].id < threads[w].id);
    }
}

/// With strictly increasing message ids, the row found at `i` is the row
/// `msg_idx` names.
pub proof fn lemma_msg_idx_unique(msgs: Seq<ThreadMessageDAO>, id: i64, i: int)
    requires
        ids_increasing(msgs),
        0 <= i < msgs.len(),
        msgs[i].id == id,
    ensures
        msg_idx(msgs, id) == i,
{
    assert(exists|k: int| 0 <= k < msgs.len() && msgs[k].id == id) by {
        assert(0 <= i < msgs.len() && msgs[i].id == id);
    }
    let w = msg_idx(msgs, id);
    if w < i {
        assert(msgs[w].id < msgs[i].id);
    }
    if i < w {
        assert(msgs[i].id < msgs[w].id);
    }
}

/// The store of threads and messages. Rows are kept in id order; ids are
/// assigned from the two counters and never reused.
pub struct ThreadStore {
    pub threads: Vec<ThreadDAO>,
    pub messages: Vec<ThreadMessageDAO>,
    pub next_thread_id: i64,
    pub next_message_id: i64,
}

/// Relies on chrono's `Utc::now` and `DateTime::timestamp_millis`: the
/// current wall-clock time in milliseconds since the Unix epoch. The value
/// depends on the clock, so nothing is promised of it.
#[verifier::external_body]
fn now_millis() -> i64 {
    chrono::Utc::now().timestamp_millis()
}

impl ThreadStore {
    /// Well-formedness: ids positive, strictly increasing in row order and
    /// below the counters, and every message's thread exists.
    pub open spec fn wf(self) -> bool {
        &&& 1 <= self.next_thread_id
        &&& 1 <= self.next_message_id
        &&& forall|i: int, j: int|
            0 <= i < j < self.threads@.len() ==> #[trigger] self.threads@[i].id
                < #[trigger] self.threads@[j].id
        &&& forall|i: int|
            0 <= i < self.threads@.len() ==> 1 <= (#[trigger] self.threads@[i].id)
                < self.next_thread_id
        &&& ids_increasing(self.messages@)
        &&& forall|i: int|
            0 <= i < self.messages@.len() ==> 1 <= (#[trigger] self.messages@[i].id)
                < self.next_message_id
        &&& forall|i: int|
            0 <= i < self.messages@.len() ==> self.spec_has_thread(
                #[trigger] self.messages@[i].thread_id,
            )
    }

    /// A thread row with this id exists.
    pub open spec fn spec_has_thread(self, id: i64) -> bool {
        exists|i: int| 0 <= i < self.threads@.len() && #[trigger] self.threads@[i].id == id
    }

    /// A message row with this id exists.
    pub open spec fn spec_has_message(self, id: i64) -> bool {
        exists|i: int| 0 <= i < self.messages@.len() && #[trigger] self.messages@[i].id == id
    }

    /// The stored messages of one thread, in id order.
    pub open spec fn thread_messages(self, thread_id: i64) -> Seq<ThreadMessageDAO> {
        messages_of(self.messages@, thread_id)
    }

    /// The stored content of the message with this id.
    pub open spec fn message_content(self, id: i64) -> Seq<char> {
        self.messages@[msg_idx(self.messages@, id)].content@
    }

    /// Another thread id can still be assigned.
    pub open spec fn can_assign_thread_id(self) -> bool {
        self.next_thread_id < i64::MAX
    }

    /// Another message id can still be assigned.
    pub open spec fn can_assign_message_id(self) -> bool {
        self.next_message_id < i64::MAX
    }

    /// An empty store.
    pub fn new() -> (s: Self)
        ensures
            s.wf(),
            s.threads@.len() == 0,
            s.messages@.len() == 0,
            s.next_thread_id == 1,
            s.next_message_id == 1,
    {
        ThreadStore { threads: Vec::new(), messages: Vec::new(), next_thread_id: 1, next_message_id: 1 }
    }

    /// Whether a thread with this id exists.
    pub fn has_thread(&self, id: i64) -> (r: bool)
        ensures
            r == self.spec_has_thread(id),
    {
        let n = self.threads.len();
        let mut i: usize = 0;
        while i < n
            invariant
                i <= n,
                n == self.threads@.len(),
                forall|j: int| 0 <= j < i ==> #[trigger] self.threads@[j].id != id,
            decreases n - i,
        {
            if self.threads[i].id == id {
                return true;
            }
            i += 1;
        }
        false
    }

    /// Creates a thread owned by the given user and returns its id. Always
    /// succeeds; the new id is the next one, so ids increase monotonically.
    pub fn create_thread(&mut self, user_id: i64) -> (r: i64)
        requires
            old(self).wf(),
            old(self).can_assign_thread_id(),
        ensures
            final(self).wf(),
            r == old(self).next_thread_id,
            final(self).next_thread_id == old(self).next_thread_id + 1,
            final(self).next_message_id == old(self).next_message_id,
            final(self).messages@ == old(self).messages@,
            final(self).threads@.len() == old(self).threads@.len() + 1,
            final(self).threads@.drop_last() == old(self).threads@,
            final(self).threads@.last().id == r,
            final(self).threads@.last().user_id == user_id,
            final(self).threads@.last().relevant_questions is None,
            final(self).threads@.last().created_at == final(self).threads@.last().updated_at,
            final(self).spec_has_thread(r),
            forall|t: i64| old(self).spec_has_thread(t) ==> final(self).spec_has_thread(t),
            forall|t: i64|
                #[trigger] final(self).thread_messages(t) == old(self).thread_messages(t),
            final(self).thread_messages(r).len() == 0,
    {
        let now = now_millis();
        let id = self.next_thread_id;
        self.next_thread_id = self.next_thread_id + 1;
        let row = ThreadDAO {
            id,
            user_id,
            relevant_questions: None,
            created_at: now,
            updated_at: now,
        };
        self.threads.push(row);
        proof {
            assert(self.threads@.drop_last() =~= old(self).threads@);
            assert forall|t: i64| old(self).spec_has_thread(t) implies self.spec_has_thread(
                t,
            ) by {
                let w = choose|i: int|
                    0 <= i < old(self).threads@.len() && old(self).threads@[i].id == t;
                assert(self.threads@[w].id == t);
            }
            assert forall|i: int| 0 <= i < self.messages@.len() implies self.spec_has_thread(
                #[trigger] self.messages@[i].thread_id,
            ) by {
                assert(old(self).spec_has_thread(self.messages@[i].thread_id));
            }
            // a message of the new thread would have needed a thread row with
            // an id at or above the old counter
            assert forall|i: int| 0 <= i < self.messages@.len() implies #[trigger] self
                .messages@[i].thread_id != id by {
                let w = choose|k: int|
                    0 <= k < old(self).threads@.len() && old(self).threads@[k].id
                        == self.messages@[i].thread_id;
                assert(old(self).threads@[w].id < id);
            }
            lemma_messages_of_all_absent(self.messages@, id);
        }
        id
    }

    /// Looks a thread up by id; an absent row is an explicit miss, not an
    /// error.
    pub fn get_thread(&self, id: i64) -> (r: Option<ThreadDAO>)
        requires
            self.wf(),
        ensures
            r is Some <==> self.spec_has_thread(id),
            r is Some ==> thread_like(r.unwrap(), self.threads@[thread_idx(self.threads@, id)]),
    {
        let n = self.threads.len();
        let mut i: usize = 0;
        while i < n
            invariant
                self.wf(),
                i <= n,
                n == self.threads@.len(),
                forall|j: int| 0 <= j < i ==> #[trigger] self.threads@[j].id != id,
            decreases n - i,
        {
            if self.threads[i].id == id {
                let row = clone_thread_row(&self.threads[i]);
                proof {
                    lemma_thread_idx_unique(self.threads@, id, i as int);
                }
                return Some(row);
            }
            i += 1;
        }
        None
    }

    /// Overwrites the cached relevant questions of a thread. Idempotent:
    /// the stored value afterwards is exactly the given list.
    pub fn update_thread_relevant_questions(
        &mut self,
        thread_id: i64,
        relevant_questions: Vec<String>,
    ) -> (r: Result<(), ThreadError>)
        requires
            old(self).wf(),
        ensures
            final(self).wf(),
            r is Ok <==> old(self).spec_has_thread(thread_id),
            r is Err ==> r == Err::<(), ThreadError>(ThreadError::NotFound) && *final(self)
                == *old(self),
            r is Ok ==> {
                let i = thread_idx(old(self).threads@, thread_id);
                &&& final(self).threads@.len() == old(self).threads@.len()
                &&& forall|j: int|
                    0 <= j < old(self).threads@.len() && j != i ==> final(self).threads@[j]
                        == #[trigger] old(self).threads@[j]
                &&& final(self).threads@[i].id == old(self).threads@[i].id
                &&& final(self).threads@[i].user_id == old(self).threads@[i].user_id
                &&& final(self).threads@[i].relevant_questions == Some(relevant_questions)
                &&& final(self).threads@[i].created_at == old(self).threads@[i].created_at
                &&& final(self).threads@[i].updated_at == old(self).threads@[i].updated_at
            },
            r is Ok ==> 0 <= thread_idx(old(self).threads@, thread_id) < old(self).threads@.len(),
            forall|t: i64| final(self).spec_has_thread(t) == #[trigger] old(self).spec_has_thread(t),
            final(self).messages@ == old(self).messages@,
            final(self).next_thread_id == old(self).next_thread_id,
            final(self).next_message_id == old(self).next_message_id,
    {
        let n = self.threads.len();
        let mut i: usize = 0;
        while i < n
            invariant
                old(self).wf(),
                *self == *old(self),
                i <= n,
                n == self.threads@.len(),
                forall|j: int| 0 <= j < i ==> #[trigger] self.threads@[j].id != thread_id,
            decreases n - i,
        {
            if self.threads[i].id == thread_id {
                let mut row = self.threads.remove(i);
                row.relevant_questions = Some(relevant_questions);
                self.threads.insert(i, row);
                proof {
                    lemma_thread_idx_unique(old(self).threads@, thread_id, i as int);
                    assert(self.threads@ =~= old(self).threads@.update(
                        i as int,
                        self.threads@[i as int],
                    ));
                    assert forall|a: int|
                        0 <= a < self.threads@.len() implies #[trigger] self.threads@[a].id == old(
                        self,
                    ).threads@[a].id by {
                        if a != i {
                            assert(self.threads@[a] == old(self).threads@[a]);
                        }
                    }
                    assert forall|t: i64| self.spec_has_thread(t) == #[trigger] old(
                        self,
                    ).spec_has_thread(t) by {
                        if old(self).spec_has_thread(t) {
                            let v = choose|m: int|
                                0 <= m < old(self).threads@.len() && #[trigger] old(
                                    self,
                                ).threads@[m].id == t;
                            assert(self.threads@[v].id == t);
                        }
                        if self.spec_has_thread(t) {
                            let v = choose|m: int|
                                0 <= m < self.threads@.len() && #[trigger] self.threads@[m].id
                                    == t;
                            assert(old(self).threads@[v].id == t);
                        }
                    }
                    assert forall|k: int|
                        0 <= k < self.messages@.len() implies self.spec_has_thread(
                        #[trigger] self.messages@[k].thread_id,
                    ) by {
                        assert(old(self).spec_has_thread(self.messages@[k].thread_id));
                    }
                }
                return Ok(());
            }
            i += 1;
        }
        Err(ThreadError::NotFound)
    }

    /// Appends a message to a thread and returns its id. With
    /// `verify_last_message_role` set, fails with `RoleConflict` when the
    /// latest stored message of the thread has the same role, and writes
    /// nothing. Fails with `NotFound` when the thread does not exist. On
    /// success the new row is appended with the next message id, so ids
    /// within a thread increase monotonically; a stored alternating role
    /// sequence stays alternating under the check.
    pub fn create_thread_message(
        &mut self,
        thread_id: i64,
        role: Role,
        content: String,
        code_attachments: Option<Vec<ThreadMessageAttachmentCode>>,
        doc_attachments: Option<Vec<ThreadMessageAttachmentDoc>>,
        verify_last_message_role: bool,
    ) -> (r: Result<i64, ThreadError>)
        requires
            old(self).wf(),
            old(self).can_assign_message_id(),
        ensures
            final(self).wf(),
            r is Ok <==> old(self).spec_has_thread(thread_id) && !(verify_last_message_role && old(
                self,
            ).thread_messages(thread_id).len() > 0 && old(self).thread_messages(
                thread_id,
            ).last().role == role),
            r == Err::<i64, ThreadError>(ThreadError::NotFound) <==> !old(self).spec_has_thread(
                thread_id,
            ),
            r == Err::<i64, ThreadError>(ThreadError::RoleConflict) <==> old(self).spec_has_thread(
                thread_id,
            ) && verify_last_message_role && old(self).thread_messages(thread_id).len() > 0 && old(
                self,
            ).thread_messages(thread_id).last().role == role,
            r is Err ==> *final(self) == *old(self),
            r is Ok ==> {
                &&& r == Ok::<i64, ThreadError>(old(self).next_message_id)
                &&& final(self).next_message_id == old(self).next_message_id + 1
                &&& final(self).next_thread_id == old(self).next_thread_id
                &&& final(self).threads@ == old(self).threads@
                &&& final(self).messages@.len() == old(self).messages@.len() + 1
                &&& final(self).messages@.drop_last() == old(self).messages@
                &&& final(self).messages@.last().id == old(self).next_message_id
                &&& final(self).messages@.last().thread_id == thread_id
                &&& final(self).messages@.last().role == role
                &&& final(self).messages@.last().content == content
                &&& final(self).messages@.last().code_attachments == code_attachments
                &&& final(self).messages@.last().doc_attachments == doc_attachments
                &&& final(self).thread_messages(thread_id) == old(self).thread_messages(
                    thread_id,
                ).push(final(self).messages@.last())
                &&& final(self).spec_has_message(old(self).next_message_id)
            },
            r is Ok ==> forall|t: i64|
                t != thread_id ==> #[trigger] final(self).thread_messages(t) == old(
                    self,
                ).thread_messages(t),
            r is Ok && verify_last_message_role && alternating(
                roles_of(old(self).thread_messages(thread_id)),
            ) ==> alternating(roles_of(final(self).thread_messages(thread_id))),
    {
        if !self.has_thread(thread_id) {
            return Err(ThreadError::NotFound);
        }
        if verify_last_message_role {
            let last_message = self.get_last_thread_message(thread_id);
            if let Some(last_message) = last_message {
                if last_message.role == role {
                    return Err(ThreadError::RoleConflict);
                }
            }
        }
        let now = now_millis();
        let id = self.next_message_id;
        self.next_message_id = self.next_message_id + 1;
        let row = ThreadMessageDAO {
            id,
            thread_id,
            role,
            content,
            code_attachments,
            doc_attachments,
            created_at: now,
            updated_at: now,
        };
        self.messages.push(row);
        proof {
            assert(self.messages@.drop_last() =~= old(self).messages@);
            lemma_messages_of_push(old(self).messages@, self.messages@.last(), thread_id);
            assert forall|t: i64| t != thread_id implies #[trigger] self.thread_messages(t) == old(
                self,
            ).thread_messages(t) by {
                lemma_messages_of_push(old(self).messages@, self.messages@.last(), t);
            }
            assert forall|i: int| 0 <= i < self.messages@.len() implies self.spec_has_thread(
                #[trigger] self.messages@[i].thread_id,
            ) by {
                if i < old(self).messages@.len() {
                    assert(old(self).spec_has_thread(self.messages@[i].thread_id));
                }
            }
            if verify_last_message_role && alternating(
                roles_of(old(self).thread_messages(thread_id)),
            ) {
                let pre = old(self).thread_messages(thread_id);
                let post = self.thread_messages(thread_id);
                lemma_roles_push(pre, self.messages@.last());
                assert(roles_of(post) == roles_of(pre).push(role));
                if pre.len() > 0 {
                    assert(roles_of(pre)[pre.len() - 1] == pre.last().role);
                }
                lemma_alternation_extends(roles_of(pre), role);
            }
        }
        Ok(id)
    }

    /// Replaces the attachment fields of a message. Each field is overwritten
    /// only where an overwrite is given; `Keep` leaves the stored value.
    /// Fails with `NotFound`, writing nothing, when the message is absent.
    pub fn update_thread_message_attachments(
        &mut self,
        message_id: i64,
        code_attachments: AttachmentsUpdate<ThreadMessageAttachmentCode>,
        doc_attachments: AttachmentsUpdate<ThreadMessageAttachmentDoc>,
    ) -> (r: Result<(), ThreadError>)
        requires
            old(self).wf(),
        ensures
            final(self).wf(),
            r is Ok <==> old(self).spec_has_message(message_id),
            r is Err ==> r == Err::<(), ThreadError>(ThreadError::NotFound) && *final(self)
                == *old(self),
            r is Ok ==> {
                let i = msg_idx(old(self).messages@, message_id);
                &&& final(self).messages@.len() == old(self).messages@.len()
                &&& forall|j: int|
                    0 <= j < old(self).messages@.len() && j != i ==> final(self).messages@[j]
                        == #[trigger] old(self).messages@[j]
                &&& final(self).messages@[i].id == old(self).messages@[i].id
                &&& final(self).messages@[i].thread_id == old(self).messages@[i].thread_id
                &&& final(self).messages@[i].role == old(self).messages@[i].role
                &&& final(self).messages@[i].content == old(self).messages@[i].content
                &&& final(self).messages@[i].code_attachments == (match code_attachments {
                    AttachmentsUpdate::Keep => old(self).messages@[i].code_attachments,
                    AttachmentsUpdate::Replace(v) => Some(v),
                })
                &&& final(self).messages@[i].doc_attachments == (match doc_attachments {
                    AttachmentsUpdate::Keep => old(self).messages@[i].doc_attachments,
                    AttachmentsUpdate::Replace(v) => Some(v),
                })
                &&& final(self).messages@[i].created_at == old(self).messages@[i].created_at
                &&& final(self).messages@[i].updated_at == old(self).messages@[i].updated_at
            },
            r is Ok ==> 0 <= msg_idx(old(self).messages@, message_id) < old(self).messages@.len(),
            forall|m: i64| final(self).spec_has_message(m) == #[trigger] old(self).spec_has_message(
                m,
            ),
            final(self).threads@ == old(self).threads@,
            final(self).next_thread_id == old(self).next_thread_id,
            final(self).next_message_id == old(self).next_message_id,
    {
        let n = self.messages.len();
        let mut i: usize = 0;
        while i < n
            invariant
                old(self).wf(),
                *self == *old(self),
                i <= n,
                n == self.messages@.len(),
                forall|j: int| 0 <= j < i ==> #[trigger] self.messages@[j].id != message_id,
            decreases n - i,
        {
            if self.messages[i].id == message_id {
                let mut row = self.messages.remove(i);
                row.code_attachments = match code_attachments {
                    AttachmentsUpdate::Keep => row.code_attachments,
                    AttachmentsUpdate::Replace(v) => Some(v),
                };
                row.doc_attachments = match doc_attachments {
                    AttachmentsUpdate::Keep => row.doc_attachments,
                    AttachmentsUpdate::Replace(v) => Some(v),
                };
                self.messages.insert(i, row);
                proof {
                    self.lemma_update_at(*old(self), i as int, message_id);
                }
                return Ok(());
            }
            i += 1;
        }
        Err(ThreadError::NotFound)
    }

    /// Concatenates a fragment onto a message's stored content; issued in
    /// order, repeated appends build exactly the concatenation of the
    /// fragments. Fails with `NotFound`, writing nothing, when the message
    /// is absent.
    pub fn append_thread_message_content(&mut self, message_id: i64, content: &str) -> (r: Result<
        (),
        ThreadError,
    >)
        requires
            old(self).wf(),
        ensures
            final(self).wf(),
            r is Ok <==> old(self).spec_has_message(message_id),
            r is Err ==> r == Err::<(), ThreadError>(ThreadError::NotFound) && *final(self)
                == *old(self),
            r is Ok ==> {
                let i = msg_idx(old(self).messages@, message_id);
                &&& final(self).messages@.len() == old(self).messages@.len()
                &&& forall|j: int|
                    0 <= j < old(self).messages@.len() && j != i ==> final(self).messages@[j]
                        == #[trigger] old(self).messages@[j]
                &&& final(self).messages@[i].id == old(self).messages@[i].id
                &&& final(self).messages@[i].thread_id == old(self).messages@[i].thread_id
                &&& final(self).messages@[i].role == old(self).messages@[i].role
                &&& final(self).messages@[i].content@ == old(self).messages@[i].content@
                    + content@
                &&& final(self).messages@[i].code_attachments == old(
                    self,
                ).messages@[i].code_attachments
                &&& final(self).messages@[i].doc_attachments == old(
                    self,
                ).messages@[i].doc_attachments
                &&& final(self).messages@[i].created_at == old(self).messages@[i].created_at
                &&& final(self).messages@[i].updated_at == old(self).messages@[i].updated_at
            },
            r is Ok ==> final(self).message_content(message_id) == old(self).message_content(
                message_id,
            ) + content@,
            r is Ok ==> 0 <= msg_idx(old(self).messages@, message_id) < old(self).messages@.len(),
            forall|m: i64| final(self).spec_has_message(m) == #[trigger] old(self).spec_has_message(
                m,
            ),
            final(self).threads@ == old(self).threads@,
            final(self).next_thread_id == old(self).next_thread_id,
            final(self).next_message_id == old(self).next_message_id,
    {
        let n = self.messages.len();
        let mut i: usize = 0;
        while i < n
            invariant
                old(self).wf(),
                *self == *old(self),
                i <= n,
                n == self.messages@.len(),
                forall|j: int| 0 <= j < i ==> #[trigger] self.messages@[j].id != message_id,
            decreases n - i,
        {
            if self.messages[i].id == message_id {
                let mut row = self.messages.remove(i);
                row.content.append(content);
                self.messages.insert(i, row);
                proof {
                    self.lemma_update_at(*old(self), i as int, message_id);
                    let w = msg_idx(self.messages@, message_id);
                    assert(self.messages@[i as int].id == message_id);
                    if w != i {
                        assert(self.messages@[w].id != self.messages@[i as int].id);
                    }
                }
                return Ok(());
            }
            i += 1;
        }
        Err(ThreadError::NotFound)
    }

    /// Establishes well-formedness and the uniqueness of the touched index
    /// after an in-place row replacement that keeps id and thread id.
    proof fn lemma_update_at(self, pre: ThreadStore, i: int, message_id: i64)
        requires
            pre.wf(),
            0 <= i < pre.messages@.len(),
            pre.messages@[i].id == message_id,
            self.threads@ == pre.threads@,
            self.next_thread_id == pre.next_thread_id,
            self.next_message_id == pre.next_message_id,
            self.messages@.len() == pre.messages@.len(),
            forall|j: int|
                0 <= j < pre.messages@.len() && j != i ==> #[trigger] self.messages@[j]
                    == pre.messages@[j],
            self.messages@[i].id == pre.messages@[i].id,
            self.messages@[i].thread_id == pre.messages@[i].thread_id,
        ensures
            self.wf(),
            msg_idx(pre.messages@, message_id) == i,
            forall|m: i64| self.spec_has_message(m) == #[trigger] pre.spec_has_message(m),
    {
        assert forall|a: int| 0 <= a < self.messages@.len() implies #[trigger] self.messages@[a].id
            == pre.messages@[a].id && self.messages@[a].thread_id
            == pre.messages@[a].thread_id by {
            if a != i {
                assert(self.messages@[a] == pre.messages@[a]);
            }
        }
        assert forall|k: int| 0 <= k < self.messages@.len() implies self.spec_has_thread(
            #[trigger] self.messages@[k].thread_id,
        ) by {
            assert(pre.spec_has_thread(pre.messages@[k].thread_id));
            let v = choose|m: int|
                0 <= m < pre.threads@.len() && #[trigger] pre.threads@[m].id
                    == pre.messages@[k].thread_id;
            assert(self.threads@[v].id == self.messages@[k].thread_id);
        }
        lemma_msg_idx_unique(pre.messages@, message_id, i);
        assert forall|m: i64| self.spec_has_message(m) == #[trigger] pre.spec_has_message(m) by {
            if pre.spec_has_message(m) {
                let w = choose|k: int|
                    0 <= k < pre.messages@.len() && #[trigger] pre.messages@[k].id == m;
                assert(self.messages@[w].id == m);
            }
            if self.spec_has_message(m) {
                let w = choose|k: int|
                    0 <= k < self.messages@.len() && #[trigger] self.messages@[k].id == m;
                assert(pre.messages@[w].id == m);
            }
        }
    }

    /// The latest stored message of a thread — the one with the highest id —
    /// or an explicit miss when the thread has none.
    pub fn get_last_thread_message(&self, thread_id: i64) -> (r: Option<ThreadMessageDAO>)
        ensures
            r is Some <==> self.thread_messages(thread_id).len() > 0,
            r is Some ==> row_like(r.unwrap(), self.thread_messages(thread_id).last()),
    {
        let n = self.messages.len();
        let mut i: usize = 0;
        let mut found: Option<usize> = None;
        while i < n
            invariant
                i <= n,
                n == self.messages@.len(),
                found is None ==> messages_of(self.messages@.take(i as int), thread_id).len() == 0,
                found is Some ==> {
                    let k = found.unwrap();
                    &&& k < i
                    &&& messages_of(self.messages@.take(i as int), thread_id).len() > 0
                    &&& messages_of(self.messages@.take(i as int), thread_id).last()
                        == self.messages@[k as int]
                },
            decreases n - i,
        {
            proof {
                assert(self.messages@.take(i as int + 1) =~= self.messages@.take(i as int).push(
                    self.messages@[i as int],
                ));
                lemma_messages_of_push(
                    self.messages@.take(i as int),
                    self.messages@[i as int],
                    thread_id,
                );
            }
            if self.messages[i].thread_id == thread_id {
                found = Some(i);
            }
            i += 1;
        }
        proof {
            assert(self.messages@.take(n as int) =~= self.messages@);
        }
        match found {
            None => None,
            Some(k) => Some(clone_message_row(&self.messages[k])),
        }
    }

    /// All stored messages of a thread, ordered by strictly increasing id.
    pub fn get_thread_messages(&self, thread_id: i64) -> (r: Vec<ThreadMessageDAO>)
        requires
            self.wf(),
        ensures
            rows_like(r@, self.thread_messages(thread_id)),
            ids_increasing(r@),
    {
        let n = self.messages.len();
        let mut r: Vec<ThreadMessageDAO> = Vec::new();
        let mut i: usize = 0;
        while i < n
            invariant
                i <= n,
                n == self.messages@.len(),
                self.wf(),
                rows_like(r@, messages_of(self.messages@.take(i as int), thread_id)),
                ids_increasing(r@),
                r@.len() > 0 ==> exists|j: int|
                    0 <= j < i && r@.last().id == #[trigger] self.messages@[j].id,
            decreases n - i,
        {
            proof {
                assert(self.messages@.take(i as int + 1) =~= self.messages@.take(i as int).push(
                    self.messages@[i as int],
                ));
                lemma_messages_of_push(
                    self.messages@.take(i as int),
                    self.messages@[i as int],
                    thread_id,
                );
            }
            if self.messages[i].thread_id == thread_id {
                let ghost pre = r@;
                r.push(clone_message_row(&self.messages[i]));
                proof {
                    assert forall|a: int, b: int| 0 <= a < b < r@.len() implies #[trigger] r@[a].id
                        < #[trigger] r@[b].id by {
                        if b < pre.len() {
                            assert(pre[a].id < pre[b].id);
                        } else {
                            if pre.len() > 0 && a < pre.len() {
                                let j = choose|j: int|
                                    0 <= j < i && pre.last().id == #[trigger] self.messages@[j].id;
                                if a < pre.len() - 1 {
                                    assert(pre[a].id < pre.last().id);
                                }
                                assert(self.messages@[j].id < self.messages@[i as int].id);
                            }
                        }
                    }
                    assert(r@.last().id == self.messages@[i as int].id);
                }
            }
            i += 1;
        }
        proof {
            assert(self.messages@.take(n as int) =~= self.messages@);
        }
        r
    }
}

/// Every message list of a thread id that no row carries is empty.
proof fn lemma_messages_of_all_absent(msgs: Seq<ThreadMessageDAO>, thread_id: i64)
    requires
        forall|i: int| 0 <= i < msgs.len() ==> #[trigger] msgs[i].thread_id != thread_id,
    ensures
        messages_of(msgs, thread_id).len() == 0,
    decreases msgs.len(),
{
    if msgs.len() > 0 {
        assert(msgs.last().thread_id != thread_id);
        lemma_messages_of_all_absent(msgs.drop_last(), thread_id);
    }
}

fn clone_opt_string(o: &Option<String>) -> (r: Option<String>)
    ensures
        r == *o,
{
    match o {
        None => None,
        Some(s) => Some(s.clone()),
    }
}

pub(crate) fn clone_string_vec(v: &Vec<String>) -> (r: Vec<String>)
    ensures
        r@ == v@,
{
    let n = v.len();
    let mut r: Vec<String> = Vec::new();
    let mut i: usize = 0;
    while i < n
        invariant
            i <= n,
            n == v@.len(),
            r@ == v@.take(i as int),
        decreases n - i,
    {
        r.push(v[i].clone());
        proof {
            assert(v@.take(i as int + 1) =~= v@.take(i as int).push(v@[i as int]));
        }
        i += 1;
    }
    proof {
        assert(v@.take(n as int) =~= v@);
    }
    r
}

impl Clone for ThreadMessageAttachmentCode {
    /// A clone carries exactly the stored data.
    fn clone(&self) -> (r: Self)
        ensures
            r == *self,
    {
        let r = ThreadMessageAttachmentCode {
            filepath: clone_opt_string(&self.filepath),
            content: self.content.clone(),
        };
        proof {
            assert(r =~= *self);
        }
        r
    }
}

impl Clone for ThreadMessageAttachmentDoc {
    /// A clone carries exactly the stored data.
    fn clone(&self) -> (r: Self)
        ensures
            r == *self,
    {
        let r = ThreadMessageAttachmentDoc {
            title: self.title.clone(),
            link: self.link.clone(),
            content: self.content.clone(),
        };
        proof {
            assert(r =~= *self);
        }
        r
    }
}

fn clone_code_attachment_vec(v: &Vec<ThreadMessageAttachmentCode>) -> (r: Vec<
    ThreadMessageAttachmentCode,
>)
    ensures
        r@ == v@,
{
    let n = v.len();
    let mut r: Vec<ThreadMessageAttachmentCode> = Vec::new();
    let mut i: usize = 0;
    while i < n
        invariant
            i <= n,
            n == v@.len(),
            r@ == v@.take(i as int),
        decreases n - i,
    {
        r.push(v[i].clone());
        proof {
            assert(v@.take(i as int + 1) =~= v@.take(i as int).push(v@[i as int]));
        }
        i += 1;
    }
    proof {
        assert(v@.take(n as int) =~= v@);
    }
    r
}

fn clone_doc_attachment_vec(v: &Vec<ThreadMessageAttachmentDoc>) -> (r: Vec<
    ThreadMessageAttachmentDoc,
>)
    ensures
        r@ == v@,
{
    let n = v.len();
    let mut r: Vec<ThreadMessageAttachmentDoc> = Vec::new();
    let mut i: usize = 0;
    while i < n
        invariant
            i <= n,
            n == v@.len(),
            r@ == v@.take(i as int),
        decreases n - i,
    {
        r.push(v[i].clone());
        proof {
            assert(v@.take(i as int + 1) =~= v@.take(i as int).push(v@[i as int]));
        }
        i += 1;
    }
    proof {
        assert(v@.take(n as int) =~= v@);
    }
    r
}

/// An owned copy of a stored message row, carrying the same data.
fn clone_message_row(m: &ThreadMessageDAO) -> (r: ThreadMessageDAO)
    ensures
        row_like(r, *m),
{
    ThreadMessageDAO {
        id: m.id,
        thread_id: m.thread_id,
        role: m.role,
        content: m.content.clone(),
        code_attachments: match &m.code_attachments {
            None => None,
            Some(v) => Some(clone_code_attachment_vec(v)),
        },
        doc_attachments: match &m.doc_attachments {
            None => None,
            Some(v) => Some(clone_doc_attachment_vec(v)),
        },
        created_at: m.created_at,
        updated_at: m.updated_at,
    }
}

/// An owned copy of a stored thread row, carrying the same data.
fn clone_thread_row(t: &ThreadDAO) -> (r: ThreadDAO)
    ensures
        thread_like(r, *t),
{
    ThreadDAO {
        id: t.id,
        user_id: t.user_id,
        relevant_questions: match &t.relevant_questions {
            None => None,
            Some(v) => Some(clone_string_vec(v)),
        },
        created_at: t.created_at,
        updated_at: t.updated_at,
    }
}

} // verus!
