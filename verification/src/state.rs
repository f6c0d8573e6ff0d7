//! The session store: the open documents, each under an identifier of its
//! own.
//!
//! The store is an ordinary value. Whoever shares it between threads puts
//! it behind one lock, so that every operation below runs with exclusive
//! access to all handles.

use crate::error::{fails_with, ErrorView, MupdfServerError};
use crate::trusted::{instant_now, random_uuid_text, str_equal};
use std::time::Instant;
use vstd::prelude::*;
use vstd::string::StringExecFns;

verus! {

/// What the store records about an open document besides its handle.
#[derive(Debug)]
pub struct DocumentInfo {
    /// The identifier of the session.
    pub id: String,
    /// The number of pages, as reported when the document was opened.
    pub page_count: i32,
    /// When the session was created.
    pub created_at: Instant,
    /// When the document was last handed out.
    pub last_accessed: Instant,
}

impl Clone for DocumentInfo {
    fn clone(&self) -> (copy: Self)
        ensures
            copy == *self,
    {
        DocumentInfo {
            id: self.id.clone(),
            page_count: self.page_count,
            created_at: self.created_at,
            last_accessed: self.last_accessed,
        }
    }
}

/// An open document: the handle of the content engine and the record kept
/// about it.
pub struct StoredDocument<H> {
    /// The handle of the content engine.
    pub document: H,
    /// The record of the session.
    pub info: DocumentInfo,
}

impl<H> StoredDocument<H> {
    /// The record of a session that starts at `now` under the identifier `id`.
    pub fn with_id(document: H, page_count: i32, id: String, now: Instant) -> (stored: Self)
        ensures
            stored == (StoredDocument {
                document,
                info: DocumentInfo { id, page_count, created_at: now, last_accessed: now },
            }),
    {
        StoredDocument {
            document,
            info: DocumentInfo { id, page_count, created_at: now, last_accessed: now },
        }
    }

    /// The record of a session that starts now under a newly drawn
    /// identifier. `page_count` is what the content engine reports for
    /// `document`.
    pub fn new(document: H, page_count: i32) -> (stored: Self)
        ensures
            stored.document == document,
            stored.info.page_count == page_count,
            stored.info.created_at == stored.info.last_accessed,
            stored.info.id@.len() == 36,
    {
        let now = instant_now();
        let id = random_uuid_text();
        Self::with_id(document, page_count, id, now)
    }

    /// Records `now` as the time of the last access.
    pub fn touch_at(&mut self, now: Instant)
        ensures
            *final(self) == old(self).accessed_at(now),
    {
        self.info.last_accessed = now;
    }

    /// Records the present time as the time of the last access.
    pub fn touch(&mut self)
        ensures
            same_but_last_access(*old(self), *final(self)),
    {
        let now = instant_now();
        self.touch_at(now);
    }

    /// This record with `now` as the time of the last access.
    pub open spec fn accessed_at(self, now: Instant) -> Self {
        StoredDocument {
            document: self.document,
            info: DocumentInfo {
                id: self.info.id,
                page_count: self.info.page_count,
                created_at: self.info.created_at,
                last_accessed: now,
            },
        }
    }
}

/// Whether `after` differs from `before` in the time of the last access at
/// most.
pub open spec fn same_but_last_access<H>(
    before: StoredDocument<H>,
    after: StoredDocument<H>,
) -> bool {
    after == before.accessed_at(after.info.last_accessed)
}

/// How a call on the session `id` changes the store: the session, if it
/// is open, has a new time of last access, and nothing else differs.
pub open spec fn accessed<H>(
    before: Map<Seq<char>, StoredDocument<H>>,
    after: Map<Seq<char>, StoredDocument<H>>,
    id: Seq<char>,
) -> bool {
    if before.contains_key(id) {
        after.contains_key(id) && same_but_last_access(before[id], after[id]) && after
            == before.insert(id, after[id])
    } else {
        after == before
    }
}

/// What a look-up of the session `id` finds: its record, or the failure
/// that no such session is open.
pub open spec fn info_of<H>(sessions: Map<Seq<char>, StoredDocument<H>>, id: Seq<char>) -> Result<
    DocumentInfo,
    ErrorView,
> {
    if sessions.contains_key(id) {
        Ok(sessions[id].info)
    } else {
        Err(ErrorView::DocumentNotFound(id))
    }
}

/// Whether closing the session `id` succeeds: it does if the session is
/// open, and fails otherwise because no such session is open.
pub open spec fn close_of<H>(sessions: Map<Seq<char>, StoredDocument<H>>, id: Seq<char>) -> Result<
    (),
    ErrorView,
> {
    if sessions.contains_key(id) {
        Ok(())
    } else {
        Err(ErrorView::DocumentNotFound(id))
    }
}

/// Whether some record in `records` has the identifier `id`.
spec fn listed<H>(records: Seq<StoredDocument<H>>, id: Seq<char>) -> bool {
    exists|i: int| 0 <= i < records.len() && #[trigger] records[i].info.id@ == id
}

/// The place of a record with the identifier `id` in `records`.
spec fn place_of<H>(records: Seq<StoredDocument<H>>, id: Seq<char>) -> int {
    choose|i: int| 0 <= i < records.len() && #[trigger] records[i].info.id@ == id
}

/// Whether no two records in `records` share an identifier.
spec fn distinct_ids<H>(records: Seq<StoredDocument<H>>) -> bool {
    forall|i: int, j: int|
        0 <= i < j < records.len() ==> #[trigger] records[i].info.id@
            != #[trigger] records[j].info.id@
}

/// The mapping from identifier to record that `records` stands for.
spec fn sessions_of<H>(records: Seq<StoredDocument<H>>) -> Map<
    Seq<char>,
    StoredDocument<H>,
> {
    Map::new(|id: Seq<char>| listed(records, id), |id: Seq<char>| records[place_of(records, id)])
}

/// In a sequence without repeated identifiers, the record at `i` is the
/// one that its identifier maps to.
proof fn lemma_place<H>(records: Seq<StoredDocument<H>>, i: int)
    requires
        distinct_ids(records),
        0 <= i < records.len(),
    ensures
        listed(records, records[i].info.id@),
        place_of(records, records[i].info.id@) == i,
        sessions_of(records).contains_key(records[i].info.id@),
        sessions_of(records)[records[i].info.id@] == records[i],
{
    let id = records[i].info.id@;
    let j = place_of(records, id);
    assert(0 <= j < records.len() && records[j].info.id@ == id);
    if j != i {
        if j < i {
            assert(records[j].info.id@ != records[i].info.id@);
        } else {
            assert(records[i].info.id@ != records[j].info.id@);
        }
    }
}

/// Appending a record under an unused identifier adds one entry.
proof fn lemma_sessions_push<H>(records: Seq<StoredDocument<H>>, stored: StoredDocument<H>)
    requires
        distinct_ids(records),
        !listed(records, stored.info.id@),
    ensures
        distinct_ids(records.push(stored)),
        sessions_of(records.push(stored)) == sessions_of(records).insert(stored.info.id@, stored),
{
    let grown = records.push(stored);
    assert forall|i: int, j: int| 0 <= i < j < grown.len() implies #[trigger] grown[i].info.id@
        != #[trigger] grown[j].info.id@ by {
        if j == records.len() {
            assert(records[i].info.id@ != stored.info.id@);
        } else {
            assert(records[i].info.id@ != records[j].info.id@);
        }
    }
    let want = sessions_of(records).insert(stored.info.id@, stored);
    assert forall|id: Seq<char>| #[trigger]
        sessions_of(grown).contains_key(id) implies want.contains_key(id) by {
        let k = place_of(grown, id);
        assert(0 <= k < grown.len() && grown[k].info.id@ == id);
        if k < records.len() {
            assert(records[k].info.id@ == id);
        }
    }
    assert forall|id: Seq<char>| #[trigger]
        want.contains_key(id) implies sessions_of(grown).contains_key(id)
        && sessions_of(grown)[id] == want[id] by {
        if id == stored.info.id@ {
            lemma_place(grown, records.len() as int);
        } else {
            let k = place_of(records, id);
            assert(0 <= k < records.len() && records[k].info.id@ == id);
            lemma_place(records, k);
            lemma_place(grown, k);
        }
    }
    assert(sessions_of(grown) =~= want);
}

/// Replacing a record by one with the same identifier replaces one entry.
proof fn lemma_sessions_update<H>(
    records: Seq<StoredDocument<H>>,
    i: int,
    stored: StoredDocument<H>,
)
    requires
        distinct_ids(records),
        0 <= i < records.len(),
        records[i].info.id@ == stored.info.id@,
    ensures
        distinct_ids(records.update(i, stored)),
        sessions_of(records.update(i, stored)) == sessions_of(records).insert(
            stored.info.id@,
            stored,
        ),
{
    let changed = records.update(i, stored);
    assert forall|a: int, b: int| 0 <= a < b < changed.len() implies #[trigger] changed[a].info.id@
        != #[trigger] changed[b].info.id@ by {
        assert(records[a].info.id@ != records[b].info.id@);
    }
    let want = sessions_of(records).insert(stored.info.id@, stored);
    assert forall|id: Seq<char>| #[trigger]
        sessions_of(changed).contains_key(id) implies want.contains_key(id) by {
        let k = place_of(changed, id);
        assert(0 <= k < changed.len() && changed[k].info.id@ == id);
        assert(records[k].info.id@ == id);
    }
    assert forall|id: Seq<char>| #[trigger]
        want.contains_key(id) implies sessions_of(changed).contains_key(id)
        && sessions_of(changed)[id] == want[id] by {
        if id == stored.info.id@ {
            lemma_place(changed, i);
        } else {
            let k = place_of(records, id);
            assert(0 <= k < records.len() && records[k].info.id@ == id);
            lemma_place(records, k);
            lemma_place(changed, k);
        }
    }
    assert(sessions_of(changed) =~= want);
}

/// Taking a record out removes the entry of its identifier.
proof fn lemma_sessions_remove<H>(records: Seq<StoredDocument<H>>, i: int)
    requires
        distinct_ids(records),
        0 <= i < records.len(),
    ensures
        distinct_ids(records.remove(i)),
        sessions_of(records.remove(i)) == sessions_of(records).remove(records[i].info.id@),
{
    let rest = records.remove(i);
    let gone = records[i].info.id@;
    assert forall|a: int, b: int| 0 <= a < b < rest.len() implies #[trigger] rest[a].info.id@
        != #[trigger] rest[b].info.id@ by {
        let a0 = if a < i { a } else { a + 1 };
        let b0 = if b < i { b } else { b + 1 };
        assert(records[a0].info.id@ != records[b0].info.id@);
    }
    let want = sessions_of(records).remove(gone);
    assert forall|id: Seq<char>| #[trigger]
        sessions_of(rest).contains_key(id) implies want.contains_key(id) by {
        let k = place_of(rest, id);
        assert(0 <= k < rest.len() && rest[k].info.id@ == id);
        let k0 = if k < i { k } else { k + 1 };
        assert(records[k0].info.id@ == id);
        if k0 < i {
            assert(records[k0].info.id@ != records[i].info.id@);
        } else {
            assert(records[i].info.id@ != records[k0].info.id@);
        }
    }
    assert forall|id: Seq<char>| #[trigger]
        want.contains_key(id) implies sessions_of(rest).contains_key(id)
        && sessions_of(rest)[id] == want[id] by {
        let k0 = place_of(records, id);
        assert(0 <= k0 < records.len() && records[k0].info.id@ == id);
        lemma_place(records, k0);
        let k = if k0 < i { k0 } else { k0 - 1 };
        assert(rest[k] == records[k0]);
        lemma_place(rest, k);
    }
    assert(sessions_of(rest) =~= want);
}

/// A sequence without repeated identifiers stands for as many sessions as
/// it has records.
proof fn lemma_sessions_count<H>(records: Seq<StoredDocument<H>>)
    requires
        distinct_ids(records),
    ensures
        sessions_of(records).dom().finite(),
        sessions_of(records).len() == records.len(),
    decreases records.len(),
{
    if records.len() == 0 {
        assert(sessions_of(records).dom() =~= Set::<Seq<char>>::empty());
    } else {
        let front = records.drop_last();
        let last = records.last();
        assert forall|i: int, j: int| 0 <= i < j < front.len() implies #[trigger] front[i].info.id@
            != #[trigger] front[j].info.id@ by {
            assert(records[i].info.id@ != records[j].info.id@);
        }
        if listed(front, last.info.id@) {
            let k = place_of(front, last.info.id@);
            assert(0 <= k < front.len() && front[k].info.id@ == last.info.id@);
            assert(records[k].info.id@ != records[records.len() - 1].info.id@);
        }
        lemma_sessions_count(front);
        lemma_sessions_push(front, last);
        assert(front.push(last) =~= records);
        assert(sessions_of(records).dom() =~= sessions_of(front).dom().insert(last.info.id@));
    }
}

/// Whether `infos` holds the record of every session in `sessions`, and of
/// each only once.
pub open spec fn lists_sessions<H>(
    infos: Seq<DocumentInfo>,
    sessions: Map<Seq<char>, StoredDocument<H>>,
) -> bool {
    &&& forall|k: int|
        0 <= k < infos.len() ==> sessions.contains_key(#[trigger] infos[k].id@)
            && sessions[infos[k].id@].info == infos[k]
    &&& forall|id: Seq<char>|
        sessions.contains_key(id) ==> exists|k: int|
            0 <= k < infos.len() && #[trigger] infos[k].id@ == id
    &&& forall|a: int, b: int|
        0 <= a < b < infos.len() ==> #[trigger] infos[a].id@ != #[trigger] infos[b].id@
}

/// The open documents, each under its identifier. No two sessions share
/// an identifier. A session stays open until it is closed: nothing is
/// evicted for being idle.
pub struct DocumentStore<H> {
    documents: Vec<StoredDocument<H>>,
}

impl<H> View for DocumentStore<H> {
    type V = Map<Seq<char>, StoredDocument<H>>;

    /// The open sessions by identifier.
    closed spec fn view(&self) -> Map<Seq<char>, StoredDocument<H>> {
        sessions_of(self.documents@)
    }
}

impl<H> Default for DocumentStore<H> {
    fn default() -> (store: Self)
        ensures
            store@ == Map::<Seq<char>, StoredDocument<H>>::empty(),
    {
        Self::new()
    }
}

impl<H> DocumentStore<H> {
    #[verifier::type_invariant]
    spec fn well_formed(self) -> bool {
        distinct_ids(self.documents@)
    }

    /// A store without sessions.
    pub fn new() -> (store: Self)
        ensures
            store@ == Map::<Seq<char>, StoredDocument<H>>::empty(),
    {
        let store = DocumentStore { documents: Vec::new() };
        assert(store@ =~= Map::<Seq<char>, StoredDocument<H>>::empty());
        store
    }

    fn find(&self, id: &str) -> (found: Option<usize>)
        ensures
            match found {
                Some(i) => i < self.documents@.len() && self.documents@[i as int].info.id@ == id@,
                None => !listed(self.documents@, id@),
            },
    {
        let mut i: usize = 0;
        while i < self.documents.len()
            invariant
                i <= self.documents@.len(),
                forall|k: int| 0 <= k < i ==> self.documents@[k].info.id@ != id@,
            decreases self.documents@.len() - i,
        {
            if str_equal(self.documents[i].info.id.as_str(), id) {
                return Some(i);
            }
            i += 1;
        }
        None
    }

    fn take_records(&mut self) -> (records: Vec<StoredDocument<H>>)
        ensures
            records@ == old(self).documents@,
            final(self).documents@ == Seq::<StoredDocument<H>>::empty(),
    {
        let mut records: Vec<StoredDocument<H>> = Vec::new();
        core::mem::swap(&mut self.documents, &mut records);
        records
    }

    /// Stores `stored` under its identifier. A session that was open under
    /// the same identifier is closed and its handle released.
    pub fn insert_record(&mut self, stored: StoredDocument<H>)
        ensures
            final(self)@ == old(self)@.insert(stored.info.id@, stored),
    {
        proof {
            use_type_invariant(&*self);
        }
        match self.find(stored.info.id.as_str()) {
            Some(i) => {
                proof {
                    lemma_sessions_update(self.documents@, i as int, stored);
                    lemma_place(self.documents@, i as int);
                }
                let mut records = self.take_records();
                records[i] = stored;
                self.documents = records;
            },
            None => {
                proof {
                    lemma_sessions_push(self.documents@, stored);
                }
                let mut records = self.take_records();
                records.push(stored);
                self.documents = records;
            },
        }
    }

    /// Opens a session for `document` under a newly drawn identifier and
    /// returns the identifier. `page_count` is what the content engine
    /// reports for `document`.
    pub fn insert(&mut self, document: H, page_count: i32) -> (id: String)
        ensures
            final(self)@.contains_key(id@),
            final(self)@[id@].document == document,
            final(self)@[id@].info.id@ == id@,
            final(self)@[id@].info.page_count == page_count,
            final(self)@[id@].info.created_at == final(self)@[id@].info.last_accessed,
            final(self)@ == old(self)@.insert(id@, final(self)@[id@]),
    {
        let stored = StoredDocument::new(document, page_count);
        let id = stored.info.id.clone();
        self.insert_record(stored);
        id
    }

    /// The record of the session `id`, without counting as an access.
    pub fn get_info(&self, id: &str) -> (found: Result<DocumentInfo, MupdfServerError>)
        ensures
            match found {
                Ok(info) => info_of(self@, id@) == Ok::<DocumentInfo, ErrorView>(info),
                Err(e) => info_of(self@, id@) == Err::<DocumentInfo, ErrorView>(e@),
            },
    {
        proof {
            use_type_invariant(self);
        }
        match self.find(id) {
            Some(i) => {
                proof {
                    lemma_place(self.documents@, i as int);
                }
                Ok(self.documents[i].info.clone())
            },
            None => Err(MupdfServerError::DocumentNotFound(String::from_str(id))),
        }
    }

    /// Looks up the session `id`, records `now` as the time of its last
    /// access and hands out its record.
    pub fn access_at(&mut self, id: &str, now: Instant) -> (found: Result<
        &StoredDocument<H>,
        MupdfServerError,
    >)
        ensures
            match found {
                Ok(record) => old(self)@.contains_key(id@)
                    && *record == old(self)@[id@].accessed_at(now)
                    && final(self)@ == old(self)@.insert(id@, *record),
                Err(e) => !old(self)@.contains_key(id@) && e@ == ErrorView::DocumentNotFound(id@)
                    && final(self)@ == old(self)@,
            },
    {
        proof {
            use_type_invariant(&*self);
        }
        match self.find(id) {
            Some(i) => {
                let mut records = self.take_records();
                proof {
                    lemma_place(records@, i as int);
                    lemma_sessions_update(records@, i as int, records@[i as int].accessed_at(now));
                }
                records[i].touch_at(now);
                self.documents = records;
                Ok(&self.documents[i])
            },
            None => Err(MupdfServerError::DocumentNotFound(String::from_str(id))),
        }
    }

    /// Looks up the session `id`, records the present time as the time of
    /// its last access and hands out its record.
    pub fn access(&mut self, id: &str) -> (found: Result<&StoredDocument<H>, MupdfServerError>)
        ensures
            accessed(old(self)@, final(self)@, id@),
            match found {
                Ok(record) => old(self)@.contains_key(id@) && final(self)@[id@] == *record,
                Err(e) => !old(self)@.contains_key(id@) && e@ == ErrorView::DocumentNotFound(id@),
            },
    {
        let now = instant_now();
        self.access_at(id, now)
    }

    /// Runs `f` on the handle of the session `id`, after recording the
    /// present time as the time of its last access. The outcome of `f` is
    /// returned as it is.
    pub fn with_document<F, T>(&mut self, id: &str, f: F) -> (outcome: Result<T, MupdfServerError>)
        where F: FnOnce(&H) -> Result<T, MupdfServerError>
        requires
            old(self)@.contains_key(id@) ==> f.requires((&old(self)@[id@].document,)),
        ensures
            accessed(old(self)@, final(self)@, id@),
            old(self)@.contains_key(id@) ==> f.ensures((&old(self)@[id@].document,), outcome),
            !old(self)@.contains_key(id@) ==> fails_with(
                outcome,
                ErrorView::DocumentNotFound(id@),
            ),
    {
        match self.access(id) {
            Ok(record) => f(&record.document),
            Err(e) => Err(e),
        }
    }

    /// Runs `f` with exclusive access to the handle of the session `id`,
    /// after recording the present time as the time of its last access.
    /// The outcome of `f` is returned as it is, and the handle stays in the
    /// store as `f` left it.
    pub fn with_document_mut<F, T>(&mut self, id: &str, f: F) -> (outcome: Result<
        T,
        MupdfServerError,
    >)
        where F: FnOnce(&mut H) -> Result<T, MupdfServerError>
        requires
            old(self)@.contains_key(id@) ==> forall|h: &mut H|
                *h == old(self)@[id@].document ==> #[trigger] f.requires((h,)),
        ensures
            old(self)@.contains_key(id@) ==> final(self)@.contains_key(id@) && final(self)@
                == old(self)@.insert(id@, final(self)@[id@]) && final(self)@[id@].info
                == old(self)@[id@].accessed_at(final(self)@[id@].info.last_accessed).info
                && exists|h: &mut H|
                *h == old(self)@[id@].document && *final(h) == final(self)@[id@].document
                    && #[trigger] f.ensures((h,), outcome),
            !old(self)@.contains_key(id@) ==> final(self)@ == old(self)@ && fails_with(
                outcome,
                ErrorView::DocumentNotFound(id@),
            ),
    {
        proof {
            use_type_invariant(&*self);
        }
        match self.find(id) {
            Some(i) => {
                let now = instant_now();
                let mut records = self.take_records();
                proof {
                    lemma_place(records@, i as int);
                }
                records[i].touch_at(now);
                let outcome = f(&mut records[i].document);
                proof {
                    lemma_sessions_update(old(self).documents@, i as int, records@[i as int]);
                    assert(records@ =~= old(self).documents@.update(i as int, records@[i as int]));
                }
                self.documents = records;
                outcome
            },
            None => Err(MupdfServerError::DocumentNotFound(String::from_str(id))),
        }
    }

    /// Closes the session `id` and releases its handle.
    pub fn remove(&mut self, id: &str) -> (done: Result<(), MupdfServerError>)
        ensures
            final(self)@ == old(self)@.remove(id@),
            match done {
                Ok(_) => close_of(old(self)@, id@) is Ok,
                Err(e) => close_of(old(self)@, id@) == Err::<(), ErrorView>(e@),
            },
    {
        proof {
            use_type_invariant(&*self);
        }
        match self.find(id) {
            Some(i) => {
                proof {
                    lemma_place(self.documents@, i as int);
                    lemma_sessions_remove(self.documents@, i as int);
                }
                let mut records = self.take_records();
                let _ = records.remove(i);
                self.documents = records;
                Ok(())
            },
            None => {
                assert(self@.remove(id@) =~= self@);
                Err(MupdfServerError::DocumentNotFound(String::from_str(id)))
            },
        }
    }

    /// The records of all open sessions, each once.
    pub fn list(&self) -> (infos: Vec<DocumentInfo>)
        ensures
            lists_sessions(infos@, self@),
    {
        proof {
            use_type_invariant(self);
        }
        let mut infos: Vec<DocumentInfo> = Vec::new();
        let mut i: usize = 0;
        while i < self.documents.len()
            invariant
                i <= self.documents@.len(),
                infos@.len() == i,
                forall|k: int| 0 <= k < i ==> #[trigger] infos@[k] == self.documents@[k].info,
            decreases self.documents@.len() - i,
        {
            infos.push(self.documents[i].info.clone());
            i += 1;
        }
        proof {
            let records = self.documents@;
            assert forall|k: int| 0 <= k < infos@.len() implies self@.contains_key(
                #[trigger] infos@[k].id@,
            ) && self@[infos@[k].id@].info == infos@[k] by {
                lemma_place(records, k);
            }
            assert forall|id: Seq<char>| self@.contains_key(id) implies exists|k: int|
                0 <= k < infos@.len() && #[trigger] infos@[k].id@ == id by {
                let k = place_of(records, id);
                assert(0 <= k < records.len() && records[k].info.id@ == id);
                assert(infos@[k].id@ == id);
            }
            assert forall|a: int, b: int| 0 <= a < b < infos@.len() implies #[trigger] infos@[a].id@
                != #[trigger] infos@[b].id@ by {
                assert(records[a].info.id@ != records[b].info.id@);
            }
        }
        infos
    }

    /// The number of open sessions.
    pub fn len(&self) -> (n: usize)
        ensures
            self@.dom().finite(),
            n == self@.len(),
    {
        proof {
            use_type_invariant(self);
            lemma_sessions_count(self.documents@);
        }
        self.documents.len()
    }

    /// Whether no session is open.
    pub fn is_empty(&self) -> (empty: bool)
        ensures
            empty == (self@ == Map::<Seq<char>, StoredDocument<H>>::empty()),
            empty == (self@.len() == 0),
    {
        proof {
            use_type_invariant(self);
            lemma_sessions_count(self.documents@);
            if self.documents@.len() == 0 {
                assert(self@ =~= Map::<Seq<char>, StoredDocument<H>>::empty());
            }
        }
        self.documents.len() == 0
    }
}

/// A session that was just stored is found under its identifier, with
/// the page count it was stored with, and a listing of the store holds it
/// exactly once.
pub proof fn lemma_stored_session_is_found<H>(
    before: Map<Seq<char>, StoredDocument<H>>,
    stored: StoredDocument<H>,
    infos: Seq<DocumentInfo>,
)
    requires
        lists_sessions(infos, before.insert(stored.info.id@, stored)),
    ensures
        info_of(before.insert(stored.info.id@, stored), stored.info.id@) == Ok::<
            DocumentInfo,
            ErrorView,
        >(stored.info),
        exists|k: int|
            0 <= k < infos.len() && #[trigger] infos[k].id@ == stored.info.id@ && forall|j: int|
                0 <= j < infos.len() && j != k ==> #[trigger] infos[j].id@ != stored.info.id@,
{
    let after = before.insert(stored.info.id@, stored);
    assert(after.contains_key(stored.info.id@));
    let k = choose|k: int| 0 <= k < infos.len() && #[trigger] infos[k].id@ == stored.info.id@;
    assert forall|j: int| 0 <= j < infos.len() && j != k implies #[trigger] infos[j].id@
        != stored.info.id@ by {
        if j < k {
            assert(infos[j].id@ != infos[k].id@);
        } else {
            assert(infos[k].id@ != infos[j].id@);
        }
    }
}

/// A session that is not open is not found, by any identifier that was
/// never given out as by one whose session was closed: closing a session
/// leaves its identifier unknown to every later look-up.
pub proof fn lemma_closed_session_is_unknown<H>(
    before: Map<Seq<char>, StoredDocument<H>>,
    id: Seq<char>,
)
    ensures
        info_of(before.remove(id), id) == Err::<DocumentInfo, ErrorView>(
            ErrorView::DocumentNotFound(id),
        ),
        close_of(before.remove(id), id) == Err::<(), ErrorView>(ErrorView::DocumentNotFound(id)),
        info_of(Map::<Seq<char>, StoredDocument<H>>::empty(), id) == Err::<
            DocumentInfo,
            ErrorView,
        >(ErrorView::DocumentNotFound(id)),
{
}

/// Of two attempts in a row to close the same session, exactly one
/// succeeds if the session was open, and the other fails because no such
/// session is open; if it was not open, both fail so. The handle is
/// released once: after the first attempt the store no longer holds it.
pub proof fn lemma_close_twice<H>(before: Map<Seq<char>, StoredDocument<H>>, id: Seq<char>)
    ensures
        close_of(before.remove(id), id) == Err::<(), ErrorView>(ErrorView::DocumentNotFound(id)),
        before.contains_key(id) ==> close_of(before, id) is Ok,
        !before.contains_key(id) ==> close_of(before, id) == Err::<(), ErrorView>(
            ErrorView::DocumentNotFound(id),
        ),
        before.remove(id).remove(id) == before.remove(id),
        !before.remove(id).contains_key(id),
{
    assert(before.remove(id).remove(id) =~= before.remove(id));
}

/// The identifiers in a listing of the store are exactly those of the
/// open sessions.
pub proof fn lemma_listing_is_the_open_sessions<H>(
    infos: Seq<DocumentInfo>,
    sessions: Map<Seq<char>, StoredDocument<H>>,
)
    requires
        lists_sessions(infos, sessions),
    ensures
        infos.map_values(|info: DocumentInfo| info.id@).to_set() == sessions.dom(),
{
    let ids = infos.map_values(|info: DocumentInfo| info.id@);
    assert forall|id: Seq<char>| ids.to_set().contains(id) implies sessions.dom().contains(id) by {
        let k = choose|k: int| 0 <= k < ids.len() && ids[k] == id;
        assert(sessions.contains_key(infos[k].id@));
    }
    assert forall|id: Seq<char>| sessions.dom().contains(id) implies ids.to_set().contains(id) by {
        let k = choose|k: int| 0 <= k < infos.len() && #[trigger] infos[k].id@ == id;
        assert(ids[k] == id);
    }
    assert(ids.to_set() =~= sessions.dom());
}

} // verus!
