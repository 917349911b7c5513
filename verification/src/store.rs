//! Question store: a transient table of pending questions, each carrying an
//! absolute expiry. The submission path appends records; the expiry sweeper
//! bulk-deletes every record whose expiry has passed. The sweep is modelled
//! exactly: which records leave, which stay, and that re-sweeping is a no-op.

use vstd::prelude::*;

verus! {

/// How long the expiry sweeper waits between sweeps, in seconds.
pub const SWEEP_INTERVAL_SECONDS: u64 = 60;

/// The mathematical value of one stored question record.
pub ghost struct RecordModel {
    pub content: Seq<char>,
    pub source_identifier: Seq<char>,
    pub client_descriptor: Seq<char>,
    pub created_at: int,
    pub expire_after: int,
}

/// One stored question: sanitized content, origin data captured at submission
/// time, and the absolute time (epoch seconds) after which it may be deleted.
pub struct QuestionRecord {
    pub content: String,
    pub source_identifier: String,
    pub client_descriptor: String,
    pub created_at: i64,
    pub expire_after: i64,
}

impl View for QuestionRecord {
    type V = RecordModel;

    open spec fn view(&self) -> RecordModel {
        RecordModel {
            content: self.content@,
            source_identifier: self.source_identifier@,
            client_descriptor: self.client_descriptor@,
            created_at: self.created_at as int,
            expire_after: self.expire_after as int,
        }
    }
}

impl QuestionRecord {
    /// A field-for-field copy of the record.
    pub fn duplicate(&self) -> (r: QuestionRecord)
        ensures
            r@ == self@,
    {
        QuestionRecord {
            content: self.content.clone(),
            source_identifier: self.source_identifier.clone(),
            client_descriptor: self.client_descriptor.clone(),
            created_at: self.created_at,
            expire_after: self.expire_after,
        }
    }
}

/// The record that a submission accepted at time `now` adds: the sanitized
/// content, the submitter's identifying data, and expiry `now + ttl`.
pub open spec fn submitted_record(
    content: Seq<char>,
    source_identifier: Seq<char>,
    client_descriptor: Seq<char>,
    now: int,
    ttl: int,
) -> RecordModel {
    RecordModel {
        content,
        source_identifier,
        client_descriptor,
        created_at: now,
        expire_after: now + ttl,
    }
}

/// The values of a sequence of records.
pub open spec fn model_of(rs: Seq<QuestionRecord>) -> Seq<RecordModel> {
    Seq::new(rs.len(), |i: int| rs[i]@)
}

/// What one sweep at time `now` leaves of the records: exactly those whose
/// expiry has not passed (`expire_after >= now`, the boundary itself counts
/// as not yet expired), in their original order.
pub open spec fn sweep_model(s: Seq<RecordModel>, now: int) -> Seq<RecordModel>
    decreases s.len(),
{
    if s.len() == 0 {
        Seq::empty()
    } else {
        let rest = sweep_model(s.drop_last(), now);
        if s.last().expire_after < now {
            rest
        } else {
            rest.push(s.last())
        }
    }
}

/// A sweep at time `now` removes a record exactly when its `expire_after` lies
/// strictly before `now`: every surviving record was present before and is
/// not yet expired, and every unexpired record present before survives.
pub proof fn lemma_sweep_membership(s: Seq<RecordModel>, now: int)
    ensures
        forall|r: RecordModel|
            #[trigger] sweep_model(s, now).contains(r) <==> (s.contains(r) && r.expire_after
                >= now),
    decreases s.len(),
{
    let sw = sweep_model(s, now);
    if s.len() > 0 {
        let rest = s.drop_last();
        let swr = sweep_model(rest, now);
        lemma_sweep_membership(rest, now);
        assert forall|r: RecordModel| s.contains(r) && r.expire_after >= now implies #[trigger] sweep_model(
            s,
            now,
        ).contains(r) by {
            let i = choose|i: int| 0 <= i < s.len() && s[i] == r;
            if i < s.len() - 1 {
                assert(rest[i] == r);
                assert(rest.contains(r));
                assert(swr.contains(r));
                let j = choose|j: int| 0 <= j < swr.len() && swr[j] == r;
                assert(sw[j] == r);
            } else {
                assert(r == s.last());
                assert(sw == swr.push(r));
                assert(sw[sw.len() - 1] == r);
            }
            assert(sw.contains(r));
        }
        assert forall|r: RecordModel| #[trigger] sweep_model(s, now).contains(r) implies s.contains(
            r,
        ) && r.expire_after >= now by {
            let j = choose|j: int| 0 <= j < sw.len() && sw[j] == r;
            if s.last().expire_after >= now && j == sw.len() - 1 {
                assert(r == s.last());
                assert(s[s.len() - 1] == r);
            } else {
                assert(swr[j] == r);
                assert(swr.contains(r));
                let i = choose|i: int| 0 <= i < rest.len() && rest[i] == r;
                assert(s[i] == r);
            }
            assert(s.contains(r));
        }
    }
}

/// Nothing that a sweep leaves behind is expired.
pub proof fn lemma_sweep_leaves_unexpired(s: Seq<RecordModel>, now: int)
    ensures
        forall|k: int|
            0 <= k < sweep_model(s, now).len() ==> (#[trigger] sweep_model(s, now)[k]).expire_after
                >= now,
{
    lemma_sweep_membership(s, now);
    assert forall|k: int| 0 <= k < sweep_model(s, now).len() implies (#[trigger] sweep_model(
        s,
        now,
    )[k]).expire_after >= now by {
        let x = sweep_model(s, now)[k];
        assert(0 <= k < sweep_model(s, now).len() && sweep_model(s, now)[k] == x);
        assert(sweep_model(s, now).contains(x));
    }
}

/// Sweeping is idempotent: a second sweep at the same or a later time acts
/// exactly as a single sweep at the later time would have, and in particular
/// a second sweep at the same time removes nothing further.
pub proof fn lemma_sweep_idempotent(s: Seq<RecordModel>, early: int, late: int)
    requires
        early <= late,
    ensures
        sweep_model(sweep_model(s, early), late) == sweep_model(s, late),
        sweep_model(sweep_model(s, late), late) == sweep_model(s, late),
    decreases s.len(),
{
    if s.len() == 0 {
        assert(sweep_model(sweep_model(s, early), late) =~= sweep_model(s, late));
        assert(sweep_model(sweep_model(s, late), late) =~= sweep_model(s, late));
    } else {
        let rest = s.drop_last();
        let r = s.last();
        lemma_sweep_idempotent(rest, early, late);
        lemma_sweep_idempotent(rest, late, late);
        if r.expire_after >= early {
            let a = sweep_model(rest, early).push(r);
            assert(a.drop_last() =~= sweep_model(rest, early));
            assert(a.last() == r);
        }
        if r.expire_after >= late {
            let b = sweep_model(rest, late).push(r);
            assert(b.drop_last() =~= sweep_model(rest, late));
            assert(b.last() == r);
        }
    }
}

/// The transient store of pending questions. `swept_to` is the largest `now`
/// of any completed sweep; the well-formedness invariant says that no record
/// survives past a completed sweep that covered it.
pub struct QuestionStore {
    records: Vec<QuestionRecord>,
    swept_to: i64,
}

impl QuestionStore {
    /// The records currently present, in insertion order.
    pub closed spec fn model(&self) -> Seq<RecordModel> {
        model_of(self.records@)
    }

    /// The `now` of the most recently completed sweep (the smallest possible
    /// time before any sweep has completed).
    pub closed spec fn swept_bound(&self) -> int {
        self.swept_to as int
    }

    /// Every record present would have survived the most recently completed
    /// sweep: none has an expiry before it.
    pub open spec fn wf(&self) -> bool {
        forall|k: int|
            0 <= k < self.model().len() ==> (#[trigger] self.model()[k]).expire_after
                >= self.swept_bound()
    }

    /// An empty store, with no sweep completed yet.
    pub fn new() -> (s: QuestionStore)
        ensures
            s.model() == Seq::<RecordModel>::empty(),
            s.swept_bound() == i64::MIN as int,
            s.wf(),
    {
        let s = QuestionStore { records: Vec::new(), swept_to: i64::MIN };
        proof {
            assert(s.model() =~= Seq::<RecordModel>::empty());
        }
        s
    }

    /// How many records are present.
    pub fn len(&self) -> (n: usize)
        ensures
            n == self.model().len(),
    {
        self.records.len()
    }

    /// The record at position `i`, in insertion order.
    pub fn record_at(&self, i: usize) -> (r: &QuestionRecord)
        requires
            i < self.model().len(),
        ensures
            r@ == self.model()[i as int],
    {
        &self.records[i]
    }

    /// Appends one record whose expiry is `now + ttl`. Only the submission
    /// path calls this, with content already sanitized and validated; the
    /// store itself imposes no length bounds.
    pub fn insert(
        &mut self,
        content: String,
        source_identifier: String,
        client_descriptor: String,
        now: i64,
        ttl: i64,
    )
        requires
            0 <= ttl,
            now + ttl <= i64::MAX,
        ensures
            final(self).model() == old(self).model().push(
                submitted_record(
                    content@,
                    source_identifier@,
                    client_descriptor@,
                    now as int,
                    ttl as int,
                ),
            ),
            final(self).swept_bound() == old(self).swept_bound(),
            old(self).wf() && now + ttl >= old(self).swept_bound() ==> final(self).wf(),
    {
        let expire_after = now + ttl;
        let record = QuestionRecord {
            content,
            source_identifier,
            client_descriptor,
            created_at: now,
            expire_after,
        };
        let ghost m = record@;
        self.records.push(record);
        proof {
            assert(self.model() =~= old(self).model().push(m));
        }
    }

    /// Removes every record whose `expire_after` lies strictly before `now`,
    /// as one bulk operation, and reports how many were removed. A record
    /// with `expire_after == now` is not yet expired and stays.
    pub fn delete_expired(&mut self, now: i64) -> (count: usize)
        ensures
            final(self).model() == sweep_model(old(self).model(), now as int),
            count == old(self).model().len() - final(self).model().len(),
            final(self).swept_bound() == if now as int > old(self).swept_bound() {
                now as int
            } else {
                old(self).swept_bound()
            },
            forall|k: int|
                0 <= k < final(self).model().len() ==> (#[trigger] final(self).model()[k]).expire_after
                    >= now,
            old(self).wf() ==> final(self).wf(),
    {
        let ghost old_model = self.model();
        let mut kept: Vec<QuestionRecord> = Vec::new();
        let n = self.records.len();
        let mut i: usize = 0;
        while i < n
            invariant
                n == self.records@.len(),
                old_model == model_of(self.records@),
                0 <= i <= n,
                kept@.len() <= i,
                model_of(kept@) == sweep_model(old_model.take(i as int), now as int),
            decreases n - i,
        {
            let r = &self.records[i];
            if r.expire_after >= now {
                kept.push(r.duplicate());
            }
            proof {
                assert(old_model.take(i + 1).drop_last() =~= old_model.take(i as int));
                assert(old_model.take(i + 1).last() == old_model[i as int]);
                assert(model_of(kept@) =~= sweep_model(old_model.take(i + 1), now as int));
            }
            i = i + 1;
        }
        proof {
            assert(old_model.take(n as int) =~= old_model);
        }
        let count = self.records.len() - kept.len();
        self.records = kept;
        self.swept_to = if now > self.swept_to {
            now
        } else {
            self.swept_to
        };
        proof {
            lemma_sweep_leaves_unexpired(old_model, now as int);
            if old(self).wf() {
                lemma_sweep_membership(old_model, now as int);
                assert forall|k: int| 0 <= k < self.model().len() implies (
                #[trigger] self.model()[k]).expire_after >= self.swept_bound() by {
                    let x = self.model()[k];
                    assert(sweep_model(old_model, now as int)[k] == x);
                    assert(sweep_model(old_model, now as int).contains(x));
                    let i = choose|i: int| 0 <= i < old_model.len() && old_model[i] == x;
                    assert(old(self).model()[i] == x);
                }
            }
        }
        count
    }
}

} // verus!
