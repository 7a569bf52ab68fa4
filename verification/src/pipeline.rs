//! The consumer side of an indexing run: documents are gathered into batches
//! of a fixed size, each batch is handed over for one submission to the
//! search index, and the outcome of every document is recorded.

use crate::document::Message;
use crate::progress::{IndexStatus, ProgressTracker};
use vstd::prelude::*;

verus! {

/// The number of documents in a full batch.
pub const BATCH_SIZE: usize = 100;

/// The number of items that the stream between the walk and the coordinator
/// holds before the walk has to wait.
pub const CHANNEL_CAPACITY: usize = 1024;

/// The field of a document by which the search index tells documents apart.
pub const PRIMARY_KEY: &'static str = "id";

/// The ids of the documents of a batch, in order.
pub open spec fn batch_ids(batch: Seq<Message>) -> Seq<Seq<char>> {
    Seq::new(batch.len(), |i: int| batch[i].id@)
}

/// The outcomes once every id of `ids` is recorded as indexed: those ids are
/// indexed, every other id keeps what it had.
pub open spec fn indexed_all(outcomes: Map<Seq<char>, IndexStatus>, ids: Seq<Seq<char>>) -> Map<
    Seq<char>,
    IndexStatus,
> {
    Map::new(
        |id: Seq<char>| outcomes.contains_key(id) || ids.contains(id),
        |id: Seq<char>|
            if ids.contains(id) {
                IndexStatus::Indexed
            } else {
                outcomes[id]
            },
    )
}

/// The batch in the making after one more item has arrived, and the batch
/// that has fallen due with it, if one has. A document joins the batch; with
/// its `BATCH_SIZE`th document the batch falls due and a new one is begun. A
/// failure leaves the batch as it is.
pub open spec fn received(batch: Seq<Message>, message: Option<Message>) -> (
    Seq<Message>,
    Option<Seq<Message>>,
) {
    match message {
        Some(message) => if batch.len() + 1 >= BATCH_SIZE {
            (Seq::empty(), Some(batch.push(message)))
        } else {
            (batch.push(message), None)
        },
        None => (batch, None),
    }
}

/// The count of indexed documents after `more` have been added, as far as a
/// `usize` can count.
pub open spec fn counted(count: nat, more: nat) -> nat {
    if count + more <= usize::MAX {
        count + more
    } else {
        usize::MAX as nat
    }
}

/// Gathers documents into batches and keeps count of what was indexed. The
/// batch in the making is never full: a batch is handed out the moment it
/// is.
pub struct Coordinator {
    batch: Vec<Message>,
    index_count: usize,
}

impl Coordinator {
    /// The documents gathered into the batch in the making, in the order of
    /// their arrival.
    pub closed spec fn batch(&self) -> Seq<Message> {
        self.batch@
    }

    /// The number of documents indexed so far, as far as a `usize` can count.
    pub closed spec fn index_count(&self) -> nat {
        self.index_count as nat
    }

    /// The batch in the making holds fewer than `BATCH_SIZE` documents.
    #[verifier::type_invariant]
    spec fn never_full(self) -> bool {
        self.batch@.len() < BATCH_SIZE
    }

    /// A coordinator that has gathered and indexed nothing.
    pub fn new() -> (coordinator: Self)
        ensures
            coordinator.batch() == Seq::<Message>::empty(),
            coordinator.index_count() == 0,
    {
        Coordinator { batch: Vec::new(), index_count: 0 }
    }

    /// Takes one item off the stream: the id of a message and its document,
    /// or no document where the message could not be read.
    ///
    /// A failure is recorded as `Failed` at once. A document joins the
    /// batch and nothing is recorded for it yet. Where the batch falls due,
    /// it is the result: it is to be submitted, and then settled with
    /// `submitted`, before the next item is taken.
    pub fn receive(
        &mut self,
        tracker: &mut ProgressTracker,
        id: String,
        message: Option<Message>,
    ) -> (due: Option<Vec<Message>>)
        ensures
            final(self).batch() == received(old(self).batch(), message).0,
            match due {
                Some(due) => received(old(self).batch(), message).1 == Some(due@) && due@.len()
                    == BATCH_SIZE,
                None => received(old(self).batch(), message).1 is None,
            },
            final(self).index_count() == old(self).index_count(),
            final(tracker)@ == match message {
                Some(_) => old(tracker)@,
                None => old(tracker)@.insert(id@, IndexStatus::Failed),
            },
            final(self).batch().len() < BATCH_SIZE,
    {
        proof {
            use_type_invariant(&*self);
        }
        match message {
            Some(message) => {
                let mut batch: Vec<Message> = Vec::new();
                core::mem::swap(&mut self.batch, &mut batch);
                batch.push(message);
                if batch.len() >= BATCH_SIZE {
                    Some(batch)
                } else {
                    self.batch = batch;
                    None
                }
            },
            None => {
                tracker.add_message(id, IndexStatus::Failed);
                None
            },
        }
    }

    /// At the end of the stream: hands out the documents that are left, if
    /// any are, as the last batch to submit and to settle.
    pub fn finish(&mut self) -> (rest: Option<Vec<Message>>)
        ensures
            final(self).batch() == Seq::<Message>::empty(),
            final(self).index_count() == old(self).index_count(),
            match rest {
                Some(rest) => rest@ == old(self).batch() && rest@.len() > 0,
                None => old(self).batch().len() == 0,
            },
    {
        if self.batch.len() > 0 {
            let mut rest: Vec<Message> = Vec::new();
            core::mem::swap(&mut self.batch, &mut rest);
            Some(rest)
        } else {
            None
        }
    }

    /// The number of documents in the batch in the making.
    pub fn pending(&self) -> (n: usize)
        ensures
            n == self.batch().len(),
            n < BATCH_SIZE,
    {
        proof {
            use_type_invariant(self);
        }
        self.batch.len()
    }

    /// Settles a batch that the search index has accepted: every document
    /// of it is recorded as `Indexed`, and the count of indexed documents
    /// grows by its size. The count is the result.
    pub fn submitted(&mut self, tracker: &mut ProgressTracker, batch: &Vec<Message>) -> (count:
        usize)
        ensures
            final(tracker)@ == indexed_all(old(tracker)@, batch_ids(batch@)),
            final(self).batch() == old(self).batch(),
            final(self).index_count() == count,
            count == counted(old(self).index_count(), batch@.len()),
    {
        proof {
            use_type_invariant(&*self);
        }
        let ghost before = tracker@;
        let ghost ids = batch_ids(batch@);
        let mut i: usize = 0;
        while i < batch.len()
            invariant
                i <= batch.len(),
                ids == batch_ids(batch@),
                tracker@ == indexed_all(before, ids.take(i as int)),
            decreases batch.len() - i,
        {
            tracker.add_message(batch[i].id.clone(), IndexStatus::Indexed);
            proof {
                let sooner = ids.take(i as int);
                let now = ids.take(i + 1);
                assert(now == sooner.push(ids[i as int]));
                assert(forall|id: Seq<char>|
                    now.contains(id) <==> sooner.contains(id) || id == ids[i as int]) by {
                    assert(now[i as int] == ids[i as int]);
                    assert forall|id: Seq<char>| sooner.contains(id) implies now.contains(id) by {
                        let k = choose|k: int| 0 <= k < sooner.len() && sooner[k] == id;
                        assert(now[k] == id);
                    }
                }
                assert(tracker@ =~= indexed_all(before, now));
            }
            i = i + 1;
        }
        proof {
            assert(ids.take(batch.len() as int) == ids);
        }
        self.index_count = self.index_count.saturating_add(batch.len());
        self.index_count
    }
}

/// The documents among the items of a stream, in order.
pub open spec fn present(items: Seq<Option<Message>>) -> Seq<Message>
    decreases items.len(),
{
    if items.len() == 0 {
        Seq::empty()
    } else {
        match items.last() {
            Some(message) => present(items.drop_last()).push(message),
            None => present(items.drop_last()),
        }
    }
}

/// Where a coordinator stands that began empty, took the items in order and
/// had each batch submitted when it was due: the batches submitted so far,
/// and the batch in the making.
pub open spec fn fed(items: Seq<Option<Message>>) -> (Seq<Seq<Message>>, Seq<Message>)
    decreases items.len(),
{
    if items.len() == 0 {
        (Seq::empty(), Seq::empty())
    } else {
        let (done, batch) = fed(items.drop_last());
        let (batch, due) = received(batch, items.last());
        match due {
            Some(due) => (done.push(due), batch),
            None => (done, batch),
        }
    }
}

/// All the batches submitted for a stream that has ended: those that fell
/// due on the way and, where documents are left, one more for them.
pub open spec fn submissions(items: Seq<Option<Message>>) -> Seq<Seq<Message>> {
    let (done, batch) = fed(items);
    if batch.len() > 0 {
        done.push(batch)
    } else {
        done
    }
}

/// The batches submitted so far are the documents so far cut into full
/// runs, and the batch in the making holds what is left over.
proof fn lemma_fed(items: Seq<Option<Message>>)
    ensures
        ({
            let (done, batch) = fed(items);
            let documents = present(items);
            &&& batch.len() < BATCH_SIZE
            &&& done.len() * BATCH_SIZE + batch.len() == documents.len()
            &&& batch == documents.subrange(done.len() * BATCH_SIZE, documents.len() as int)
            &&& forall|k: int|
                0 <= k < done.len() ==> #[trigger] done[k] == documents.subrange(
                    k * BATCH_SIZE,
                    (k + 1) * BATCH_SIZE,
                )
        }),
    decreases items.len(),
{
    if items.len() > 0 {
        let front = items.drop_last();
        lemma_fed(front);
        let (done, batch) = fed(front);
        let sooner = present(front);
        let (after, now) = fed(items);
        let documents = present(items);
        match items.last() {
            Some(message) => {
                assert(documents == sooner.push(message));
                assert(batch.push(message) == documents.subrange(
                    done.len() * BATCH_SIZE,
                    documents.len() as int,
                ));
                assert forall|k: int| 0 <= k < done.len() implies #[trigger] done[k]
                    == documents.subrange(k * BATCH_SIZE, (k + 1) * BATCH_SIZE) by {
                    assert(sooner.subrange(k * BATCH_SIZE, (k + 1) * BATCH_SIZE)
                        == documents.subrange(k * BATCH_SIZE, (k + 1) * BATCH_SIZE));
                }
                if batch.len() + 1 >= BATCH_SIZE {
                    assert(now == documents.subrange(
                        after.len() * BATCH_SIZE,
                        documents.len() as int,
                    ));
                }
            },
            None => {},
        }
    }
}

/// The batches of a run are the documents of its stream cut into runs of
/// `BATCH_SIZE`, the last one shorter where they do not divide evenly: as
/// many batches as that takes, each holding the next documents in the order
/// of their arrival, none left out and none twice.
pub proof fn lemma_batches(items: Seq<Option<Message>>)
    ensures
        submissions(items).len() == (present(items).len() + BATCH_SIZE - 1) / (BATCH_SIZE as int),
        forall|k: int|
            0 <= k < submissions(items).len() ==> #[trigger] submissions(items)[k] == present(
                items,
            ).subrange(
                k * BATCH_SIZE,
                if (k + 1) * BATCH_SIZE <= present(items).len() {
                    (k + 1) * BATCH_SIZE
                } else {
                    present(items).len() as int
                },
            ),
{
    lemma_fed(items);
}

/// The documents of a stream up to a place are the first of all its
/// documents.
proof fn lemma_present_take(items: Seq<Option<Message>>, at: int)
    requires
        0 <= at <= items.len(),
    ensures
        present(items.take(at)).len() <= present(items).len(),
        present(items.take(at)) == present(items).take(present(items.take(at)).len() as int),
    decreases items.len() - at,
{
    if at == items.len() {
        assert(items.take(at) == items);
        assert(present(items).take(present(items).len() as int) == present(items));
    } else {
        lemma_present_take(items, at + 1);
        assert(items.take(at + 1).drop_last() == items.take(at));
        let longer = present(items.take(at + 1));
        let shorter = present(items.take(at));
        assert(shorter == longer.take(shorter.len() as int));
        assert(shorter == present(items).take(shorter.len() as int));
    }
}

/// A message that cannot be read stops nothing: every document of a stream
/// is in one of its submissions, whatever failures stand before or behind
/// it.
pub proof fn lemma_failure_isolation(items: Seq<Option<Message>>, at: int)
    requires
        0 <= at < items.len(),
        items[at] is Some,
    ensures
        exists|k: int, j: int|
            0 <= k < submissions(items).len() && 0 <= j < (#[trigger] submissions(items)[k]).len()
                && #[trigger] submissions(items)[k][j] == items[at]->0,
{
    let documents = present(items);
    let place = present(items.take(at)).len() as int;
    lemma_present_take(items, at);
    lemma_present_take(items, at + 1);
    assert(items.take(at + 1).drop_last() == items.take(at));
    assert(present(items.take(at + 1)) == present(items.take(at)).push(items[at]->0));
    assert(documents[place] == items[at]->0) by {
        assert(present(items.take(at + 1))[place] == items[at]->0);
    }
    lemma_batches(items);
    let k = place / (BATCH_SIZE as int);
    let j = place % (BATCH_SIZE as int);
    assert(0 <= k < submissions(items).len());
    assert(submissions(items)[k][j] == documents[place]);
}

/// What an index that inserts or overwrites by id holds after it has taken
/// the documents of `batch` in order: under each id the last document that
/// came with it, and beside that what it held before.
pub open spec fn upserted(index: Map<Seq<char>, Message>, batch: Seq<Message>) -> Map<
    Seq<char>,
    Message,
>
    decreases batch.len(),
{
    if batch.len() == 0 {
        index
    } else {
        upserted(index, batch.drop_last()).insert(batch.last().id@, batch.last())
    }
}

/// What such an index holds after it has taken the batches in order.
pub open spec fn upserted_all(index: Map<Seq<char>, Message>, batches: Seq<Seq<Message>>) -> Map<
    Seq<char>,
    Message,
>
    decreases batches.len(),
{
    if batches.len() == 0 {
        index
    } else {
        upserted(upserted_all(index, batches.drop_last()), batches.last())
    }
}

/// Batching changes nothing in what the index comes to hold: the
/// submissions of a run leave it as the documents of the stream would, taken
/// one by one in the order of their arrival.
pub proof fn lemma_upsert_batches(index: Map<Seq<char>, Message>, items: Seq<Option<Message>>)
    ensures
        upserted_all(index, submissions(items)) == upserted(index, present(items)),
{
    lemma_upsert_fed(index, items);
    let (done, batch) = fed(items);
    if batch.len() > 0 {
        assert(done.push(batch).drop_last() == done);
    }
}

/// The batches submitted so far and the batch in the making together leave
/// the index as the documents so far would.
proof fn lemma_upsert_fed(index: Map<Seq<char>, Message>, items: Seq<Option<Message>>)
    ensures
        upserted(upserted_all(index, fed(items).0), fed(items).1) == upserted(
            index,
            present(items),
        ),
    decreases items.len(),
{
    if items.len() > 0 {
        let front = items.drop_last();
        lemma_upsert_fed(index, front);
        let (done, batch) = fed(front);
        match items.last() {
            Some(message) => {
                let grown = batch.push(message);
                assert(grown.drop_last() == batch);
                assert(present(items).drop_last() == present(front));
                if batch.len() + 1 >= BATCH_SIZE {
                    assert(done.push(grown).drop_last() == done);
                }
            },
            None => {},
        }
    }
}

/// Of two submissions of one id the later one stays: once the documents
/// have been taken, the index holds under an id the last document that came
/// with it, and holds it once.
pub proof fn lemma_upsert_latest(index: Map<Seq<char>, Message>, documents: Seq<Message>, at: int)
    requires
        0 <= at < documents.len(),
        forall|later: int|
            at < later < documents.len() ==> (#[trigger] documents[later]).id@ != documents[at].id@,
    ensures
        upserted(index, documents).contains_key(documents[at].id@),
        upserted(index, documents)[documents[at].id@] == documents[at],
    decreases documents.len(),
{
    if at < documents.len() - 1 {
        let front = documents.drop_last();
        assert(documents[documents.len() - 1].id@ != documents[at].id@);
        assert forall|later: int| at < later < front.len() implies (#[trigger] front[later]).id@
            != front[at].id@ by {
            assert(front[later] == documents[later]);
        }
        lemma_upsert_latest(index, front, at);
    }
}

} // verus!
