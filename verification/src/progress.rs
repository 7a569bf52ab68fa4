//! The record of which documents a run has already dealt with, and the text
//! in which that record is kept between runs.

use crate::text::{free_of, lemma_split_append, lemma_split_push, push_char, split};
use vstd::hash_map::StringHashMap;
use vstd::prelude::*;
use vstd::string::StringExecFns;

verus! {

/// What became of a document.
#[derive(Debug, Clone, Copy, PartialEq, Eq, Structural)]
pub enum IndexStatus {
    /// The document was handed to the search index.
    Indexed,
    /// The document could not be read and will not be indexed.
    Failed,
}

/// The text of a progress record that cannot be read.
#[derive(Debug, Clone, Copy, PartialEq, Eq, Structural)]
pub enum ProgressError {
    /// A line is neither empty nor an identifier, a comma and a known tag.
    CorruptProgressFile,
}

/// Stands between the id and the tag of a written record.
pub const FIELD_SEPARATOR: char = ',';

/// Ends every written record.
pub const LINE_END: char = '\n';

/// The literal that stands for an outcome in the text.
pub open spec fn status_tag(status: IndexStatus) -> Seq<char> {
    match status {
        IndexStatus::Indexed => "Indexed"@,
        IndexStatus::Failed => "Failed"@,
    }
}

/// The outcome that a literal stands for, if it is one of the two.
pub open spec fn tag_status(tag: Seq<char>) -> Option<IndexStatus> {
    if tag == "Indexed"@ {
        Some(IndexStatus::Indexed)
    } else if tag == "Failed"@ {
        Some(IndexStatus::Failed)
    } else {
        None
    }
}

/// A record as written, without its line end: the id, a comma, the tag.
pub open spec fn record_line(id: Seq<char>, status: IndexStatus) -> Seq<char> {
    id.push(FIELD_SEPARATOR) + status_tag(status)
}

/// The records of `ids`, in that order, each with the outcome that `outcomes`
/// gives it and each ended by a line end.
pub open spec fn records_text(ids: Seq<Seq<char>>, outcomes: Map<Seq<char>, IndexStatus>) -> Seq<
    char,
>
    decreases ids.len(),
{
    if ids.len() == 0 {
        Seq::<char>::empty()
    } else {
        (records_text(ids.drop_last(), outcomes) + record_line(
            ids.last(),
            outcomes[ids.last()],
        )).push(LINE_END)
    }
}

/// Where the last comma of a line stands, or -1 for a line without one.
pub open spec fn last_separator(line: Seq<char>) -> int
    decreases line.len(),
{
    if line.len() == 0 {
        -1
    } else if line.last() == FIELD_SEPARATOR {
        line.len() - 1
    } else {
        last_separator(line.drop_last())
    }
}

/// The record that a line holds: what stands before its last comma is the
/// id, what stands after it must be a tag.
pub open spec fn record_of(line: Seq<char>) -> Option<(Seq<char>, IndexStatus)> {
    let at = last_separator(line);
    if at < 0 {
        None
    } else {
        match tag_status(line.skip(at + 1)) {
            Some(status) => Some((line.take(at), status)),
            None => None,
        }
    }
}

/// The outcomes that a list of lines records. Empty lines record nothing; of
/// two records for one id the later counts; one line that holds no record
/// spoils the whole list.
pub open spec fn records_of(lines: Seq<Seq<char>>) -> Option<Map<Seq<char>, IndexStatus>>
    decreases lines.len(),
{
    if lines.len() == 0 {
        Some(Map::empty())
    } else {
        match records_of(lines.drop_last()) {
            None => None,
            Some(outcomes) => if lines.last().len() == 0 {
                Some(outcomes)
            } else {
                match record_of(lines.last()) {
                    Some((id, status)) => Some(outcomes.insert(id, status)),
                    None => None,
                }
            },
        }
    }
}

/// The outcomes that a progress text records, if it can be read.
pub open spec fn progress_of(text: Seq<char>) -> Option<Map<Seq<char>, IndexStatus>> {
    records_of(split(text, LINE_END))
}

impl IndexStatus {
    /// The literal that stands for this outcome in the text.
    pub fn tag(&self) -> (tag: &'static str)
        ensures
            tag@ == status_tag(*self),
    {
        match self {
            IndexStatus::Indexed => "Indexed",
            IndexStatus::Failed => "Failed",
        }
    }
}

/// The outcome recorded for each document id. Each id is held once; the ids
/// stay in the order in which they were first recorded.
pub struct ProgressTracker {
    keys: Vec<String>,
    statuses: StringHashMap<IndexStatus>,
}

impl View for ProgressTracker {
    type V = Map<Seq<char>, IndexStatus>;

    closed spec fn view(&self) -> Self::V {
        self.statuses@
    }
}

impl ProgressTracker {
    /// The ids on record, in the order in which they were first recorded.
    pub closed spec fn ids(&self) -> Seq<Seq<char>> {
        Seq::new(self.keys@.len(), |i: int| self.keys@[i]@)
    }

    /// The ids on record are exactly those that have an outcome, each once.
    /// This holds of every record that the library hands out.
    pub open spec fn wf(&self) -> bool {
        &&& self.ids().no_duplicates()
        &&& forall|id: Seq<char>| self@.contains_key(id) <==> self.ids().contains(id)
    }

    /// Every record is well formed.
    #[verifier::type_invariant]
    spec fn well_formed(self) -> bool {
        self.wf()
    }

    /// A record of nothing.
    pub fn new() -> (tracker: Self)
        ensures
            tracker.wf(),
            tracker@ == Map::<Seq<char>, IndexStatus>::empty(),
            tracker.ids() == Seq::<Seq<char>>::empty(),
    {
        let tracker = ProgressTracker { keys: Vec::new(), statuses: StringHashMap::new() };
        assert(tracker.ids() =~= Seq::<Seq<char>>::empty());
        tracker
    }

    /// Records the outcome of `id`. An outcome recorded earlier for the same
    /// id is replaced; every other id keeps its outcome and its place.
    pub fn add_message(&mut self, id: String, status: IndexStatus)
        ensures
            old(self).wf(),
            final(self).wf(),
            final(self)@ == old(self)@.insert(id@, status),
            final(self).ids() == if old(self)@.contains_key(id@) {
                old(self).ids()
            } else {
                old(self).ids().push(id@)
            },
    {
        proof {
            use_type_invariant(&*self);
        }
        let ghost before = self.ids();
        let mut taken = ProgressTracker::new();
        core::mem::swap(self, &mut taken);
        let ProgressTracker { keys, statuses } = taken;
        let mut keys = keys;
        let mut statuses = statuses;
        assert(before =~= Seq::new(keys@.len(), |i: int| keys@[i]@));
        if !statuses.contains_key(id.as_str()) {
            keys.push(id.clone());
        }
        statuses.insert(id, status);
        let ghost after = Seq::new(keys@.len(), |i: int| keys@[i]@);
        proof {
            if before.contains(id@) {
                assert(after =~= before);
            } else {
                assert(after =~= before.push(id@));
                assert forall|i: int, j: int|
                    0 <= i < after.len() && 0 <= j < after.len() && i != j implies after[i]
                    != after[j] by {
                    if i < before.len() {
                        assert(before.contains(before[i]));
                    }
                    if j < before.len() {
                        assert(before.contains(before[j]));
                    }
                }
            }
            assert forall|other: Seq<char>| statuses@.contains_key(other) <==> after.contains(
                other,
            ) by {
                if other == id@ {
                    if before.contains(id@) {
                        assert(after.contains(id@));
                    } else {
                        assert(after[before.len() as int] == id@);
                    }
                } else {
                    if before.contains(other) {
                        let i = choose|i: int| 0 <= i < before.len() && before[i] == other;
                        assert(after[i] == other);
                    }
                    if after.contains(other) {
                        let i = choose|i: int| 0 <= i < after.len() && after[i] == other;
                        assert(before[i] == other);
                    }
                }
            }
        }
        *self = ProgressTracker { keys, statuses };
        assert(self.ids() =~= after);
    }

    /// Whether an outcome is on record for `id`, whichever it is.
    pub fn contains_message(&self, id: &String) -> (found: bool)
        ensures
            found == self@.contains_key(id@),
            self.wf(),
    {
        proof {
            use_type_invariant(self);
        }
        self.statuses.contains_key(id.as_str())
    }

    /// The outcome on record for `id`, if there is one.
    pub fn status(&self, id: &str) -> (status: Option<IndexStatus>)
        ensures
            status == if self@.contains_key(id@) {
                Some(self@[id@])
            } else {
                None
            },
    {
        match self.statuses.get(id) {
            Some(status) => Some(*status),
            None => None,
        }
    }

    /// The number of ids on record.
    pub fn len(&self) -> (n: usize)
        ensures
            n == self.ids().len(),
            self.wf(),
    {
        proof {
            use_type_invariant(self);
        }
        self.keys.len()
    }

    /// The text that keeps this record: one line for each id, in the order
    /// of `ids`.
    pub open spec fn text(&self) -> Seq<char> {
        records_text(self.ids(), self@)
    }

    /// Writes the record out as text, one line for each id on record.
    pub fn to_text(&self) -> (text: String)
        ensures
            self.wf(),
            text@ == self.text(),
    {
        proof {
            use_type_invariant(self);
        }
        let mut text = String::new();
        let mut i: usize = 0;
        while i < self.keys.len()
            invariant
                self.wf(),
                i <= self.keys.len(),
                text@ == records_text(self.ids().take(i as int), self@),
            decreases self.keys.len() - i,
        {
            let key = &self.keys[i];
            proof {
                assert(self.ids().take(i + 1).drop_last() == self.ids().take(i as int));
                assert(self.ids()[i as int] == key@);
                assert(self.ids().contains(key@));
            }
            let status = match self.statuses.get(key.as_str()) {
                Some(status) => *status,
                None => IndexStatus::Failed,
            };
            text.append(key.as_str());
            push_char(&mut text, FIELD_SEPARATOR);
            text.append(status.tag());
            push_char(&mut text, LINE_END);
            i = i + 1;
        }
        proof {
            assert(self.ids().take(self.keys.len() as int) == self.ids());
        }
        text
    }

    /// Reads a record back from its text.
    ///
    /// Succeeds exactly on the texts whose lines, cut at line ends, are each
    /// empty or an id, a comma and one of the two tags; the result holds the
    /// outcome of the last line written for each id. Any other text is a
    /// `CorruptProgressFile`.
    pub fn from_text(text: &str) -> (read: Result<ProgressTracker, ProgressError>)
        ensures
            match read {
                Ok(tracker) => tracker.wf() && progress_of(text@) == Some(tracker@),
                Err(_) => progress_of(text@) is None,
            },
    {
        broadcast use vstd::string::group_string_axioms;

        let mut tracker = ProgressTracker::new();
        let mut line: Vec<char> = Vec::new();
        let mut good: bool = true;
        proof {
            assert(text@.take(0) == Seq::<char>::empty());
            assert(split(text@.take(0), LINE_END).drop_last() == Seq::<Seq<char>>::empty());
        }
        for c in it: text.chars()
            invariant
                it.seq() == text@,
                tracker.wf(),
                good == (records_of(split(text@.take(it.index()), LINE_END).drop_last()) is Some),
                good ==> ({
                    let lines = split(text@.take(it.index()), LINE_END);
                    &&& records_of(lines.drop_last()) == Some(tracker@)
                    &&& line@ == lines.last()
                }),
        {
            let ghost read = text@.take(it.index());
            let ghost lines = split(read, LINE_END);
            proof {
                assert(text@.take(it.index() + 1) == read.push(c));
                lemma_split_push(read, LINE_END, c);
                if c == LINE_END {
                    assert(lines.push(Seq::<char>::empty()).drop_last() == lines);
                } else {
                    assert(lines.update(lines.len() - 1, lines.last().push(c)).drop_last()
                        == lines.drop_last());
                }
            }
            if good {
                if c == LINE_END {
                    good = take_line(&mut tracker, &line);
                    line.clear();
                } else {
                    line.push(c);
                }
            }
        }
        proof {
            assert(text@.take(text@.len() as int) == text@);
            lemma_split_push(text@, LINE_END, LINE_END);
        }
        if good && take_line(&mut tracker, &line) {
            Ok(tracker)
        } else {
            Err(ProgressError::CorruptProgressFile)
        }
    }
}

/// Records what `line` holds. Says whether the line could be read; a line
/// that could not leaves the record as it was.
fn take_line(tracker: &mut ProgressTracker, line: &Vec<char>) -> (good: bool)
    ensures
        final(tracker).wf(),
        good == (line@.len() == 0 || record_of(line@) is Some),
        line@.len() == 0 || !good ==> final(tracker)@ == old(tracker)@,
        line@.len() > 0 && good ==> (record_of(line@) matches Some(record) && final(tracker)@
            == old(tracker)@.insert(record.0, record.1)),
{
    proof {
        use_type_invariant(&*tracker);
    }
    if line.len() == 0 {
        return true;
    }
    match read_record(line) {
        Some((id, status)) => {
            tracker.add_message(id, status);
            true
        },
        None => false,
    }
}

/// No comma stands after position `at` of a line whose last comma is sought.
proof fn lemma_last_separator(line: Seq<char>, at: int)
    requires
        -1 <= at < line.len(),
        at >= 0 ==> line[at] == FIELD_SEPARATOR,
        forall|j: int| at < j < line.len() ==> #[trigger] line[j] != FIELD_SEPARATOR,
    ensures
        last_separator(line) == at,
    decreases line.len(),
{
    if line.len() > 0 && at < line.len() - 1 {
        let front = line.drop_last();
        assert(line[line.len() - 1] != FIELD_SEPARATOR);
        assert forall|j: int| at < j < front.len() implies #[trigger] front[j]
            != FIELD_SEPARATOR by {
            assert(front[j] == line[j]);
        }
        lemma_last_separator(front, at);
    }
}

/// The outcome whose tag stands in `line` from position `from` to the end.
fn read_tag(line: &Vec<char>, from: usize) -> (status: Option<IndexStatus>)
    requires
        from <= line.len(),
    ensures
        status == tag_status(line@.skip(from as int)),
{
    let ghost tag = line@.skip(from as int);
    proof {
        reveal_strlit("Indexed");
        reveal_strlit("Failed");
    }
    let n = line.len() - from;
    proof {
        assert(tag.len() == n);
        assert forall|k: int| 0 <= k < n implies tag[k] == line@[from + k] by {}
    }
    if n == 7 && line[from] == 'I' && line[from + 1] == 'n' && line[from + 2] == 'd' && line[from
        + 3] == 'e' && line[from + 4] == 'x' && line[from + 5] == 'e' && line[from + 6] == 'd' {
        assert(tag =~= "Indexed"@);
        Some(IndexStatus::Indexed)
    } else if n == 6 && line[from] == 'F' && line[from + 1] == 'a' && line[from + 2] == 'i'
        && line[from + 3] == 'l' && line[from + 4] == 'e' && line[from + 5] == 'd' {
        assert(tag =~= "Failed"@);
        Some(IndexStatus::Failed)
    } else {
        proof {
            if tag == "Indexed"@ {
                assert(tag[0] == 'I' && tag[1] == 'n' && tag[2] == 'd' && tag[3] == 'e' && tag[4]
                    == 'x' && tag[5] == 'e' && tag[6] == 'd');
            }
            if tag == "Failed"@ {
                assert(tag[0] == 'F' && tag[1] == 'a' && tag[2] == 'i' && tag[3] == 'l' && tag[4]
                    == 'e' && tag[5] == 'd');
            }
        }
        None
    }
}

/// The record that a line holds, if it holds one.
fn read_record(line: &Vec<char>) -> (record: Option<(String, IndexStatus)>)
    ensures
        match record {
            Some((id, status)) => record_of(line@) == Some((id@, status)),
            None => record_of(line@) is None,
        },
{
    let mut end: usize = line.len();
    while end > 0 && line[end - 1] != FIELD_SEPARATOR
        invariant
            end <= line.len(),
            forall|j: int| end <= j < line.len() ==> #[trigger] line@[j] != FIELD_SEPARATOR,
        decreases end,
    {
        end = end - 1;
    }
    proof {
        lemma_last_separator(line@, end as int - 1);
    }
    if end == 0 {
        return None;
    }
    match read_tag(line, end) {
        None => None,
        Some(status) => {
            let mut id = String::new();
            let mut i: usize = 0;
            while i < end - 1
                invariant
                    i <= end - 1 < line.len(),
                    id@ == line@.take(i as int),
                decreases end - 1 - i,
            {
                push_char(&mut id, line[i]);
                assert(line@.take(i + 1) == line@.take(i as int).push(line@[i as int]));
                i = i + 1;
            }
            Some((id, status))
        },
    }
}

/// The lines that `records_text` writes, without their line ends.
pub open spec fn record_lines(ids: Seq<Seq<char>>, outcomes: Map<Seq<char>, IndexStatus>) -> Seq<
    Seq<char>,
> {
    Seq::new(ids.len(), |i: int| record_line(ids[i], outcomes[ids[i]]))
}

/// A written record reads back as the id and the outcome it was written from.
proof fn lemma_record_line(id: Seq<char>, status: IndexStatus)
    ensures
        record_line(id, status).len() > 0,
        record_of(record_line(id, status)) == Some((id, status)),
        free_of(id, LINE_END) ==> free_of(record_line(id, status), LINE_END),
{
    reveal_strlit("Indexed");
    reveal_strlit("Failed");
    let tag = status_tag(status);
    let line = record_line(id, status);
    assert(line[id.len() as int] == FIELD_SEPARATOR);
    assert forall|j: int| id.len() < j < line.len() implies #[trigger] line[j]
        != FIELD_SEPARATOR by {
        assert(line[j] == tag[j - id.len() - 1]);
    }
    lemma_last_separator(line, id.len() as int);
    assert(line.skip(id.len() as int + 1) == tag);
    assert(line.take(id.len() as int) == id);
    assert("Indexed"@.len() != "Failed"@.len());
    if free_of(id, LINE_END) {
        assert forall|j: int| 0 <= j < line.len() implies #[trigger] line[j] != LINE_END by {
            if j < id.len() {
                assert(line[j] == id[j]);
            } else if j > id.len() {
                assert(line[j] == tag[j - id.len() - 1]);
            }
        }
    }
}

/// Cut at its line ends, a written text falls into its records and one empty
/// piece after the last line end.
proof fn lemma_text_lines(ids: Seq<Seq<char>>, outcomes: Map<Seq<char>, IndexStatus>)
    requires
        forall|i: int| 0 <= i < ids.len() ==> free_of(#[trigger] ids[i], LINE_END),
    ensures
        split(records_text(ids, outcomes), LINE_END) == record_lines(ids, outcomes).push(
            Seq::<char>::empty(),
        ),
    decreases ids.len(),
{
    let nothing = Seq::<char>::empty();
    let lines = record_lines(ids, outcomes);
    if ids.len() == 0 {
        assert(lines.push(nothing) == seq![nothing]);
    } else {
        let front = ids.drop_last();
        let line = record_line(ids.last(), outcomes[ids.last()]);
        let before = records_text(front, outcomes);
        let lines_before = record_lines(front, outcomes);
        assert forall|i: int| 0 <= i < front.len() implies free_of(#[trigger] front[i], LINE_END) by {
            assert(front[i] == ids[i]);
        }
        lemma_text_lines(front, outcomes);
        assert(split(before, LINE_END) == lines_before.push(nothing));
        lemma_record_line(ids.last(), outcomes[ids.last()]);
        assert(free_of(line, LINE_END)) by {
            assert(ids[ids.len() - 1] == ids.last());
        }
        lemma_split_append(before, LINE_END, line);
        assert(nothing + line == line);
        assert(lines_before.push(nothing).update(lines_before.len() as int, line)
            == lines_before.push(line));
        assert(split(before + line, LINE_END) == lines_before.push(line));
        lemma_split_push(before + line, LINE_END, LINE_END);
        assert(records_text(ids, outcomes) == (before + line).push(LINE_END));
        assert(lines == lines_before.push(line));
    }
}

/// Read back, the written records give each id the outcome it was written
/// with.
proof fn lemma_records_of_lines(ids: Seq<Seq<char>>, outcomes: Map<Seq<char>, IndexStatus>)
    ensures
        records_of(record_lines(ids, outcomes)) == Some(
            Map::new(|id: Seq<char>| ids.contains(id), |id: Seq<char>| outcomes[id]),
        ),
    decreases ids.len(),
{
    let lines = record_lines(ids, outcomes);
    let kept = Map::new(|id: Seq<char>| ids.contains(id), |id: Seq<char>| outcomes[id]);
    if ids.len() == 0 {
        assert(kept =~= Map::<Seq<char>, IndexStatus>::empty());
    } else {
        let front = ids.drop_last();
        let kept_front = Map::new(
            |id: Seq<char>| front.contains(id),
            |id: Seq<char>| outcomes[id],
        );
        lemma_records_of_lines(front, outcomes);
        lemma_record_line(ids.last(), outcomes[ids.last()]);
        assert(lines.drop_last() == record_lines(front, outcomes));
        assert(kept =~= kept_front.insert(ids.last(), outcomes[ids.last()])) by {
            assert forall|id: Seq<char>| ids.contains(id) <==> (front.contains(id) || id
                == ids.last()) by {
                if front.contains(id) {
                    let i = choose|i: int| 0 <= i < front.len() && front[i] == id;
                    assert(ids[i] == id);
                }
                if id == ids.last() {
                    assert(ids[ids.len() - 1] == id);
                }
                if ids.contains(id) {
                    let i = choose|i: int| 0 <= i < ids.len() && ids[i] == id;
                    if i < front.len() {
                        assert(front[i] == id);
                    }
                }
            }
        }
    }
}

/// A record that is written out and read back is the record it was: the same
/// ids with the same outcomes. This holds of every record none of whose ids
/// holds a line end.
pub proof fn lemma_text_round_trip(tracker: ProgressTracker)
    requires
        tracker.wf(),
        forall|id: Seq<char>| tracker@.contains_key(id) ==> free_of(id, LINE_END),
    ensures
        progress_of(tracker.text()) == Some(tracker@),
{
    let ids = tracker.ids();
    let outcomes = tracker@;
    let lines = record_lines(ids, outcomes);
    assert forall|i: int| 0 <= i < ids.len() implies free_of(#[trigger] ids[i], LINE_END) by {
        assert(ids.contains(ids[i]));
    }
    lemma_text_lines(ids, outcomes);
    lemma_records_of_lines(ids, outcomes);
    assert(lines.push(Seq::<char>::empty()).drop_last() == lines);
    assert(Map::new(|id: Seq<char>| ids.contains(id), |id: Seq<char>| outcomes[id]) =~= outcomes);
}

} // verus!
