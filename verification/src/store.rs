//! The answer store: an in-memory map from question id to known-correct
//! answer text, loaded by replaying an append-only log and mutated as the
//! session loop learns answers. The store itself never touches the log
//! file: loading takes the log's lines, and `record` hands back the one
//! line the caller must append before play proceeds.

use vstd::prelude::*;
use std::collections::HashMap;
use crate::codec::{
    encode_line, encode_line_spec, lemma_encode_parse_roundtrip, parse_line, parse_line_spec,
};

verus! {

broadcast use vstd::std_specs::hash::group_hash_axioms;

/// The map a log replays to: lines are applied in order, a parsable line
/// inserts its record (so a later line for the same id overwrites an
/// earlier one), and a malformed line is skipped.
pub open spec fn replay_spec(lines: Seq<Seq<char>>) -> Map<i64, Seq<char>>
    decreases lines.len(),
{
    if lines.len() == 0 {
        Map::empty()
    } else {
        let prev = replay_spec(lines.drop_last());
        match parse_line_spec(lines.last()) {
            Some(p) => prev.insert(p.0, p.1),
            None => prev,
        }
    }
}

/// In-memory mapping of question id to known-correct answer text.
pub struct AnswerStore {
    map: HashMap<i64, String>,
}

impl View for AnswerStore {
    type V = Map<i64, Seq<char>>;

    closed spec fn view(&self) -> Map<i64, Seq<char>> {
        Map::new(|k: i64| self.map@.contains_key(k), |k: i64| self.map@[k]@)
    }
}

impl AnswerStore {
    /// An empty store, for an episode with no log yet.
    pub fn new() -> (r: AnswerStore)
        ensures
            r@ == Map::<i64, Seq<char>>::empty(),
    {
        let r = AnswerStore { map: HashMap::new() };
        proof {
            assert(r@ =~= Map::<i64, Seq<char>>::empty());
        }
        r
    }

    /// Pure lookup of the stored answer for `id`.
    pub fn get(&self, id: i64) -> (r: Option<&String>)
        ensures
            match r {
                Some(a) => self@.contains_key(id) && a@ == self@[id],
                None => !self@.contains_key(id),
            },
    {
        self.map.get(&id)
    }

    /// How many answers are known.
    pub fn len(&self) -> (r: usize)
        ensures
            r == self@.len(),
    {
        proof {
            assert(self@.dom() =~= self.map@.dom());
        }
        self.map.len()
    }

    /// Inserts or overwrites the entry for `id` and returns the log line
    /// that makes the change durable. The caller must append that line to
    /// the backing log before playing on.
    pub fn record(&mut self, id: i64, answer: String) -> (line: String)
        ensures
            final(self)@ == old(self)@.insert(id, answer@),
            line@ == encode_line_spec(id, answer@),
    {
        let line = encode_line(id, answer.as_str());
        self.map.insert(id, answer);
        proof {
            assert(self@ =~= old(self)@.insert(id, answer@));
        }
        line
    }

    /// Builds a store by replaying a log's lines in order: a later record
    /// for an id overwrites an earlier one, and malformed lines are
    /// skipped rather than aborting the load.
    pub fn load_from_lines(lines: &Vec<String>) -> (r: AnswerStore)
        ensures
            r@ == replay_spec(lines@.map_values(|l: String| l@)),
    {
        let ghost views = lines@.map_values(|l: String| l@);
        let mut store = AnswerStore::new();
        let mut i: usize = 0;
        while i < lines.len()
            invariant
                0 <= i <= lines.len(),
                views == lines@.map_values(|l: String| l@),
                views.len() == lines@.len(),
                store@ == replay_spec(views.take(i as int)),
            decreases lines.len() - i,
        {
            proof {
                let t = views.take(i + 1);
                assert(t.drop_last() =~= views.take(i as int));
                assert(t.last() == views[i as int]);
                assert(views[i as int] == lines@[i as int]@);
            }
            match parse_line(&lines[i]) {
                Some(entry) => {
                    let (id, answer) = entry;
                    store.insert_only(id, answer);
                },
                None => {
                },
            }
            i = i + 1;
        }
        proof {
            assert(views.take(lines@.len() as int) =~= views);
        }
        store
    }

    /// Inserts without producing a log line; used while replaying the log,
    /// where the line already stands in the file.
    fn insert_only(&mut self, id: i64, answer: String)
        ensures
            final(self)@ == old(self)@.insert(id, answer@),
    {
        self.map.insert(id, answer);
        proof {
            assert(self@ =~= old(self)@.insert(id, answer@));
        }
    }
}

/// Law: recording a second answer for the same question overwrites the
/// first; a store never holds two answers for one id at a time.
pub proof fn lemma_record_overwrites(m: Map<i64, Seq<char>>, q: i64, a1: Seq<char>, a2: Seq<char>)
    ensures
        m.insert(q, a1).insert(q, a2) == m.insert(q, a2),
{
    assert(m.insert(q, a1).insert(q, a2) =~= m.insert(q, a2));
}

/// Law: a malformed line changes nothing about a replay, wherever in the
/// log it stands; loading tolerates it rather than aborting.
pub proof fn lemma_malformed_line_ignored(lines: Seq<Seq<char>>, i: int, bad: Seq<char>)
    requires
        0 <= i <= lines.len(),
        parse_line_spec(bad) is None,
    ensures
        replay_spec(lines.insert(i, bad)) == replay_spec(lines),
    decreases lines.len(),
{
    let ext = lines.insert(i, bad);
    if i == lines.len() {
        assert(ext.drop_last() =~= lines);
        assert(ext.last() == bad);
    } else {
        assert(ext.last() == lines[lines.len() - 1]);
        assert(ext.drop_last() =~= lines.drop_last().insert(i, bad));
        lemma_malformed_line_ignored(lines.drop_last(), i, bad);
        assert(lines.last() == lines[lines.len() - 1]);
    }
}

/// Law: appending the line that `record` writes for a question makes a
/// later replay yield exactly that answer for it — a learned answer is
/// durable across runs.
pub proof fn lemma_recorded_line_replays(lines: Seq<Seq<char>>, q: i64, a: Seq<char>)
    ensures
        replay_spec(lines.push(encode_line_spec(q, a))).contains_key(q),
        replay_spec(lines.push(encode_line_spec(q, a)))[q] == a,
{
    lemma_encode_parse_roundtrip(q, a);
    let ext = lines.push(encode_line_spec(q, a));
    assert(ext.drop_last() =~= lines);
    assert(ext.last() == encode_line_spec(q, a));
}

/// Law: replaying a log gives each question the answer of the last
/// parsable line that mentions it — the last occurrence wins.
pub proof fn lemma_replay_last_wins(lines: Seq<Seq<char>>, i: int, q: i64, a: Seq<char>)
    requires
        0 <= i < lines.len(),
        parse_line_spec(lines[i]) == Some((q, a)),
        forall|j: int|
            i < j < lines.len() ==> !(#[trigger] parse_line_spec(lines[j]) matches Some(p)
                && p.0 == q),
    ensures
        replay_spec(lines).contains_key(q),
        replay_spec(lines)[q] == a,
    decreases lines.len(),
{
    if i == lines.len() - 1 {
        assert(lines.last() == lines[i]);
    } else {
        let front = lines.drop_last();
        assert(front[i] == lines[i]);
        assert forall|j: int|
            i < j < front.len() implies !(#[trigger] parse_line_spec(front[j]) matches Some(p)
                && p.0 == q) by {
            assert(front[j] == lines[j]);
        }
        lemma_replay_last_wins(front, i, q, a);
        assert(lines.last() == lines[lines.len() - 1]);
        match parse_line_spec(lines.last()) {
            Some(p) => {
                assert(!(parse_line_spec(lines[lines.len() - 1]) matches Some(pp) && pp.0 == q));
                assert(p.0 != q);
            },
            None => {
            },
        }
    }
}

} // verus!
