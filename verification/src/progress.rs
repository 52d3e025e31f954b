//! The progress lines of the running sub-agents.

use vstd::prelude::*;

verus! {

/// One sub-agent's progress line.
#[derive(Debug, PartialEq)]
struct ProgressLine {
    id: String,
    line: String,
}

/// The latest progress line of each running sub-agent, by the agent's id.
#[derive(Debug, PartialEq)]
pub struct AgentProgress {
    lines: Vec<ProgressLine>,
}

/// The map that a list of progress lines stands for.
spec fn lines_map(lines: Seq<ProgressLine>) -> Map<Seq<char>, Seq<char>>
    decreases lines.len(),
{
    if lines.len() == 0 {
        Map::empty()
    } else {
        lines_map(lines.drop_last()).insert(lines.last().id@, lines.last().line@)
    }
}

/// Whether no two lines belong to one agent.
spec fn distinct(lines: Seq<ProgressLine>) -> bool {
    forall|i: int, j: int|
        0 <= i < j < lines.len() ==> (#[trigger] lines[i]).id@ != (#[trigger] lines[j]).id@
}

/// The map holds the agents of the list, each with its line.
proof fn lines_map_entries(lines: Seq<ProgressLine>)
    requires
        distinct(lines),
    ensures
        forall|i: int|
            0 <= i < lines.len() ==> lines_map(lines).contains_key((#[trigger] lines[i]).id@)
                && lines_map(lines)[lines[i].id@] == lines[i].line@,
        forall|k: Seq<char>| #[trigger]
            lines_map(lines).contains_key(k) ==> exists|i: int|
                0 <= i < lines.len() && (#[trigger] lines[i]).id@ == k,
    decreases lines.len(),
{
    if lines.len() > 0 {
        let front = lines.drop_last();
        assert(distinct(front)) by {
            assert forall|i: int, j: int| 0 <= i < j < front.len() implies (#[trigger] front[i]).id@
                != (#[trigger] front[j]).id@ by {
                assert(front[i] == lines[i] && front[j] == lines[j]);
            }
        }
        lines_map_entries(front);
        assert forall|i: int| 0 <= i < lines.len() implies lines_map(lines).contains_key(
            (#[trigger] lines[i]).id@,
        ) && lines_map(lines)[lines[i].id@] == lines[i].line@ by {
            if i < front.len() {
                assert(front[i] == lines[i]);
            }
        }
        assert forall|k: Seq<char>| #[trigger] lines_map(lines).contains_key(k) implies exists|i: int|
            0 <= i < lines.len() && (#[trigger] lines[i]).id@ == k by {
            if k != lines.last().id@ {
                assert(lines_map(front).contains_key(k));
                let i = choose|i: int| 0 <= i < front.len() && (#[trigger] front[i]).id@ == k;
                assert(lines[i].id@ == k);
            } else {
                assert(lines[lines.len() - 1].id@ == k);
            }
        }
    }
}

/// Lists with the same entries stand for the same map.
proof fn lines_map_update(before: Seq<ProgressLine>, after: Seq<ProgressLine>, k: Seq<char>)
    requires
        distinct(before),
        distinct(after),
        forall|i: int|
            0 <= i < before.len() && (#[trigger] before[i]).id@ != k ==> exists|j: int|
                0 <= j < after.len() && (#[trigger] after[j]).id@ == before[i].id@
                    && after[j].line@ == before[i].line@,
        forall|j: int|
            0 <= j < after.len() && (#[trigger] after[j]).id@ != k ==> exists|i: int|
                0 <= i < before.len() && (#[trigger] before[i]).id@ == after[j].id@,
    ensures
        lines_map(after).remove(k) == lines_map(before).remove(k),
{
    lines_map_entries(before);
    lines_map_entries(after);
    let m = lines_map(before).remove(k);
    let n = lines_map(after).remove(k);
    assert forall|x: Seq<char>| #[trigger] m.contains_key(x) <==> n.contains_key(x) by {
        if m.contains_key(x) {
            let i = choose|i: int| 0 <= i < before.len() && (#[trigger] before[i]).id@ == x;
            assert(before[i].id@ != k);
        }
        if n.contains_key(x) {
            let j = choose|j: int| 0 <= j < after.len() && (#[trigger] after[j]).id@ == x;
            assert(after[j].id@ != k);
        }
    }
    assert forall|x: Seq<char>| #[trigger] m.contains_key(x) implies m[x] == n[x] by {
        let i = choose|i: int| 0 <= i < before.len() && (#[trigger] before[i]).id@ == x;
        assert(before[i].id@ != k);
    }
    assert(m =~= n);
}

/// Without its entry at `i`, the list stands for the map without that entry's agent.
proof fn lines_map_without(before: Seq<ProgressLine>, i: int)
    requires
        distinct(before),
        0 <= i < before.len(),
    ensures
        distinct(before.remove(i)),
        lines_map(before.remove(i)) == lines_map(before).remove(before[i].id@),
{
    let after = before.remove(i);
    let id = before[i].id@;
    assert forall|a: int, b: int| 0 <= a < b < after.len() implies (#[trigger] after[a]).id@ != (
    #[trigger] after[b]).id@ by {
        assert(after[a] == before[if a < i { a } else { a + 1 }]);
        assert(after[b] == before[if b < i { b } else { b + 1 }]);
    }
    assert forall|a: int| 0 <= a < before.len() && (#[trigger] before[a]).id@ != id implies exists|
        j: int,
    |
        0 <= j < after.len() && (#[trigger] after[j]).id@ == before[a].id@ && after[j].line@
            == before[a].line@ by {
        assert(before[a] == after[if a < i { a } else { a - 1 }]);
    }
    assert forall|a: int| 0 <= a < after.len() && (#[trigger] after[a]).id@ != id implies exists|
        j: int,
    |
        0 <= j < before.len() && (#[trigger] before[j]).id@ == after[a].id@ by {
        assert(after[a] == before[if a < i { a } else { a + 1 }]);
    }
    lines_map_update(before, after, id);
    lines_map_entries(after);
    assert(!lines_map(after).contains_key(id)) by {
        if lines_map(after).contains_key(id) {
            let j = choose|j: int| 0 <= j < after.len() && (#[trigger] after[j]).id@ == id;
            assert(after[j] == before[if j < i { j } else { j + 1 }]);
        }
    }
    assert(lines_map(after) =~= lines_map(after).remove(id));
}

impl View for AgentProgress {
    type V = Map<Seq<char>, Seq<char>>;

    closed spec fn view(&self) -> Map<Seq<char>, Seq<char>> {
        lines_map(self.lines@)
    }
}

impl AgentProgress {
    #[verifier::type_invariant]
    spec fn well_formed(self) -> bool {
        distinct(self.lines@)
    }

    /// No agent is running.
    pub fn new() -> (p: AgentProgress)
        ensures
            p@ == Map::<Seq<char>, Seq<char>>::empty(),
    {
        AgentProgress { lines: Vec::new() }
    }

    /// The position of the agent's line, or the number of lines where it has none.
    fn position(&self, id: &str) -> (i: usize)
        ensures
            i <= self.lines@.len(),
            i < self.lines@.len() ==> self.lines@[i as int].id@ == id@,
            i == self.lines@.len() ==> forall|j: int|
                0 <= j < self.lines@.len() ==> (#[trigger] self.lines@[j]).id@ != id@,
    {
        let mut i: usize = 0;
        while i < self.lines.len()
            invariant
                i <= self.lines@.len(),
                forall|j: int| 0 <= j < i ==> (#[trigger] self.lines@[j]).id@ != id@,
            decreases self.lines@.len() - i,
        {
            if crate::text::same(self.lines[i].id.as_str(), id) {
                return i;
            }
            i = i + 1;
        }
        i
    }

    /// The agent's line.
    pub fn get(&self, id: &str) -> (line: Option<&String>)
        ensures
            match line {
                Some(s) => self@.contains_key(id@) && self@[id@] == s@,
                None => !self@.contains_key(id@),
            },
    {
        proof {
            use_type_invariant(self);
            lines_map_entries(self.lines@);
        }
        let i: usize = self.position(id);
        if i < self.lines.len() {
            Some(&self.lines[i].line)
        } else {
            None
        }
    }

    /// Gives the agent the line `line`, in place of the one that it had.
    pub fn insert(&mut self, id: &str, line: String)
        ensures
            final(self)@ == old(self)@.insert(id@, line@),
    {
        proof {
            use_type_invariant(&*self);
        }
        let i: usize = self.position(id);
        let mut lines: Vec<ProgressLine> = Vec::new();
        std::mem::swap(&mut lines, &mut self.lines);
        let ghost before = lines@;
        let entry = ProgressLine { id: id.to_owned(), line };
        if i < lines.len() {
            lines.set(i, entry);
        } else {
            lines.push(entry);
        }
        proof {
            let after = lines@;
            assert forall|a: int, b: int| 0 <= a < b < after.len() implies (#[trigger] after[a]).id@
                != (#[trigger] after[b]).id@ by {
                if a != i {
                    assert(after[a] == before[a]);
                }
                if b != i {
                    assert(after[b] == before[b]);
                }
                if a == i && i < before.len() {
                    assert(before[a].id@ != before[b].id@);
                }
                if b == i && i < before.len() {
                    assert(before[a].id@ != before[b].id@);
                }
            }
            assert forall|a: int|
                0 <= a < before.len() && (#[trigger] before[a]).id@ != id@ implies exists|j: int|
                0 <= j < after.len() && (#[trigger] after[j]).id@ == before[a].id@
                    && after[j].line@ == before[a].line@ by {
                assert(after[a] == before[a]);
            }
            assert forall|a: int|
                0 <= a < after.len() && (#[trigger] after[a]).id@ != id@ implies exists|j: int|
                0 <= j < before.len() && (#[trigger] before[j]).id@ == after[a].id@ by {
                assert(after[a] == before[a]);
            }
            lines_map_update(before, after, id@);
            lines_map_entries(after);
            assert(after[i as int].id@ == id@);
            let m = lines_map(after);
            assert(m =~= m.remove(id@).insert(id@, m[id@]));
            assert(lines_map(before).insert(id@, entry.line@) =~= lines_map(before).remove(
                id@,
            ).insert(id@, entry.line@));
        }
        self.lines = lines;
    }

    /// Gives the agent the line `line`, unless it has one.
    pub fn insert_if_absent(&mut self, id: &str, line: String)
        ensures
            final(self)@ == if old(self)@.contains_key(id@) {
                old(self)@
            } else {
                old(self)@.insert(id@, line@)
            },
    {
        if self.get(id).is_none() {
            self.insert(id, line);
        }
    }

    /// Takes the agent's line away.
    pub fn remove(&mut self, id: &str)
        ensures
            final(self)@ == old(self)@.remove(id@),
    {
        proof {
            use_type_invariant(&*self);
        }
        let i: usize = self.position(id);
        let mut lines: Vec<ProgressLine> = Vec::new();
        std::mem::swap(&mut lines, &mut self.lines);
        let ghost before = lines@;
        if i < lines.len() {
            lines.remove(i);
            proof {
                lines_map_without(before, i as int);
            }
        } else {
            proof {
                lines_map_entries(before);
                assert(lines_map(before) =~= lines_map(before).remove(id@));
            }
        }
        self.lines = lines;
    }

    /// Whether an agent other than `id` is running.
    pub fn has_other(&self, id: &str) -> (b: bool)
        ensures
            b == (exists|k: Seq<char>| #[trigger] self@.contains_key(k) && k != id@),
    {
        proof {
            use_type_invariant(self);
            lines_map_entries(self.lines@);
        }
        let mut i: usize = 0;
        while i < self.lines.len()
            invariant
                i <= self.lines@.len(),
                forall|j: int| 0 <= j < i ==> (#[trigger] self.lines@[j]).id@ == id@,
                forall|j: int|
                    0 <= j < self.lines@.len() ==> self@.contains_key(
                        (#[trigger] self.lines@[j]).id@,
                    ),
            decreases self.lines@.len() - i,
        {
            if !crate::text::same(self.lines[i].id.as_str(), id) {
                assert(self@.contains_key(self.lines@[i as int].id@));
                return true;
            }
            i = i + 1;
        }
        false
    }
}

} // verus!
