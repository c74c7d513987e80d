//! The limit on concurrent sessions per user: before a new session is saved,
//! the oldest ones are evicted so that the user keeps at most the limit.
use vstd::prelude::*;

verus! {

/// A saved session of a user, with its creation time in seconds since the epoch.
#[derive(Debug)]
pub struct SessionEntry {
    pub id: String,
    pub created_at: u64,
}

/// The number of `true` marks in `s`.
pub open spec fn count_marked(s: Seq<bool>) -> nat
    decreases s.len(),
{
    if s.len() == 0 {
        0
    } else {
        count_marked(s.drop_last()) + if s.last() {
            1nat
        } else {
            0nat
        }
    }
}

/// How many of `existing` sessions go when one more is saved under a limit of
/// `max_sessions`: enough to keep the limit, and no more than there are.
pub open spec fn evictions_needed(existing: nat, max_sessions: nat) -> nat {
    if max_sessions == 0 {
        existing
    } else if existing + 1 > max_sessions {
        (existing + 1 - max_sessions) as nat
    } else {
        0
    }
}

/// Every marked session is at least as old as every unmarked one.
pub open spec fn oldest_marked(sessions: Seq<SessionEntry>, marks: Seq<bool>) -> bool {
    forall|a: int, b: int|
        0 <= a < marks.len() && 0 <= b < marks.len() && #[trigger] marks[a] && !#[trigger] marks[b]
            ==> sessions[a].created_at <= sessions[b].created_at
}

proof fn lemma_count_bound(s: Seq<bool>)
    ensures
        count_marked(s) <= s.len(),
    decreases s.len(),
{
    if s.len() > 0 {
        lemma_count_bound(s.drop_last());
    }
}

proof fn lemma_unmarked_exists(s: Seq<bool>)
    requires
        count_marked(s) < s.len(),
    ensures
        exists|i: int| 0 <= i < s.len() && !s[i],
    decreases s.len(),
{
    if s.last() {
        lemma_unmarked_exists(s.drop_last());
        let i = choose|i: int| 0 <= i < s.drop_last().len() && !s.drop_last()[i];
        assert(!s[i]);
    }
}

proof fn lemma_mark_one(s: Seq<bool>, i: int)
    requires
        0 <= i < s.len(),
        !s[i],
    ensures
        count_marked(s.update(i, true)) == count_marked(s) + 1,
    decreases s.len(),
{
    let t = s.update(i, true);
    if i == s.len() - 1 {
        assert(t.drop_last() =~= s.drop_last());
    } else {
        assert(t.drop_last() =~= s.drop_last().update(i, true));
        lemma_mark_one(s.drop_last(), i);
    }
}

/// Mark the sessions to evict before saving one more under `max_sessions`: the
/// oldest ones, as many as the limit needs. The result has one mark per session.
pub fn sessions_to_evict(existing: &Vec<SessionEntry>, max_sessions: usize) -> (r: Vec<bool>)
    ensures
        r@.len() == existing@.len(),
        count_marked(r@) == evictions_needed(existing@.len(), max_sessions as nat),
        oldest_marked(existing@, r@),
{
    let n = existing.len();
    let k: usize = if max_sessions == 0 {
        n
    } else if n >= max_sessions {
        n - max_sessions + 1
    } else {
        0
    };
    let mut marks: Vec<bool> = Vec::new();
    let mut i: usize = 0;
    while i < n
        invariant
            i <= n,
            marks@ == Seq::new(i as nat, |_j: int| false),
            count_marked(marks@) == 0,
        decreases n - i,
    {
        proof {
            assert(marks@.push(false).drop_last() =~= marks@);
        }
        marks.push(false);
        i += 1;
        assert(marks@ =~= Seq::new(i as nat, |_j: int| false));
    }
    let mut chosen: usize = 0;
    while chosen < k
        invariant
            k <= n,
            n == existing@.len(),
            marks@.len() == n,
            chosen <= k,
            count_marked(marks@) == chosen,
            oldest_marked(existing@, marks@),
        decreases k - chosen,
    {
        proof {
            lemma_unmarked_exists(marks@);
        }
        let mut best: usize = n;
        let mut j: usize = 0;
        while j < n
            invariant
                n == existing@.len(),
                marks@.len() == n,
                j <= n,
                best == n || (best < j && !marks@[best as int]),
                best == n ==> forall|x: int| 0 <= x < j ==> marks@[x],
                best < n ==> forall|x: int|
                    0 <= x < j && !marks@[x] ==> existing@[best as int].created_at
                        <= existing@[x].created_at,
            decreases n - j,
        {
            if !marks[j] {
                if best == n || existing[j].created_at < existing[best].created_at {
                    best = j;
                }
            }
            j += 1;
        }
        let ghost before = marks@;
        proof {
            lemma_mark_one(before, best as int);
        }
        marks.set(best, true);
        assert(marks@ == before.update(best as int, true));
        chosen += 1;
    }
    marks
}

} // verus!
