//! Adapting to a remote that limits the rate of requests: fewer pulls at a time, and another try
//! after a wait that grows.

use std::collections::HashMap;
use vstd::prelude::*;

verus! {

broadcast use vstd::std_specs::hash::group_hash_axioms;

/// The wait before the first retry of a throttled repo, in milliseconds.
pub const FIRST_WAIT: u64 = 2000;

/// From this retry on the wait grows no further.
pub const LONGEST_WAIT_AT: u32 = 5;

/// The remote counts as quiet when it has not throttled for so many milliseconds.
pub const QUIET_AFTER: u64 = 60000;

/// The wait before a retry, after so many earlier ones: twice the one before, up to a longest.
pub open spec fn wait_for(earlier: nat) -> int
    decreases earlier,
{
    if earlier == 0 {
        FIRST_WAIT as int
    } else if earlier > LONGEST_WAIT_AT {
        wait_for(LONGEST_WAIT_AT as nat)
    } else {
        2 * wait_for((earlier - 1) as nat)
    }
}

proof fn lemma_longest_wait()
    ensures
        wait_for(0) == 2000,
        wait_for(1) == 4000,
        wait_for(2) == 8000,
        wait_for(3) == 16000,
        wait_for(4) == 32000,
        wait_for(5) == 64000,
{
    reveal_with_fuel(wait_for, 6);
}

/// The wait before a retry, after so many earlier ones.
pub fn backoff(earlier: u32) -> (res: u64)
    ensures
        res == wait_for(earlier as nat),
{
    proof {
        lemma_longest_wait();
    }
    match earlier {
        0 => 2000,
        1 => 4000,
        2 => 8000,
        3 => 16000,
        4 => 32000,
        _ => 64000,
    }
}

/// A throttled repo that waits for its retry.
#[derive(Debug, Clone, Copy, PartialEq, Eq, Structural)]
pub struct Waiting {
    pub repo: usize,
    /// When its retry is due, in milliseconds.
    pub due: u64,
}

/// How many pulls may run at a time, and the repos that wait for a retry.
#[derive(Debug)]
pub struct ThrottleControl {
    pub configured: usize,
    pub effective: usize,
    /// When the remote last throttled, in milliseconds.
    pub last: Option<u64>,
    /// How often in a row each repo was throttled.
    pub streaks: HashMap<usize, u32>,
    pub waiting: Vec<Waiting>,
}

/// The repos among the first `n` that are due.
pub open spec fn due_upto(waiting: Seq<Waiting>, now: u64, n: nat) -> Seq<usize>
    decreases n,
{
    if n == 0 || n > waiting.len() {
        Seq::empty()
    } else if waiting[n - 1].due <= now {
        due_upto(waiting, now, (n - 1) as nat).push(waiting[n - 1].repo)
    } else {
        due_upto(waiting, now, (n - 1) as nat)
    }
}

/// Those among the first `n` that are not due yet.
pub open spec fn early_upto(waiting: Seq<Waiting>, now: u64, n: nat) -> Seq<Waiting>
    decreases n,
{
    if n == 0 || n > waiting.len() {
        Seq::empty()
    } else if waiting[n - 1].due <= now {
        early_upto(waiting, now, (n - 1) as nat)
    } else {
        early_upto(waiting, now, (n - 1) as nat).push(waiting[n - 1])
    }
}

/// Half of a number of pulls, but at least one.
pub open spec fn halved(pulls: usize) -> usize {
    if pulls <= 1 {
        1
    } else {
        pulls / 2
    }
}

impl ThrottleControl {
    /// At least one pull may run, and no more than were configured.
    pub open spec fn wf(self) -> bool {
        1 <= self.effective <= self.configured
    }

    /// How often in a row a repo was throttled.
    pub open spec fn streak(self, repo: usize) -> u32 {
        if self.streaks@.contains_key(repo) {
            self.streaks@[repo]
        } else {
            0
        }
    }

    /// The remote throttled within the last minute.
    pub open spec fn is_recent(self, now: u64) -> bool {
        match self.last {
            Some(last) => now < last + QUIET_AFTER,
            None => false,
        }
    }

    /// Nothing was throttled yet.
    pub fn new(configured: usize) -> (res: ThrottleControl)
        requires
            configured >= 1,
        ensures
            res.wf(),
            res.configured == configured,
            res.effective == configured,
            res.last is None,
            res.streaks@ == Map::<usize, u32>::empty(),
            res.waiting@ == Seq::<Waiting>::empty(),
    {
        ThrottleControl {
            configured,
            effective: configured,
            last: None,
            streaks: HashMap::new(),
            waiting: Vec::new(),
        }
    }

    /// The pulls that may run now.
    pub fn effective(&self) -> (res: usize)
        ensures
            res == self.effective,
    {
        self.effective
    }

    /// The pulls that were configured to run at a time.
    pub fn configured(&self) -> (res: usize)
        ensures
            res == self.configured,
    {
        self.configured
    }

    /// Fewer pulls may run than were configured.
    pub fn reduced(&self) -> (res: bool)
        ensures
            res == (self.effective < self.configured),
    {
        self.effective < self.configured
    }

    /// Whether the remote throttled within the last minute.
    pub fn recently_throttled(&self, now: u64) -> (res: bool)
        ensures
            res == self.is_recent(now),
    {
        match self.last {
            Some(last) => now < last || now - last < QUIET_AFTER,
            None => false,
        }
    }

    /// A repo was throttled: half as many pulls may run, and the repo waits for a retry, longer
    /// each time in a row.
    pub fn repo_throttled(&mut self, repo: usize, now: u64)
        requires
            old(self).wf(),
        ensures
            final(self).wf(),
            final(self).effective == halved(old(self).effective),
            final(self).last == Some(now),
            final(self).streaks@ == old(self).streaks@.insert(
                repo,
                if old(self).streak(repo) < u32::MAX {
                    (old(self).streak(repo) + 1) as u32
                } else {
                    u32::MAX
                },
            ),
            final(self).waiting@.len() == old(self).waiting@.len() + 1,
            final(self).waiting@.drop_last() == old(self).waiting@,
            final(self).waiting@.last().repo == repo,
            final(self).waiting@.last().due == (if now + wait_for(old(self).streak(repo) as nat)
                <= u64::MAX {
                now + wait_for(old(self).streak(repo) as nat)
            } else {
                u64::MAX as int
            }),
            final(self).configured == old(self).configured,
    {
        let streak: u32 = match self.streaks.get(&repo) {
            Some(streak) => *streak,
            None => 0,
        };
        self.effective = if self.effective <= 1 {
            1
        } else {
            self.effective / 2
        };
        self.last = Some(now);
        self.streaks.insert(repo, streak.saturating_add(1));
        self.waiting.push(Waiting { repo, due: now.saturating_add(backoff(streak)) });
        assert(self.waiting@.drop_last() =~= old(self).waiting@);
    }

    /// A repo was served: its next wait starts anew.
    pub fn repo_served(&mut self, repo: usize)
        requires
            old(self).wf(),
        ensures
            final(self).wf(),
            final(self).streaks@ == old(self).streaks@.remove(repo),
            final(self).configured == old(self).configured,
            final(self).effective == old(self).effective,
            final(self).last == old(self).last,
            final(self).waiting == old(self).waiting,
    {
        self.streaks.remove(&repo);
    }

    /// Takes the repos whose wait is over; the others wait on.
    pub fn take_due_retries(&mut self, now: u64) -> (res: Vec<usize>)
        requires
            old(self).wf(),
        ensures
            final(self).wf(),
            res@ == due_upto(old(self).waiting@, now, old(self).waiting@.len()),
            final(self).waiting@ == early_upto(old(self).waiting@, now, old(self).waiting@.len()),
            final(self).configured == old(self).configured,
            final(self).effective == old(self).effective,
            final(self).last == old(self).last,
            final(self).streaks == old(self).streaks,
    {
        let mut due: Vec<usize> = Vec::new();
        let mut early: Vec<Waiting> = Vec::new();
        let mut i: usize = 0;
        while i < self.waiting.len()
            invariant
                i <= self.waiting@.len(),
                *self == *old(self),
                due@ =~= due_upto(self.waiting@, now, i as nat),
                early@ =~= early_upto(self.waiting@, now, i as nat),
            decreases self.waiting@.len() - i,
        {
            let one = self.waiting[i];
            if one.due <= now {
                due.push(one.repo);
            } else {
                early.push(one);
            }
            i += 1;
        }
        self.waiting = early;
        due
    }

    /// Once the remote is quiet, all configured pulls may run again.
    pub fn recover(&mut self, now: u64)
        requires
            old(self).wf(),
        ensures
            final(self).wf(),
            final(self).effective == (if old(self).is_recent(now) {
                old(self).effective
            } else {
                old(self).configured
            }),
            final(self).configured == old(self).configured,
            final(self).last == old(self).last,
            final(self).streaks == old(self).streaks,
            final(self).waiting == old(self).waiting,
    {
        if !self.recently_throttled(now) {
            self.effective = self.configured;
        }
    }
}

/// The wait doubles from one retry to the next, until it is at its longest.
pub proof fn law_waits_double(earlier: nat)
    ensures
        earlier < LONGEST_WAIT_AT ==> wait_for(earlier + 1) == 2 * wait_for(earlier),
        earlier >= LONGEST_WAIT_AT ==> wait_for(earlier) == wait_for(LONGEST_WAIT_AT as nat),
        FIRST_WAIT <= wait_for(earlier) <= 64000,
{
    lemma_longest_wait();
}

/// No repo is lost: each one that waits is either taken for its retry or waits on.
pub proof fn law_no_retry_is_lost(waiting: Seq<Waiting>, now: u64, k: int)
    requires
        0 <= k < waiting.len(),
    ensures
        waiting[k].due <= now ==> due_upto(waiting, now, waiting.len()).contains(waiting[k].repo),
        waiting[k].due > now ==> early_upto(waiting, now, waiting.len()).contains(waiting[k]),
        due_upto(waiting, now, waiting.len()).len() + early_upto(
            waiting,
            now,
            waiting.len(),
        ).len() == waiting.len(),
{
    lemma_parted(waiting, now, waiting.len());
    lemma_listed(waiting, now, k, waiting.len());
}

proof fn lemma_parted(waiting: Seq<Waiting>, now: u64, n: nat)
    requires
        n <= waiting.len(),
    ensures
        due_upto(waiting, now, n).len() + early_upto(waiting, now, n).len() == n,
    decreases n,
{
    if n > 0 {
        lemma_parted(waiting, now, (n - 1) as nat);
    }
}

proof fn lemma_listed(waiting: Seq<Waiting>, now: u64, k: int, n: nat)
    requires
        0 <= k < n <= waiting.len(),
    ensures
        waiting[k].due <= now ==> due_upto(waiting, now, n).contains(waiting[k].repo),
        waiting[k].due > now ==> early_upto(waiting, now, n).contains(waiting[k]),
    decreases n,
{
    if k == n - 1 {
        if waiting[k].due <= now {
            let due = due_upto(waiting, now, n);
            assert(due[due.len() - 1] == waiting[k].repo);
        } else {
            let early = early_upto(waiting, now, n);
            assert(early[early.len() - 1] == waiting[k]);
        }
    } else {
        lemma_listed(waiting, now, k, (n - 1) as nat);
        let due = due_upto(waiting, now, (n - 1) as nat);
        let early = early_upto(waiting, now, (n - 1) as nat);
        if waiting[k].due <= now {
            let j = choose|j: int| 0 <= j < due.len() && due[j] == waiting[k].repo;
            assert(due_upto(waiting, now, n)[j] == waiting[k].repo);
        } else {
            let j = choose|j: int| 0 <= j < early.len() && early[j] == waiting[k];
            assert(early_upto(waiting, now, n)[j] == waiting[k]);
        }
    }
}

/// A throttled remote gets half as many pulls at a time, and never none.
pub proof fn law_throttling_halves(pulls: usize)
    ensures
        pulls >= 2 ==> halved(pulls) == pulls / 2,
        pulls <= 1 ==> halved(pulls) == 1,
        halved(pulls) >= 1,
        pulls >= 2 ==> halved(pulls) < pulls,
{
}

/// Only a repo whose time has come is taken for its retry, and only one whose time has not come
/// waits on.
pub proof fn law_retries_are_due(waiting: Seq<Waiting>, now: u64, n: nat)
    requires
        n <= waiting.len(),
    ensures
        due_upto(waiting, now, n) == waiting.take(n as int).filter(
            |one: Waiting| one.due <= now,
        ).map_values(|one: Waiting| one.repo),
        early_upto(waiting, now, n) == waiting.take(n as int).filter(
            |one: Waiting| one.due > now,
        ),
    decreases n,
{
    reveal(Seq::filter);
    let due = |one: Waiting| one.due <= now;
    let early = |one: Waiting| one.due > now;
    let repo = |one: Waiting| one.repo;
    if n > 0 {
        law_retries_are_due(waiting, now, (n - 1) as nat);
        let here = waiting.take(n as int);
        assert(here.drop_last() =~= waiting.take(n - 1));
        assert(here.last() == waiting[n - 1]);
        if waiting[n - 1].due <= now {
            assert(here.filter(due) =~= waiting.take(n - 1).filter(due).push(waiting[n - 1]));
            assert(here.filter(due).map_values(repo) =~= waiting.take(n - 1).filter(due).map_values(
                repo,
            ).push(waiting[n - 1].repo));
        }
    } else {
        assert(waiting.take(0).filter(due).map_values(repo) =~= Seq::<usize>::empty());
        assert(waiting.take(0).filter(early) =~= Seq::<Waiting>::empty());
    }
}

/// A first retry waits two seconds, the longest wait is about a minute, and a minute without
/// throttling is quiet.
pub proof fn law_times_of_throttling(control: ThrottleControl, now: u64, last: u64)
    ensures
        wait_for(0) == 2_000,
        wait_for(5) == 64_000,
        control.last == Some(last) ==> (control.is_recent(now) <==> now < last + 60_000),
        control.last is None ==> !control.is_recent(now),
{
    reveal_with_fuel(wait_for, 7);
}

} // verus!
