//! The order in which the supervisor reads its two sources while a transport
//! is open. Neither source is preferred: serving one puts the other first.
use vstd::prelude::*;

verus! {

/// The two sources read while a transport is open.
#[derive(Debug, Clone, Copy, PartialEq, Eq)]
pub enum Source {
    Frames,
    Commands,
}

pub open spec fn other(s: Source) -> Source {
    match s {
        Source::Frames => Source::Commands,
        Source::Commands => Source::Frames,
    }
}

/// Whether source `s` has something ready, given whether frames and
/// commands are ready.
pub open spec fn is_ready(s: Source, ready: (bool, bool)) -> bool {
    match s {
        Source::Frames => ready.0,
        Source::Commands => ready.1,
    }
}

/// Which source is served first when both are ready.
#[derive(Debug, Clone, Copy, PartialEq, Eq)]
pub struct Turn {
    pub first: Source,
}

impl Turn {
    /// The source served for the given readiness: the only ready one, or
    /// the one whose turn it is.
    pub open spec fn choice(self, ready: (bool, bool)) -> Option<Source> {
        if ready.0 && ready.1 {
            Some(self.first)
        } else if ready.0 {
            Some(Source::Frames)
        } else if ready.1 {
            Some(Source::Commands)
        } else {
            None
        }
    }

    pub open spec fn after(self, served: Option<Source>) -> Turn {
        match served {
            Some(s) => Turn { first: other(s) },
            None => self,
        }
    }

    /// The sources served over a run of waits with the given readiness.
    pub open spec fn run(self, readies: Seq<(bool, bool)>) -> Seq<Option<Source>>
        decreases readies.len(),
    {
        if readies.len() == 0 {
            Seq::empty()
        } else {
            let c = self.choice(readies[0]);
            seq![c] + self.after(c).run(readies.drop_first())
        }
    }

    pub fn new() -> (r: Turn)
        ensures
            r.first == Source::Frames,
    {
        Turn { first: Source::Frames }
    }

    /// The source to try first.
    pub fn first(&self) -> (r: Source)
        ensures
            r == self.first,
    {
        self.first
    }

    /// Chooses the source to serve, and passes the turn on.
    pub fn pick(&mut self, frame_ready: bool, command_ready: bool) -> (r: Option<Source>)
        ensures
            r == old(self).choice((frame_ready, command_ready)),
            *final(self) == old(self).after(r),
    {
        let r = if frame_ready && command_ready {
            Some(self.first)
        } else if frame_ready {
            Some(Source::Frames)
        } else if command_ready {
            Some(Source::Commands)
        } else {
            None
        };
        if let Some(s) = r {
            self.served(s);
        }
        r
    }

    /// Records that `s` was served: the other source goes first next.
    pub fn served(&mut self, s: Source)
        ensures
            *final(self) == old(self).after(Some(s)),
    {
        self.first = match s {
            Source::Frames => Source::Commands,
            Source::Commands => Source::Frames,
        };
    }
}

/// How many times `s` was served in a run.
pub open spec fn times_served(served: Seq<Option<Source>>, s: Source) -> nat
    decreases served.len(),
{
    if served.len() == 0 {
        0
    } else {
        (if served[0] == Some(s) {
            1nat
        } else {
            0nat
        }) + times_served(served.drop_first(), s)
    }
}

/// A source that is ready at two waits in a row is served at one of them.
pub proof fn lemma_served_within_two(t: Turn, s: Source, r1: (bool, bool), r2: (bool, bool))
    requires
        is_ready(s, r1),
        is_ready(s, r2),
    ensures
        t.choice(r1) == Some(s) || t.after(t.choice(r1)).choice(r2) == Some(s),
{
}

/// Over a run in which a source is always ready, it is served at least once
/// in every two waits: the k-th item waiting in it is served within 2k waits,
/// whatever the other source does.
pub proof fn lemma_no_starvation(t: Turn, s: Source, readies: Seq<(bool, bool)>)
    requires
        forall|i: int| 0 <= i < readies.len() ==> is_ready(s, #[trigger] readies[i]),
    ensures
        2 * times_served(t.run(readies), s) + 1 >= readies.len(),
        t.run(readies).len() == readies.len(),
    decreases readies.len(),
{
    if readies.len() == 0 {
    } else if readies.len() == 1 {
        let rest = readies.drop_first();
        lemma_no_starvation(t.after(t.choice(readies[0])), s, rest);
        assert(t.run(readies).drop_first() =~= t.after(t.choice(readies[0])).run(rest));
        assert(t.run(readies)[0] == t.choice(readies[0]));
    } else {
        let c1 = t.choice(readies[0]);
        let t1 = t.after(c1);
        let rest1 = readies.drop_first();
        let c2 = t1.choice(rest1[0]);
        let t2 = t1.after(c2);
        let rest2 = rest1.drop_first();
        assert(is_ready(s, readies[1]));
        assert(rest1[0] == readies[1]);
        lemma_served_within_two(t, s, readies[0], rest1[0]);
        assert forall|i: int| 0 <= i < rest2.len() implies is_ready(s, #[trigger] rest2[i]) by {
            assert(rest2[i] == readies[i + 2]);
        }
        lemma_no_starvation(t2, s, rest2);
        let run0 = t.run(readies);
        let run1 = t1.run(rest1);
        assert(run0[0] == c1);
        assert(run0.drop_first() =~= run1);
        assert(run1[0] == c2);
        assert(run1.drop_first() =~= t2.run(rest2));
        assert(times_served(run0, s) == (if c1 == Some(s) { 1nat } else { 0nat }) + times_served(run1, s));
        assert(times_served(run1, s) == (if c2 == Some(s) { 1nat } else { 0nat }) + times_served(t2.run(rest2), s));
    }
}

} // verus!
