use vstd::prelude::*;

verus! {

/// The fixed, ordered list of candidate invocations for the external
/// tool: the bare name (resolved through the search path) and two
/// absolute install locations, tried in this order.
pub open spec fn default_candidates_spec() -> Seq<Seq<char>> {
    seq!["ollama"@, "/usr/local/bin/ollama"@, "/opt/homebrew/bin/ollama"@]
}

/// The default candidate list as owned strings.
pub fn default_candidates() -> (r: Vec<String>)
    ensures
        r@.map_values(|s: String| s@) == default_candidates_spec(),
{
    let mut v: Vec<String> = Vec::new();
    v.push(String::from_str("ollama"));
    v.push(String::from_str("/usr/local/bin/ollama"));
    v.push(String::from_str("/opt/homebrew/bin/ollama"));
    proof {
        assert(v@.map_values(|s: String| s@) =~= default_candidates_spec());
    }
    v
}

/// The index of the first successful probe in `s`, if any.
pub open spec fn first_success_index(s: Seq<bool>) -> Option<int>
    decreases s.len(),
{
    if s.len() == 0 {
        None
    } else if s[0] {
        Some(0int)
    } else {
        match first_success_index(s.drop_first()) {
            None => None,
            Some(i) => Some(i + 1),
        }
    }
}

/// Probes an ordered list of candidate paths one at a time. The caller
/// launches each pending candidate with a version-query argument and
/// reports back whether the probe exited successfully; the locator
/// stops at the first success, and a launch error counts as a failed
/// probe, never as a fault. The probe results reported so far are kept
/// as ghost history, so the contracts can say that the chosen
/// candidate is the first in list order whose probe succeeded.
pub struct Locator {
    paths: Vec<String>,
    next: usize,
    found: bool,
    history: Ghost<Seq<bool>>,
}

impl Locator {
    /// The candidate list, each path as its characters.
    pub closed spec fn paths_spec(&self) -> Seq<Seq<char>> {
        self.paths@.map_values(|s: String| s@)
    }

    /// The probe results reported so far, in candidate order.
    pub closed spec fn probed(&self) -> Seq<bool> {
        self.history@
    }

    /// Whether a probe has succeeded.
    pub closed spec fn found_spec(&self) -> bool {
        self.found
    }

    /// The candidate the locator stands at: the found one, or the next
    /// to probe.
    pub closed spec fn cursor(&self) -> int {
        self.next as int
    }

    pub open spec fn wf(&self) -> bool {
        &&& self.probed().len() <= self.paths_spec().len()
        &&& if self.found_spec() {
            &&& self.probed().len() >= 1
            &&& self.cursor() == self.probed().len() - 1
            &&& self.probed().last()
            &&& forall|j: int| 0 <= j < self.probed().len() - 1 ==> !self.probed()[j]
        } else {
            &&& self.cursor() == self.probed().len()
            &&& forall|j: int| 0 <= j < self.probed().len() ==> !self.probed()[j]
        }
    }

    /// A locator over `paths`, nothing probed yet.
    pub fn new(paths: Vec<String>) -> (r: Locator)
        ensures
            r.wf(),
            r.paths_spec() == paths@.map_values(|s: String| s@),
            r.probed() == Seq::<bool>::empty(),
            !r.found_spec(),
    {
        Locator { paths, next: 0, found: false, history: Ghost(Seq::empty()) }
    }

    /// The candidate the caller should probe next, or `None` when the
    /// locator is done: a candidate was found, or all have failed.
    pub fn pending(&self) -> (r: Option<&String>)
        requires
            self.wf(),
        ensures
            match r {
                Some(p) => !self.found_spec() && self.cursor() < self.paths_spec().len()
                    && p@ == self.paths_spec()[self.cursor()],
                None => self.found_spec() || self.probed().len() == self.paths_spec().len(),
            },
    {
        if self.found || self.next >= self.paths.len() {
            None
        } else {
            Some(&self.paths[self.next])
        }
    }

    /// Records the result of probing the pending candidate. The first
    /// success stops the locator at that candidate; a failure moves on
    /// to the next one.
    pub fn record_probe(&mut self, ok: bool)
        requires
            old(self).wf(),
            !old(self).found_spec(),
            old(self).cursor() < old(self).paths_spec().len(),
        ensures
            final(self).wf(),
            final(self).paths_spec() == old(self).paths_spec(),
            final(self).probed() == old(self).probed().push(ok),
            final(self).found_spec() == ok,
            final(self).cursor() == if ok {
                old(self).cursor()
            } else {
                old(self).cursor() + 1
            },
    {
        let n = self.paths.len();
        proof {
            assert(self.paths_spec().len() == self.paths@.len());
        }
        self.history = Ghost(self.history@.push(ok));
        if ok {
            self.found = true;
        } else {
            assert(self.next < n);
            self.next = self.next + 1;
        }
    }

    /// The located candidate, once a probe has succeeded; `None` while
    /// none has.
    pub fn located(&self) -> (r: Option<&String>)
        requires
            self.wf(),
        ensures
            match r {
                Some(p) => self.found_spec() && p@ == self.paths_spec()[self.cursor()],
                None => !self.found_spec(),
            },
    {
        if self.found {
            Some(&self.paths[self.next])
        } else {
            None
        }
    }
}

/// The status check: whether locating the tool found a candidate.
/// `located` is what `Locator::located` gave once the locator was done.
pub fn check_ollama_installed(located: &Option<String>) -> (r: bool)
    ensures
        r == (located is Some),
{
    located.is_some()
}

proof fn lemma_first_success_at(s: Seq<bool>, k: int)
    requires
        0 <= k < s.len(),
        s[k],
        forall|j: int| 0 <= j < k ==> !s[j],
    ensures
        first_success_index(s) == Some(k),
    decreases k,
{
    if k == 0 {
    } else {
        assert(!s[0]);
        assert forall|j: int| 0 <= j < k - 1 implies !s.drop_first()[j] by {
            assert(s.drop_first()[j] == s[j + 1]);
        }
        assert(s.drop_first()[k - 1] == s[k]);
        lemma_first_success_at(s.drop_first(), k - 1);
    }
}

proof fn lemma_first_success_none(s: Seq<bool>)
    requires
        forall|j: int| 0 <= j < s.len() ==> !s[j],
    ensures
        first_success_index(s) is None,
    decreases s.len(),
{
    if s.len() == 0 {
    } else {
        assert(!s[0]);
        assert forall|j: int| 0 <= j < s.drop_first().len() implies !s.drop_first()[j] by {
            assert(s.drop_first()[j] == s[j + 1]);
        }
        lemma_first_success_none(s.drop_first());
    }
}

/// Law: when the locator has stopped at a candidate, that candidate is
/// the first in list order whose probe succeeded — every earlier
/// candidate's probe failed, however the probes would have answered
/// further down the list.
pub proof fn lemma_locator_first_success(loc: Locator)
    requires
        loc.wf(),
        loc.found_spec(),
    ensures
        0 <= loc.cursor() < loc.paths_spec().len(),
        first_success_index(loc.probed()) == Some(loc.cursor()),
        forall|j: int| 0 <= j < loc.cursor() ==> !loc.probed()[j],
{
    lemma_first_success_at(loc.probed(), loc.cursor());
}

/// Law: when every candidate was probed and none succeeded, there is
/// no first success — the locator reports no candidate, and the status
/// check answers `false`.
pub proof fn lemma_locator_not_found(loc: Locator)
    requires
        loc.wf(),
        !loc.found_spec(),
        loc.probed().len() == loc.paths_spec().len(),
    ensures
        first_success_index(loc.probed()) is None,
{
    lemma_first_success_none(loc.probed());
}

} // verus!
