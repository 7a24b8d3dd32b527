//! Selection logic of the launcher's entry list: the saved list state, the choice of
//! emulator core, and jumps between groups of entries that share an initial.
use vstd::prelude::*;

verus! {

/// The saved state of a list and of the list opened from it, if any.
#[derive(Debug)]
pub struct EntryListState<S> {
    pub sort: S,
    pub selected: usize,
    pub child: Option<Box<EntryListState<S>>>,
}

/// The core a game is about to launch with, among those its console offers.
#[derive(Debug)]
pub struct CoreSelection {
    core: usize,
    cores: Vec<String>,
}

impl CoreSelection {
    pub closed spec fn spec_core(&self) -> int {
        self.core as int
    }

    pub closed spec fn spec_count(&self) -> int {
        self.cores@.len() as int
    }

    pub closed spec fn spec_cores(&self) -> Seq<String> {
        self.cores@
    }

    pub open spec fn wf(&self) -> bool {
        0 <= self.spec_core() < self.spec_count() && self.spec_count() == self.spec_cores().len()
    }

    /// Offers `cores`, with the one at `core` chosen.
    pub fn new(core: usize, cores: Vec<String>) -> (r: CoreSelection)
        requires
            core < cores@.len(),
        ensures
            r.wf(),
            r.spec_core() == core,
            r.spec_count() == cores@.len(),
            r.spec_cores() == cores@,
    {
        CoreSelection { core, cores }
    }

    /// Index of the chosen core.
    pub fn selected(&self) -> (r: usize)
        ensures
            r == self.spec_core(),
    {
        self.core
    }

    /// Name of the chosen core.
    pub fn core_name(&self) -> (r: &String)
        requires
            self.wf(),
        ensures
            *r == self.spec_cores()[self.spec_core()],
    {
        &self.cores[self.core]
    }

    /// Chooses the previous core, staying on the first.
    pub fn select_previous(&mut self)
        requires
            old(self).wf(),
        ensures
            final(self).wf(),
            final(self).spec_count() == old(self).spec_count(),
            final(self).spec_cores() == old(self).spec_cores(),
            final(self).spec_core() == if old(self).spec_core() == 0 { 0 } else { old(self).spec_core() - 1 },
    {
        self.core = self.core.saturating_sub(1);
    }

    /// Chooses the next core, staying on the last.
    pub fn select_next(&mut self)
        requires
            old(self).wf(),
        ensures
            final(self).wf(),
            final(self).spec_count() == old(self).spec_count(),
            final(self).spec_cores() == old(self).spec_cores(),
            final(self).spec_core() == if old(self).spec_core() + 1 < old(self).spec_count() {
                old(self).spec_core() + 1
            } else {
                old(self).spec_core()
            },
    {
        if self.core < self.cores.len() - 1 {
            self.core = self.core + 1;
        }
    }
}

/// Whether `r` is where a forward jump from `selected` lands, given each entry's
/// initial: the first entry after `selected` whose initial differs from that of
/// `selected`, or the last entry when there is none.
pub open spec fn is_group_start_after(initials: Seq<Option<char>>, selected: int, r: int) -> bool {
    let n = initials.len() as int;
    ||| (selected < r < n && initials[r] != initials[selected]
        && forall|k: int| selected < k < r ==> #[trigger] initials[k] == initials[selected])
    ||| (r == n - 1 && forall|k: int| selected < k < n ==> #[trigger] initials[k] == initials[selected])
}

/// Whether `r` is where a backward jump from `selected` lands, given each entry's
/// initial: the first entry of the group of equal initials that holds the entry before
/// `selected`, or the start of the list when `selected` is the start.
pub open spec fn is_group_start_before(initials: Seq<Option<char>>, selected: int, r: int) -> bool {
    if selected <= 0 {
        r == 0
    } else {
        &&& 0 <= r <= selected - 1
        &&& forall|k: int| r <= k < selected - 1 ==> #[trigger] initials[k] == initials[selected - 1]
        &&& r == 0 || initials[r - 1] != initials[selected - 1]
    }
}

/// Selection after jumping back one group: see `is_group_start_before`.
pub fn jump_back(initials: &Vec<Option<char>>, selected: usize) -> (r: usize)
    requires
        selected <= initials@.len(),
    ensures
        is_group_start_before(initials@, selected as int, r as int),
{
    if selected == 0 {
        return 0;
    }
    let c = initials[selected - 1];
    let mut i: usize = selected - 1;
    while i > 0
        invariant
            0 <= i <= selected - 1,
            selected <= initials@.len(),
            c == initials@[selected - 1],
            forall|k: int| i <= k < selected - 1 ==> #[trigger] initials@[k] == c,
        decreases i,
    {
        if initials[i - 1] != c {
            return i;
        }
        i -= 1;
    }
    0
}

/// Selection after jumping forward one group: see `is_group_start_after`.
pub fn jump_forward(initials: &Vec<Option<char>>, selected: usize) -> (r: usize)
    requires
        initials@.len() > 0,
    ensures
        is_group_start_after(initials@, selected as int, r as int),
{
    let n = initials.len();
    if selected >= n {
        return n - 1;
    }
    let c = initials[selected];
    let mut i: usize = selected + 1;
    while i < n
        invariant
            selected < i <= n,
            n == initials@.len(),
            c == initials@[selected as int],
            forall|k: int| selected < k < i ==> #[trigger] initials@[k] == c,
        decreases n - i,
    {
        if initials[i] != c {
            return i;
        }
        i += 1;
    }
    n - 1
}

} // verus!
