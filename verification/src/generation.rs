//! The generations of one module's code: which one serves new calls, which
//! ones are retiring, and how many calls each still has in flight.

use crate::assoc::{
    assoc, is_first, lemma_assoc_absent, lemma_assoc_first, lemma_assoc_push, lemma_assoc_update,
    lemma_assoc_without, without,
};
use vstd::prelude::*;

verus! {

/// What the reloader reports while it swaps a module's code.
#[derive(Clone, Copy, Debug, PartialEq, Eq, Structural)]
pub enum ReloadSignal {
    /// The code is about to be replaced.
    Before,
    /// The code was replaced: the new generation is attached.
    After(u64),
    /// The new code could not be loaded.
    Failed,
}

/// Where a call that was let in is to go.
#[derive(Clone, Copy, Debug, PartialEq, Eq, Structural)]
pub enum Admission {
    /// Call the entry point of this generation.
    Call(u64),
    /// A swap is under way, or the generation has no room for one more call:
    /// ask again.
    Wait,
}

/// The state of a module's generations.
pub struct Lifecycle {
    /// The generation that serves new calls.
    pub current: Option<u64>,
    /// Whether a swap was announced and has neither completed nor failed.
    pub swapping: bool,
    /// The generations that are held, each with the number of its calls in
    /// flight. A held generation other than the current one is retiring.
    pub calls: Map<u64, nat>,
}

/// The most calls that one generation can have in flight.
pub open spec fn call_limit() -> nat {
    u64::MAX as nat
}

impl Lifecycle {
    /// No generation was ever installed.
    pub open spec fn empty() -> Lifecycle {
        Lifecycle { current: None, swapping: false, calls: Map::empty() }
    }

    /// The calls that `id` has in flight: none where it is not held.
    pub open spec fn in_flight(self, id: u64) -> nat {
        if self.calls.contains_key(id) {
            self.calls[id]
        } else {
            0
        }
    }

    /// Whether `id` was told to retire: it is held, and is not the current one.
    pub open spec fn retiring(self, id: u64) -> bool {
        self.calls.contains_key(id) && self.current != Some(id)
    }

    /// Whether the current generation, if there is one, is held.
    pub open spec fn held_current(self) -> bool {
        self.current matches Some(id) ==> self.calls.contains_key(id)
    }

    /// Whether some generation has been installed.
    pub open spec fn loaded(self) -> bool {
        self.current is Some
    }

    /// After `id` was installed: it serves new calls, the generation that did
    /// so before is retiring, and no swap is under way.
    pub open spec fn installed(self, id: u64) -> Lifecycle {
        Lifecycle {
            current: Some(id),
            swapping: false,
            calls: if self.calls.contains_key(id) {
                self.calls
            } else {
                self.calls.insert(id, 0)
            },
        }
    }

    /// After a signal of the reloader. A swap that fails leaves the current
    /// generation in place.
    pub open spec fn signalled(self, signal: ReloadSignal) -> Lifecycle {
        match signal {
            ReloadSignal::Before => Lifecycle { swapping: true, ..self },
            ReloadSignal::After(id) => self.installed(id),
            ReloadSignal::Failed => Lifecycle { swapping: false, ..self },
        }
    }

    /// Where a new call is to go: nowhere where nothing is installed; else to
    /// the current generation, unless a swap is under way or the generation is
    /// at its limit.
    pub open spec fn entry(self) -> Option<Admission> {
        match self.current {
            None => None,
            Some(id) => if self.swapping || self.in_flight(id) >= call_limit() {
                Some(Admission::Wait)
            } else {
                Some(Admission::Call(id))
            },
        }
    }

    /// After a call entered generation `id`.
    pub open spec fn entered(self, id: u64) -> Lifecycle {
        Lifecycle { calls: self.calls.insert(id, self.in_flight(id) + 1), ..self }
    }

    /// After a new call asked to be let in.
    pub open spec fn admitted(self) -> Lifecycle {
        match self.entry() {
            Some(Admission::Call(id)) => self.entered(id),
            _ => self,
        }
    }

    /// After a call left generation `id`.
    pub open spec fn left(self, id: u64) -> Lifecycle {
        if self.in_flight(id) > 0 {
            Lifecycle { calls: self.calls.insert(id, (self.in_flight(id) - 1) as nat), ..self }
        } else {
            self
        }
    }

    /// After a swap came to its end: with the generation that was loaded in
    /// place where one was, else with the current one left in place; and
    /// without the generation that served before, where it is quiescent.
    pub open spec fn swapped(self, fresh: Option<u64>) -> Lifecycle {
        match fresh {
            Some(id) => match self.current {
                Some(stale) => self.installed(id).retired(stale),
                None => self.installed(id),
            },
            None => self.signalled(ReloadSignal::Failed),
        }
    }

    /// The generation that the end of a swap discards: the one that served
    /// before, where another was loaded in its place and it is quiescent.
    pub open spec fn swept(self, fresh: Option<u64>) -> Option<u64> {
        match (fresh, self.current) {
            (Some(id), Some(stale)) => if self.installed(id).quiescent(stale) {
                Some(stale)
            } else {
                None
            },
            _ => None,
        }
    }

    /// Whether `id` can be discarded: it is retiring and quiescent.
    pub open spec fn quiescent(self, id: u64) -> bool {
        self.retiring(id) && self.in_flight(id) == 0
    }

    /// After generation `id` was asked to be discarded: it goes where it is
    /// quiescent, and stays otherwise.
    pub open spec fn retired(self, id: u64) -> Lifecycle {
        if self.quiescent(id) {
            Lifecycle { calls: self.calls.remove(id), ..self }
        } else {
            self
        }
    }
}

/// A module that has loaded once stays loaded: no signal, no call that
/// enters or leaves and no retirement takes the current generation away, and
/// the current generation stays held.
pub proof fn law_loaded_stays_loaded(s: Lifecycle, signal: ReloadSignal, id: u64)
    ensures
        s.loaded() ==> s.signalled(signal).loaded(),
        s.loaded() ==> s.admitted().loaded() && s.admitted().current == s.current,
        s.loaded() ==> s.left(id).loaded() && s.left(id).current == s.current,
        s.loaded() ==> s.retired(id).loaded() && s.retired(id).current == s.current,
        s.held_current() ==> s.signalled(signal).held_current(),
        s.held_current() ==> s.admitted().held_current(),
        s.held_current() ==> s.left(id).held_current(),
        s.held_current() ==> s.retired(id).held_current(),
        Lifecycle::empty().held_current(),
{
}

/// A reload that fails does not disable the module: after the announcement of
/// a swap and its failure the generation that served before still serves, and
/// a new call is let in to it as it would have been without the swap.
pub proof fn law_failed_reload_keeps_serving(s: Lifecycle, good: u64)
    requires
        s.current == Some(good),
        !s.swapping,
    ensures
        s.signalled(ReloadSignal::Before).signalled(ReloadSignal::Failed) == s,
        s.signalled(ReloadSignal::Before).signalled(ReloadSignal::Failed).entry() is Some,
        s.in_flight(good) < call_limit() ==> s.signalled(ReloadSignal::Before).signalled(
            ReloadSignal::Failed,
        ).entry() == Some(Admission::Call(good)),
{
}

/// A swap preserves availability. While it is under way a new call is told to
/// wait, and is not refused; the calls in flight stay counted on the
/// generation they entered. Once the new generation is installed, new calls
/// go to it or wait, and the old generation is retiring.
pub proof fn law_swap_preserves_availability(s: Lifecycle, stale: u64, fresh: u64)
    requires
        s.current == Some(stale),
    ensures
        s.signalled(ReloadSignal::Before).entry() == Some(Admission::Wait),
        s.signalled(ReloadSignal::Before).admitted() == s.signalled(ReloadSignal::Before),
        s.signalled(ReloadSignal::Before).calls == s.calls,
        ({
            let swapped = s.signalled(ReloadSignal::Before).signalled(ReloadSignal::After(fresh));
            &&& swapped.current == Some(fresh)
            &&& !swapped.swapping
            &&& swapped.entry() == Some(Admission::Wait) || swapped.entry() == Some(
                Admission::Call(fresh),
            )
            &&& swapped.in_flight(stale) == s.in_flight(stale)
            &&& fresh != stale && s.calls.contains_key(stale) ==> swapped.retiring(stale)
        }),
{
}

/// No call is served by a generation that was told to retire: a call that is
/// let in goes to the current generation, and letting a call in leaves the
/// count of every retiring generation as it was.
pub proof fn law_retiring_takes_no_call(s: Lifecycle, id: u64)
    ensures
        s.entry() matches Some(Admission::Call(to)) ==> s.current == Some(to) && !s.retiring(to),
        s.retiring(id) ==> s.admitted().in_flight(id) == s.in_flight(id) && s.admitted().retiring(
            id,
        ),
{
}

/// A generation is discarded only once it is safe: not while it is the
/// current one, and not while a call is in flight on it. Discarding it leaves
/// every other generation as it was.
pub proof fn law_retire_waits_for_quiescence(s: Lifecycle, id: u64, other: u64)
    ensures
        s.current == Some(id) ==> s.retired(id) == s,
        s.in_flight(id) > 0 ==> s.retired(id) == s,
        s.quiescent(id) ==> !s.retired(id).calls.contains_key(id),
        other != id ==> s.retired(id).in_flight(other) == s.in_flight(other) && s.retired(
            id,
        ).calls.contains_key(other) == s.calls.contains_key(other),
        s.retired(id).current == s.current,
{
}

/// The end of a swap never leaves a loaded module without a generation, and
/// discards nothing that has a call in flight or serves new calls.
pub proof fn law_swap_keeps_what_is_in_use(s: Lifecycle, fresh: Option<u64>, id: u64)
    ensures
        s.loaded() ==> s.swapped(fresh).loaded(),
        fresh matches Some(new) ==> s.swapped(fresh).current == Some(new),
        fresh is None ==> s.swapped(fresh).current == s.current && s.swapped(fresh).calls
            == s.calls,
        s.swept(fresh) matches Some(gone) ==> s.in_flight(gone) == 0 && s.current == Some(gone)
            && fresh != Some(gone) && !s.swapped(fresh).calls.contains_key(gone),
        s.in_flight(id) > 0 ==> s.swapped(fresh).in_flight(id) == s.in_flight(id),
        !s.swapped(fresh).swapping,
{
}

/// A call that entered and left leaves the count as it was.
pub proof fn law_enter_then_leave(s: Lifecycle, id: u64)
    requires
        s.entry() == Some(Admission::Call(id)),
    ensures
        s.admitted().left(id).in_flight(id) == s.in_flight(id),
        s.admitted().in_flight(id) == s.in_flight(id) + 1,
{
}

/// The generations of one module.
pub struct Generations {
    current: Option<u64>,
    swapping: bool,
    held: Vec<(u64, u64)>,
}

/// The in-flight counts of a list of held generations.
pub open spec fn counts(held: Seq<(u64, u64)>) -> Seq<(u64, nat)> {
    Seq::new(held.len(), |i: int| (held[i].0, held[i].1 as nat))
}

/// The position of the first pair of `held` for generation `id`.
fn position(held: &Vec<(u64, u64)>, id: u64) -> (r: Option<usize>)
    ensures
        match r {
            Some(i) => {
                &&& i < held@.len()
                &&& held@[i as int].0 == id
                &&& is_first(counts(held@), id, i as int)
                &&& assoc(counts(held@)).contains_key(id)
                &&& assoc(counts(held@))[id] == held@[i as int].1
            },
            None => !assoc(counts(held@)).contains_key(id),
        },
{
    let mut i: usize = 0;
    while i < held.len()
        invariant
            i <= held@.len(),
            forall|j: int| 0 <= j < i ==> (#[trigger] counts(held@)[j]).0 != id,
        decreases held@.len() - i,
    {
        if held[i].0 == id {
            proof {
                lemma_assoc_first(counts(held@), id, i as int);
            }
            return Some(i);
        }
        i = i + 1;
    }
    proof {
        lemma_assoc_absent(counts(held@), id);
    }
    None
}

impl View for Generations {
    type V = Lifecycle;

    closed spec fn view(&self) -> Lifecycle {
        Lifecycle {
            current: self.current,
            swapping: self.swapping,
            calls: assoc(counts(self.held@)),
        }
    }
}

impl Generations {
    /// The generations of a module of which no code was loaded yet.
    pub fn new() -> (r: Generations)
        ensures
            r@ == Lifecycle::empty(),
    {
        let r = Generations { current: None, swapping: false, held: Vec::new() };
        proof {
            assert(counts(r.held@) =~= Seq::empty());
        }
        r
    }

    /// The generation that serves new calls.
    pub fn current(&self) -> (r: Option<u64>)
        ensures
            r == self@.current,
    {
        self.current
    }

    /// Whether a swap is under way.
    pub fn swapping(&self) -> (r: bool)
        ensures
            r == self@.swapping,
    {
        self.swapping
    }

    /// The calls that generation `id` has in flight.
    pub fn in_flight(&self, id: u64) -> (r: u64)
        ensures
            r == self@.in_flight(id),
    {
        match position(&self.held, id) {
            Some(i) => self.held[i].1,
            None => 0,
        }
    }

    /// Whether generation `id` was told to retire.
    pub fn retiring(&self, id: u64) -> (r: bool)
        ensures
            r == self@.retiring(id),
    {
        let held = position(&self.held, id).is_some();
        let serving = match self.current {
            Some(c) => c == id,
            None => false,
        };
        held && !serving
    }

    /// Installs generation `id`: it serves the calls that come from now on.
    pub fn add_generation(&mut self, id: u64)
        ensures
            final(self)@ == old(self)@.installed(id),
    {
        if position(&self.held, id).is_none() {
            let ghost before = counts(self.held@);
            self.held.push((id, 0));
            proof {
                assert(counts(self.held@) =~= before.push((id, 0nat)));
                lemma_assoc_push(before, id, 0nat);
            }
        }
        self.current = Some(id);
        self.swapping = false;
    }

    /// Takes a signal of the reloader.
    pub fn reload_callback(&mut self, signal: ReloadSignal)
        ensures
            final(self)@ == old(self)@.signalled(signal),
    {
        match signal {
            ReloadSignal::Before => {
                self.swapping = true;
            },
            ReloadSignal::After(id) => {
                self.add_generation(id);
            },
            ReloadSignal::Failed => {
                self.swapping = false;
            },
        }
    }

    /// Ends a swap: installs the generation that was loaded, or leaves the
    /// current one in place where none was; and discards the generation that
    /// served before as soon as it is quiescent. Gives the generation that it
    /// discarded.
    pub fn swap(&mut self, fresh: Option<u64>) -> (r: Option<u64>)
        ensures
            final(self)@ == old(self)@.swapped(fresh),
            r == old(self)@.swept(fresh),
    {
        match fresh {
            None => {
                self.reload_callback(ReloadSignal::Failed);
                None
            },
            Some(id) => {
                let stale = self.current;
                self.add_generation(id);
                match stale {
                    Some(old) => if self.retire_generation(old) {
                        Some(old)
                    } else {
                        None
                    },
                    None => None,
                }
            },
        }
    }

    /// Notes that a call left generation `id`, and discards the generation
    /// where that made it quiescent. Says whether it discarded it.
    pub fn finish(&mut self, id: u64) -> (r: bool)
        ensures
            final(self)@ == old(self)@.left(id).retired(id),
            r == old(self)@.left(id).quiescent(id),
    {
        if self.leave(id) {
            self.retire_generation(id)
        } else {
            false
        }
    }

    /// Lets a new call in, where one can go, and says where.
    pub fn enter(&mut self) -> (r: Option<Admission>)
        ensures
            r == old(self)@.entry(),
            final(self)@ == old(self)@.admitted(),
    {
        let id = match self.current {
            None => {
                return None;
            },
            Some(id) => id,
        };
        if self.swapping {
            return Some(Admission::Wait);
        }
        match position(&self.held, id) {
            Some(i) => {
                let n = self.held[i].1;
                if n == u64::MAX {
                    return Some(Admission::Wait);
                }
                let ghost before = counts(self.held@);
                self.held.set(i, (id, n + 1));
                proof {
                    assert(counts(self.held@) =~= before.update(i as int, (id, (n + 1) as nat)));
                    lemma_assoc_update(before, id, i as int, (n + 1) as nat);
                }
            },
            None => {
                let ghost before = counts(self.held@);
                self.held.push((id, 1));
                proof {
                    assert(counts(self.held@) =~= before.push((id, 1nat)));
                    lemma_assoc_push(before, id, 1nat);
                    assert(assoc(before).insert(id, 1nat) =~= old(self)@.calls.insert(id, 1nat));
                }
            },
        }
        Some(Admission::Call(id))
    }

    /// Notes that a call left generation `id`, and says whether the generation
    /// is now quiescent: retiring, with no call in flight.
    pub fn leave(&mut self, id: u64) -> (r: bool)
        ensures
            final(self)@ == old(self)@.left(id),
            r == final(self)@.quiescent(id),
    {
        match position(&self.held, id) {
            Some(i) => {
                let n = self.held[i].1;
                if n > 0 {
                    let ghost before = counts(self.held@);
                    self.held.set(i, (id, n - 1));
                    proof {
                        assert(counts(self.held@) =~= before.update(
                            i as int,
                            (id, (n - 1) as nat),
                        ));
                        lemma_assoc_update(before, id, i as int, (n - 1) as nat);
                    }
                }
            },
            None => {},
        }
        self.retiring(id) && self.in_flight(id) == 0
    }

    /// Discards generation `id` where it is quiescent, and says whether it did.
    pub fn retire_generation(&mut self, id: u64) -> (r: bool)
        ensures
            r == old(self)@.quiescent(id),
            final(self)@ == old(self)@.retired(id),
    {
        if !(self.retiring(id) && self.in_flight(id) == 0) {
            return false;
        }
        let mut kept: Vec<(u64, u64)> = Vec::new();
        let mut i: usize = 0;
        proof {
            assert(self.held@.take(0) =~= Seq::empty());
            assert(counts(kept@) =~= without(counts(self.held@.take(0)), id));
        }
        while i < self.held.len()
            invariant
                i <= self.held@.len(),
                counts(kept@) == without(counts(self.held@.take(i as int)), id),
            decreases self.held@.len() - i,
        {
            let ghost before = counts(kept@);
            proof {
                assert(counts(self.held@.take(i as int + 1)).drop_last() =~= counts(
                    self.held@.take(i as int),
                ));
            }
            if self.held[i].0 != id {
                kept.push(self.held[i]);
                proof {
                    assert(counts(kept@) =~= before.push(counts(self.held@)[i as int]));
                }
            }
            i = i + 1;
        }
        proof {
            assert(self.held@.take(self.held@.len() as int) =~= self.held@);
            lemma_assoc_without(counts(self.held@), id);
        }
        self.held = kept;
        true
    }
}

} // verus!
