//! Probes: user-supplied, no-argument callables that a suspension unit
//! invokes once per poll. A boolean probe answers `true` when the awaited
//! condition holds; a value probe answers `Some` when the awaited
//! computation has produced a result.
//!
//! For specification, a probe carries a ghost sequence of the replies it
//! will give to future calls, oldest first; each call consumes the front
//! of that sequence. The scripted probes below realise exactly that model
//! and are what the crate's own tests drive the units with.

use vstd::prelude::*;

verus! {

/// A mutable, no-argument callable answering `true` when the awaited
/// condition holds. Each call consumes the front of `outcomes`.
pub trait BoolProbe {
    /// The replies this probe will give to future calls, oldest first.
    /// Unless an implementation says otherwise, no replies are modelled;
    /// probes meant for verified callers override this.
    open spec fn outcomes(&self) -> Seq<bool> {
        Seq::empty()
    }

    /// Ask the probe once whether the awaited condition holds.
    fn probe(&mut self) -> (r: bool)
        requires
            old(self).outcomes().len() > 0,
        ensures
            r == old(self).outcomes().first(),
            final(self).outcomes() == old(self).outcomes().drop_first(),
    ;
}

/// A mutable, no-argument callable answering `Some` when the awaited
/// computation has produced a result. Each call consumes the front of
/// `outcomes`.
pub trait ValueProbe {
    /// The type of the produced result.
    type Output;

    /// The replies this probe will give to future calls, oldest first.
    /// Unless an implementation says otherwise, no replies are modelled;
    /// probes meant for verified callers override this.
    open spec fn outcomes(&self) -> Seq<Option<Self::Output>> {
        Seq::empty()
    }

    /// Ask the probe once for the awaited result.
    fn probe(&mut self) -> (r: Option<Self::Output>)
        requires
            old(self).outcomes().len() > 0,
        ensures
            r == old(self).outcomes().first(),
            final(self).outcomes() == old(self).outcomes().drop_first(),
    ;
}

/// A boolean probe that answers from a fixed script, front to back.
pub struct ScriptedBoolProbe {
    script: Vec<bool>,
}

impl ScriptedBoolProbe {
    /// A probe whose future replies are exactly `script`, oldest first.
    pub fn new(script: Vec<bool>) -> (p: ScriptedBoolProbe)
        ensures
            p.outcomes() == script@,
    {
        ScriptedBoolProbe { script }
    }
}

impl BoolProbe for ScriptedBoolProbe {
    closed spec fn outcomes(&self) -> Seq<bool> {
        self.script@
    }

    fn probe(&mut self) -> (r: bool) {
        let r = self.script.remove(0);
        proof {
            assert(self.script@ =~= old(self).script@.drop_first());
        }
        r
    }
}

/// A value probe that answers from a fixed script, front to back.
pub struct ScriptedValueProbe<T> {
    script: Vec<Option<T>>,
}

impl<T> ScriptedValueProbe<T> {
    /// A probe whose future replies are exactly `script`, oldest first.
    pub fn new(script: Vec<Option<T>>) -> (p: ScriptedValueProbe<T>)
        ensures
            p.outcomes() == script@,
    {
        ScriptedValueProbe { script }
    }
}

impl<T> ValueProbe for ScriptedValueProbe<T> {
    type Output = T;

    closed spec fn outcomes(&self) -> Seq<Option<T>> {
        self.script@
    }

    fn probe(&mut self) -> (r: Option<T>) {
        let r = self.script.remove(0);
        proof {
            assert(self.script@ =~= old(self).script@.drop_first());
        }
        r
    }
}

/// Does some reply in `s` signal completion?
pub open spec fn has_true(s: Seq<bool>) -> bool {
    exists|i: int| 0 <= i < s.len() && s[i]
}

/// The index of the first completing reply in `s` (meaningful when
/// `has_true(s)`).
pub open spec fn first_true_index(s: Seq<bool>) -> int
    decreases s.len(),
{
    if s.len() == 0 {
        0
    } else if s.first() {
        0
    } else {
        1 + first_true_index(s.drop_first())
    }
}

/// `first_true_index` is what its name says: it lies inside the sequence,
/// the reply there completes, and every reply before it does not.
pub proof fn lemma_first_true_index(s: Seq<bool>)
    requires
        has_true(s),
    ensures
        0 <= first_true_index(s) < s.len(),
        s[first_true_index(s)],
        forall|j: int| 0 <= j < first_true_index(s) ==> !s[j],
    decreases s.len(),
{
    if !s.first() {
        let i = choose|i: int| 0 <= i < s.len() && s[i];
        assert(s.drop_first()[i - 1] == s[i]);
        assert(has_true(s.drop_first()));
        lemma_first_true_index(s.drop_first());
        let k = first_true_index(s.drop_first());
        assert(s[k + 1] == s.drop_first()[k]);
        assert forall|j: int| 0 <= j < k + 1 implies !s[j] by {
            if j > 0 {
                assert(s.drop_first()[j - 1] == s[j]);
            }
        }
    }
}

/// Does some reply in `s` carry a produced result?
pub open spec fn has_value<T>(s: Seq<Option<T>>) -> bool {
    exists|i: int| 0 <= i < s.len() && s[i] is Some
}

/// The index of the first reply in `s` that carries a result (meaningful
/// when `has_value(s)`).
pub open spec fn first_value_index<T>(s: Seq<Option<T>>) -> int
    decreases s.len(),
{
    if s.len() == 0 {
        0
    } else if s.first() is Some {
        0
    } else {
        1 + first_value_index(s.drop_first())
    }
}

/// `first_value_index` is what its name says: it lies inside the
/// sequence, the reply there carries a result, and every reply before it
/// does not.
pub proof fn lemma_first_value_index<T>(s: Seq<Option<T>>)
    requires
        has_value(s),
    ensures
        0 <= first_value_index(s) < s.len(),
        s[first_value_index(s)] is Some,
        forall|j: int| 0 <= j < first_value_index(s) ==> s[j] is None,
    decreases s.len(),
{
    if s.first() is None {
        let i = choose|i: int| 0 <= i < s.len() && s[i] is Some;
        assert(s.drop_first()[i - 1] == s[i]);
        assert(has_value(s.drop_first()));
        lemma_first_value_index(s.drop_first());
        let k = first_value_index(s.drop_first());
        assert(s[k + 1] == s.drop_first()[k]);
        assert forall|j: int| 0 <= j < k + 1 implies s[j] is None by {
            if j > 0 {
                assert(s.drop_first()[j - 1] == s[j]);
            }
        }
    }
}

/// A probe whose very first reply already completes has its first
/// completing reply at index 0; with `run`, such a unit completes on the
/// very first poll, after one probe invocation and no wake signal.
pub proof fn lemma_true_at_once(s: Seq<bool>)
    requires
        s.len() > 0,
        s.first(),
    ensures
        has_true(s),
        first_true_index(s) == 0,
{
    lemma_false_n_then_true(s, 0);
}

/// A probe whose very first reply already carries a result has its first
/// result-carrying reply at index 0; with `run_value`, such a unit
/// completes on the very first poll with that result, after one probe
/// invocation and no wake signal.
pub proof fn lemma_some_at_once<T>(s: Seq<Option<T>>)
    requires
        s.len() > 0,
        s.first() is Some,
    ensures
        has_value(s),
        first_value_index(s) == 0,
{
    lemma_none_n_then_some(s, 0);
}

/// A probe that answers `false` exactly `n` times and then `true` has its
/// first completing reply at index `n`; with `run`, such a unit completes
/// on poll `n + 1` after exactly `n` wake signals.
pub proof fn lemma_false_n_then_true(s: Seq<bool>, n: int)
    requires
        0 <= n < s.len(),
        forall|j: int| 0 <= j < n ==> !s[j],
        s[n],
    ensures
        has_true(s),
        first_true_index(s) == n,
    decreases n,
{
    if n == 0 {
        assert(s.first());
    } else {
        assert(!s.first());
        assert(s.drop_first()[n - 1] == s[n]);
        assert forall|j: int| 0 <= j < n - 1 implies !s.drop_first()[j] by {
            assert(s.drop_first()[j] == s[j + 1]);
        }
        lemma_false_n_then_true(s.drop_first(), n - 1);
    }
}

/// A probe that answers `None` exactly `n` times and then `Some` has its
/// first result-carrying reply at index `n`; with `run_value`, such a
/// unit completes on poll `n + 1` with that result, after exactly `n`
/// wake signals.
pub proof fn lemma_none_n_then_some<T>(s: Seq<Option<T>>, n: int)
    requires
        0 <= n < s.len(),
        forall|j: int| 0 <= j < n ==> s[j] is None,
        s[n] is Some,
    ensures
        has_value(s),
        first_value_index(s) == n,
    decreases n,
{
    if n == 0 {
        assert(s.first() is Some);
    } else {
        assert(s.first() is None);
        assert(s.drop_first()[n - 1] == s[n]);
        assert forall|j: int| 0 <= j < n - 1 implies s.drop_first()[j] is None by {
            assert(s.drop_first()[j] == s[j + 1]);
        }
        lemma_none_n_then_some(s.drop_first(), n - 1);
    }
}

} // verus!
