use std::collections::HashMap;
use vstd::prelude::*;
use vstd::std_specs::iter::IteratorSpec;

use crate::mode::CtrlMode;

verus! {

broadcast use vstd::std_specs::hash::group_hash_axioms;

/// Identifies one control of the overlay.
#[derive(Clone, Copy, Debug, PartialEq, Eq, Structural, Hash)]
pub struct CtrlId(pub usize);

impl From<usize> for CtrlId {
    fn from(n: usize) -> (r: CtrlId)
        ensures
            r.0 == n,
    {
        CtrlId(n)
    }
}

impl vstd::std_specs::convert::FromSpecImpl<usize> for CtrlId {
    open spec fn obeys_from_spec() -> bool {
        true
    }

    open spec fn from_spec(n: usize) -> CtrlId {
        CtrlId(n)
    }
}

/// What one control keeps between frames: its value, the value a reset
/// brings back, its mode, and whether an edit still waits for the mode's
/// function.
#[derive(Clone, Copy, Debug)]
pub struct CtrlState<V> {
    pub is_changed: bool,
    pub mode: CtrlMode,
    pub default_value: V,
    pub value: V,
}

/// A fresh control: its value is the default, in `Normal` mode, with no edit
/// pending.
pub open spec fn fresh<V>(default_value: V) -> CtrlState<V> {
    CtrlState { is_changed: false, mode: CtrlMode::Normal, default_value, value: default_value }
}

impl<V: Copy> CtrlState<V> {
    pub fn new(default_value: V) -> (r: Self)
        ensures
            r == fresh(default_value),
    {
        CtrlState { is_changed: false, mode: CtrlMode::Normal, default_value, value: default_value }
    }

    /// Puts the default value back.
    pub fn reset_value(&mut self)
        ensures
            *final(self) == (CtrlState { value: old(self).default_value, ..*old(self) }),
    {
        self.value = self.default_value;
    }
}

/// A control with its default value back.
pub open spec fn value_reset<V>(s: CtrlState<V>) -> CtrlState<V> {
    CtrlState { value: s.default_value, ..s }
}

/// A control back in `Normal` mode.
pub open spec fn mode_reset<V>(s: CtrlState<V>) -> CtrlState<V> {
    CtrlState { mode: CtrlMode::Normal, ..s }
}

/// A control after the shared angle moved to `theta`: one in `Normal` mode
/// keeps its value; any other takes `theta` as a pending edit.
pub open spec fn theta_applied<V>(s: CtrlState<V>, theta: V) -> CtrlState<V> {
    if s.mode == CtrlMode::Normal {
        s
    } else {
        CtrlState { value: theta, is_changed: true, ..s }
    }
}

/// A control whose widget left `v` in its value.
pub open spec fn edited<V>(s: CtrlState<V>, v: V) -> CtrlState<V> {
    CtrlState { value: v, ..s }
}

/// A control whose pending edit was passed through its mode, giving `v`.
pub open spec fn settled<V>(s: CtrlState<V>, v: V) -> CtrlState<V> {
    CtrlState { value: v, is_changed: false, ..s }
}

/// A control switched to mode `m`.
pub open spec fn with_mode<V>(s: CtrlState<V>, m: CtrlMode) -> CtrlState<V> {
    CtrlState { mode: m, ..s }
}

/// A change made to every control at once.
enum Sweep<V> {
    Values,
    Modes,
    Theta(V),
}

spec fn swept<V>(op: Sweep<V>, s: CtrlState<V>) -> CtrlState<V> {
    match op {
        Sweep::Values => value_reset(s),
        Sweep::Modes => mode_reset(s),
        Sweep::Theta(t) => theta_applied(s, t),
    }
}

fn sweep_one<V: Copy>(op: &Sweep<V>, s: CtrlState<V>) -> (r: CtrlState<V>)
    ensures
        r == swept(*op, s),
{
    match op {
        Sweep::Values => CtrlState { value: s.default_value, ..s },
        Sweep::Modes => CtrlState { mode: CtrlMode::Normal, ..s },
        Sweep::Theta(t) => {
            if s.mode.is_normal() {
                s
            } else {
                CtrlState { value: *t, is_changed: true, ..s }
            }
        },
    }
}

/// The states of all controls seen so far, by id.
pub struct CtrlsState<V> {
    states: HashMap<usize, CtrlState<V>>,
}

impl<V> View for CtrlsState<V> {
    type V = Map<usize, CtrlState<V>>;

    closed spec fn view(&self) -> Map<usize, CtrlState<V>> {
        self.states@
    }
}

impl<V: Copy> Default for CtrlsState<V> {
    fn default() -> (r: Self)
        ensures
            r@ == Map::<usize, CtrlState<V>>::empty(),
    {
        CtrlsState::new()
    }
}

impl<V: Copy> CtrlsState<V> {
    /// No control yet.
    pub fn new() -> (r: Self)
        ensures
            r@ == Map::<usize, CtrlState<V>>::empty(),
    {
        CtrlsState { states: HashMap::new() }
    }

    pub fn contains(&self, id: CtrlId) -> (r: bool)
        ensures
            r == self@.contains_key(id.0),
    {
        self.states.contains_key(&id.0)
    }

    /// A copy of the control's state, if it was registered.
    pub fn get(&self, id: CtrlId) -> (r: Option<CtrlState<V>>)
        ensures
            r == (if self@.contains_key(id.0) {
                Some(self@[id.0])
            } else {
                None
            }),
    {
        match self.states.get(&id.0) {
            Some(s) => Some(*s),
            None => None,
        }
    }

    /// Makes sure the control exists: a new one starts fresh at
    /// `default_value`; a known one is left as it is.
    pub fn register(&mut self, id: CtrlId, default_value: V)
        ensures
            final(self)@ == (if old(self)@.contains_key(id.0) {
                old(self)@
            } else {
                old(self)@.insert(id.0, fresh(default_value))
            }),
    {
        if !self.states.contains_key(&id.0) {
            self.states.insert(id.0, CtrlState::new(default_value));
        }
    }

    /// Forgets every control: each starts afresh when next registered.
    pub fn reset_all(&mut self)
        ensures
            final(self)@ == Map::<usize, CtrlState<V>>::empty(),
    {
        self.states = HashMap::new();
    }

    /// Puts every control's default value back.
    pub fn reset_values(&mut self)
        ensures
            final(self)@.dom() == old(self)@.dom(),
            forall|k: usize| #[trigger]
                final(self)@.contains_key(k) ==> final(self)@[k] == value_reset(old(self)@[k]),
    {
        self.sweep(Sweep::Values);
    }

    /// Puts every control back in `Normal` mode.
    pub fn reset_modes(&mut self)
        ensures
            final(self)@.dom() == old(self)@.dom(),
            forall|k: usize| #[trigger]
                final(self)@.contains_key(k) ==> final(self)@[k] == mode_reset(old(self)@[k]),
    {
        self.sweep(Sweep::Modes);
    }

    /// Hands the shared angle to every control that is not in `Normal` mode,
    /// as an edit that its mode's function is still to see.
    pub fn apply_theta(&mut self, theta: V)
        ensures
            final(self)@.dom() == old(self)@.dom(),
            forall|k: usize| #[trigger]
                final(self)@.contains_key(k) ==> final(self)@[k] == theta_applied(
                    old(self)@[k],
                    theta,
                ),
    {
        self.sweep(Sweep::Theta(theta));
    }

    /// Switches a known control to mode `m`; an unknown id changes nothing.
    pub fn set_mode(&mut self, id: CtrlId, m: CtrlMode)
        ensures
            final(self)@ == (if old(self)@.contains_key(id.0) {
                old(self)@.insert(id.0, with_mode(old(self)@[id.0], m))
            } else {
                old(self)@
            }),
    {
        match self.states.get(&id.0) {
            Some(s) => {
                let t = CtrlState { mode: m, ..*s };
                self.states.insert(id.0, t);
            },
            None => {},
        }
    }

    /// Ends one frame of a control. `edited` is what its widget left in the
    /// value and `changed` says whether the user touched it. An edit, new or
    /// still pending, goes through `run` with the control's mode and the flag
    /// is cleared. Returns the value the control now holds.
    pub fn settle<F: Fn(CtrlMode, V) -> V>(
        &mut self,
        id: CtrlId,
        edited_value: V,
        changed: bool,
        run: F,
    ) -> (r: V)
        requires
            old(self)@.contains_key(id.0),
            forall|m: CtrlMode, v: V| #[trigger] run.requires((m, v)),
        ensures
            ({
                let s = old(self)@[id.0];
                if changed || s.is_changed {
                    &&& run.ensures((s.mode, edited_value), r)
                    &&& final(self)@ == old(self)@.insert(id.0, settled(s, r))
                } else {
                    &&& r == edited_value
                    &&& final(self)@ == old(self)@.insert(id.0, edited(s, edited_value))
                }
            }),
    {
        let s = match self.states.get(&id.0) {
            Some(s) => *s,
            None => CtrlState::new(edited_value),
        };
        if changed || s.is_changed {
            let v = run(s.mode, edited_value);
            self.states.insert(id.0, CtrlState { value: v, is_changed: false, ..s });
            v
        } else {
            self.states.insert(id.0, CtrlState { value: edited_value, ..s });
            edited_value
        }
    }

    fn sweep(&mut self, op: Sweep<V>)
        ensures
            final(self)@.dom() == old(self)@.dom(),
            forall|k: usize| #[trigger]
                final(self)@.contains_key(k) ==> final(self)@[k] == swept(op, old(self)@[k]),
    {
        let ids = self.ids();
        let ghost before = self@;
        let mut i: usize = 0;
        while i < ids.len()
            invariant
                0 <= i <= ids.len(),
                ids@.to_set() == before.dom(),
                ids@.no_duplicates(),
                self@.dom() == before.dom(),
                forall|k: usize| #[trigger]
                    self@.contains_key(k) ==> self@[k] == (if ids@.subrange(0, i as int).contains(
                        k,
                    ) {
                        swept(op, before[k])
                    } else {
                        before[k]
                    }),
            decreases ids.len() - i,
        {
            let k = ids[i];
            assert(ids@.to_set().contains(k));
            assert(!ids@.subrange(0, i as int).contains(k)) by {
                if ids@.subrange(0, i as int).contains(k) {
                    let pre = ids@.subrange(0, i as int);
                    let j = choose|j: int| 0 <= j < pre.len() && #[trigger] pre[j] == k;
                    assert(ids@[j] == ids@[i as int]);
                }
            }
            match self.states.get(&k) {
                Some(s) => {
                    let t = sweep_one(&op, *s);
                    self.states.insert(k, t);
                },
                None => {},
            }
            let ghost pre = ids@.subrange(0, i as int);
            let ghost post = ids@.subrange(0, i + 1);
            assert forall|q: usize| #[trigger]
                post.contains(q) <==> (pre.contains(q) || q == k) by {
                if post.contains(q) {
                    let j = choose|j: int| 0 <= j < post.len() && #[trigger] post[j] == q;
                    if j < i {
                        assert(pre[j] == q);
                    }
                }
                if pre.contains(q) {
                    let j = choose|j: int| 0 <= j < pre.len() && #[trigger] pre[j] == q;
                    assert(post[j] == q);
                }
                if q == k {
                    assert(post[i as int] == q);
                }
            }
            i += 1;
        }
        assert(ids@.subrange(0, ids.len() as int) =~= ids@);
        assert forall|k: usize| #[trigger] self@.contains_key(k) implies ids@.contains(k) by {
            assert(ids@.to_set().contains(k));
        }
    }

    /// The ids of all controls, each once.
    fn ids(&self) -> (r: Vec<usize>)
        ensures
            r@.to_set() == self@.dom(),
            r@.no_duplicates(),
    {
        let mut r: Vec<usize> = Vec::new();
        for k in it: self.states.keys()
            invariant
                r.len() == it.index(),
                forall|j: int| 0 <= j < r.len() ==> r@[j] == *it.seq()[j],
        {
            r.push(*k);
        }
        assert(r@ =~= self.states.keys().remaining().unref());
        r
    }
}

/// Putting defaults back and putting modes back touch different fields:
/// either order gives the same control, and doing either twice is doing it
/// once.
pub proof fn lemma_resets_commute<V>(s: CtrlState<V>)
    ensures
        value_reset(mode_reset(s)) == mode_reset(value_reset(s)),
        value_reset(value_reset(s)) == value_reset(s),
        mode_reset(mode_reset(s)) == mode_reset(s),
{
}

/// Once modes are reset, moving the shared angle changes no control.
pub proof fn lemma_theta_after_mode_reset<V>(s: CtrlState<V>, theta: V)
    ensures
        theta_applied(mode_reset(s), theta) == mode_reset(s),
{
}

/// A control that the shared angle reached holds the angle and waits for its
/// mode's function; settling it then clears the flag and keeps the mode.
pub proof fn lemma_theta_then_settle<V>(s: CtrlState<V>, theta: V, v: V)
    requires
        s.mode != CtrlMode::Normal,
    ensures
        theta_applied(s, theta).value == theta,
        theta_applied(s, theta).is_changed,
        !settled(theta_applied(s, theta), v).is_changed,
        settled(theta_applied(s, theta), v).mode == s.mode,
        settled(theta_applied(s, theta), v).default_value == s.default_value,
{
}

} // verus!
