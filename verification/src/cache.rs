//! A cache cell that keeps a rendered artifact together with the state it was
//! rendered from, and drops the artifact when the state changes.

use vstd::prelude::*;
use vstd::std_specs::cmp::PartialEqSpec;

verus! {

/// What a [`SmartCache`] holds: the artifact, if one is stored, and the state
/// that the cell was last asked for.
pub struct SmartCacheView<S, A> {
    pub artifact: Option<A>,
    pub prev_state: Option<S>,
}

pub struct SmartCache<S, A> {
    cache: Option<A>,
    prev_state: Option<S>,
}

impl<S, A> View for SmartCache<S, A> {
    type V = SmartCacheView<S, A>;

    closed spec fn view(&self) -> SmartCacheView<S, A> {
        SmartCacheView { artifact: self.cache, prev_state: self.prev_state }
    }
}

impl<S, A> SmartCacheView<S, A> {
    /// The cell before anything was asked of it.
    pub open spec fn empty() -> Self {
        SmartCacheView { artifact: None, prev_state: None }
    }

    /// The cell after it was asked for `state`. A cell that holds another
    /// state loses its artifact and takes the new state; a cell that was
    /// never asked takes the state; a cell that holds this state already is
    /// left alone.
    pub open spec fn asked(self, state: S) -> Self {
        match self.prev_state {
            Some(prev) => if prev == state {
                self
            } else {
                SmartCacheView { artifact: None, prev_state: Some(state) }
            },
            None => SmartCacheView { artifact: self.artifact, prev_state: Some(state) },
        }
    }

    /// The cell after `artifact` was stored in it.
    pub open spec fn filled(self, artifact: A) -> Self {
        SmartCacheView { artifact: Some(artifact), prev_state: self.prev_state }
    }

    /// Whether a caller that asks for `state` has to render: the cell has
    /// nothing to hand out.
    pub open spec fn renders(self, state: S) -> bool {
        self.asked(state).artifact is None
    }

    /// The cell after one draw: it was asked for `state`, and where it had
    /// nothing to hand out, what `render` makes of `state` was stored.
    pub open spec fn served(self, state: S, render: spec_fn(S) -> A) -> Self {
        if self.renders(state) {
            self.asked(state).filled(render(state))
        } else {
            self.asked(state)
        }
    }

    /// The cell after one draw for each of `states`, in order.
    pub open spec fn served_all(self, states: Seq<S>, render: spec_fn(S) -> A) -> Self
        decreases states.len(),
    {
        if states.len() == 0 {
            self
        } else {
            self.served_all(states.drop_last(), render).served(states.last(), render)
        }
    }

    /// How many of the draws for `states` had to render.
    pub open spec fn render_count(self, states: Seq<S>, render: spec_fn(S) -> A) -> nat
        decreases states.len(),
    {
        if states.len() == 0 {
            0
        } else {
            let before = self.render_count(states.drop_last(), render);
            if self.served_all(states.drop_last(), render).renders(states.last()) {
                before + 1
            } else {
                before
            }
        }
    }
}

/// Whether `==` on `S` computes equality of values.
pub open spec fn eq_is_value_equality<S: PartialEq>() -> bool {
    &&& S::obeys_eq_spec()
    &&& forall|a: S, b: S| #[trigger] a.eq_spec(&b) <==> a == b
}

impl<S: PartialEq, A> SmartCache<S, A> {
    pub fn new() -> (cell: Self)
        ensures
            cell@ == SmartCacheView::<S, A>::empty(),
    {
        SmartCache { cache: None, prev_state: None }
    }

    /// Asks the cell for the artifact that belongs to `current_state`. The
    /// artifact is handed out when the cell holds one for an equal state;
    /// `None` tells the caller to render and to [`put`](Self::put) what it
    /// rendered.
    pub fn get(&mut self, current_state: S) -> (cached: Option<&A>)
        ensures
            eq_is_value_equality::<S>() ==> final(self)@ == old(self)@.asked(current_state),
            match cached {
                Some(artifact) => final(self)@.artifact == Some(*artifact),
                None => final(self)@.artifact is None,
            },
    {
        let stale = match &self.prev_state {
            Some(prev) => *prev != current_state,
            None => false,
        };
        if stale {
            self.cache = None;
            self.prev_state = Some(current_state);
        } else if self.prev_state.is_none() {
            self.prev_state = Some(current_state);
        }
        self.cache.as_ref()
    }

    /// The artifact that the cell holds, if it holds one.
    pub fn artifact(&self) -> (cached: Option<&A>)
        ensures
            match cached {
                Some(artifact) => self@.artifact == Some(*artifact),
                None => self@.artifact is None,
            },
    {
        self.cache.as_ref()
    }

    /// Stores the artifact rendered for the state last asked for.
    pub fn put(&mut self, artifact: A)
        ensures
            final(self)@ == old(self)@.filled(artifact),
    {
        self.cache = Some(artifact);
    }
}

/// How many of `states` differ from the state before them, the first one
/// counted as differing.
pub open spec fn changes<S>(states: Seq<S>) -> nat
    decreases states.len(),
{
    if states.len() == 0 {
        0
    } else {
        let before = changes(states.drop_last());
        if states.len() == 1 || states[states.len() - 2] != states.last() {
            before + 1
        } else {
            before
        }
    }
}

/// Draws for a sequence of states, made on a cell that starts empty, render
/// once for the first state and once for every state that differs from the
/// one before it, and never for a state that repeats the one before it. The
/// cell ends up holding the last state and what was rendered for it.
pub proof fn law_one_render_per_change<S, A>(states: Seq<S>, render: spec_fn(S) -> A)
    ensures
        SmartCacheView::<S, A>::empty().render_count(states, render) == changes(states),
        states.len() > 0 ==> SmartCacheView::<S, A>::empty().served_all(states, render) == (
        SmartCacheView { artifact: Some(render(states.last())), prev_state: Some(states.last()) }),
    decreases states.len(),
{
    if states.len() > 0 {
        let before = states.drop_last();
        law_one_render_per_change::<S, A>(before, render);
        if before.len() > 0 {
            assert(before.last() == states[states.len() - 2]);
        }
    }
}

/// A draw for the state that the draw before it was made for renders
/// nothing and leaves the cell as it is.
pub proof fn law_repeat_never_renders<S, A>(states: Seq<S>, render: spec_fn(S) -> A, state: S)
    requires
        states.len() > 0,
        states.last() == state,
    ensures
        !SmartCacheView::<S, A>::empty().served_all(states, render).renders(state),
        SmartCacheView::<S, A>::empty().served_all(states.push(state), render)
            == SmartCacheView::<S, A>::empty().served_all(states, render),
        SmartCacheView::<S, A>::empty().render_count(states.push(state), render)
            == SmartCacheView::<S, A>::empty().render_count(states, render),
{
    law_one_render_per_change::<S, A>(states, render);
    assert(states.push(state).drop_last() =~= states);
}

} // verus!
