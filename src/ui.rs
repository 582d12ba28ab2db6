//! When the widget layer has to be drawn again.

use vstd::prelude::*;

verus! {

/// The widget layer's "dirty" flag: set when an input changed the widget
/// state, cleared each time the layer is asked for its primitives.
#[derive(Clone, Copy, Debug, PartialEq, Eq, Structural)]
pub struct RedrawGate {
    pub dirty: bool,
}

impl RedrawGate {
    /// State after an input; `changed` tells whether it altered the widgets.
    pub open spec fn after_input(self, changed: bool) -> RedrawGate {
        RedrawGate { dirty: self.dirty || changed }
    }

    /// Whether a request for primitives yields them.
    pub open spec fn yields(self, force: bool) -> bool {
        force || self.dirty
    }

    /// State after a request for primitives.
    pub open spec fn after_draw(self) -> RedrawGate {
        RedrawGate { dirty: false }
    }

    /// State after a run of inputs, in order.
    pub open spec fn after_inputs(self, changes: Seq<bool>) -> RedrawGate
        decreases changes.len(),
    {
        if changes.len() == 0 {
            self
        } else {
            self.after_inputs(changes.drop_last()).after_input(changes.last())
        }
    }

    /// A fresh widget layer: nothing of it has been drawn yet.
    pub fn new() -> (r: RedrawGate)
        ensures
            r.dirty,
    {
        RedrawGate { dirty: true }
    }

    /// Records an input; `changed` tells whether it altered the widget state.
    pub fn handle_input(&mut self, changed: bool)
        ensures
            *final(self) == old(self).after_input(changed),
    {
        self.dirty = self.dirty || changed;
    }

    /// Whether primitives are produced this cycle: when `force` is set or the
    /// state changed since the last request. Clears the flag.
    pub fn maybe_draw(&mut self, force: bool) -> (r: bool)
        ensures
            r == old(self).yields(force),
            *final(self) == old(self).after_draw(),
    {
        let r = force || self.dirty;
        self.dirty = false;
        r
    }
}

/// After a request for primitives, an unforced request yields them exactly
/// when one of the inputs since then changed the widget state; a second
/// unforced request right after it yields nothing.
pub proof fn lemma_draw_once_per_change(g: RedrawGate, changes: Seq<bool>)
    ensures
        g.after_draw().after_inputs(changes).yields(false) == changes.contains(true),
        !g.after_draw().after_inputs(changes).after_draw().yields(false),
    decreases changes.len(),
{
    if changes.len() > 0 {
        lemma_draw_once_per_change(g, changes.drop_last());
        let init = changes.drop_last();
        if changes.last() {
            assert(changes[changes.len() - 1] == true);
        } else if init.contains(true) {
            let i = choose|i: int| 0 <= i < init.len() && init[i] == true;
            assert(changes[i] == true);
        } else {
            assert forall|i: int| 0 <= i < changes.len() implies changes[i] != true by {
                if i < init.len() {
                    assert(init[i] == changes[i]);
                }
            }
        }
    }
}

} // verus!
