//! What one poll of the window's event queue means for the host.

use vstd::prelude::*;
use crate::geometry::{LogicalSize, PhysicalSize, ScaleFactor};

verus! {

/// A window event, as far as the host tells events apart.
#[derive(Clone, Copy, Debug, PartialEq, Eq, Structural)]
pub enum RawEvent {
    /// The user asked to close the window.
    CloseRequested,
    /// The window now has this logical size.
    Resized(LogicalSize),
    /// An input handed on to the widget layer; `changes_ui` tells whether it
    /// altered the widget state.
    Input { changes_ui: bool },
    /// Anything else; ignored.
    Other,
}

/// What one poll amounts to.
#[derive(Clone, Copy, Debug, PartialEq, Eq, Structural)]
pub struct ControlSignals {
    pub close: bool,
    /// The physical size of the last resize, if there was one.
    pub resized: Option<PhysicalSize>,
    /// Whether an input changed the widget state.
    pub ui_changed: bool,
}

pub open spec fn any_close(events: Seq<RawEvent>) -> bool {
    exists|i: int| 0 <= i < events.len() && events[i] is CloseRequested
}

pub open spec fn any_ui_change(events: Seq<RawEvent>) -> bool {
    exists|i: int| 0 <= i < events.len() && events[i] == (RawEvent::Input { changes_ui: true })
}

/// The logical size of the last resize among `events`.
pub open spec fn last_resize(events: Seq<RawEvent>) -> Option<LogicalSize>
    decreases events.len(),
{
    if events.len() == 0 {
        None
    } else {
        match events.last() {
            RawEvent::Resized(l) => Some(l),
            _ => last_resize(events.drop_last()),
        }
    }
}

pub open spec fn signals_of(events: Seq<RawEvent>, s: ScaleFactor) -> ControlSignals {
    ControlSignals {
        close: any_close(events),
        resized: match last_resize(events) {
            Some(l) => Some(l.to_physical_spec(s)),
            None => None,
        },
        ui_changed: any_ui_change(events),
    }
}

/// Signals with nothing in them: no close, no resize, no change.
pub fn quiet() -> (r: ControlSignals)
    ensures
        !r.close,
        r.resized is None,
        !r.ui_changed,
{
    ControlSignals { close: false, resized: None, ui_changed: false }
}

/// Reads the events of one poll, in the order they came: a close request
/// sets `close`, the last resize gives the new physical size at scale `s`,
/// an input that changed the widgets sets `ui_changed`.
pub fn translate(events: &Vec<RawEvent>, s: &ScaleFactor) -> (r: ControlSignals)
    requires
        s.wf(),
    ensures
        r == signals_of(events@, *s),
{
    let mut close = false;
    let mut resized: Option<LogicalSize> = None;
    let mut ui_changed = false;
    let mut i: usize = 0;
    while i < events.len()
        invariant
            i <= events.len(),
            close == any_close(events@.take(i as int)),
            resized == last_resize(events@.take(i as int)),
            ui_changed == any_ui_change(events@.take(i as int)),
        decreases events.len() - i,
    {
        let ghost pre = events@.take(i as int);
        let ghost next = events@.take(i + 1);
        assert(next.drop_last() == pre);
        assert(next.last() == events@[i as int]);
        match events[i] {
            RawEvent::CloseRequested => {
                close = true;
            },
            RawEvent::Resized(l) => {
                resized = Some(l);
            },
            RawEvent::Input { changes_ui } => {
                ui_changed = ui_changed || changes_ui;
            },
            RawEvent::Other => {},
        }
        assert(close == any_close(next)) by {
            if any_close(pre) {
                let k = choose|k: int| 0 <= k < pre.len() && pre[k] is CloseRequested;
                assert(next[k] == pre[k]);
            }
            if any_close(next) {
                let k = choose|k: int| 0 <= k < next.len() && next[k] is CloseRequested;
                if k < i {
                    assert(pre[k] == next[k]);
                }
            }
        }
        assert(ui_changed == any_ui_change(next)) by {
            if any_ui_change(pre) {
                let k = choose|k: int| 0 <= k < pre.len() && pre[k] == (RawEvent::Input { changes_ui: true });
                assert(next[k] == pre[k]);
            }
            if any_ui_change(next) {
                let k = choose|k: int| 0 <= k < next.len() && next[k] == (RawEvent::Input { changes_ui: true });
                if k < i {
                    assert(pre[k] == next[k]);
                }
            }
        }
        i = i + 1;
    }
    assert(events@.take(events.len() as int) == events@);
    let r = ControlSignals {
        close,
        resized: match resized {
            Some(l) => Some(l.to_physical(s)),
            None => None,
        },
        ui_changed,
    };
    r
}

} // verus!
