//! The main-loop scheduler: one state machine that applies every input
//! event, search result and render tick to the application state, decides
//! when a redraw is owed, and ends the loop with the committed selection.
//!
//! The host drains its platform event queue into `handle_input`, forwards a
//! returned `Search` query to the debouncer, feeds completed search results
//! to `on_search_result`, and renders exactly when `needs_redraw` says so.

use vstd::prelude::*;

use crate::events::{AppEvent, InputEvent, Key};
use crate::state::{nav_step, AppState, NavKey};

verus! {

/// The loop either runs or has decided to stop; stopping is terminal.
#[derive(Clone, Copy, Debug, PartialEq, Eq, Structural)]
pub enum Phase {
    Running,
    ShuttingDown,
}

/// The scheduler's whole view of the world between two loop iterations.
pub struct Scheduler<Item> {
    /// The menu state the host renders from.
    pub app: AppState<Item>,
    /// Set when state changed since the last render.
    pub dirty: bool,
    /// Whether a first frame has been rendered; the very first iteration
    /// always draws.
    pub drawn_once: bool,
    pub phase: Phase,
    /// The item committed with Return, handed out when the loop ends.
    pub chosen: Option<Item>,
    /// Set once the search worker is gone; the menu keeps its last items.
    pub results_closed: bool,
    /// A surface size the presentation pipeline has not been told yet.
    pub pending_resize: Option<(u32, u32)>,
}

impl<Item> Scheduler<Item> {
    /// The menu state is well formed, and no selection is committed while
    /// the loop still runs.
    pub open spec fn wf(self) -> bool {
        &&& self.app.wf()
        &&& self.phase is Running ==> self.chosen is None
    }

    /// A scheduler at the top of its first iteration.
    pub fn new(app: AppState<Item>) -> (s: Self)
        requires
            app.wf(),
        ensures
            s.wf(),
            s.app == app,
            !s.dirty,
            !s.drawn_once,
            s.phase is Running,
            s.chosen is None,
            !s.results_closed,
            s.pending_resize is None,
    {
        Scheduler {
            app,
            dirty: false,
            drawn_once: false,
            phase: Phase::Running,
            chosen: None,
            results_closed: false,
            pending_resize: None,
        }
    }

    /// Applies one converted platform event. Navigation moves the cursor
    /// and marks the state dirty; Return commits the selection and stops
    /// the loop; Escape, a close request and focus loss stop it without a
    /// selection; a changed query is handed back for the debouncer; a new
    /// surface size is parked for the presentation pipeline.
    pub fn handle_input(&mut self, ev: InputEvent) -> (r: AppEvent)
        requires
            old(self).wf(),
            old(self).phase is Running,
        ensures
            final(self).wf(),
            final(self).drawn_once == old(self).drawn_once,
            final(self).results_closed == old(self).results_closed,
            (r is Exit) == (final(self).phase is ShuttingDown),
            ev matches InputEvent::KeyPressed(Key::Up) ==> ({
                &&& r is Continue
                &&& final(self).dirty
                &&& final(self).app.selected == nav_step(
                    old(self).app.selected as int,
                    old(self).app.items@.len() as int,
                    NavKey::Up,
                )
                &&& final(self).app.items == old(self).app.items
                &&& final(self).app.search == old(self).app.search
                &&& final(self).pending_resize == old(self).pending_resize
            }),
            ev matches InputEvent::KeyPressed(Key::Down) ==> ({
                &&& r is Continue
                &&& final(self).dirty
                &&& final(self).app.selected == nav_step(
                    old(self).app.selected as int,
                    old(self).app.items@.len() as int,
                    NavKey::Down,
                )
                &&& final(self).app.items == old(self).app.items
                &&& final(self).app.search == old(self).app.search
                &&& final(self).pending_resize == old(self).pending_resize
            }),
            ev matches InputEvent::KeyPressed(Key::Return) ==> ({
                &&& r is Exit
                &&& old(self).app.items@.len() > 0 ==> final(self).chosen == Some(
                    old(self).app.items@[old(self).app.selected as int],
                )
                &&& old(self).app.items@.len() == 0 ==> final(self).chosen is None
                &&& final(self).app.search == old(self).app.search
            }),
            ev matches InputEvent::KeyPressed(Key::Escape) ==> ({
                &&& r is Exit
                &&& final(self).chosen is None
                &&& final(self).app == old(self).app
            }),
            ev matches InputEvent::KeyPressed(Key::Other) ==> *final(self) == *old(self) && r is Continue,
            ev matches InputEvent::TextEdited(q) ==> ({
                &&& q@ == old(self).app.search@ ==> *final(self) == *old(self) && r is Continue
                &&& q@ != old(self).app.search@ ==> {
                    &&& r matches AppEvent::Search(s) && s@ == q@
                    &&& final(self).app.search@ == q@
                    &&& final(self).dirty
                    &&& final(self).app.items == old(self).app.items
                    &&& final(self).app.selected == old(self).app.selected
                    &&& final(self).chosen == old(self).chosen
                    &&& final(self).pending_resize == old(self).pending_resize
                }
            }),
            ev matches InputEvent::SelectionChanged(i) ==> ({
                &&& r is Continue
                &&& i < old(self).app.items@.len() ==> final(self).app.selected == i
                    && final(self).dirty
                &&& i >= old(self).app.items@.len() ==> *final(self) == *old(self)
                &&& final(self).app.items == old(self).app.items
                &&& final(self).app.search == old(self).app.search
                &&& final(self).pending_resize == old(self).pending_resize
            }),
            ev is CloseRequested ==> ({
                &&& r is Exit
                &&& final(self).chosen is None
                &&& final(self).app == old(self).app
            }),
            ev matches InputEvent::FocusChanged(focused) ==> ({
                &&& focused ==> *final(self) == *old(self) && r is Continue
                &&& !focused ==> r is Exit && final(self).chosen is None && final(self).app
                    == old(self).app
            }),
            ev matches InputEvent::Resized(w, h) ==> ({
                &&& r is Continue
                &&& final(self).pending_resize == Some((w, h))
                &&& final(self).app == old(self).app
                &&& final(self).dirty == old(self).dirty
            }),
            ev matches InputEvent::ScaleFactorChanged(w, h) ==> ({
                &&& r is Continue
                &&& final(self).pending_resize == Some((w, h))
                &&& final(self).app == old(self).app
                &&& final(self).dirty == old(self).dirty
            }),
    {
        match ev {
            InputEvent::KeyPressed(Key::Up) => {
                self.app.select_up();
                self.dirty = true;
                AppEvent::Continue
            },
            InputEvent::KeyPressed(Key::Down) => {
                self.app.select_down();
                self.dirty = true;
                AppEvent::Continue
            },
            InputEvent::KeyPressed(Key::Return) => {
                self.chosen = self.app.commit();
                self.phase = Phase::ShuttingDown;
                AppEvent::Exit
            },
            InputEvent::KeyPressed(Key::Escape) => {
                self.phase = Phase::ShuttingDown;
                AppEvent::Exit
            },
            InputEvent::KeyPressed(Key::Other) => AppEvent::Continue,
            InputEvent::TextEdited(q) => {
                if self.app.search == q {
                    AppEvent::Continue
                } else {
                    self.app.set_search(q.clone());
                    self.dirty = true;
                    AppEvent::Search(q)
                }
            },
            InputEvent::SelectionChanged(i) => {
                let applied = self.app.select(i);
                if applied {
                    self.dirty = true;
                }
                AppEvent::Continue
            },
            InputEvent::CloseRequested => {
                self.phase = Phase::ShuttingDown;
                AppEvent::Exit
            },
            InputEvent::FocusChanged(focused) => {
                if focused {
                    AppEvent::Continue
                } else {
                    self.phase = Phase::ShuttingDown;
                    AppEvent::Exit
                }
            },
            InputEvent::Resized(w, h) => {
                self.pending_resize = Some((w, h));
                AppEvent::Continue
            },
            InputEvent::ScaleFactorChanged(w, h) => {
                self.pending_resize = Some((w, h));
                AppEvent::Continue
            },
        }
    }

    /// Installs the items of a completed search: they replace the list, the
    /// cursor returns to the top, and a redraw becomes due.
    pub fn on_search_result(&mut self, items: Vec<Item>)
        requires
            old(self).wf(),
        ensures
            final(self).wf(),
            final(self).app.items == items,
            final(self).app.selected == 0,
            final(self).app.search == old(self).app.search,
            final(self).dirty,
            final(self).phase == old(self).phase,
            final(self).chosen == old(self).chosen,
            final(self).drawn_once == old(self).drawn_once,
            final(self).results_closed == old(self).results_closed,
            final(self).pending_resize == old(self).pending_resize,
    {
        self.app.apply_results(items);
        self.dirty = true;
    }

    /// Records that the search worker is gone: the menu keeps its last
    /// items and expects no further updates.
    pub fn on_results_closed(&mut self)
        ensures
            final(self).results_closed,
            final(self).app == old(self).app,
            final(self).dirty == old(self).dirty,
            final(self).drawn_once == old(self).drawn_once,
            final(self).phase == old(self).phase,
            final(self).chosen == old(self).chosen,
            final(self).pending_resize == old(self).pending_resize,
    {
        self.results_closed = true;
    }

    /// Hands the presentation pipeline the surface size it has not seen
    /// yet, if any; it must be applied before the next frame is acquired.
    pub fn take_pending_resize(&mut self) -> (r: Option<(u32, u32)>)
        ensures
            r == old(self).pending_resize,
            final(self).pending_resize is None,
            final(self).app == old(self).app,
            final(self).dirty == old(self).dirty,
            final(self).drawn_once == old(self).drawn_once,
            final(self).phase == old(self).phase,
            final(self).chosen == old(self).chosen,
            final(self).results_closed == old(self).results_closed,
    {
        self.pending_resize.take()
    }

    /// A redraw is owed when state changed since the last one, and on the
    /// very first iteration.
    pub fn needs_redraw(&self) -> (b: bool)
        ensures
            b == (self.dirty || !self.drawn_once),
    {
        self.dirty || !self.drawn_once
    }

    /// Records that the current state has been rendered.
    pub fn mark_rendered(&mut self)
        ensures
            !final(self).dirty,
            final(self).drawn_once,
            final(self).app == old(self).app,
            final(self).phase == old(self).phase,
            final(self).chosen == old(self).chosen,
            final(self).results_closed == old(self).results_closed,
            final(self).pending_resize == old(self).pending_resize,
    {
        self.dirty = false;
        self.drawn_once = true;
    }

    /// Whether the loop should run another iteration.
    pub fn is_running(&self) -> (b: bool)
        ensures
            b == (self.phase is Running),
    {
        match self.phase {
            Phase::Running => true,
            Phase::ShuttingDown => false,
        }
    }

    /// The selection the loop ends with: the committed item, or nothing
    /// when the user cancelled or the list was empty.
    pub fn into_selection(self) -> (r: Option<Item>)
        requires
            self.phase is ShuttingDown,
        ensures
            r == self.chosen,
    {
        self.chosen
    }
}

} // verus!
