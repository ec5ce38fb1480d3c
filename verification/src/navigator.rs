//! The gallery navigator: an ordered, non-empty list of media paths, a
//! cursor into it and the layout the gallery is shown in.

use vstd::prelude::*;
use crate::cursor::{Trigger, interior, within, forward, backward, forward_by, backward_by, moved, moved_times};

verus! {

/// How the gallery is shown, and so what a move request means.
#[derive(Clone, Copy, Debug, PartialEq, Eq, Structural)]
pub enum Layout {
    /// Entries are revealed in batches of the given size.
    Grid(u16),
    /// One entry at a time; move requests are accepted and do nothing yet.
    Slide,
    /// Navigation is suspended; move requests are ignored.
    Opt,
}

/// Why a navigator could not be made.
#[derive(Clone, Copy, Debug, PartialEq, Eq, Structural)]
pub enum NavError {
    /// The list of paths was empty, so there is nothing a cursor could
    /// point at.
    EmptyCollection,
}

/// What a navigator is, as a mathematical value.
pub struct NavigatorState {
    pub paths: Seq<String>,
    pub position: nat,
    pub layout: Layout,
}

/// What the caller is to do after a move request.
#[derive(Clone, Debug, PartialEq, Eq)]
pub enum Action {
    /// Load and show these paths, in this order.
    Reveal(Vec<String>),
    /// The request was accepted and asks for nothing.
    Idle,
    /// The request was ignored: navigation is suspended.
    Ignored,
}

/// The paths that a grid reveals on one move request: the path under the
/// cursor, then the path each single step lands on, `count` paths in all.
pub open spec fn batch(paths: Seq<String>, pos: nat, trigger: Trigger, count: nat) -> Seq<String> {
    Seq::new(count, |i: int| paths[moved_times(paths.len(), pos, trigger, i as nat) as int])
}

/// An ordered, non-empty list of media paths with a cursor into it.
#[derive(Debug)]
pub struct Navigator {
    list: Vec<String>,
    position: usize,
    layout: Layout,
}

impl View for Navigator {
    type V = NavigatorState;

    closed spec fn view(&self) -> NavigatorState {
        NavigatorState { paths: self.list@, position: self.position as nat, layout: self.layout }
    }
}

impl Navigator {
    #[verifier::type_invariant]
    spec fn well_formed(&self) -> bool {
        self.position < self.list.len()
    }

    /// Makes a navigator over `list` with the cursor on the first entry.
    /// An empty list is refused.
    pub fn new(list: Vec<String>, layout: Layout) -> (made: Result<Navigator, NavError>)
        ensures
            list@.len() == 0 <==> made == Err::<Navigator, NavError>(NavError::EmptyCollection),
            list@.len() > 0 <==> made is Ok,
            made matches Ok(nav) ==> nav@ == (NavigatorState { paths: list@, position: 0, layout }),
    {
        if list.len() == 0 {
            Err(NavError::EmptyCollection)
        } else {
            Ok(Navigator { list, position: 0, layout })
        }
    }

    /// The number of entries, never zero.
    pub fn len(&self) -> (n: usize)
        ensures
            n == self@.paths.len(),
            n > 0,
    {
        proof {
            use_type_invariant(self);
        }
        self.list.len()
    }

    /// The cursor, always an index into the list.
    pub fn position(&self) -> (pos: usize)
        ensures
            pos == self@.position,
            pos < self@.paths.len(),
    {
        proof {
            use_type_invariant(self);
        }
        self.position
    }

    /// The path under the cursor.
    pub fn current(&self) -> (path: &String)
        ensures
            self@.position < self@.paths.len(),
            *path == self@.paths[self@.position as int],
    {
        proof {
            use_type_invariant(self);
        }
        &self.list[self.position]
    }

    /// Whether the cursor sits on neither the first nor the last entry.
    pub fn in_bound(&self) -> (inside: bool)
        ensures
            inside == interior(self@.paths.len(), self@.position),
    {
        proof {
            use_type_invariant(self);
        }
        self.list.len() - 1 != self.position && self.position != 0
    }

    /// Whether a forward move of `step` entries stays inside the list.
    pub fn in_range(&self, step: u16) -> (inside: bool)
        ensures
            inside == within(self@.paths.len(), self@.position, step as nat),
    {
        proof {
            use_type_invariant(self);
        }
        let step: usize = step as usize;
        step < self.list.len() && self.position < self.list.len() - step
    }

    /// Moves the cursor one step forward and returns the path it lands on.
    pub fn advance(&mut self) -> (path: &String)
        ensures
            final(self)@ == (NavigatorState {
                position: forward(old(self)@.paths.len(), old(self)@.position),
                ..old(self)@
            }),
            final(self)@.position < final(self)@.paths.len(),
            *path == final(self)@.paths[final(self)@.position as int],
    {
        proof {
            use_type_invariant(&*self);
        }
        if self.in_bound() {
            self.position += 1;
        } else if self.list.len() >= 2 {
            self.position = 1;
        } else {
            self.position = 0;
        }
        &self.list[self.position]
    }

    /// Moves the cursor one step backward and returns the path it lands on.
    pub fn retreat(&mut self) -> (path: &String)
        ensures
            final(self)@ == (NavigatorState {
                position: backward(old(self)@.paths.len(), old(self)@.position),
                ..old(self)@
            }),
            final(self)@.position < final(self)@.paths.len(),
            *path == final(self)@.paths[final(self)@.position as int],
    {
        proof {
            use_type_invariant(&*self);
        }
        if self.in_bound() {
            self.position -= 1;
        } else {
            self.position = self.list.len() - 1;
        }
        &self.list[self.position]
    }

    /// Moves the cursor `step` entries forward in one call and returns the
    /// path it lands on. A cursor on the first or the last entry, and a move
    /// that would pass the last entry, jump as a single step at a boundary
    /// does.
    pub fn advance_by(&mut self, step: u16) -> (path: &String)
        ensures
            final(self)@ == (NavigatorState {
                position: forward_by(old(self)@.paths.len(), old(self)@.position, step as nat),
                ..old(self)@
            }),
            final(self)@.position < final(self)@.paths.len(),
            *path == final(self)@.paths[final(self)@.position as int],
    {
        proof {
            use_type_invariant(&*self);
        }
        if self.in_bound() && self.in_range(step) {
            self.position += step as usize;
        } else if self.list.len() >= 2 {
            self.position = 1;
        } else {
            self.position = 0;
        }
        &self.list[self.position]
    }

    /// Moves the cursor `step` entries backward in one call and returns the
    /// path it lands on. A cursor on the first or the last entry, and a move
    /// that would pass the first entry, jump as a single step at a boundary
    /// does.
    pub fn retreat_by(&mut self, step: u16) -> (path: &String)
        ensures
            final(self)@ == (NavigatorState {
                position: backward_by(old(self)@.paths.len(), old(self)@.position, step as nat),
                ..old(self)@
            }),
            final(self)@.position < final(self)@.paths.len(),
            *path == final(self)@.paths[final(self)@.position as int],
    {
        proof {
            use_type_invariant(&*self);
        }
        if self.in_bound() && step as usize <= self.position {
            self.position -= step as usize;
        } else {
            self.position = self.list.len() - 1;
        }
        &self.list[self.position]
    }

    /// The layout the gallery is shown in.
    pub fn layout(&self) -> (layout: Layout)
        ensures
            layout == self@.layout,
    {
        self.layout
    }

    /// Shows the gallery in another layout; the list and the cursor stay.
    pub fn set_layout(&mut self, layout: Layout)
        ensures
            final(self)@ == (NavigatorState { layout, ..old(self)@ }),
    {
        proof {
            use_type_invariant(&*self);
        }
        self.layout = layout;
    }

    /// The whole list, in navigable order.
    pub fn paths(&self) -> (paths: &Vec<String>)
        ensures
            paths@ == self@.paths,
            paths@.len() > 0,
    {
        proof {
            use_type_invariant(self);
        }
        &self.list
    }

    /// Moves the cursor one step in the direction of `trigger` and returns
    /// the path it lands on.
    pub fn step(&mut self, trigger: Trigger) -> (path: &String)
        ensures
            final(self)@ == (NavigatorState {
                position: moved(old(self)@.paths.len(), old(self)@.position, trigger),
                ..old(self)@
            }),
            final(self)@.position < final(self)@.paths.len(),
            *path == final(self)@.paths[final(self)@.position as int],
    {
        match trigger {
            Trigger::Advance => self.advance(),
            Trigger::Retreat => self.retreat(),
        }
    }

    /// Answers a move request according to the layout. A grid reveals one
    /// batch, starting with the path under the cursor, and leaves the cursor
    /// on the entry that the next batch starts with. A slide accepts the
    /// request and changes nothing. A suspended gallery ignores it.
    pub fn on_trigger(&mut self, trigger: Trigger) -> (action: Action)
        ensures
            old(self)@.layout matches Layout::Grid(page) ==> {
                &&& action matches Action::Reveal(shown)
                &&& shown@ == batch(old(self)@.paths, old(self)@.position, trigger, page as nat)
                &&& final(self)@ == (NavigatorState {
                    position: moved_times(
                        old(self)@.paths.len(),
                        old(self)@.position,
                        trigger,
                        page as nat,
                    ),
                    ..old(self)@
                })
            },
            old(self)@.layout is Slide ==> action is Idle && final(self)@ == old(self)@,
            old(self)@.layout is Opt ==> action is Ignored && final(self)@ == old(self)@,
            final(self)@.position < final(self)@.paths.len(),
    {
        proof {
            use_type_invariant(&*self);
        }
        match self.layout {
            Layout::Grid(page) => {
                let mut shown: Vec<String> = Vec::new();
                let mut done: u16 = 0;
                while done < page
                    invariant
                        done <= page,
                        self@.paths == old(self)@.paths,
                        self@.layout == old(self)@.layout,
                        self@.position < self@.paths.len(),
                        self@.position == moved_times(
                            old(self)@.paths.len(),
                            old(self)@.position,
                            trigger,
                            done as nat,
                        ),
                        shown@ == batch(old(self)@.paths, old(self)@.position, trigger, done as nat),
                    decreases page - done,
                {
                    shown.push(self.current().clone());
                    self.step(trigger);
                    done += 1;
                }
                Action::Reveal(shown)
            },
            Layout::Slide => Action::Idle,
            Layout::Opt => Action::Ignored,
        }
    }
}

} // verus!
