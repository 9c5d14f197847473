//! The counter front-end: a signed byte moved by the arrow keys.
use vstd::prelude::*;
use crate::event::{Key, KeyInput};

verus! {

/// The counter front-end's state.
#[derive(Debug, Clone, Copy, PartialEq, Eq)]
pub struct App {
    pub counter: i8,
    pub running: bool,
}

impl App {
    /// A counter at zero, running.
    pub fn new() -> (r: App)
        ensures
            r == (App { counter: 0, running: true }),
    {
        App { counter: 0, running: true }
    }

    /// The periodic hook; the counter does nothing on a tick.
    pub fn tick(&self) {
    }

    /// Stops the front-end.
    pub fn exit(&mut self)
        ensures
            *final(self) == (App { running: false, ..*old(self) }),
    {
        self.running = false;
    }

    /// Adds one to the counter.
    pub fn increment_counter(&mut self)
        requires
            old(self).counter < i8::MAX,
        ensures
            *final(self) == (App { counter: (old(self).counter + 1) as i8, ..*old(self) }),
    {
        self.counter = self.counter + 1;
    }

    /// Takes one from the counter.
    pub fn decrement_counter(&mut self)
        requires
            old(self).counter > i8::MIN,
        ensures
            *final(self) == (App { counter: (old(self).counter - 1) as i8, ..*old(self) }),
    {
        self.counter = self.counter - 1;
    }
}

/// The counter after a key: `q` stops it, Left takes one and Right adds
/// one, except at the ends of the byte's range, where the counter stays.
pub open spec fn counter_key_spec(app: App, key: KeyInput) -> App {
    match key.key {
        Key::Char('q') => App { running: false, ..app },
        Key::Left => if app.counter > i8::MIN {
            App { counter: (app.counter - 1) as i8, ..app }
        } else {
            app
        },
        Key::Right => if app.counter < i8::MAX {
            App { counter: (app.counter + 1) as i8, ..app }
        } else {
            app
        },
        _ => app,
    }
}

/// Applies one key event to the counter.
pub fn handle_key_event(app: &mut App, key_event: KeyInput)
    ensures
        *final(app) == counter_key_spec(*old(app), key_event),
{
    match key_event.key {
        Key::Char('q') => app.exit(),
        Key::Left => {
            if app.counter > i8::MIN {
                app.decrement_counter();
            }
        },
        Key::Right => {
            if app.counter < i8::MAX {
                app.increment_counter();
            }
        },
        _ => {},
    }
}

} // verus!
