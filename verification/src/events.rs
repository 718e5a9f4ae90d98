//! What the timer makes of the keyboard and of the passing of time. Reading
//! the keyboard and the clock is left to the caller; what follows from what
//! was read is decided here.

use vstd::prelude::*;

use crate::app::{App, AppView};

verus! {

/// A key, as far as the timer tells keys apart.
#[derive(Copy, Clone, Debug, PartialEq, Eq, Structural)]
pub enum Key {
    Char(char),
    Esc,
    Other,
}

/// Something that happened at the terminal.
#[derive(Copy, Clone, Debug, PartialEq, Eq, Structural)]
pub enum Event {
    Key(Key),
    Other,
}

/// The event asks the timer to quit: the key `q`, or escape.
pub open spec fn requests_quit(event: Event) -> bool {
    event == Event::Key(Key::Char('q')) || event == Event::Key(Key::Esc)
}

/// The timer after an event: asked to quit if the event says so, and
/// otherwise as before.
pub open spec fn after_event(a: AppView, event: Event) -> AppView {
    AppView { quit: a.quit || requests_quit(event), ..a }
}

/// The timer after one wait of the driver's loop: the event that arrived, if
/// any, is taken in, and then the timer ticks if a whole tick interval has
/// passed.
pub open spec fn after_wait(a: AppView, event: Option<Event>, tick_rate: u64, elapsed: u64) -> AppView {
    let heard = match event {
        Some(e) => after_event(a, e),
        None => a,
    };
    if elapsed >= tick_rate {
        heard.tick()
    } else {
        heard
    }
}

/// Takes in one event from the terminal.
pub fn handle_events(app: &mut App, event: Event)
    ensures
        final(app)@ == after_event(old(app)@, event),
        old(app)@.well_formed() ==> final(app)@.well_formed(),
{
    match event {
        Event::Key(Key::Char(c)) => {
            if c == 'q' {
                app.quit = true;
            }
        },
        Event::Key(Key::Esc) => {
            app.quit = true;
        },
        _ => {},
    }
}

/// How long the driver may wait for an event: what is left of the tick
/// interval, and nothing once the interval is over. Both arguments and the
/// result are in one unit of time, whichever the caller counts in.
pub fn poll_timeout(tick_rate: u64, elapsed: u64) -> (timeout: u64)
    ensures
        elapsed <= tick_rate ==> timeout == tick_rate - elapsed,
        elapsed > tick_rate ==> timeout == 0,
{
    if elapsed <= tick_rate {
        tick_rate - elapsed
    } else {
        0
    }
}

/// What the driver does after each wait: takes in the event that arrived, if
/// one did, and ticks if the tick interval is over. Returns whether it
/// ticked, which is when the caller starts the next interval.
pub fn after_poll(app: &mut App, event: Option<Event>, tick_rate: u64, elapsed: u64) -> (ticked: bool)
    ensures
        ticked == (elapsed >= tick_rate),
        final(app)@ == after_wait(old(app)@, event, tick_rate, elapsed),
        old(app)@.well_formed() ==> final(app)@.well_formed(),
{
    match event {
        Some(e) => handle_events(app, e),
        None => {},
    }
    if elapsed >= tick_rate {
        app.on_tick();
        true
    } else {
        false
    }
}

/// Once the timer has been asked to quit, nothing that arrives and no tick
/// takes the request back.
pub proof fn lemma_quit_is_kept(a: AppView, event: Option<Event>, tick_rate: u64, elapsed: u64)
    requires
        a.quit,
    ensures
        after_wait(a, event, tick_rate, elapsed).quit,
{
}

} // verus!
