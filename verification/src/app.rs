//! The timer itself: a countdown that elapses once and then blinks.

use vstd::prelude::*;

use crate::args::{DigitSize, SilicaArgs, PALETTE_MAX};

verus! {

/// Where the timer stands in its life. The only transition is from
/// `Counting` to `Elapsed`.
#[derive(Copy, Clone, Debug, PartialEq, Eq, Structural)]
pub enum AppState {
    Counting,
    Elapsed,
}

/// The timer and the configuration it was started with.
pub struct App {
    pub state: AppState,
    /// Set once the user has asked to leave.
    pub quit: bool,
    /// Seconds left on the countdown.
    pub time: u64,
    pub text: String,
    pub post_text: Option<String>,
    /// Whether the digits are currently drawn in the blink colour.
    pub blink: bool,
    pub noblink: bool,
    pub noascii: bool,
    pub digit_size: DigitSize,
    pub digit_color: u8,
    pub text_color: u8,
    pub ascii_color: u8,
    pub blink_color: u8,
}

/// The timer as a mathematical value: seconds as a natural number, texts as
/// sequences of characters.
pub ghost struct AppView {
    pub state: AppState,
    pub quit: bool,
    pub time: nat,
    pub text: Seq<char>,
    pub post_text: Option<Seq<char>>,
    pub blink: bool,
    pub noblink: bool,
    pub noascii: bool,
    pub digit_size: DigitSize,
    pub digit_color: u8,
    pub text_color: u8,
    pub ascii_color: u8,
    pub blink_color: u8,
}

impl View for App {
    type V = AppView;

    open spec fn view(&self) -> AppView {
        AppView {
            state: self.state,
            quit: self.quit,
            time: self.time as nat,
            text: self.text@,
            post_text: match self.post_text {
                Some(t) => Some(t@),
                None => None,
            },
            blink: self.blink,
            noblink: self.noblink,
            noascii: self.noascii,
            digit_size: self.digit_size,
            digit_color: self.digit_color,
            text_color: self.text_color,
            ascii_color: self.ascii_color,
            blink_color: self.blink_color,
        }
    }
}

impl AppView {
    /// The timer that a configuration starts: counting, nothing blinking,
    /// nobody has asked to quit, and an absent text is the empty text.
    pub open spec fn initial(args: SilicaArgs) -> AppView {
        AppView {
            state: AppState::Counting,
            quit: false,
            time: args.time as nat,
            text: match args.text {
                Some(t) => t@,
                None => Seq::empty(),
            },
            post_text: match args.post_text {
                Some(t) => Some(t@),
                None => None,
            },
            blink: false,
            noblink: args.noblink,
            noascii: args.noascii,
            digit_size: args.digit_size,
            digit_color: args.digit_color,
            text_color: args.text_color,
            ascii_color: args.ascii_color,
            blink_color: args.blink_color,
        }
    }

    /// The timer one second later.
    ///
    /// While counting, one second comes off, never going below zero, and the
    /// timer elapses as soon as nothing is left. Once elapsed, the blink flag
    /// flips, unless blinking is turned off: then it is off.
    pub open spec fn tick(self) -> AppView {
        match self.state {
            AppState::Counting => {
                let left: nat = if self.time > 0 {
                    (self.time - 1) as nat
                } else {
                    0
                };
                AppView {
                    time: left,
                    state: if left == 0 {
                        AppState::Elapsed
                    } else {
                        AppState::Counting
                    },
                    ..self
                }
            },
            AppState::Elapsed => AppView { blink: !self.blink && !self.noblink, ..self },
        }
    }

    /// The timer `n` seconds later.
    pub open spec fn ticks(self, n: nat) -> AppView
        decreases n,
    {
        if n == 0 {
            self
        } else {
            self.ticks((n - 1) as nat).tick()
        }
    }

    /// The text shown above the counter: the text of the configuration while
    /// counting, and afterwards the second text where one was given.
    pub open spec fn caption(self) -> Seq<char> {
        match self.state {
            AppState::Counting => self.text,
            AppState::Elapsed => match self.post_text {
                Some(t) => t,
                None => self.text,
            },
        }
    }

    /// What every timer made by `App::new` and moved by `on_tick` satisfies:
    /// the digits blink only after the countdown has elapsed and only if
    /// blinking is on, and the colours are palette indices.
    pub open spec fn well_formed(self) -> bool {
        &&& self.blink ==> self.state is Elapsed && !self.noblink
        &&& self.digit_color <= PALETTE_MAX
        &&& self.text_color <= PALETTE_MAX
        &&& self.ascii_color <= PALETTE_MAX
        &&& self.blink_color <= PALETTE_MAX
    }
}

impl App {
    /// Starts the timer that `args` describes.
    pub fn new(args: SilicaArgs) -> (app: App)
        ensures
            app@ == AppView::initial(args),
            args.colors_in_palette() ==> app@.well_formed(),
    {
        let text = match args.text {
            Some(t) => t,
            None => String::new(),
        };
        App {
            state: AppState::Counting,
            quit: false,
            time: args.time,
            text,
            post_text: args.post_text,
            blink: false,
            noblink: args.noblink,
            noascii: args.noascii,
            digit_size: args.digit_size,
            digit_color: args.digit_color,
            text_color: args.text_color,
            ascii_color: args.ascii_color,
            blink_color: args.blink_color,
        }
    }

    /// The text to show above the counter right now.
    pub fn caption(&self) -> (text: &String)
        ensures
            text@ == self@.caption(),
    {
        match self.state {
            AppState::Counting => &self.text,
            AppState::Elapsed => match &self.post_text {
                Some(t) => t,
                None => &self.text,
            },
        }
    }

    /// Moves the timer on by one second.
    pub fn on_tick(&mut self)
        ensures
            final(self)@ == old(self)@.tick(),
            old(self)@.well_formed() ==> final(self)@.well_formed(),
    {
        match self.state {
            AppState::Counting => {
                if self.time > 0 {
                    self.time = self.time - 1;
                }
                if self.time == 0 {
                    self.state = AppState::Elapsed;
                }
            },
            AppState::Elapsed => {
                self.blink = !self.blink && !self.noblink;
            },
        }
    }
}

/// While more than nothing is left, a tick takes exactly one second off, and
/// the timer goes on counting unless that was the last second.
pub proof fn lemma_tick_counts_down(a: AppView)
    requires
        a.state is Counting,
        a.time > 0,
    ensures
        a.tick().time == a.time - 1,
        a.tick().time > 0 ==> a.tick().state is Counting,
        a.tick().time == 0 ==> a.tick().state is Elapsed,
{
}

/// A tick on a countdown that already stands at zero makes the timer elapse
/// then and there, and leaves the time at zero.
pub proof fn lemma_tick_at_zero_elapses(a: AppView)
    requires
        a.state is Counting,
        a.time == 0,
    ensures
        a.tick().state is Elapsed,
        a.tick().time == 0,
{
}

/// A tick changes nothing but the time, the state and the blink flag.
pub proof fn lemma_tick_keeps_configuration(a: AppView)
    ensures
        a.tick() == (AppView {
            time: a.tick().time,
            state: a.tick().state,
            blink: a.tick().blink,
            ..a
        }),
        a.state is Counting ==> a.tick().blink == a.blink,
        a.state is Elapsed ==> a.tick().time == a.time,
{
}

/// However many ticks, the configuration stays, the time never grows, and a
/// well-formed timer stays well-formed.
pub proof fn lemma_ticks_keep_configuration(a: AppView, n: nat)
    ensures
        a.ticks(n) == (AppView {
            time: a.ticks(n).time,
            state: a.ticks(n).state,
            blink: a.ticks(n).blink,
            ..a
        }),
        a.ticks(n).time <= a.time,
        a.well_formed() ==> a.ticks(n).well_formed(),
    decreases n,
{
    if n > 0 {
        lemma_ticks_keep_configuration(a, (n - 1) as nat);
    }
}

/// An elapsed timer stays elapsed, whatever number of ticks follows.
pub proof fn lemma_elapsed_is_final(a: AppView, n: nat)
    requires
        a.state is Elapsed,
    ensures
        a.ticks(n).state is Elapsed,
        a.ticks(n).time == a.time,
    decreases n,
{
    if n > 0 {
        lemma_elapsed_is_final(a, (n - 1) as nat);
    }
}

/// With blinking turned off, the blink flag of an elapsed timer is down after
/// every tick; it is down before the first one too if the timer is
/// well-formed.
pub proof fn lemma_no_blink_when_disabled(a: AppView, n: nat)
    requires
        a.state is Elapsed,
        a.noblink,
    ensures
        n >= 1 ==> !a.ticks(n).blink,
        a.well_formed() ==> !a.ticks(n).blink,
    decreases n,
{
    lemma_ticks_keep_configuration(a, n);
    if n > 0 {
        lemma_elapsed_is_final(a, (n - 1) as nat);
        lemma_ticks_keep_configuration(a, (n - 1) as nat);
    }
}

/// With blinking turned on, every tick on an elapsed timer flips the blink
/// flag.
pub proof fn lemma_blink_alternates(a: AppView, n: nat)
    requires
        a.state is Elapsed,
        !a.noblink,
    ensures
        a.ticks(n + 1).blink == !a.ticks(n).blink,
{
    lemma_elapsed_is_final(a, n);
    lemma_ticks_keep_configuration(a, n);
    assert(a.ticks(n + 1) == a.ticks(n).tick());
}

/// With no second text, the caption never changes. With one, the caption is
/// the first text for as long as the timer counts and the second from the
/// tick on which it elapses.
pub proof fn lemma_caption_follows_state(a: AppView, n: nat)
    ensures
        a.post_text is None ==> a.ticks(n).caption() == a.text,
        a.post_text matches Some(second) ==> a.ticks(n).caption() == (if a.ticks(n).state
            is Counting {
            a.text
        } else {
            second
        }),
{
    lemma_ticks_keep_configuration(a, n);
}

/// A countdown of `a.time` seconds counts for as long as fewer ticks than
/// that have passed, showing what is left, and has elapsed at zero from then
/// on. A countdown of no seconds elapses on its first tick.
pub proof fn lemma_countdown(a: AppView, n: nat)
    requires
        a.state is Counting,
    ensures
        n < a.time ==> a.ticks(n).state is Counting && a.ticks(n).time == a.time - n,
        n >= a.time && n >= 1 ==> a.ticks(n).state is Elapsed && a.ticks(n).time == 0,
    decreases n,
{
    if n > 0 {
        lemma_countdown(a, (n - 1) as nat);
        if n - 1 >= a.time && n - 1 >= 1 {
            lemma_elapsed_is_final(a.ticks((n - 1) as nat), 1);
            assert(a.ticks((n - 1) as nat).ticks(1) == a.ticks((n - 1) as nat).tick()) by {
                reveal_with_fuel(AppView::ticks, 2);
            }
        }
    }
}

} // verus!
