//! The watch loop: what to do next, given what has just happened.
//!
//! The loop itself runs outside the library, since every step of it waits
//! on the outside world. It performs the `Action` that the library hands
//! it, reports what came of it as an `Event`, and is handed the next
//! `Action`. The library keeps the state in between.

use vstd::prelude::*;
use crate::error::{Error, ErrorView};
use crate::notify::{announcement_of, Notification, NotificationView};

verus! {

/// How often the state file may be found missing after it was announced.
pub const ATTEMPT_CAP: u32 = 500;

/// How long to wait before looking for the state file again, in
/// milliseconds.
pub const RETRY_DELAY_MS: u64 = 1;

/// Where the loop stands.
#[derive(Clone, Copy, Debug, PartialEq, Eq, Structural)]
pub enum Phase {
    /// No watch is armed.
    Idle,
    /// The watch is armed, and the loop waits for the state file to be
    /// created.
    Armed,
    /// The state file was announced, and was found missing `attempts`
    /// times since.
    Materializing { attempts: u32 },
    /// The state file is there, and is being read and held against what
    /// was seen before.
    Comparing,
}

/// What has just happened.
#[derive(Debug, PartialEq, Eq)]
pub enum Event {
    /// The loop has started.
    Started,
    /// The watch on the state file is armed.
    Registered,
    /// The wait on the watch is over; `created` tells whether it brought
    /// word of a file.
    Woken { created: bool },
    /// The state file was looked for.
    Probed { exists: bool },
    /// The state file was read; `current` is the song that it names.
    Observed { current: Option<String> },
    /// The notification was sent.
    Delivered,
}

/// What to do next.
#[derive(Debug, PartialEq, Eq)]
pub enum Action {
    /// Arm the watch on the state file, and report `Registered`.
    Register,
    /// Wait on the watch, and report `Woken`.
    Await,
    /// Wait for `delay_ms` milliseconds, look for the state file, and
    /// report `Probed`.
    Probe { delay_ms: u64 },
    /// Read the state file, and report `Observed`.
    Read,
    /// Send the notification, and report `Delivered`.
    Notify(Notification),
    /// Give up.
    Fail(Error),
}

/// An `Event` with its texts as sequences of characters.
pub enum EventView {
    Started,
    Registered,
    Woken { created: bool },
    Probed { exists: bool },
    Observed { current: Option<Seq<char>> },
    Delivered,
}

/// An `Action` with its texts as sequences of characters.
pub enum ActionView {
    Register,
    Await,
    Probe { delay_ms: u64 },
    Read,
    Notify(NotificationView),
    Fail(ErrorView),
}

/// A song, or none, as a sequence of characters.
pub open spec fn song_view(song: Option<String>) -> Option<Seq<char>> {
    match song {
        Some(name) => Some(name@),
        None => None,
    }
}

impl View for Event {
    type V = EventView;

    open spec fn view(&self) -> EventView {
        match *self {
            Event::Started => EventView::Started,
            Event::Registered => EventView::Registered,
            Event::Woken { created } => EventView::Woken { created },
            Event::Probed { exists } => EventView::Probed { exists },
            Event::Observed { current } => EventView::Observed { current: song_view(current) },
            Event::Delivered => EventView::Delivered,
        }
    }
}

impl View for Action {
    type V = ActionView;

    open spec fn view(&self) -> ActionView {
        match *self {
            Action::Register => ActionView::Register,
            Action::Await => ActionView::Await,
            Action::Probe { delay_ms } => ActionView::Probe { delay_ms },
            Action::Read => ActionView::Read,
            Action::Notify(notification) => ActionView::Notify(notification@),
            Action::Fail(error) => ActionView::Fail(error@),
        }
    }
}

/// The state of the loop.
pub struct WatchLoop {
    state_file: String,
    phase: Phase,
    previous: Option<String>,
}

/// A `WatchLoop` with its texts as sequences of characters.
pub struct WatchView {
    /// Where the state file lies.
    pub state_file: Seq<char>,
    /// Where the loop stands.
    pub phase: Phase,
    /// The song that the state file named when it was last read.
    pub previous: Option<Seq<char>>,
}

impl View for WatchLoop {
    type V = WatchView;

    closed spec fn view(&self) -> WatchView {
        WatchView {
            state_file: self.state_file@,
            phase: self.phase,
            previous: song_view(self.previous),
        }
    }
}

/// Whether `current` is news after `previous`: it names a song, and not
/// the one named before.
pub open spec fn is_news(previous: Option<Seq<char>>, current: Option<Seq<char>>) -> bool {
    current is Some && current != previous
}

/// The state that follows `w` on `event`, and what to do then.
///
/// The watch is armed anew after every wait, whether or not the wait
/// brought word of a file. A state file that was announced is looked for
/// at once, and then again after a short wait, for as long as it is
/// missing; the loop gives up when it has been found missing `ATTEMPT_CAP`
/// times. The song that the file names is remembered, and announced where
/// it is news; the loop then stays where it stands until the notification
/// is sent. An event that the phase does not wait for makes the loop give
/// up and leaves the state as it is.
pub open spec fn next(w: WatchView, event: EventView) -> (WatchView, ActionView) {
    match (w.phase, event) {
        (Phase::Idle, EventView::Started) => (w, ActionView::Register),
        (Phase::Idle, EventView::Registered) => (
            WatchView { phase: Phase::Armed, ..w },
            ActionView::Await,
        ),
        (Phase::Armed, EventView::Woken { created }) => if created {
            (
                WatchView { phase: Phase::Materializing { attempts: 0 }, ..w },
                ActionView::Probe { delay_ms: 0 },
            )
        } else {
            (WatchView { phase: Phase::Idle, ..w }, ActionView::Register)
        },
        (Phase::Materializing { attempts }, EventView::Probed { exists }) => if exists {
            (WatchView { phase: Phase::Comparing, ..w }, ActionView::Read)
        } else if attempts + 1 < ATTEMPT_CAP {
            (
                WatchView { phase: Phase::Materializing { attempts: (attempts + 1) as u32 }, ..w },
                ActionView::Probe { delay_ms: RETRY_DELAY_MS },
            )
        } else {
            (w, ActionView::Fail(ErrorView::StateFileAbsent { path: w.state_file }))
        },
        (Phase::Comparing, EventView::Observed { current }) => if is_news(w.previous, current) {
            (
                WatchView { previous: current, ..w },
                ActionView::Notify(announcement_of(current->0)),
            )
        } else {
            (WatchView { phase: Phase::Idle, previous: current, ..w }, ActionView::Register)
        },
        (Phase::Comparing, EventView::Delivered) => (
            WatchView { phase: Phase::Idle, ..w },
            ActionView::Register,
        ),
        _ => (w, ActionView::Fail(ErrorView::UnexpectedEvent)),
    }
}

/// Tells whether `current` is news after `previous`.
pub fn detect_change(previous: &Option<String>, current: &Option<String>) -> (news: bool)
    ensures
        news == is_news(song_view(*previous), song_view(*current)),
{
    match current {
        None => false,
        Some(now) => match previous {
            None => true,
            Some(before) => !(*now == *before),
        },
    }
}

impl WatchLoop {
    /// A loop that watches `state_file`, has not started, and has seen no
    /// song.
    pub fn new(state_file: String) -> (w: WatchLoop)
        ensures
            w@ == (WatchView { state_file: state_file@, phase: Phase::Idle, previous: None }),
    {
        WatchLoop { state_file, phase: Phase::Idle, previous: None }
    }

    /// Where the state file lies.
    pub fn state_file(&self) -> (path: &String)
        ensures
            path@ == self@.state_file,
    {
        &self.state_file
    }

    /// Where the loop stands.
    pub fn phase(&self) -> (phase: Phase)
        ensures
            phase == self@.phase,
    {
        self.phase
    }

    /// The song that the state file named when it was last read.
    pub fn previous(&self) -> (song: &Option<String>)
        ensures
            song_view(*song) == self@.previous,
    {
        &self.previous
    }

    /// Takes in what has just happened, and tells what to do next.
    pub fn step(&mut self, event: Event) -> (action: Action)
        ensures
            (final(self)@, action@) == next(old(self)@, event@),
    {
        match (self.phase, event) {
            (Phase::Idle, Event::Started) => Action::Register,
            (Phase::Idle, Event::Registered) => {
                self.phase = Phase::Armed;
                Action::Await
            },
            (Phase::Armed, Event::Woken { created }) => {
                if created {
                    self.phase = Phase::Materializing { attempts: 0 };
                    Action::Probe { delay_ms: 0 }
                } else {
                    self.phase = Phase::Idle;
                    Action::Register
                }
            },
            (Phase::Materializing { attempts }, Event::Probed { exists }) => {
                if exists {
                    self.phase = Phase::Comparing;
                    Action::Read
                } else if attempts < ATTEMPT_CAP - 1 {
                    self.phase = Phase::Materializing { attempts: attempts + 1 };
                    Action::Probe { delay_ms: RETRY_DELAY_MS }
                } else {
                    Action::Fail(Error::StateFileAbsent { path: self.state_file.clone() })
                }
            },
            (Phase::Comparing, Event::Observed { current }) => {
                let news = detect_change(&self.previous, &current);
                let action = match &current {
                    Some(song) if news => Action::Notify(Notification::announce(song.clone())),
                    _ => {
                        self.phase = Phase::Idle;
                        Action::Register
                    },
                };
                self.previous = current;
                action
            },
            (Phase::Comparing, Event::Delivered) => {
                self.phase = Phase::Idle;
                Action::Register
            },
            _ => Action::Fail(Error::UnexpectedEvent),
        }
    }
}

/// The state file was looked for and found missing.
pub open spec fn miss() -> EventView {
    EventView::Probed { exists: false }
}

/// The state that follows `w` when the state file is found missing `count`
/// times in a row.
pub open spec fn after_misses(w: WatchView, count: nat) -> WatchView
    decreases count,
{
    if count == 0 {
        w
    } else {
        next(after_misses(w, (count - 1) as nat), miss()).0
    }
}

/// A state file that does not appear is looked for `ATTEMPT_CAP` times and
/// no more: while it has been found missing fewer times than that, the
/// loop looks again, and when it is found missing for the `ATTEMPT_CAP`th
/// time, the loop gives up.
pub proof fn lemma_materialization_is_bounded(w: WatchView, count: nat)
    requires
        w.phase == (Phase::Materializing { attempts: 0 }),
        count < ATTEMPT_CAP,
    ensures
        after_misses(w, count).phase == (Phase::Materializing { attempts: count as u32 }),
        after_misses(w, count).state_file == w.state_file,
        count + 1 < ATTEMPT_CAP ==> next(after_misses(w, count), miss()).1 == (
        ActionView::Probe { delay_ms: RETRY_DELAY_MS }),
        count + 1 == ATTEMPT_CAP ==> next(after_misses(w, count), miss()).1 == ActionView::Fail(
            ErrorView::StateFileAbsent { path: w.state_file },
        ),
    decreases count,
{
    if count > 0 {
        lemma_materialization_is_bounded(w, (count - 1) as nat);
    }
}

/// A song is announced once: when the state file names the song again
/// that it named when it was last read, nothing is sent.
pub proof fn lemma_same_song_is_silent(w: WatchView, current: Option<Seq<char>>)
    requires
        w.phase == Phase::Comparing,
    ensures
        ({
            let seen = next(w, EventView::Observed { current }).0;
            let again = WatchView { phase: Phase::Comparing, ..seen };
            next(again, EventView::Observed { current }).1 == ActionView::Register
        }),
{
}

/// Whatever is observed is remembered, news or not; and a notification is
/// sent exactly for news, with the song as its headline.
pub proof fn lemma_news_is_announced(w: WatchView, current: Option<Seq<char>>)
    requires
        w.phase == Phase::Comparing,
    ensures
        next(w, EventView::Observed { current }).0.previous == current,
        next(w, EventView::Observed { current }).1 is Notify <==> is_news(w.previous, current),
        is_news(w.previous, current) ==> next(w, EventView::Observed { current }).1
            == ActionView::Notify(announcement_of(current->0)),
{
}

} // verus!
