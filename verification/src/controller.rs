//! The overlay lifecycle controller.
//!
//! A single-threaded state machine owning the property snapshot, the
//! visibility state and the bookkeeping of the one auto-hide countdown
//! that may be pending. Each call of [`Controller::handle`] consumes one
//! message and returns the actions the surrounding process must perform:
//! opening or closing the surface, arming a countdown, cancelling one.
//!
//! Timers are identified by tokens the controller issues. Arming hands out
//! a fresh token; the expiry message carries the token of the timer that
//! fired, so an expiry whose timer was already superseded is recognized as
//! stale and ignored.

use vstd::prelude::*;

use crate::mpris::{all_absent, merged, removed, Properties};
use crate::update::Update;

verus! {

/// Which overlay content is showing.
#[derive(Clone, Copy, Debug, PartialEq, Eq, Structural)]
pub enum ShowingLayer {
    NoLayer,
    Media,
    Volume,
}

impl Default for ShowingLayer {
    /// Before any event there is nothing to show.
    fn default() -> (r: Self)
        ensures
            r == ShowingLayer::NoLayer,
    {
        ShowingLayer::NoLayer
    }
}

/// The handle of one armed auto-hide countdown: the token that identifies
/// it and the instant, in milliseconds, at which it is due.
#[derive(Clone, Copy, Debug, PartialEq, Eq, Structural)]
pub struct TimerHandle {
    pub token: u64,
    pub deadline: u64,
}

/// The open overlay surface: its opaque identifier and the handle of the
/// one auto-hide countdown pending for it.
#[derive(Clone, Copy, Debug, PartialEq, Eq, Structural)]
pub struct Window {
    pub id: u64,
    pub close_timer: TimerHandle,
}

/// What the surrounding process must do after a message was handled.
#[derive(Clone, Copy, Debug, PartialEq, Eq, Structural)]
pub enum Action {
    /// Create the overlay surface under this identifier.
    OpenWindow(u64),
    /// Destroy the overlay surface with this identifier.
    CloseWindow(u64),
    /// Start a countdown under this handle; at its deadline, feed
    /// `Message::TimerExpired` with the handle's token back in — unless the
    /// countdown is cancelled first, in which case it must not fire at all.
    ArmTimer(TimerHandle),
    /// Cancel the countdown issued under this token.
    CancelTimer(u64),
}

/// A mutation of the media snapshot.
#[derive(Debug, Clone)]
pub enum UpdateMedia {
    /// Substitute the whole snapshot.
    Replace(Properties),
    /// Merge a delta, field-wise last-writer-wins.
    Update(Properties),
    /// Clear the named fields back to unknown.
    Remove(Vec<String>),
}

/// A message consumed by the controller: the unified vocabulary every
/// event source is normalized into.
#[derive(Debug, Clone)]
pub enum Message {
    /// A media snapshot mutation; opens or refreshes the overlay.
    UpdateMedia(UpdateMedia),
    /// A recoverable failure to surface; opens or refreshes the overlay.
    Error(String),
    /// The user dismissed the overlay.
    Clicked,
    /// Playback activity was observed; opens or refreshes the overlay.
    OpenOrRefreshWindow,
    /// The countdown armed under this token ran out.
    TimerExpired(u64),
}

/// The overlay lifecycle controller's whole state.
#[derive(Debug)]
#[verifier::ext_equal]
pub struct Controller {
    /// The open surface, with its pending countdown; absent while closed.
    pub window: Option<Window>,
    /// The auto-hide timeout, in milliseconds.
    pub timeout: u64,
    pub showing_layer: ShowingLayer,
    /// The authoritative current media snapshot.
    pub media_status: Properties,
    /// The last surfaced failure, for display.
    pub error_message: Option<String>,
    /// The next timer token to issue; every token in use is below it.
    pub next_token: u64,
    /// The next surface identifier to issue.
    pub next_window_id: u64,
}

/// The auto-hide timeout used when nothing else is configured, in
/// milliseconds.
pub const DEFAULT_TIMEOUT_MILLIS: u64 = 2000;

/// Whether a message opens the overlay, or refreshes it when it is
/// already open: snapshot mutations, errors and observed activity all
/// qualify.
pub open spec fn is_refresh_event(m: Message) -> bool {
    ||| m is UpdateMedia
    ||| m is Error
    ||| m is OpenOrRefreshWindow
}

/// The snapshot-and-display part of a step: what the message does to the
/// media snapshot, the showing layer and the error message, before any
/// visibility decision.
pub open spec fn with_snapshot(c: Controller, m: Message) -> Controller {
    match m {
        Message::UpdateMedia(u) => Controller {
            showing_layer: ShowingLayer::Media,
            media_status: match u {
                UpdateMedia::Replace(p) => p,
                UpdateMedia::Update(p) => merged(c.media_status, p),
                UpdateMedia::Remove(names) => removed(
                    c.media_status,
                    names@.map_values(|s: String| s@),
                ),
            },
            ..c
        },
        Message::Error(e) => Controller { error_message: Some(e), ..c },
        _ => c,
    }
}

/// The timer handle a refresh at `now` arms: the next token, due a full
/// timeout later.
pub open spec fn armed_handle(c: Controller, now: u64) -> TimerHandle {
    TimerHandle { token: c.next_token, deadline: (now + c.timeout) as u64 }
}

/// The state after opening the overlay, or refreshing it when open: the
/// pending countdown is replaced by a fresh one for the full timeout, and
/// a closed overlay gets a fresh surface identifier.
pub open spec fn opened(c: Controller, now: u64) -> Controller {
    match c.window {
        Some(w) => Controller {
            window: Some(Window { id: w.id, close_timer: armed_handle(c, now) }),
            next_token: (c.next_token + 1) as u64,
            ..c
        },
        None => Controller {
            window: Some(Window { id: c.next_window_id, close_timer: armed_handle(c, now) }),
            next_token: (c.next_token + 1) as u64,
            next_window_id: (c.next_window_id + 1) as u64,
            ..c
        },
    }
}

/// The actions an open-or-refresh at `now` emits: a refresh cancels the
/// pending countdown before arming the fresh one; an open creates the
/// surface and arms the first countdown.
pub open spec fn open_actions(c: Controller, now: u64) -> Seq<Action> {
    match c.window {
        Some(w) => seq![
            Action::CancelTimer(w.close_timer.token),
            Action::ArmTimer(armed_handle(c, now)),
        ],
        None => seq![Action::OpenWindow(c.next_window_id), Action::ArmTimer(armed_handle(c, now))],
    }
}

/// The controller's transition function: the state after one message.
pub open spec fn next_state(c: Controller, m: Message, now: u64) -> Controller {
    if is_refresh_event(m) {
        opened(with_snapshot(c, m), now)
    } else {
        match m {
            Message::Clicked => Controller { window: None, ..c },
            Message::TimerExpired(token) => {
                if c.window matches Some(w) && w.close_timer.token == token {
                    Controller { window: None, ..c }
                } else {
                    c
                }
            },
            _ => c,
        }
    }
}

/// The actions one message makes the surrounding process perform.
pub open spec fn emitted(c: Controller, m: Message, now: u64) -> Seq<Action> {
    if is_refresh_event(m) {
        open_actions(with_snapshot(c, m), now)
    } else {
        match m {
            Message::Clicked => match c.window {
                Some(w) => seq![
                    Action::CancelTimer(w.close_timer.token),
                    Action::CloseWindow(w.id),
                ],
                None => Seq::empty(),
            },
            Message::TimerExpired(token) => match c.window {
                Some(w) => if w.close_timer.token == token {
                    seq![Action::CloseWindow(w.id)]
                } else {
                    Seq::empty()
                },
                None => Seq::empty(),
            },
            _ => Seq::empty(),
        }
    }
}

impl Controller {
    /// Well-formedness: the pending countdown's token, if any, was issued
    /// earlier, so the token the next refresh hands out is fresh.
    pub open spec fn wf(self) -> bool {
        self.window matches Some(w) ==> w.close_timer.token < self.next_token
    }

    /// Whether the overlay is visible.
    pub open spec fn is_open(self) -> bool {
        self.window is Some
    }

    /// The tokens of the auto-hide countdowns pending for this state: the
    /// open surface's one, or none at all. By construction there is never
    /// more than one.
    pub open spec fn pending_timers(self) -> Set<u64> {
        match self.window {
            Some(w) => set![w.close_timer.token],
            None => Set::empty(),
        }
    }

    /// A freshly started controller: overlay closed, snapshot empty, no
    /// failure recorded, no countdown pending.
    pub fn new(timeout: u64) -> (c: Controller)
        ensures
            c.window is None,
            c.timeout == timeout,
            c.showing_layer == ShowingLayer::NoLayer,
            all_absent(c.media_status),
            c.error_message is None,
            c.next_token == 0,
            c.next_window_id == 0,
    {
        Controller {
            window: None,
            timeout,
            showing_layer: ShowingLayer::default(),
            media_status: Properties::default(),
            error_message: None,
            next_token: 0,
            next_window_id: 0,
        }
    }

    /// Open the overlay, or replace its pending countdown with a fresh one
    /// when it is already open.
    fn open_or_refresh(&mut self, now: u64) -> (actions: Vec<Action>)
        requires
            old(self).next_token < u64::MAX,
            old(self).next_window_id < u64::MAX,
            now + old(self).timeout <= u64::MAX,
        ensures
            *final(self) == opened(*old(self), now),
            actions@ == open_actions(*old(self), now),
    {
        let handle = TimerHandle { token: self.next_token, deadline: now + self.timeout };
        self.next_token = self.next_token + 1;
        let mut actions: Vec<Action> = Vec::new();
        match self.window.take() {
            Some(w) => {
                actions.push(Action::CancelTimer(w.close_timer.token));
                actions.push(Action::ArmTimer(handle));
                self.window = Some(Window { id: w.id, close_timer: handle });
                proof {
                    assert(*self =~= opened(*old(self), now));
                    assert(actions@ =~= open_actions(*old(self), now));
                }
            },
            None => {
                let id = self.next_window_id;
                self.next_window_id = self.next_window_id + 1;
                actions.push(Action::OpenWindow(id));
                actions.push(Action::ArmTimer(handle));
                self.window = Some(Window { id, close_timer: handle });
                proof {
                    assert(*self =~= opened(*old(self), now));
                    assert(actions@ =~= open_actions(*old(self), now));
                }
            },
        }
        actions
    }

    /// Consume one message at instant `now` (milliseconds): mutate the
    /// snapshot as the message says, decide the visibility transition, and
    /// hand back the actions to perform. The countdown bookkeeping and the
    /// counters take one atomic step, so no two timers are ever left
    /// pending and a stale expiry never closes a newer window.
    pub fn handle(&mut self, message: Message, now: u64) -> (actions: Vec<Action>)
        requires
            is_refresh_event(message) ==> {
                &&& old(self).next_token < u64::MAX
                &&& old(self).next_window_id < u64::MAX
                &&& now + old(self).timeout <= u64::MAX
            },
        ensures
            *final(self) == next_state(*old(self), message, now),
            actions@ == emitted(*old(self), message, now),
    {
        match message {
            Message::UpdateMedia(update) => {
                self.showing_layer = ShowingLayer::Media;
                match update {
                    UpdateMedia::Replace(properties) => {
                        self.media_status = properties;
                    },
                    UpdateMedia::Update(properties) => {
                        self.media_status.update(properties);
                    },
                    UpdateMedia::Remove(properties) => {
                        self.media_status.remove(properties.as_slice());
                    },
                }
                let actions = self.open_or_refresh(now);
                proof {
                    assert(*self =~= next_state(*old(self), message, now));
                }
                actions
            },
            Message::Error(e) => {
                self.error_message = Some(e);
                let actions = self.open_or_refresh(now);
                proof {
                    assert(*self =~= next_state(*old(self), message, now));
                }
                actions
            },
            Message::OpenOrRefreshWindow => {
                let actions = self.open_or_refresh(now);
                proof {
                    assert(*self =~= next_state(*old(self), message, now));
                }
                actions
            },
            Message::Clicked => {
                let mut actions: Vec<Action> = Vec::new();
                match self.window.take() {
                    Some(w) => {
                        actions.push(Action::CancelTimer(w.close_timer.token));
                        actions.push(Action::CloseWindow(w.id));
                    },
                    None => {},
                }
                proof {
                    assert(*self =~= next_state(*old(self), message, now));
                    assert(actions@ =~= emitted(*old(self), message, now));
                }
                actions
            },
            Message::TimerExpired(token) => {
                let mut actions: Vec<Action> = Vec::new();
                let stale = match &self.window {
                    Some(w) => w.close_timer.token != token,
                    None => true,
                };
                if !stale {
                    match self.window.take() {
                        Some(w) => {
                            actions.push(Action::CloseWindow(w.id));
                        },
                        None => {},
                    }
                }
                proof {
                    assert(*self =~= next_state(*old(self), message, now));
                    assert(actions@ =~= emitted(*old(self), message, now));
                }
                actions
            },
        }
    }
}

/// The timers still pending from the surrounding process's point of view
/// after it performs `acts`, starting from the pending set `pending`:
/// arming adds the handle's token, cancelling removes the token, the
/// window actions touch no timer.
pub open spec fn timers_after(pending: Set<u64>, acts: Seq<Action>) -> Set<u64>
    decreases acts.len(),
{
    if acts.len() == 0 {
        pending
    } else {
        let p = timers_after(pending, acts.drop_last());
        match acts.last() {
            Action::ArmTimer(h) => p.insert(h.token),
            Action::CancelTimer(token) => p.remove(token),
            _ => p,
        }
    }
}

/// A countdown that fired is spent the moment its expiry message is
/// handled: it leaves the pending set whether or not it still matches.
pub open spec fn consumed(pending: Set<u64>, m: Message) -> Set<u64> {
    match m {
        Message::TimerExpired(token) => pending.remove(token),
        _ => pending,
    }
}

/// One step keeps the countdown bookkeeping honest: performing the
/// emitted actions takes the world's pending set to exactly the one the
/// next state records — and a refresh of an open overlay cancels the
/// pending countdown *before* arming its replacement.
pub proof fn lemma_step_preserves_pending(c: Controller, m: Message, now: u64)
    ensures
        timers_after(consumed(c.pending_timers(), m), emitted(c, m, now)) == next_state(
            c,
            m,
            now,
        ).pending_timers(),
        c.window matches Some(w) ==> is_refresh_event(m) ==> emitted(c, m, now).len() == 2
            && emitted(c, m, now)[0] == Action::CancelTimer(w.close_timer.token) && emitted(
            c,
            m,
            now,
        )[1] == Action::ArmTimer(armed_handle(with_snapshot(c, m), now)),
{
    reveal_with_fuel(timers_after, 3);
    let pending = c.pending_timers();
    let acts = emitted(c, m, now);
    let goal = next_state(c, m, now).pending_timers();
    if is_refresh_event(m) {
        let c1 = with_snapshot(c, m);
        let h = armed_handle(c1, now);
        match c.window {
            Some(w) => {
                let tk = w.close_timer.token;
                assert(acts =~= seq![Action::CancelTimer(tk), Action::ArmTimer(h)]);
                assert(acts.drop_last() =~= seq![Action::CancelTimer(tk)]);
                assert(acts.drop_last().drop_last() =~= Seq::<Action>::empty());
                assert(timers_after(consumed(pending, m), acts) =~= set![h.token]);
                assert(goal =~= set![h.token]);
            },
            None => {
                assert(acts =~= seq![Action::OpenWindow(c1.next_window_id), Action::ArmTimer(h)]);
                assert(acts.drop_last() =~= seq![Action::OpenWindow(c1.next_window_id)]);
                assert(acts.drop_last().drop_last() =~= Seq::<Action>::empty());
                assert(timers_after(consumed(pending, m), acts) =~= set![h.token]);
                assert(goal =~= set![h.token]);
            },
        }
    } else {
        match m {
            Message::Clicked => {
                match c.window {
                    Some(w) => {
                        let tk = w.close_timer.token;
                        assert(acts =~= seq![
                            Action::CancelTimer(tk),
                            Action::CloseWindow(w.id),
                        ]);
                        assert(acts.drop_last() =~= seq![Action::CancelTimer(tk)]);
                        assert(acts.drop_last().drop_last() =~= Seq::<Action>::empty());
                        assert(timers_after(consumed(pending, m), acts) =~= Set::<u64>::empty());
                        assert(goal =~= Set::<u64>::empty());
                    },
                    None => {
                        assert(timers_after(consumed(pending, m), acts) =~= Set::<u64>::empty());
                        assert(goal =~= Set::<u64>::empty());
                    },
                }
            },
            Message::TimerExpired(token) => {
                match c.window {
                    Some(w) => {
                        if w.close_timer.token == token {
                            assert(acts =~= seq![Action::CloseWindow(w.id)]);
                            assert(acts.drop_last() =~= Seq::<Action>::empty());
                            assert(timers_after(consumed(pending, m), acts) =~= Set::<
                                u64,
                            >::empty());
                            assert(goal =~= Set::<u64>::empty());
                        } else {
                            assert(timers_after(consumed(pending, m), acts) =~= pending);
                            assert(goal =~= pending);
                        }
                    },
                    None => {
                        assert(timers_after(consumed(pending, m), acts) =~= Set::<u64>::empty());
                        assert(goal =~= Set::<u64>::empty());
                    },
                }
            },
            _ => {},
        }
    }
}

/// A step keeps the controller well-formed: the freshly armed countdown
/// carries the newest token, below the advanced counter.
pub proof fn lemma_step_preserves_wf(c: Controller, m: Message, now: u64)
    requires
        c.wf(),
        is_refresh_event(m) ==> c.next_token < u64::MAX,
    ensures
        next_state(c, m, now).wf(),
{
}

/// The controller state reached after consuming the timestamped messages
/// of `evs`, oldest first.
pub open spec fn run_state(c: Controller, evs: Seq<(Message, u64)>) -> Controller
    decreases evs.len(),
{
    if evs.len() == 0 {
        c
    } else {
        next_state(run_state(c, evs.drop_last()), evs.last().0, evs.last().1)
    }
}

/// The world's pending countdowns after consuming the messages of `evs`
/// and performing every action each step emitted.
pub open spec fn run_pending(c: Controller, evs: Seq<(Message, u64)>) -> Set<u64>
    decreases evs.len(),
{
    if evs.len() == 0 {
        c.pending_timers()
    } else {
        let prev = evs.drop_last();
        timers_after(
            consumed(run_pending(c, prev), evs.last().0),
            emitted(run_state(c, prev), evs.last().0, evs.last().1),
        )
    }
}

/// At most one auto-hide countdown is ever pending. After any sequence of
/// messages, the countdowns the world still has pending — armed, not
/// cancelled, not spent by their own expiry — are exactly the one the
/// controller's state records: one while the overlay is open, none once
/// it is closed.
pub proof fn lemma_at_most_one_pending_timer(c: Controller, evs: Seq<(Message, u64)>)
    ensures
        run_pending(c, evs) == run_state(c, evs).pending_timers(),
        run_state(c, evs).is_open() ==> run_pending(c, evs).len() == 1,
        !run_state(c, evs).is_open() ==> run_pending(c, evs).len() == 0,
    decreases evs.len(),
{
    if evs.len() > 0 {
        lemma_at_most_one_pending_timer(c, evs.drop_last());
        lemma_step_preserves_pending(run_state(c, evs.drop_last()), evs.last().0, evs.last().1);
    }
    let end = run_state(c, evs);
    match end.window {
        Some(w) => {
            assert(end.pending_timers() =~= Set::<u64>::empty().insert(w.close_timer.token));
            assert(end.pending_timers().len() == 1);
        },
        None => {
            assert(end.pending_timers().len() == 0);
        },
    }
}

/// Debounce: every qualifying event restarts the countdown for the full
/// timeout. After three qualifying events the overlay was open the whole
/// time and the one pending countdown is due a full timeout after the
/// *last* event, not the first; the countdowns armed for the two earlier
/// events are gone, so even a late expiry under their tokens changes
/// nothing, while the last countdown's expiry closes the overlay.
pub proof fn lemma_debounce(
    c: Controller,
    m0: Message,
    m1: Message,
    m2: Message,
    t0: u64,
    t1: u64,
    t2: u64,
    later: u64,
)
    requires
        is_refresh_event(m0),
        is_refresh_event(m1),
        is_refresh_event(m2),
        c.next_token + 2 <= u64::MAX,
        t2 + c.timeout <= u64::MAX,
    ensures
        ({
            let c1 = next_state(c, m0, t0);
            let c2 = next_state(c1, m1, t1);
            let c3 = next_state(c2, m2, t2);
            &&& c1.is_open()
            &&& c2.is_open()
            &&& c3.is_open()
            &&& c3.window->0.close_timer.deadline == t2 + c.timeout
            &&& c3.window->0.close_timer.token == c.next_token + 2
            &&& next_state(c3, Message::TimerExpired(c.next_token), later) == c3
            &&& emitted(c3, Message::TimerExpired(c.next_token), later) == Seq::<Action>::empty()
            &&& next_state(c3, Message::TimerExpired((c.next_token + 1) as u64), later) == c3
            &&& emitted(c3, Message::TimerExpired((c.next_token + 1) as u64), later) == Seq::<
                Action,
            >::empty()
            &&& !next_state(c3, Message::TimerExpired((c.next_token + 2) as u64), later).is_open()
        }),
{
    let c1 = next_state(c, m0, t0);
    let c2 = next_state(c1, m1, t1);
    let c3 = next_state(c2, m2, t2);
    assert(next_state(c3, Message::TimerExpired(c.next_token), later) =~= c3);
    assert(next_state(c3, Message::TimerExpired((c.next_token + 1) as u64), later) =~= c3);
}

/// An explicit dismissal while the overlay is open closes it and cancels
/// the pending countdown before the close — and should that countdown
/// fire late anyway, its expiry is recognized as stale: it changes no
/// state and emits no action, so nothing is closed twice.
pub proof fn lemma_dismiss_cancels_pending_close(
    c: Controller,
    w: Window,
    t_dismiss: u64,
    t_late: u64,
)
    requires
        c.window == Some(w),
    ensures
        ({
            let closed = next_state(c, Message::Clicked, t_dismiss);
            &&& !closed.is_open()
            &&& emitted(c, Message::Clicked, t_dismiss) == seq![
                Action::CancelTimer(w.close_timer.token),
                Action::CloseWindow(w.id),
            ]
            &&& next_state(closed, Message::TimerExpired(w.close_timer.token), t_late) == closed
            &&& emitted(closed, Message::TimerExpired(w.close_timer.token), t_late) == Seq::<
                Action,
            >::empty()
        }),
{
    let closed = next_state(c, Message::Clicked, t_dismiss);
    assert(next_state(closed, Message::TimerExpired(w.close_timer.token), t_late) =~= closed);
}

} // verus!
