//! The Router: the single consumer of the transport's event stream.
//!
//! It tracks session identity across reconnects, asks for a
//! (re)subscription exactly once per new session, and forwards one
//! redemption signal per notification.  The channels and the Subscriber's
//! REST calls belong to the surrounding program; the Router decides, one
//! event at a time, what must happen.

use vstd::prelude::*;

use crate::log::StatusLog;

verus! {

/// One decoded message from the transport stream.
#[derive(Clone, Debug)]
pub enum Event {
    /// A new or renewed session identity.
    Welcome { session_id: String },
    /// A redemption occurred.
    Notification,
    /// Any other message kind; the Router ignores it.
    Other,
}

/// Ghost view of one transport event.
pub enum EventView {
    Welcome { session_id: Seq<char> },
    Notification,
    Other,
}

impl View for Event {
    type V = EventView;

    open spec fn view(&self) -> EventView {
        match self {
            Event::Welcome { session_id } => EventView::Welcome { session_id: session_id@ },
            Event::Notification => EventView::Notification,
            Event::Other => EventView::Other,
        }
    }
}

/// What the Router asks its caller to do with the event it consumed.
#[derive(Clone, Debug)]
pub enum RouterAction {
    /// Put one redemption signal on the Notifier's channel.
    ForwardSignal,
    /// Run the Subscriber for this session, then record the outcome.
    StartSubscription { session_id: String },
    /// Nothing to do.
    Ignore,
}

/// Ghost view of a Router action.
pub enum RouterActionView {
    ForwardSignal,
    StartSubscription { session_id: Seq<char> },
    Ignore,
}

impl View for RouterAction {
    type V = RouterActionView;

    open spec fn view(&self) -> RouterActionView {
        match self {
            RouterAction::ForwardSignal => RouterActionView::ForwardSignal,
            RouterAction::StartSubscription { session_id } => RouterActionView::StartSubscription {
                session_id: session_id@,
            },
            RouterAction::Ignore => RouterActionView::Ignore,
        }
    }
}

/// The Router's state across events: how many welcomes the process has
/// seen, and which session, if any, is currently subscribed.
#[derive(Clone, Debug)]
pub struct Router {
    pub welcome_count: u64,
    pub subscribed_session: Option<String>,
}

/// Ghost view of the Router's state.
pub struct RouterView {
    pub welcome_count: nat,
    pub subscribed_session: Option<Seq<char>>,
}

impl View for Router {
    type V = RouterView;

    open spec fn view(&self) -> RouterView {
        RouterView {
            welcome_count: self.welcome_count as nat,
            subscribed_session: match self.subscribed_session {
                Some(s) => Some(s@),
                None => None,
            },
        }
    }
}

/// What one event does to the Router: a notification is forwarded as a
/// signal, a welcome raises the welcome count and asks for a
/// subscription unless this very session already has one, anything
/// else is ignored.
pub open spec fn router_transition(s: RouterView, ev: EventView) -> (RouterView, RouterActionView) {
    match ev {
        EventView::Notification => (s, RouterActionView::ForwardSignal),
        EventView::Welcome { session_id } => {
            let raised = RouterView {
                welcome_count: s.welcome_count + 1,
                subscribed_session: s.subscribed_session,
            };
            if s.subscribed_session == Some(session_id) {
                (raised, RouterActionView::Ignore)
            } else {
                (raised, RouterActionView::StartSubscription { session_id })
            }
        },
        EventView::Other => (s, RouterActionView::Ignore),
    }
}

/// The connection line the transcript gets on a welcome: the first one
/// of the process reads "connected", every later one "reconnected".
pub open spec fn welcome_text(prior_welcomes: nat) -> Seq<char> {
    if prior_welcomes == 0 {
        "Connected to Twitch!"@
    } else {
        "Reconnected to Twitch!"@
    }
}

/// The confirmation line written once a session's subscription stands.
pub open spec fn subscribed_text() -> Seq<char> {
    "Subscribed to redemption notifications!\nWaiting for redemptions..."@
}

impl Router {
    /// A Router that has seen no welcome and holds no subscription.
    pub fn new() -> (r: Router)
        ensures
            r@.welcome_count == 0,
            r@.subscribed_session is None,
    {
        Router { welcome_count: 0, subscribed_session: None }
    }

    /// Whether this session is the one whose subscription stands.
    pub fn is_subscribed(&self, session_id: &String) -> (r: bool)
        ensures
            r == (self@.subscribed_session == Some(session_id@)),
    {
        match &self.subscribed_session {
            Some(s) => *s == *session_id,
            None => false,
        }
    }

    /// Consumes one transport event: the state and the action follow
    /// [`router_transition`], and a welcome writes its connection line.
    pub fn on_event(&mut self, event: Event, output: &mut StatusLog) -> (a: RouterAction)
        requires
            old(self).welcome_count < u64::MAX,
        ensures
            (final(self)@, a@) == router_transition(old(self)@, event@),
            event is Welcome ==> final(output)@ == old(output)@.push(
                welcome_text(old(self)@.welcome_count),
            ),
            !(event is Welcome) ==> final(output)@ == old(output)@,
    {
        match event {
            Event::Notification => RouterAction::ForwardSignal,
            Event::Welcome { session_id } => {
                self.welcome_count = self.welcome_count + 1;
                if self.welcome_count == 1 {
                    output.append("Connected to Twitch!".to_owned());
                } else {
                    output.append("Reconnected to Twitch!".to_owned());
                }
                if self.is_subscribed(&session_id) {
                    RouterAction::Ignore
                } else {
                    RouterAction::StartSubscription { session_id }
                }
            },
            Event::Other => RouterAction::Ignore,
        }
    }

    /// Records that the Subscriber succeeded for this session and
    /// writes the confirmation line.  A failed subscription never
    /// reaches this point: it terminates the Router instead.
    pub fn record_subscription(&mut self, session_id: String, output: &mut StatusLog)
        ensures
            final(self)@.welcome_count == old(self)@.welcome_count,
            final(self)@.subscribed_session == Some(session_id@),
            final(output)@ == old(output)@.push(subscribed_text()),
    {
        self.subscribed_session = Some(session_id);
        output.append("Subscribed to redemption notifications!\nWaiting for redemptions...".to_owned());
    }
}

/// One step of the supervised run, on the path where every asked-for
/// subscription succeeds: the Router consumes the event and, where it
/// asks for a subscription, the session is recorded.  (A subscription
/// failure terminates the Router, so a longer run never follows one.)
pub open spec fn router_run_step(s: RouterView, ev: EventView) -> (RouterView, RouterActionView) {
    let (stepped, a) = router_transition(s, ev);
    match a {
        RouterActionView::StartSubscription { session_id } => (
            RouterView { welcome_count: stepped.welcome_count, subscribed_session: Some(session_id) },
            a,
        ),
        _ => (stepped, a),
    }
}

/// The Router's actions over a whole event sequence, oldest event first.
pub open spec fn router_run(s: RouterView, events: Seq<EventView>) -> (RouterView, Seq<
    RouterActionView,
>)
    decreases events.len(),
{
    if events.len() == 0 {
        (s, Seq::empty())
    } else {
        let (after_first, a) = router_run_step(s, events[0]);
        let (end, rest) = router_run(after_first, events.skip(1));
        (end, seq![a] + rest)
    }
}

pub open spec fn count_notifications(events: Seq<EventView>) -> nat
    decreases events.len(),
{
    if events.len() == 0 {
        0
    } else {
        (if events[0] is Notification {
            1nat
        } else {
            0nat
        }) + count_notifications(events.skip(1))
    }
}

pub open spec fn count_forwarded(actions: Seq<RouterActionView>) -> nat
    decreases actions.len(),
{
    if actions.len() == 0 {
        0
    } else {
        (if actions[0] is ForwardSignal {
            1nat
        } else {
            0nat
        }) + count_forwarded(actions.skip(1))
    }
}

/// Law: over any sequence of events, the Router forwards exactly one
/// redemption signal per `Notification` event — no other event kind
/// produces one, and none is dropped or merged.
pub proof fn lemma_one_signal_per_notification(s: RouterView, events: Seq<EventView>)
    ensures
        count_forwarded(router_run(s, events).1) == count_notifications(events),
    decreases events.len(),
{
    if events.len() == 0 {
    } else {
        let (after_first, a) = router_run_step(s, events[0]);
        let rest = router_run(after_first, events.skip(1)).1;
        lemma_one_signal_per_notification(after_first, events.skip(1));
        assert((seq![a] + rest)[0] == a);
        assert((seq![a] + rest).skip(1) =~= rest);
        assert(a is ForwardSignal <==> events[0] is Notification);
    }
}

/// Law: two consecutive welcomes with distinct session ids invoke the
/// Subscriber exactly twice, once per session, in arrival order.
pub proof fn lemma_distinct_welcomes_subscribe_each(s: RouterView, sid1: Seq<char>, sid2: Seq<char>)
    requires
        s.subscribed_session != Some(sid1),
        sid1 != sid2,
    ensures
        router_run(
            s,
            seq![
                EventView::Welcome { session_id: sid1 },
                EventView::Welcome { session_id: sid2 },
            ],
        ).1 =~= seq![
            RouterActionView::StartSubscription { session_id: sid1 },
            RouterActionView::StartSubscription { session_id: sid2 },
        ],
{
    let events = seq![
        EventView::Welcome { session_id: sid1 },
        EventView::Welcome { session_id: sid2 },
    ];
    let (after_first, a1) = router_run_step(s, events[0]);
    assert(a1 == (RouterActionView::StartSubscription { session_id: sid1 }));
    assert(after_first.subscribed_session == Some(sid1));
    let tail = seq![EventView::Welcome { session_id: sid2 }];
    assert(events.skip(1) =~= tail);
    let (after_second, a2) = router_run_step(after_first, tail[0]);
    assert(a2 == (RouterActionView::StartSubscription { session_id: sid2 }));
    assert(tail.skip(1) =~= Seq::<EventView>::empty());
    assert(router_run(after_second, tail.skip(1)).1 == Seq::<RouterActionView>::empty());
    assert(router_run(after_first, tail).1 == seq![a2] + Seq::<RouterActionView>::empty());
    assert(router_run(s, events).1 == seq![a1] + router_run(after_first, tail).1);
    assert(router_run(s, events).1 =~= seq![a1, a2]);
}

/// Law: a second welcome that carries the very session id whose
/// subscription already stands does not invoke the Subscriber again.
pub proof fn lemma_repeated_welcome_subscribes_once(s: RouterView, sid: Seq<char>)
    requires
        s.subscribed_session != Some(sid),
    ensures
        router_run(
            s,
            seq![
                EventView::Welcome { session_id: sid },
                EventView::Welcome { session_id: sid },
            ],
        ).1 =~= seq![
            RouterActionView::StartSubscription { session_id: sid },
            RouterActionView::Ignore,
        ],
{
    let events = seq![
        EventView::Welcome { session_id: sid },
        EventView::Welcome { session_id: sid },
    ];
    let (after_first, a1) = router_run_step(s, events[0]);
    assert(a1 == (RouterActionView::StartSubscription { session_id: sid }));
    assert(after_first.subscribed_session == Some(sid));
    let tail = seq![EventView::Welcome { session_id: sid }];
    assert(events.skip(1) =~= tail);
    let (after_second, a2) = router_run_step(after_first, tail[0]);
    assert(a2 is Ignore);
    assert(tail.skip(1) =~= Seq::<EventView>::empty());
    assert(router_run(after_second, tail.skip(1)).1 == Seq::<RouterActionView>::empty());
    assert(router_run(after_first, tail).1 == seq![a2] + Seq::<RouterActionView>::empty());
    assert(router_run(s, events).1 == seq![a1] + router_run(after_first, tail).1);
    assert(router_run(s, events).1 =~= seq![a1, a2]);
}

} // verus!
