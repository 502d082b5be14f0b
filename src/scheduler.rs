use vstd::prelude::*;
use vstd::string::*;
use crate::clock::{Delay, day_nanos};
use crate::opt_view;

verus! {

/// Text sent when no strip could be found.
pub open spec fn fallback_text() -> Seq<char> {
    "I couldn't find the Garfield comic :cold_sweat:"@
}

/// Name used in a report when the channel's own name cannot be had.
pub open spec fn unknown_channel() -> Seq<char> {
    "unknown channel"@
}

/// Start of the line reported when a message could not be sent.
pub open spec fn failure_prefix() -> Seq<char> {
    "Failed to send message in: "@
}

/// The body sent for the result of a search: the image address, or the
/// fallback text.
pub open spec fn message_text(found: Option<Seq<char>>) -> Seq<char> {
    match found {
        Some(u) => u,
        None => fallback_text(),
    }
}

/// The report for a failed send, naming the channel where its name is known.
pub open spec fn failure_text(name: Option<Seq<char>>) -> Seq<char> {
    failure_prefix() + match name {
        Some(n) => n,
        None => unknown_channel(),
    }
}

/// The message for the result of a search.
pub fn message_for(found: Option<String>) -> (r: String)
    ensures
        r@ == message_text(opt_view(found)),
{
    match found {
        Some(u) => u,
        None => {
            proof {
                reveal_strlit("I couldn't find the Garfield comic :cold_sweat:");
            }
            String::from_str("I couldn't find the Garfield comic :cold_sweat:")
        },
    }
}

/// The line that reports a failed send to the channel called `name`, if known.
pub fn failure_line(name: Option<String>) -> (r: String)
    ensures
        r@ == failure_text(opt_view(name)),
{
    proof {
        reveal_strlit("Failed to send message in: ");
        reveal_strlit("unknown channel");
    }
    let line = String::from_str("Failed to send message in: ");
    match name {
        Some(n) => line.concat(n.as_str()),
        None => line.concat("unknown channel"),
    }
}

/// Where a channel's loop stands.
#[derive(Clone, Copy, Debug, PartialEq, Eq, Structural)]
pub enum Phase {
    /// Sleeping until the shared start time.
    WaitingInitial,
    /// Looking for today's strip.
    Fetching,
    /// Sending the message.
    Delivering,
    /// Looking up the channel's name after a failed send.
    Reporting,
    /// Sleeping a day until the next cycle.
    WaitingNext,
}

/// What the outside world reports back to a channel's loop.
#[derive(Debug)]
pub enum Event {
    /// A sleep has ended.
    Woke,
    /// The search for today's strip ended with this image, if any.
    Resolved(Option<String>),
    /// The send succeeded (`true`) or failed.
    Delivered(bool),
    /// The lookup of the channel's name ended with this name, if any.
    NameLookedUp(Option<String>),
}

/// What a channel's loop asks the outside world to do next.
#[derive(Debug)]
pub enum Action {
    /// Search for today's strip.
    Resolve,
    /// Send this text to the channel.
    Send(String),
    /// Look up the channel's display name.
    LookupName,
    /// Write `log`, if any, then sleep for `delay`.
    Sleep { delay: Delay, log: Option<String> },
}

/// One destination's repeating cycle: an initial sleep, then search, send, and
/// a day's sleep, over and over.
#[derive(Debug)]
pub struct ChannelLoop {
    pub destination: u64,
    pub start_delay: Delay,
    pub phase: Phase,
}

/// Whether a loop in `phase` takes the event `e`.
pub open spec fn accepts_event(phase: Phase, e: Event) -> bool {
    match e {
        Event::Woke => phase == Phase::WaitingInitial || phase == Phase::WaitingNext,
        Event::Resolved(_) => phase == Phase::Fetching,
        Event::Delivered(_) => phase == Phase::Delivering,
        Event::NameLookedUp(_) => phase == Phase::Reporting,
    }
}

/// The phase that follows `phase` on the event `e`.
pub open spec fn next_phase(phase: Phase, e: Event) -> Phase {
    match e {
        Event::Woke => Phase::Fetching,
        Event::Resolved(_) => Phase::Delivering,
        Event::Delivered(ok) => if ok {
            Phase::WaitingNext
        } else {
            Phase::Reporting
        },
        Event::NameLookedUp(_) => Phase::WaitingNext,
    }
}

/// Whether `a` is a day's sleep, with the given line to write first.
pub open spec fn is_day_sleep(a: Action, log: Option<Seq<char>>) -> bool {
    a matches Action::Sleep { delay, log: l } && delay.wf() && delay.total_nanos() == day_nanos()
        && opt_view(l) == log
}

/// The action that goes with the event `e` taken in any phase that accepts it.
pub open spec fn action_for(e: Event, a: Action) -> bool {
    match e {
        Event::Woke => a is Resolve,
        Event::Resolved(found) => a matches Action::Send(m) && m@ == message_text(opt_view(found)),
        Event::Delivered(ok) => if ok {
            is_day_sleep(a, None)
        } else {
            a is LookupName
        },
        Event::NameLookedUp(name) => is_day_sleep(a, Some(failure_text(opt_view(name)))),
    }
}

impl ChannelLoop {
    /// A loop for `destination` that starts after `start_delay`.
    pub fn new(destination: u64, start_delay: Delay) -> (r: ChannelLoop)
        ensures
            r.destination == destination,
            r.start_delay == start_delay,
            r.phase == Phase::WaitingInitial,
    {
        ChannelLoop { destination, start_delay, phase: Phase::WaitingInitial }
    }

    /// The first action of a loop: sleep until the shared start time.
    pub fn initial_action(&self) -> (r: Action)
        ensures
            r matches Action::Sleep { delay, log } && delay == self.start_delay && log is None,
    {
        Action::Sleep { delay: self.start_delay, log: None }
    }

    /// Whether the loop takes the event `e` in its present phase.
    pub fn accepts(&self, e: &Event) -> (r: bool)
        ensures
            r == accepts_event(self.phase, *e),
    {
        match e {
            Event::Woke => self.phase == Phase::WaitingInitial || self.phase == Phase::WaitingNext,
            Event::Resolved(_) => self.phase == Phase::Fetching,
            Event::Delivered(_) => self.phase == Phase::Delivering,
            Event::NameLookedUp(_) => self.phase == Phase::Reporting,
        }
    }

    /// Takes the event `e` and returns what to do next.
    pub fn step(&mut self, e: Event) -> (r: Action)
        requires
            accepts_event(old(self).phase, e),
        ensures
            final(self).phase == next_phase(old(self).phase, e),
            final(self).destination == old(self).destination,
            final(self).start_delay == old(self).start_delay,
            action_for(e, r),
    {
        match e {
            Event::Woke => {
                self.phase = Phase::Fetching;
                Action::Resolve
            },
            Event::Resolved(found) => {
                self.phase = Phase::Delivering;
                Action::Send(message_for(found))
            },
            Event::Delivered(ok) => if ok {
                self.phase = Phase::WaitingNext;
                Action::Sleep { delay: Delay::one_day(), log: None }
            } else {
                self.phase = Phase::Reporting;
                Action::LookupName
            },
            Event::NameLookedUp(name) => {
                self.phase = Phase::WaitingNext;
                Action::Sleep { delay: Delay::one_day(), log: Some(failure_line(name)) }
            },
        }
    }
}

/// Whether `loops` holds one loop per entry of `destinations`, in order, each
/// waiting to start after `delay`.
pub open spec fn started_for(destinations: Seq<u64>, loops: Seq<ChannelLoop>, delay: Delay) -> bool {
    &&& loops.len() == destinations.len()
    &&& forall|i: int|
        0 <= i < loops.len() ==> (#[trigger] loops[i]).destination == destinations[i]
            && loops[i].phase == Phase::WaitingInitial && loops[i].start_delay == delay
}

/// One loop for each configured destination, all sharing the start delay.
pub fn start_loops(destinations: &Vec<u64>, delay: Delay) -> (r: Vec<ChannelLoop>)
    ensures
        started_for(destinations@, r@, delay),
{
    let mut loops: Vec<ChannelLoop> = Vec::new();
    let mut i: usize = 0;
    while i < destinations.len()
        invariant
            i <= destinations@.len(),
            started_for(destinations@.take(i as int), loops@, delay),
        decreases destinations@.len() - i,
    {
        loops.push(ChannelLoop::new(destinations[i], delay));
        i = i + 1;
        assert(destinations@.take(i as int) =~= destinations@.take(i - 1).push(destinations@[i - 1]));
    }
    assert(destinations@.take(i as int) =~= destinations@);
    loops
}

/// The loops started are exactly the configured destinations: one loop per
/// configured entry, every loop's destination configured, every configured
/// destination served, and each loop with its own state.
pub proof fn lemma_one_loop_per_destination(
    destinations: Seq<u64>,
    loops: Seq<ChannelLoop>,
    delay: Delay,
)
    requires
        started_for(destinations, loops, delay),
    ensures
        loops.len() == destinations.len(),
        loops.map_values(|l: ChannelLoop| l.destination) == destinations,
        loops.map_values(|l: ChannelLoop| l.destination).to_set() == destinations.to_set(),
{
    assert(loops.map_values(|l: ChannelLoop| l.destination) =~= destinations);
}

/// Whatever the outcome of a send, the loop goes back to a day's sleep: at
/// once after a success, and after one name lookup and a report otherwise.
pub proof fn lemma_send_outcome_leads_to_sleep(ok: bool, name: Option<String>, a1: Action, a2: Action)
    requires
        action_for(Event::Delivered(ok), a1),
        !ok ==> action_for(Event::NameLookedUp(name), a2),
    ensures
        next_phase(Phase::Delivering, Event::Delivered(ok)) == (if ok {
            Phase::WaitingNext
        } else {
            Phase::Reporting
        }),
        ok ==> is_day_sleep(a1, None),
        !ok ==> a1 is LookupName && next_phase(Phase::Reporting, Event::NameLookedUp(name))
            == Phase::WaitingNext && is_day_sleep(a2, Some(failure_text(opt_view(name)))),
{
}

} // verus!
