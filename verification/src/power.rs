//! The power source, and the monitor that turns readings and change
//! notifications into a stream of transitions without repeats.

use vstd::prelude::*;

verus! {

/// Current power state.
#[derive(Debug, Clone, Copy, PartialEq, Eq, Hash, Structural)]
pub enum PowerState {
    AC,
    Battery,
}

/// Where the monitor stands.
#[derive(Debug, Clone, Copy, PartialEq, Eq, Structural)]
pub enum MonitorPhase {
    /// The current state has not been read yet.
    Initializing,
    /// Waiting for change notifications.
    EventSubscribed,
    /// Reading the indicator at a fixed interval.
    Polling,
    /// The consumer is gone; nothing more is emitted.
    Closed,
}

/// What happened outside.
#[derive(Debug, Clone, Copy, PartialEq, Eq, Structural)]
pub enum MonitorEvent {
    /// The first reading of the indicator.
    Initial(PowerState),
    /// A change notification arrived. It holds the integer value of the
    /// online property, or `None` if the notification did not have the
    /// expected shape.
    Notification(Option<i64>),
    /// The subscription could not be made or has ended.
    SubscriptionLost,
    /// A timed reading of the indicator; `None` if it could not be read.
    Poll(Option<PowerState>),
    /// The consumer no longer accepts transitions.
    Disconnected,
}

/// What the caller is to do next.
#[derive(Debug, Clone, Copy, PartialEq, Eq, Structural)]
pub enum MonitorAction {
    /// Nothing; wait for the next event.
    Nothing,
    /// Hand this transition to the consumer.
    Emit(PowerState),
    /// Give up the subscription and read the indicator at intervals.
    StartPolling,
}

/// Interval between two readings while polling, in milliseconds.
pub const POLL_INTERVAL_MS: u64 = 5000;

/// The state that an indicator's contents stand for: `AC` when the
/// indicator is present and reads `1` and a line feed, `Battery` otherwise.
pub open spec fn indicator_state(contents: Option<Seq<u8>>) -> PowerState {
    if contents == Some(seq![0x31u8, 0x0Au8]) {
        PowerState::AC
    } else {
        PowerState::Battery
    }
}

/// The state that an indicator's contents stand for; `None` when the
/// indicator does not exist.
pub fn power_state_from_indicator(contents: Option<&[u8]>) -> (s: PowerState)
    ensures
        s == indicator_state(
            match contents {
                Some(c) => Some(c@),
                None => None,
            },
        ),
{
    match contents {
        Some(c) => {
            if c.len() == 2 && c[0] == 0x31 && c[1] == 0x0A {
                assert(c@ =~= seq![0x31u8, 0x0Au8]);
                PowerState::AC
            } else {
                assert(c@ != seq![0x31u8, 0x0Au8]) by {
                    if c@ == seq![0x31u8, 0x0Au8] {
                        assert(c@.len() == 2);
                        assert(c@[0] == 0x31u8);
                        assert(c@[1] == 0x0Au8);
                    }
                }
                PowerState::Battery
            }
        },
        None => PowerState::Battery,
    }
}

/// The state that the online property of a notification stands for: zero
/// is `Battery`, anything else `AC`.
pub open spec fn online_state(value: i64) -> PowerState {
    if value == 0 {
        PowerState::Battery
    } else {
        PowerState::AC
    }
}

/// The transitions that a run of readings gives rise to, starting from the
/// last known state `current`: each reading that differs from the one
/// before it, in order.
pub open spec fn emitted(current: PowerState, readings: Seq<PowerState>) -> Seq<PowerState>
    decreases readings.len(),
{
    if readings.len() == 0 {
        Seq::empty()
    } else if readings[0] != current {
        seq![readings[0]] + emitted(readings[0], readings.drop_first())
    } else {
        emitted(current, readings.drop_first())
    }
}

/// The last known state after a run of readings.
pub open spec fn last_state(current: PowerState, readings: Seq<PowerState>) -> PowerState {
    if readings.len() == 0 {
        current
    } else {
        readings.last()
    }
}

/// The power-source monitor: its phase and the last state it knows of.
#[derive(Debug, Clone, Copy, PartialEq, Eq, Structural)]
pub struct PowerSourceMonitor {
    pub phase: MonitorPhase,
    pub current: PowerState,
}

impl PowerSourceMonitor {
    /// The monitor with `state` as its last known state, if `state`
    /// differs from it a transition to emit.
    pub open spec fn observe_spec(self, state: PowerState) -> (PowerSourceMonitor, MonitorAction) {
        if state != self.current {
            (PowerSourceMonitor { phase: self.phase, current: state }, MonitorAction::Emit(state))
        } else {
            (self, MonitorAction::Nothing)
        }
    }

    /// The monitor after `event`, and what the caller is to do. A closed
    /// monitor stays closed; a disconnect closes it from any phase; the
    /// first reading starts the subscription; a well-formed notification
    /// or a successful poll is compared with the last known state; a
    /// malformed notification or a lost subscription starts polling; an
    /// event that does not belong to the phase changes nothing.
    pub open spec fn step_spec(self, event: MonitorEvent) -> (PowerSourceMonitor, MonitorAction) {
        match (self.phase, event) {
            (MonitorPhase::Closed, _) => (self, MonitorAction::Nothing),
            (_, MonitorEvent::Disconnected) => (
                PowerSourceMonitor { phase: MonitorPhase::Closed, current: self.current },
                MonitorAction::Nothing,
            ),
            (MonitorPhase::Initializing, MonitorEvent::Initial(state)) => (
                PowerSourceMonitor { phase: MonitorPhase::EventSubscribed, current: state },
                MonitorAction::Nothing,
            ),
            (MonitorPhase::EventSubscribed, MonitorEvent::Notification(Some(value))) => {
                self.observe_spec(online_state(value))
            },
            (MonitorPhase::EventSubscribed, MonitorEvent::Notification(None)) => (
                PowerSourceMonitor { phase: MonitorPhase::Polling, current: self.current },
                MonitorAction::StartPolling,
            ),
            (MonitorPhase::EventSubscribed, MonitorEvent::SubscriptionLost) => (
                PowerSourceMonitor { phase: MonitorPhase::Polling, current: self.current },
                MonitorAction::StartPolling,
            ),
            (MonitorPhase::Polling, MonitorEvent::Poll(Some(state))) => self.observe_spec(state),
            _ => (self, MonitorAction::Nothing),
        }
    }

    /// A monitor that has not read the indicator yet. Until it has, it
    /// takes the machine to be on battery.
    pub fn new() -> (m: PowerSourceMonitor)
        ensures
            m == (PowerSourceMonitor {
                phase: MonitorPhase::Initializing,
                current: PowerState::Battery,
            }),
    {
        PowerSourceMonitor { phase: MonitorPhase::Initializing, current: PowerState::Battery }
    }

    /// The phase the monitor is in.
    pub fn phase(&self) -> (p: MonitorPhase)
        ensures
            p == self.phase,
    {
        self.phase
    }

    /// The last known state.
    pub fn current(&self) -> (s: PowerState)
        ensures
            s == self.current,
    {
        self.current
    }

    /// Compares a reading with the last known state: a transition is
    /// emitted if and only if the two differ, and the reading becomes the
    /// last known state.
    fn observe(&mut self, state: PowerState) -> (action: MonitorAction)
        ensures
            (*final(self), action) == old(self).observe_spec(state),
    {
        if state != self.current {
            self.current = state;
            MonitorAction::Emit(state)
        } else {
            MonitorAction::Nothing
        }
    }

    /// Takes one event and says what to do. A transition is emitted if and
    /// only if the event carries a state for the current phase that differs
    /// from the last known one.
    pub fn step(&mut self, event: MonitorEvent) -> (action: MonitorAction)
        ensures
            (*final(self), action) == old(self).step_spec(event),
            action matches MonitorAction::Emit(s) ==> s != old(self).current && final(self).current
                == s && final(self).phase == old(self).phase,
            !(action is Emit) ==> final(self).current == old(self).current || (old(self).phase
                == MonitorPhase::Initializing && event is Initial),
            old(self).phase == MonitorPhase::Closed ==> *final(self) == *old(self) && action
                == MonitorAction::Nothing,
    {
        match (self.phase, event) {
            (MonitorPhase::Closed, _) => MonitorAction::Nothing,
            (_, MonitorEvent::Disconnected) => {
                self.phase = MonitorPhase::Closed;
                MonitorAction::Nothing
            },
            (MonitorPhase::Initializing, MonitorEvent::Initial(state)) => {
                self.phase = MonitorPhase::EventSubscribed;
                self.current = state;
                MonitorAction::Nothing
            },
            (MonitorPhase::EventSubscribed, MonitorEvent::Notification(Some(value))) => {
                let state = if value == 0 {
                    PowerState::Battery
                } else {
                    PowerState::AC
                };
                self.observe(state)
            },
            (MonitorPhase::EventSubscribed, MonitorEvent::Notification(None)) => {
                self.phase = MonitorPhase::Polling;
                MonitorAction::StartPolling
            },
            (MonitorPhase::EventSubscribed, MonitorEvent::SubscriptionLost) => {
                self.phase = MonitorPhase::Polling;
                MonitorAction::StartPolling
            },
            (MonitorPhase::Polling, MonitorEvent::Poll(Some(state))) => self.observe(state),
            _ => MonitorAction::Nothing,
        }
    }

    /// Feeds a run of poll readings to a polling monitor and collects the
    /// transitions, in order.
    pub fn poll_all(&mut self, readings: &Vec<PowerState>) -> (out: Vec<PowerState>)
        requires
            old(self).phase == MonitorPhase::Polling,
        ensures
            out@ == emitted(old(self).current, readings@),
            final(self).phase == MonitorPhase::Polling,
            final(self).current == last_state(old(self).current, readings@),
    {
        let mut out: Vec<PowerState> = Vec::new();
        let mut i: usize = 0;
        proof {
            assert(readings@.skip(0) =~= readings@);
            assert(out@ + emitted(self.current, readings@) =~= emitted(self.current, readings@));
            assert(readings@.take(0).len() == 0);
        }
        while i < readings.len()
            invariant
                i <= readings.len(),
                self.phase == MonitorPhase::Polling,
                self.current == last_state(old(self).current, readings@.take(i as int)),
                out@ + emitted(self.current, readings@.skip(i as int)) == emitted(
                    old(self).current,
                    readings@,
                ),
            decreases readings.len() - i,
        {
            let ghost rest = readings@.skip(i as int);
            let ghost before = out@;
            let ghost current = self.current;
            let action = self.step(MonitorEvent::Poll(Some(readings[i])));
            proof {
                assert(rest[0] == readings@[i as int]);
                assert(rest.drop_first() =~= readings@.skip(i + 1));
                assert(readings@.take(i + 1).last() == readings@[i as int]);
            }
            if let MonitorAction::Emit(s) = action {
                out.push(s);
                proof {
                    assert(out@ =~= before + seq![s]);
                    assert(emitted(current, rest) == seq![s] + emitted(s, rest.drop_first()));
                    assert(out@ + emitted(s, rest.drop_first()) =~= before + (seq![s] + emitted(
                        s,
                        rest.drop_first(),
                    )));
                }
            }
            i += 1;
        }
        proof {
            assert(readings@.skip(i as int) =~= Seq::<PowerState>::empty());
            assert(readings@.take(i as int) =~= readings@);
            assert(out@ + Seq::<PowerState>::empty() =~= out@);
        }
        out
    }
}

/// No transition is emitted twice in a row: the first differs from the
/// state known before, and each later one from the one emitted before it.
/// Every transition is one of the readings' changes, so after the run the
/// consumer's last transition, if any, is the last reading.
pub proof fn lemma_emitted_no_repeats(current: PowerState, readings: Seq<PowerState>)
    ensures
        emitted(current, readings).len() <= readings.len(),
        emitted(current, readings).len() > 0 ==> emitted(current, readings)[0] != current,
        forall|i: int|
            0 <= i < emitted(current, readings).len() - 1 ==> #[trigger] emitted(
                current,
                readings,
            )[i] != emitted(current, readings)[i + 1],
        emitted(current, readings).len() > 0 ==> emitted(current, readings).last() == last_state(
            current,
            readings,
        ),
        emitted(current, readings).len() == 0 ==> last_state(current, readings) == current,
    decreases readings.len(),
{
    if readings.len() > 0 {
        let rest = readings.drop_first();
        let head = readings[0];
        if rest.len() > 0 {
            assert(rest.last() == readings.last());
        }
        if head != current {
            lemma_emitted_no_repeats(head, rest);
            let tail = emitted(head, rest);
            let all = emitted(current, readings);
            assert(all == seq![head] + tail);
            assert forall|i: int| 0 <= i < all.len() - 1 implies #[trigger] all[i] != all[i + 1] by {
                if i > 0 {
                    assert(all[i] == tail[i - 1]);
                    assert(all[i + 1] == tail[i]);
                } else {
                    assert(all[1] == tail[0]);
                }
            }
            if tail.len() > 0 {
                assert(all.last() == tail.last());
            }
        } else {
            lemma_emitted_no_repeats(current, rest);
        }
    }
}

} // verus!
