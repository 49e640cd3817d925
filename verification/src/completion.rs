use vstd::prelude::*;

verus! {

/// The phase of one play session.
#[derive(Clone, Copy, PartialEq, Eq, Structural, Debug)]
pub enum GamePhase {
    /// The level is being played; the goal has not been reached yet.
    Playing,
    /// The goal has been reached; terminal for the session.
    Completed,
}

/// The flag set a physics engine reports with a contact event.
#[derive(Clone, Copy, PartialEq, Eq, Structural, Debug)]
pub struct ContactFlags {
    /// At least one of the two colliders is a sensor.
    pub sensor: bool,
    /// At least one of the two colliders was removed during the step.
    pub removed: bool,
}

/// A collision event drained from the physics engine, reduced to what the
/// completion watcher reads: whether contact started or stopped, and the
/// event's flag set.
#[derive(Clone, Copy, PartialEq, Eq, Structural, Debug)]
pub enum ContactEvent {
    /// Two colliders began touching.
    Started(ContactFlags),
    /// Two colliders stopped touching.
    Stopped(ContactFlags),
}

/// Whether an event qualifies as reaching the goal: a contact-start event
/// whose flags include the sensor flag.
pub open spec fn spec_triggers(e: ContactEvent) -> bool {
    match e {
        ContactEvent::Started(flags) => flags.sensor,
        ContactEvent::Stopped(_) => false,
    }
}

/// Whether observing `e` in phase `phase` fires the one-shot completion.
pub open spec fn spec_fires(phase: GamePhase, e: ContactEvent) -> bool {
    phase == GamePhase::Playing && spec_triggers(e)
}

/// The phase after observing one event.
pub open spec fn spec_step(phase: GamePhase, e: ContactEvent) -> GamePhase {
    if spec_fires(phase, e) {
        GamePhase::Completed
    } else {
        phase
    }
}

/// The phase after observing the first `n` events of a frame in order.
pub open spec fn spec_run(phase: GamePhase, events: Seq<ContactEvent>, n: int) -> GamePhase
    decreases n,
{
    if n <= 0 {
        phase
    } else {
        spec_step(spec_run(phase, events, n - 1), events[n - 1])
    }
}

/// Whether some of the first `n` events qualifies as reaching the goal.
pub open spec fn spec_any_trigger(events: Seq<ContactEvent>, n: int) -> bool
    decreases n,
{
    if n <= 0 {
        false
    } else {
        spec_any_trigger(events, n - 1) || spec_triggers(events[n - 1])
    }
}

/// Watches contact events and owns the session's phase, transitioning
/// `Playing` to `Completed` exactly once: the first sensor contact is
/// authoritative and later ones are ignored, whether they arrive in the
/// same frame or after it.
#[derive(Clone, Copy, PartialEq, Eq, Structural, Debug)]
pub struct CompletionWatcher {
    /// The session's current phase.
    pub phase: GamePhase,
}

impl CompletionWatcher {
    /// A fresh watcher for a session that just entered play.
    pub fn new() -> (r: CompletionWatcher)
        ensures
            r.phase == GamePhase::Playing,
    {
        CompletionWatcher { phase: GamePhase::Playing }
    }

    /// Observe a single contact event. Returns whether this very event
    /// completed the level, which is also the request to leave the play
    /// phase; at most one observation of a session ever returns `true`.
    pub fn observe(&mut self, e: &ContactEvent) -> (fired: bool)
        ensures
            final(self).phase == spec_step(old(self).phase, *e),
            fired == spec_fires(old(self).phase, *e),
    {
        match e {
            ContactEvent::Started(flags) => {
                if flags.sensor && self.phase == GamePhase::Playing {
                    self.phase = GamePhase::Completed;
                    true
                } else {
                    false
                }
            },
            ContactEvent::Stopped(_) => false,
        }
    }

    /// Drain all pending contact events of one frame, in order. Returns
    /// whether the level was completed during this frame, i.e. whether a
    /// phase change to the menu is requested; a watcher already completed
    /// stays completed and never requests a second change.
    pub fn drain(&mut self, events: &Vec<ContactEvent>) -> (fired: bool)
        ensures
            final(self).phase == spec_run(old(self).phase, events@, events@.len() as int),
            fired == (old(self).phase == GamePhase::Playing && spec_any_trigger(events@, events@.len() as int)),
    {
        let ghost initial = self.phase;
        let mut fired = false;
        let mut i: usize = 0;
        while i < events.len()
            invariant
                i <= events@.len(),
                self.phase == spec_run(initial, events@, i as int),
                fired == (initial == GamePhase::Playing && spec_any_trigger(events@, i as int)),
            decreases events@.len() - i,
        {
            proof {
                lemma_run_characterization(initial, events@, i as int);
            }
            let fired_now = self.observe(&events[i]);
            fired = fired || fired_now;
            i = i + 1;
        }
        fired
    }
}

/// A run of observations stays in `Playing` exactly as long as the session
/// started there and no observed event triggered.
proof fn lemma_run_characterization(initial: GamePhase, events: Seq<ContactEvent>, n: int)
    requires
        0 <= n,
    ensures
        (spec_run(initial, events, n) == GamePhase::Playing) == (initial == GamePhase::Playing
            && !spec_any_trigger(events, n)),
    decreases n,
{
    if n > 0 {
        lemma_run_characterization(initial, events, n - 1);
    }
}

/// Law: the first qualifying contact completes the session, and a second
/// qualifying contact observed afterwards neither fires again nor moves the
/// phase: the transition from `Playing` to `Completed` happens exactly once.
pub proof fn lemma_completion_one_shot(first: ContactEvent, second: ContactEvent)
    requires
        spec_triggers(first),
    ensures
        spec_fires(GamePhase::Playing, first),
        spec_step(GamePhase::Playing, first) == GamePhase::Completed,
        !spec_fires(spec_step(GamePhase::Playing, first), second),
        spec_step(spec_step(GamePhase::Playing, first), second) == GamePhase::Completed,
{
}

/// Law: a completed watcher is inert; no event moves its phase or fires.
pub proof fn lemma_completed_is_terminal(e: ContactEvent)
    ensures
        spec_step(GamePhase::Completed, e) == GamePhase::Completed,
        !spec_fires(GamePhase::Completed, e),
{
}

} // verus!
