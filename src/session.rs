use vstd::prelude::*;
use crate::cue::{AudioCommand, KeyEdges};
use crate::entropy::draw_choice;
use crate::gamestate::AppState;
use crate::timer::{CueTimer, CUE_INTERVAL_NANOS};

verus! {

/// The state of one play session: the score, the pending cue and the timer
/// that paces the cues.
#[derive(PartialEq, Eq, Structural, Clone, Copy, Debug)]
pub struct Session {
    pub score: i64,
    pub command: AudioCommand,
    pub timer: CueTimer,
}

/// What happened during one tick.
#[derive(PartialEq, Eq, Structural, Clone, Copy, Debug)]
pub struct TickReport {
    /// The cue emitted this tick, to be presented to the player.
    pub emitted: Option<AudioCommand>,
    /// `Some(true)` for a correct answer, `Some(false)` for a wrong one,
    /// `None` when nothing was scored.
    pub outcome: Option<bool>,
    /// Whether the score differs from what it was before the tick.
    pub score_changed: bool,
}

impl Session {
    pub open spec fn wf(self) -> bool {
        self.timer.wf()
    }

    /// The score can still move by one in either direction.
    pub open spec fn score_can_move(self) -> bool {
        i64::MIN < self.score < i64::MAX
    }

    /// Whether a cue is emitted when the timer advances by `delta`: the slot
    /// is empty and the interval ends.
    pub open spec fn emits(self, delta: u64) -> bool {
        self.command == AudioCommand::NoCommand && self.timer.finishes(delta)
    }

    /// The session after the timer advances by `delta`, with `choice` the
    /// draw that picks the cue if one is emitted.
    pub open spec fn after_cue(self, delta: u64, choice: u32) -> Session {
        Session {
            score: self.score,
            command: if self.emits(delta) {
                AudioCommand::from_choice_spec(choice)
            } else {
                self.command
            },
            timer: self.timer.advanced(delta),
        }
    }

    /// Whether the key edges answer the pending cue, and if so whether
    /// correctly.
    pub open spec fn outcome_of(self, keys: KeyEdges) -> Option<bool> {
        if self.command == AudioCommand::NoCommand || keys.pressed_spec()
            == AudioCommand::NoCommand {
            None
        } else {
            Some(keys.pressed_spec() == self.command)
        }
    }

    /// The session after the key edges are matched against the pending cue:
    /// an answer moves the score by one, empties the slot and starts the
    /// interval over.
    pub open spec fn after_response(self, keys: KeyEdges) -> Session {
        match self.outcome_of(keys) {
            None => self,
            Some(hit) => Session {
                score: if hit {
                    (self.score + 1) as i64
                } else {
                    (self.score - 1) as i64
                },
                command: AudioCommand::NoCommand,
                timer: CueTimer { elapsed: 0 },
            },
        }
    }

    /// The session after one tick; an inactive tick changes nothing.
    pub open spec fn next(self, active: bool, delta: u64, keys: KeyEdges, choice: u32) -> Session {
        if active {
            self.after_cue(delta, choice).after_response(keys)
        } else {
            self
        }
    }

    /// The report of one tick.
    pub open spec fn report(self, active: bool, delta: u64, keys: KeyEdges, choice: u32) -> TickReport {
        TickReport {
            emitted: if active && self.emits(delta) {
                Some(AudioCommand::from_choice_spec(choice))
            } else {
                None
            },
            outcome: if active {
                self.after_cue(delta, choice).outcome_of(keys)
            } else {
                None
            },
            score_changed: self.next(active, delta, keys, choice).score != self.score,
        }
    }

    /// The session and report after one tick under the activation state
    /// `state`.
    pub open spec fn gated(self, state: AppState, delta: u64, keys: KeyEdges, choice: u32) -> (Session, TickReport) {
        let active = state == AppState::JuegoActivo;
        (self.next(active, delta, keys, choice), self.report(active, delta, keys, choice))
    }

    /// A fresh session: score zero, no pending cue, timer at zero.
    pub fn new() -> (r: Session)
        ensures
            r.score == 0,
            r.command == AudioCommand::NoCommand,
            r.timer.elapsed == 0,
            r.wf(),
    {
        Session { score: 0, command: AudioCommand::NoCommand, timer: CueTimer::new() }
    }

    pub fn score(&self) -> (r: i64)
        ensures
            r == self.score,
    {
        self.score
    }

    pub fn command(&self) -> (r: AudioCommand)
        ensures
            r == self.command,
    {
        self.command
    }

    /// Whether advancing the timer by `delta` would emit a cue.
    pub fn will_emit(&self, delta: u64) -> (r: bool)
        requires
            self.wf(),
        ensures
            r == self.emits(delta),
    {
        self.command.is_none() && self.timer.would_finish(delta)
    }

    /// Advances the timer by `delta`; when the interval ends with the slot
    /// empty, sets the pending cue to the one `choice` picks and returns it.
    pub fn advance_cue(&mut self, delta: u64, choice: u32) -> (r: Option<AudioCommand>)
        requires
            old(self).wf(),
        ensures
            *final(self) == old(self).after_cue(delta, choice),
            final(self).wf(),
            r == (if old(self).emits(delta) {
                Some(AudioCommand::from_choice_spec(choice))
            } else {
                None
            }),
    {
        let emit = self.will_emit(delta);
        self.timer.tick(delta);
        if emit {
            let c = AudioCommand::from_choice(choice);
            self.command = c;
            Some(c)
        } else {
            None
        }
    }

    /// Matches the tick's key edges against the pending cue: a matching key
    /// adds one to the score, another key takes one away, and either way the
    /// cue is consumed and the interval starts over. With no pending cue or no
    /// key edge nothing changes.
    pub fn respond(&mut self, keys: KeyEdges) -> (r: Option<bool>)
        requires
            old(self).wf(),
            old(self).score_can_move(),
        ensures
            *final(self) == old(self).after_response(keys),
            r == old(self).outcome_of(keys),
            final(self).wf(),
            r == Some(true) ==> final(self).score == old(self).score + 1,
            r == Some(false) ==> final(self).score == old(self).score - 1,
            r is None ==> *final(self) == *old(self),
            r is Some ==> final(self).command == AudioCommand::NoCommand,
    {
        if self.command.is_none() {
            return None;
        }
        let key = keys.pressed();
        if key.is_none() {
            return None;
        }
        let hit = key == self.command;
        if hit {
            self.score = self.score + 1;
        } else {
            self.score = self.score - 1;
        }
        self.command = AudioCommand::NoCommand;
        self.timer.reset();
        Some(hit)
    }

    /// One tick of the training loop with `choice` as the draw that picks a
    /// cue, should one be emitted. An inactive tick changes nothing. An
    /// active one first advances the timer, possibly emitting a cue, then
    /// matches the key edges against the pending cue.
    pub fn step(&mut self, active: bool, delta: u64, keys: KeyEdges, choice: u32) -> (r: TickReport)
        requires
            old(self).wf(),
            old(self).score_can_move(),
        ensures
            *final(self) == old(self).next(active, delta, keys, choice),
            r == old(self).report(active, delta, keys, choice),
            final(self).wf(),
            !active ==> *final(self) == *old(self) && r.emitted is None && r.outcome is None,
            r.emitted is Some ==> active && old(self).command == AudioCommand::NoCommand
                && old(self).timer.elapsed + delta >= CUE_INTERVAL_NANOS,
            old(self).command == AudioCommand::NoCommand && final(self).command
                != AudioCommand::NoCommand ==> r.emitted is Some,
            old(self).command != AudioCommand::NoCommand ==> final(self).command
                == old(self).command || final(self).command == AudioCommand::NoCommand,
            r.outcome is Some ==> final(self).command == AudioCommand::NoCommand
                && final(self).timer.elapsed == 0,
            r.outcome == Some(true) ==> final(self).score == old(self).score + 1,
            r.outcome == Some(false) ==> final(self).score == old(self).score - 1,
            r.outcome is None ==> final(self).score == old(self).score,
            r.score_changed == (final(self).score != old(self).score),
    {
        if !active {
            return TickReport { emitted: None, outcome: None, score_changed: false };
        }
        let before = self.score;
        let emitted = self.advance_cue(delta, choice);
        let outcome = self.respond(keys);
        TickReport { emitted, outcome, score_changed: self.score != before }
    }

    /// One tick of the training loop under the activation state `state`,
    /// drawing the cue from `rng` only when one is emitted. Whatever the draw,
    /// the tick is `step` with some draw below three; with no emission the
    /// draw plays no part.
    pub fn tick(
        &mut self,
        state: &AppState,
        delta: u64,
        keys: KeyEdges,
        rng: &mut bevy_rand::prelude::WyRand,
    ) -> (r: TickReport)
        requires
            old(self).wf(),
            old(self).score_can_move(),
        ensures
            final(self).wf(),
            exists|c: u32| c < 3 && #[trigger] old(self).gated(*state, delta, keys, c) == (*final(self), r),
            !(*state == AppState::JuegoActivo && old(self).emits(delta)) ==> old(self).gated(
                *state,
                delta,
                keys,
                0,
            ) == (*final(self), r),
    {
        let active = state.is_active();
        let choice = if active && self.will_emit(delta) {
            draw_choice(rng)
        } else {
            0
        };
        let r = self.step(active, delta, keys, choice);
        assert(old(self).gated(*state, delta, keys, choice) == (*self, r));
        r
    }
}

} // verus!
