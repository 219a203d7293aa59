//! Event loop support: the loop controller, the dual-rate scheduler and the
//! input dispatcher. The loop itself lives in the binary around this library;
//! every decision it takes is made here.

use vstd::prelude::*;

verus! {

use crate::game::GameState;
use crate::game::GameStatus;
use crate::game::LogType;

/// Wall-clock spacing between two simulation advances, in milliseconds.
pub const TICK_RATE_MS: u64 = 1000;

/// Minimum wall-clock spacing between two renderer invocations, in
/// milliseconds. Strictly shorter than the tick interval, so that the
/// renderer reflects log and status changes promptly.
pub const FRAME_RATE_MS: u64 = 10;

/// A discrete key press handed in by whatever polls the terminal: either a
/// character key or anything else.
#[derive(Debug, Clone, Copy, PartialEq, Eq, Structural)]
pub enum KeyPress {
    Char(char),
    Other,
}

/// The kind of a key event. Only presses are actionable; autorepeats and
/// releases are ignored by the input dispatcher.
#[derive(Debug, Clone, Copy, PartialEq, Eq, Structural)]
pub enum KeyKind {
    Press,
    Repeat,
    Release,
}

/// The two independent cadences of the event loop: when the simulation last
/// advanced and when the renderer last ran, as milliseconds on a monotone
/// clock of the caller's choosing.
pub struct Scheduler {
    pub last_tick_ms: u64,
    pub last_render_ms: u64,
}

impl Scheduler {
    /// Whether the renderer is due at `now_ms`: at least a frame interval
    /// has passed since the renderer last ran.
    pub open spec fn spec_render_due(self, now_ms: u64) -> bool {
        now_ms - self.last_render_ms >= FRAME_RATE_MS
    }

    /// Whether a simulation advance is due at `now_ms`: at least a tick
    /// interval has passed since the simulation last advanced.
    pub open spec fn spec_tick_due(self, now_ms: u64) -> bool {
        now_ms - self.last_tick_ms >= TICK_RATE_MS
    }

    /// The time remaining until the next simulation advance, clamped to zero
    /// once the advance is overdue.
    pub open spec fn spec_tick_timeout(self, now_ms: u64) -> int {
        if self.spec_tick_due(now_ms) {
            0
        } else if now_ms >= self.last_tick_ms {
            TICK_RATE_MS - (now_ms - self.last_tick_ms)
        } else {
            TICK_RATE_MS as int
        }
    }

    /// The time remaining until the next render deadline, clamped to zero
    /// once the render is overdue.
    pub open spec fn spec_render_timeout(self, now_ms: u64) -> int {
        if self.spec_render_due(now_ms) {
            0
        } else if now_ms >= self.last_render_ms {
            FRAME_RATE_MS - (now_ms - self.last_render_ms)
        } else {
            FRAME_RATE_MS as int
        }
    }

    /// The bound on the next input poll: the nearer of the two deadlines,
    /// remaining-to-tick and remaining-to-render, so that waiting for input
    /// can miss neither the next simulation advance nor a render deadline.
    pub open spec fn spec_poll_timeout(self, now_ms: u64) -> int {
        if self.spec_tick_timeout(now_ms) <= self.spec_render_timeout(now_ms) {
            self.spec_tick_timeout(now_ms)
        } else {
            self.spec_render_timeout(now_ms)
        }
    }

    /// Start both cadences at `now_ms`.
    pub fn new(now_ms: u64) -> (s: Scheduler)
        ensures
            s.last_tick_ms == now_ms,
            s.last_render_ms == now_ms,
    {
        Scheduler { last_tick_ms: now_ms, last_render_ms: now_ms }
    }

    /// Whether the renderer is due at `now_ms`.
    pub fn render_due(&self, now_ms: u64) -> (due: bool)
        ensures
            due == self.spec_render_due(now_ms),
    {
        now_ms.saturating_sub(self.last_render_ms) >= FRAME_RATE_MS
    }

    /// Record that the renderer ran at `now_ms`; the tick cadence is
    /// untouched.
    pub fn mark_rendered(&mut self, now_ms: u64)
        ensures
            final(self).last_render_ms == now_ms,
            final(self).last_tick_ms == old(self).last_tick_ms,
    {
        self.last_render_ms = now_ms;
    }

    /// Whether a simulation advance is due at `now_ms`.
    pub fn tick_due(&self, now_ms: u64) -> (due: bool)
        ensures
            due == self.spec_tick_due(now_ms),
    {
        now_ms.saturating_sub(self.last_tick_ms) >= TICK_RATE_MS
    }

    /// Record that the simulation advanced at `now_ms`; the render cadence
    /// is untouched.
    pub fn mark_ticked(&mut self, now_ms: u64)
        ensures
            final(self).last_tick_ms == now_ms,
            final(self).last_render_ms == old(self).last_render_ms,
    {
        self.last_tick_ms = now_ms;
    }

    /// The upper bound for the next input poll: the tick remainder, capped
    /// further by the render remainder. It never exceeds either interval,
    /// and it is zero exactly when an advance or a render is already due,
    /// so the loop never blocks past the nearer of the two deadlines.
    pub fn poll_timeout_ms(&self, now_ms: u64) -> (timeout: u64)
        ensures
            timeout == self.spec_poll_timeout(now_ms),
            timeout <= self.spec_tick_timeout(now_ms),
            timeout <= self.spec_render_timeout(now_ms),
            timeout <= FRAME_RATE_MS,
            (timeout == 0) == (self.spec_tick_due(now_ms) || self.spec_render_due(now_ms)),
    {
        let tick_timeout = TICK_RATE_MS.saturating_sub(now_ms.saturating_sub(self.last_tick_ms));
        let render_timeout = FRAME_RATE_MS.saturating_sub(
            now_ms.saturating_sub(self.last_render_ms),
        );
        if tick_timeout <= render_timeout {
            tick_timeout
        } else {
            render_timeout
        }
    }
}

/// With the render interval strictly shorter than the tick interval, the
/// renderer is invoked at least once between two consecutive simulation
/// advances: the loop checks the render deadline first in every iteration,
/// so if the renderer has not run since the last advance, it is due no later
/// than the moment the next advance is due.
pub proof fn lemma_render_due_before_tick(s: Scheduler, now_ms: u64)
    requires
        FRAME_RATE_MS < TICK_RATE_MS,
        s.last_render_ms <= s.last_tick_ms,
        s.spec_tick_due(now_ms),
    ensures
        s.spec_render_due(now_ms),
{
}

/// The loop controller: the simulation it drives and the cooperative stop
/// flag, set only by the quit command of the input dispatcher.
pub struct App {
    pub game: GameState,
    pub exit: bool,
}

impl Default for App {
    /// A fresh session: level 1, health 100, attack 10, not stopping.
    fn default() -> (app: App)
        ensures
            app.game.player_level == 1,
            app.game.player_health == 100,
            app.game.player_attack == 10,
            app.game.status == GameStatus::Playing,
            app.game.log_view() == seq![(LogType::System, "Game started"@)],
            !app.exit,
    {
        App { game: GameState::new(1, 100, 10), exit: false }
    }
}

impl App {
    /// Request that the event loop stop; the simulation is untouched.
    pub fn exit(&mut self)
        ensures
            final(self).exit,
            final(self).game == old(self).game,
    {
        self.exit = true;
    }

    /// The input dispatcher: a press of `q` is the quit command and sets the
    /// stop flag; every other key is a no-op. The simulation is untouched
    /// either way.
    pub fn handle_key_event(&mut self, key: KeyPress)
        ensures
            final(self).game == old(self).game,
            final(self).exit == (old(self).exit || key == KeyPress::Char('q')),
    {
        match key {
            KeyPress::Char(c) => {
                if c == 'q' {
                    self.exit();
                }
            },
            KeyPress::Other => {},
        }
    }

    /// The dispatcher's entry point for a raw key event: only a press-kind
    /// event is dispatched; an autorepeat or a release changes nothing.
    pub fn handle_event(&mut self, kind: KeyKind, key: KeyPress)
        ensures
            final(self).game == old(self).game,
            final(self).exit == (old(self).exit || (kind == KeyKind::Press
                && key == KeyPress::Char('q'))),
    {
        match kind {
            KeyKind::Press => self.handle_key_event(key),
            KeyKind::Repeat => {},
            KeyKind::Release => {},
        }
    }
}

} // verus!
