//! Simulation core: player stats, combat resolution, leveling, the session
//! status machine and a newest-first event log. No knowledge of timing or I/O.

use vstd::prelude::*;

verus! {

use vstd::arithmetic::div_mod::lemma_div_non_zero;
use vstd::arithmetic::div_mod::lemma_div_plus_one;
use vstd::seq_lib::lemma_seq_skip_of_skip;
use vstd::string::StringExecFns;

/// The level at which the session is won; the player level never exceeds it.
pub const PLAYER_MAX_LEVEL: u8 = 100;

/// Health of the enemy constructed for each encounter. Enemies do not scale
/// with the player level: every encounter uses these fixed base stats.
pub const ENEMY_BASE_HEALTH: u8 = 11;

/// Attack of the enemy constructed for each encounter.
pub const ENEMY_BASE_ATTACK: u8 = 10;

/// Category of a log entry.
#[derive(Debug, Clone, Copy, PartialEq, Eq, Structural)]
pub enum LogType {
    System,
    Status,
    Fight,
}

/// One immutable entry of the append-only, newest-first event log.
#[derive(Debug)]
pub struct LogEntry {
    pub log_type: LogType,
    pub message: String,
}

/// Session status. `Victory` and `GameOver` are terminal: no transition
/// leaves them, and a terminal session is never mutated again.
#[derive(Debug, Clone, Copy, PartialEq, Eq, Structural)]
pub enum GameStatus {
    Playing,
    Victory,
    GameOver,
}

/// An ephemeral combat opponent, constructed fresh for each encounter and
/// discarded after resolution.
pub struct Enemy {
    pub health: u8,
    pub attack: u8,
}

impl Enemy {
    pub fn new(initial_health: u8, initial_attack: u8) -> (enemy: Enemy)
        ensures
            enemy.health == initial_health,
            enemy.attack == initial_attack,
    {
        Enemy { health: initial_health, attack: initial_attack }
    }
}

/// Health left after taking a hit: subtraction saturating at zero.
pub open spec fn after_hit(health: nat, damage: nat) -> nat {
    if health >= damage {
        (health - damage) as nat
    } else {
        0
    }
}

/// Whether the player wins the combat. One exchange: the enemy takes the
/// player's attack as damage; if it survives, the player takes the enemy's
/// attack as damage; whoever first reaches zero health loses. Combat is
/// deterministic and terminates whenever at least one attack is positive.
pub open spec fn combat_wins(ph: nat, pa: nat, eh: nat, ea: nat) -> bool
    decreases eh + ph when pa > 0 || ea > 0
{
    if after_hit(eh, pa) == 0 {
        true
    } else if after_hit(ph, ea) == 0 {
        false
    } else {
        combat_wins(after_hit(ph, ea), pa, after_hit(eh, pa), ea)
    }
}

/// The player's health once combat resolves (zero on a loss).
pub open spec fn combat_player_health(ph: nat, pa: nat, eh: nat, ea: nat) -> nat
    decreases eh + ph when pa > 0 || ea > 0
{
    if after_hit(eh, pa) == 0 {
        ph
    } else if after_hit(ph, ea) == 0 {
        0
    } else {
        combat_player_health(after_hit(ph, ea), pa, after_hit(eh, pa), ea)
    }
}

/// The enemy's health once combat resolves (zero exactly on a win).
pub open spec fn combat_enemy_health(ph: nat, pa: nat, eh: nat, ea: nat) -> nat
    decreases eh + ph when pa > 0 || ea > 0
{
    if after_hit(eh, pa) == 0 {
        0
    } else if after_hit(ph, ea) == 0 {
        after_hit(eh, pa)
    } else {
        combat_enemy_health(after_hit(ph, ea), pa, after_hit(eh, pa), ea)
    }
}

/// How many exchanges the combat takes to resolve.
pub open spec fn combat_exchanges(ph: nat, pa: nat, eh: nat, ea: nat) -> nat
    decreases eh + ph when pa > 0 || ea > 0
{
    if after_hit(eh, pa) == 0 {
        1
    } else if after_hit(ph, ea) == 0 {
        1
    } else {
        1 + combat_exchanges(after_hit(ph, ea), pa, after_hit(eh, pa), ea)
    }
}

/// The whole simulation state: player stats, session status and the log.
pub struct GameState {
    pub player_level: u8,
    pub player_health: u8,
    pub player_attack: u8,
    pub status: GameStatus,
    pub logs: Vec<LogEntry>,
}

/// The character for a single decimal digit.
pub open spec fn digit_char(d: nat) -> char {
    if d == 0 {
        '0'
    } else if d == 1 {
        '1'
    } else if d == 2 {
        '2'
    } else if d == 3 {
        '3'
    } else if d == 4 {
        '4'
    } else if d == 5 {
        '5'
    } else if d == 6 {
        '6'
    } else if d == 7 {
        '7'
    } else if d == 8 {
        '8'
    } else {
        '9'
    }
}

/// The decimal rendering of `n`, most significant digit first, no sign and
/// no leading zeros (a single `'0'` for zero).
pub open spec fn dec_digits(n: nat) -> Seq<char>
    decreases n
{
    if n < 10 {
        seq![digit_char(n)]
    } else {
        dec_digits(n / 10) + seq![digit_char(n % 10)]
    }
}

/// Leveling clamps at `PLAYER_MAX_LEVEL`: the new level after gaining
/// `amount` levels is the smaller of `level + amount` and the cap.
pub open spec fn capped_level(level: nat, amount: nat) -> nat {
    if level + amount >= PLAYER_MAX_LEVEL {
        PLAYER_MAX_LEVEL as nat
    } else {
        level + amount
    }
}

/// The message logged when the player reaches `level`.
pub open spec fn level_up_message(level: nat) -> Seq<char> {
    "Level up to "@ + dec_digits(level)
}

/// The one-character string for a single decimal digit.
fn digit_str(d: u8) -> (r: &'static str)
    requires
        d < 10,
    ensures
        r@ == seq![digit_char(d as nat)],
{
    proof {
        reveal_strlit("0");
        reveal_strlit("1");
        reveal_strlit("2");
        reveal_strlit("3");
        reveal_strlit("4");
        reveal_strlit("5");
        reveal_strlit("6");
        reveal_strlit("7");
        reveal_strlit("8");
        reveal_strlit("9");
    }
    let r: &'static str = if d == 0 {
        "0"
    } else if d == 1 {
        "1"
    } else if d == 2 {
        "2"
    } else if d == 3 {
        "3"
    } else if d == 4 {
        "4"
    } else if d == 5 {
        "5"
    } else if d == 6 {
        "6"
    } else if d == 7 {
        "7"
    } else if d == 8 {
        "8"
    } else {
        "9"
    };
    assert(r@ =~= seq![digit_char(d as nat)]);
    r
}

/// Append the decimal rendering of `n` to `s`.
fn append_decimal(s: &mut String, n: u8)
    ensures
        final(s)@ == old(s)@ + dec_digits(n as nat),
    decreases n,
{
    if n >= 10 {
        append_decimal(s, n / 10);
    }
    s.append(digit_str(n % 10));
    proof {
        if n < 10 {
            assert(n % 10 == n as int % 10);
            assert(dec_digits(n as nat) == seq![digit_char(n as nat)]);
        } else {
            assert(s@ =~= old(s)@ + dec_digits(n as nat));
        }
    }
}

/// What one advance step does, as a relation between the state before and
/// the state after. When the session is no longer `Playing` the step is a
/// guarded no-op. Otherwise a fresh enemy with the fixed base stats is
/// fought to resolution: a win logs the fight, raises the level by one
/// (clamped at the cap) with a `Status` entry, and reaches `Victory` exactly
/// when the new level is the cap; a loss logs the fight and reaches
/// `GameOver`.
pub open spec fn advance_spec(pre: GameState, post: GameState) -> bool {
    if pre.status != GameStatus::Playing {
        post == pre
    } else {
        let won = combat_wins(
            pre.player_health as nat,
            pre.player_attack as nat,
            ENEMY_BASE_HEALTH as nat,
            ENEMY_BASE_ATTACK as nat,
        );
        let health = combat_player_health(
            pre.player_health as nat,
            pre.player_attack as nat,
            ENEMY_BASE_HEALTH as nat,
            ENEMY_BASE_ATTACK as nat,
        );
        let new_level = capped_level(pre.player_level as nat, 1);
        &&& post.player_attack == pre.player_attack
        &&& post.player_health == health
        &&& if won {
            &&& post.player_level == new_level
            &&& post.status == (if new_level >= PLAYER_MAX_LEVEL {
                GameStatus::Victory
            } else {
                GameStatus::Playing
            })
            &&& post.log_view() == pre.log_view().insert(
                0,
                (LogType::Fight, "Won the fight!"@),
            ).insert(0, (LogType::Status, level_up_message(new_level)))
            &&& post.logs@.len() == pre.logs@.len() + 2
            &&& post.logs@.skip(2) == pre.logs@
        } else {
            &&& post.player_level == pre.player_level
            &&& post.status == GameStatus::GameOver
            &&& post.log_view() == pre.log_view().insert(
                0,
                (LogType::Fight, "Lost the fight!"@),
            )
            &&& post.logs@.len() == pre.logs@.len() + 1
            &&& post.logs@.skip(1) == pre.logs@
        }
    }
}

impl GameState {
    /// Abstract view of the log: category and message text of each entry,
    /// newest first.
    pub open spec fn log_view(self) -> Seq<(LogType, Seq<char>)> {
        self.logs@.map_values(|e: LogEntry| (e.log_type, e.message@))
    }

    /// Construct a session in `Playing` status with the given raw stats and
    /// a single `System` log entry. Levels above `PLAYER_MAX_LEVEL` are not
    /// rejected here; leveling clamps from then on.
    pub fn new(initial_level: u8, initial_health: u8, initial_attack: u8) -> (state: GameState)
        ensures
            state.player_level == initial_level,
            state.player_health == initial_health,
            state.player_attack == initial_attack,
            state.status == GameStatus::Playing,
            state.log_view() == seq![(LogType::System, "Game started"@)],
    {
        let mut state = GameState {
            player_level: initial_level,
            player_health: initial_health,
            player_attack: initial_attack,
            status: GameStatus::Playing,
            logs: Vec::new(),
        };
        state.add_log(LogType::System, "Game started");
        proof {
            assert(state.log_view() =~= seq![(LogType::System, "Game started"@)]);
        }
        state
    }

    /// Prepend one entry to the log; everything already logged keeps its
    /// content and order.
    fn add_log(&mut self, log_type: LogType, message: &str)
        ensures
            final(self).log_view() == old(self).log_view().insert(0, (log_type, message@)),
            final(self).logs@.len() == old(self).logs@.len() + 1,
            final(self).logs@[0].log_type == log_type,
            final(self).logs@[0].message@ == message@,
            final(self).logs@.skip(1) == old(self).logs@,
            final(self).player_level == old(self).player_level,
            final(self).player_health == old(self).player_health,
            final(self).player_attack == old(self).player_attack,
            final(self).status == old(self).status,
    {
        let entry = LogEntry { log_type, message: String::from_str(message) };
        let ghost e = entry;
        self.logs.insert(0, entry);
        proof {
            assert(self.logs@ == old(self).logs@.insert(0, e));
            assert(self.logs@.skip(1) =~= old(self).logs@);
            assert(self.log_view() =~= old(self).log_view().insert(0, (log_type, message@)));
        }
    }

    /// Resolve a combat encounter against `enemy` by alternating full-damage
    /// exchanges; returns whether the player won. The loop is a structurally
    /// bounded countdown: it terminates whenever at least one attack value is
    /// positive.
    #[verifier::loop_isolation(false)]
    pub fn fight(&mut self, enemy: &mut Enemy) -> (won: bool)
        requires
            old(self).player_attack > 0 || old(enemy).attack > 0,
        ensures
            won == combat_wins(
                old(self).player_health as nat,
                old(self).player_attack as nat,
                old(enemy).health as nat,
                old(enemy).attack as nat,
            ),
            final(self).player_health == combat_player_health(
                old(self).player_health as nat,
                old(self).player_attack as nat,
                old(enemy).health as nat,
                old(enemy).attack as nat,
            ),
            final(enemy).health == combat_enemy_health(
                old(self).player_health as nat,
                old(self).player_attack as nat,
                old(enemy).health as nat,
                old(enemy).attack as nat,
            ),
            final(enemy).attack == old(enemy).attack,
            final(self).player_level == old(self).player_level,
            final(self).player_attack == old(self).player_attack,
            final(self).status == old(self).status,
            final(self).logs == old(self).logs,
    {
        loop
            invariant
                self.player_level == old(self).player_level,
                self.player_attack == old(self).player_attack,
                self.status == old(self).status,
                self.logs == old(self).logs,
                enemy.attack == old(enemy).attack,
                combat_wins(
                    self.player_health as nat,
                    self.player_attack as nat,
                    enemy.health as nat,
                    enemy.attack as nat,
                ) == combat_wins(
                    old(self).player_health as nat,
                    old(self).player_attack as nat,
                    old(enemy).health as nat,
                    old(enemy).attack as nat,
                ),
                combat_player_health(
                    self.player_health as nat,
                    self.player_attack as nat,
                    enemy.health as nat,
                    enemy.attack as nat,
                ) == combat_player_health(
                    old(self).player_health as nat,
                    old(self).player_attack as nat,
                    old(enemy).health as nat,
                    old(enemy).attack as nat,
                ),
                combat_enemy_health(
                    self.player_health as nat,
                    self.player_attack as nat,
                    enemy.health as nat,
                    enemy.attack as nat,
                ) == combat_enemy_health(
                    old(self).player_health as nat,
                    old(self).player_attack as nat,
                    old(enemy).health as nat,
                    old(enemy).attack as nat,
                ),
            decreases enemy.health + self.player_health,
        {
            let ghost ph0 = self.player_health as nat;
            let ghost eh0 = enemy.health as nat;
            let ghost pa = self.player_attack as nat;
            let ghost ea = enemy.attack as nat;

            enemy.health = enemy.health.saturating_sub(self.player_attack);
            if enemy.health == 0 {
                assert(combat_wins(ph0, pa, eh0, ea) == true);
                assert(combat_player_health(ph0, pa, eh0, ea) == ph0);
                assert(combat_enemy_health(ph0, pa, eh0, ea) == 0);
                return true;
            }

            self.player_health = self.player_health.saturating_sub(enemy.attack);
            if self.player_health == 0 {
                assert(combat_wins(ph0, pa, eh0, ea) == false);
                assert(combat_player_health(ph0, pa, eh0, ea) == 0);
                assert(combat_enemy_health(ph0, pa, eh0, ea) == after_hit(eh0, pa));
                return false;
            }

            assert(combat_wins(ph0, pa, eh0, ea)
                == combat_wins(after_hit(ph0, ea), pa, after_hit(eh0, pa), ea));
            assert(combat_player_health(ph0, pa, eh0, ea)
                == combat_player_health(after_hit(ph0, ea), pa, after_hit(eh0, pa), ea));
            assert(combat_enemy_health(ph0, pa, eh0, ea)
                == combat_enemy_health(after_hit(ph0, ea), pa, after_hit(eh0, pa), ea));
        }
    }

    /// Raise the player level by `amount`, clamped at `PLAYER_MAX_LEVEL`,
    /// and log a `Status` entry reporting the new level.
    pub fn level_up(&mut self, amount: u8)
        ensures
            final(self).player_level == capped_level(
                old(self).player_level as nat,
                amount as nat,
            ),
            final(self).log_view() == old(self).log_view().insert(
                0,
                (LogType::Status, level_up_message(final(self).player_level as nat)),
            ),
            final(self).logs@.len() == old(self).logs@.len() + 1,
            final(self).logs@.skip(1) == old(self).logs@,
            final(self).player_health == old(self).player_health,
            final(self).player_attack == old(self).player_attack,
            final(self).status == old(self).status,
    {
        let new_level: u8 = if self.player_level >= PLAYER_MAX_LEVEL {
            PLAYER_MAX_LEVEL
        } else if amount >= PLAYER_MAX_LEVEL - self.player_level {
            PLAYER_MAX_LEVEL
        } else {
            self.player_level + amount
        };
        self.player_level = new_level;
        let mut message = String::from_str("Level up to ");
        append_decimal(&mut message, new_level);
        self.add_log(LogType::Status, message.as_str());
    }

    /// The single per-tick mutation entry point: a guarded no-op once the
    /// session is over, otherwise one full combat encounter against a fresh
    /// fixed-stat enemy, with leveling and the status transition.
    pub fn update(&mut self)
        ensures
            advance_spec(*old(self), *final(self)),
    {
        if self.status != GameStatus::Playing {
            return;
        }
        let mut enemy = Enemy::new(ENEMY_BASE_HEALTH, ENEMY_BASE_ATTACK);
        if self.fight(&mut enemy) {
            self.add_log(LogType::Fight, "Won the fight!");
            self.level_up(1);
            if self.player_level >= PLAYER_MAX_LEVEL {
                self.status = GameStatus::Victory;
            }
            proof {
                lemma_seq_skip_of_skip(self.logs@, 1, 1);
            }
        } else {
            self.add_log(LogType::Fight, "Lost the fight!");
            self.status = GameStatus::GameOver;
        }
    }

    /// The full log, newest entry first.
    pub fn logs(&self) -> (r: &Vec<LogEntry>)
        ensures
            r@ == self.logs@,
    {
        &self.logs
    }

    /// The session status.
    pub fn status(&self) -> (r: &GameStatus)
        ensures
            *r == self.status,
    {
        &self.status
    }

    /// The player's current level.
    pub fn player_level(&self) -> (r: u8)
        ensures
            r == self.player_level,
    {
        self.player_level
    }

    /// The player's current health.
    pub fn player_health(&self) -> (r: u8)
        ensures
            r == self.player_health,
    {
        self.player_health
    }

    /// The player's attack, constant for the session.
    pub fn player_attack(&self) -> (r: u8)
        ensures
            r == self.player_attack,
    {
        self.player_attack
    }
}

/// How many hits of strength `b` it takes to drain `a` health: the quotient
/// of `a` by `b`, rounded up.
pub open spec fn ceil_div(a: nat, b: nat) -> nat
    recommends
        b > 0,
{
    (((a + b) - 1) / (b as int)) as nat
}

/// An advance step from a level within bounds stays within bounds: the level
/// never exceeds `PLAYER_MAX_LEVEL`.
pub proof fn lemma_advance_preserves_level_bound(pre: GameState, post: GameState)
    requires
        advance_spec(pre, post),
        pre.player_level <= PLAYER_MAX_LEVEL,
    ensures
        post.player_level <= PLAYER_MAX_LEVEL,
{
}

/// For every initial level between 1 and `PLAYER_MAX_LEVEL`, repeated
/// advance steps never push the level above `PLAYER_MAX_LEVEL`: along any
/// run of states linked by advance steps, every level stays within bounds.
pub proof fn lemma_level_never_exceeds_max(run: Seq<GameState>)
    requires
        run.len() > 0,
        1 <= run[0].player_level <= PLAYER_MAX_LEVEL,
        forall|i: int|
            0 <= i < run.len() - 1 ==> #[trigger] advance_spec(run[i], run[i + 1]),
    ensures
        forall|i: int| 0 <= i < run.len() ==> #[trigger] run[i].player_level <= PLAYER_MAX_LEVEL,
    decreases run.len(),
{
    if run.len() > 1 {
        let prefix = run.drop_last();
        assert forall|i: int|
            0 <= i < prefix.len() - 1 implies #[trigger] advance_spec(
            prefix[i],
            prefix[i + 1],
        ) by {
            assert(advance_spec(run[i], run[i + 1]));
        }
        lemma_level_never_exceeds_max(prefix);
        assert forall|i: int|
            0 <= i < run.len() implies #[trigger] run[i].player_level <= PLAYER_MAX_LEVEL by {
            if i < run.len() - 1 {
                assert(prefix[i].player_level <= PLAYER_MAX_LEVEL);
            } else {
                let j = run.len() - 2;
                assert(prefix[j].player_level <= PLAYER_MAX_LEVEL);
                assert(advance_spec(run[j], run[j + 1]));
                lemma_advance_preserves_level_bound(run[j], run[i]);
            }
        }
    }
}

/// Once the status is `Victory` or `GameOver`, an advance step is a no-op:
/// level, health, attack, status and the log are all unchanged.
pub proof fn lemma_terminal_advance_is_noop(pre: GameState, post: GameState)
    requires
        advance_spec(pre, post),
        pre.status != GameStatus::Playing,
    ensures
        post == pre,
        post.player_level == pre.player_level,
        post.player_health == pre.player_health,
        post.player_attack == pre.player_attack,
        post.status == pre.status,
        post.log_view() == pre.log_view(),
{
}

/// Combat resolution is deterministic (it is a function of the four stats)
/// and terminates: with positive attack values on both sides, the number of
/// exchanges is bounded by the hits the player needs to drain the enemy's
/// health plus the hits the enemy needs to drain the player's, each rounded
/// up. The one degenerate start, both sides already at zero health, still
/// takes its single exchange and is left out.
pub proof fn lemma_combat_exchanges_bound(ph: nat, pa: nat, eh: nat, ea: nat)
    requires
        pa > 0,
        ea > 0,
        eh > 0 || ph > 0,
    ensures
        combat_exchanges(ph, pa, eh, ea) <= ceil_div(eh, pa) + ceil_div(ph, ea),
    decreases eh + ph,
{
    if after_hit(eh, pa) == 0 {
        if eh > 0 {
            lemma_div_non_zero(((eh + pa) - 1) as int, pa as int);
        } else {
            lemma_div_non_zero(((ph + ea) - 1) as int, ea as int);
        }
    } else if after_hit(ph, ea) == 0 {
        lemma_div_non_zero(((eh + pa) - 1) as int, pa as int);
    } else {
        lemma_combat_exchanges_bound(after_hit(ph, ea), pa, after_hit(eh, pa), ea);
        lemma_div_plus_one((eh - 1) as int, pa as int);
        lemma_div_plus_one((ph - 1) as int, ea as int);
        assert(ceil_div((eh - pa) as nat, pa) + 1 == ceil_div(eh, pa));
        assert(ceil_div((ph - ea) as nat, ea) + 1 == ceil_div(ph, ea));
    }
}

/// One advance step never edits or removes a log entry: the log before the
/// step is an unchanged suffix of the log after it (a no-op step keeps it
/// whole), both as entries and as their abstract view.
pub proof fn lemma_advance_log_append_only(pre: GameState, post: GameState)
    requires
        advance_spec(pre, post),
    ensures
        pre.logs@.len() <= post.logs@.len(),
        post.logs@.skip(post.logs@.len() - pre.logs@.len()) == pre.logs@,
        pre.log_view().len() <= post.log_view().len(),
        post.log_view().skip(post.log_view().len() - pre.log_view().len()) == pre.log_view(),
{
    if pre.status != GameStatus::Playing {
        assert(post.logs@.skip(0) =~= pre.logs@);
        assert(post.log_view().skip(0) =~= pre.log_view());
    } else if combat_wins(
        pre.player_health as nat,
        pre.player_attack as nat,
        ENEMY_BASE_HEALTH as nat,
        ENEMY_BASE_ATTACK as nat,
    ) {
        assert(post.log_view().skip(2) =~= pre.log_view());
    } else {
        assert(post.log_view().skip(1) =~= pre.log_view());
    }
}

/// Along a whole run of advance steps the log is append-only: what was ever
/// logged at one state stands unchanged, in its order, at the tail of the
/// log of every later state, both as entries and as their abstract view.
pub proof fn lemma_run_log_append_only(run: Seq<GameState>, i: int, j: int)
    requires
        0 <= i <= j < run.len(),
        forall|k: int|
            0 <= k < run.len() - 1 ==> #[trigger] advance_spec(run[k], run[k + 1]),
    ensures
        run[i].logs@.len() <= run[j].logs@.len(),
        run[j].logs@.skip(run[j].logs@.len() - run[i].logs@.len()) == run[i].logs@,
        run[i].log_view().len() <= run[j].log_view().len(),
        run[j].log_view().skip(run[j].log_view().len() - run[i].log_view().len())
            == run[i].log_view(),
    decreases j - i,
{
    if i == j {
        assert(run[j].logs@.skip(0) =~= run[i].logs@);
        assert(run[j].log_view().skip(0) =~= run[i].log_view());
    } else {
        lemma_run_log_append_only(run, i, j - 1);
        let k = j - 1;
        assert(advance_spec(run[k], run[k + 1]));
        lemma_advance_log_append_only(run[j - 1], run[j]);
        let step = run[j].logs@.len() - run[j - 1].logs@.len();
        let rest = run[j - 1].logs@.len() - run[i].logs@.len();
        lemma_seq_skip_of_skip(run[j].logs@, step, rest);
        assert(run[j].logs@.skip(step).skip(rest) == run[i].logs@);
        lemma_seq_skip_of_skip(run[j].log_view(), step, rest);
        assert(run[j].log_view().skip(step).skip(rest) == run[i].log_view());
    }
}

/// Log entries are prepended: after a state-changing advance step the log
/// grew at the front, the old log is an unchanged suffix, and the first
/// entry is the most recent event of the step.
pub proof fn lemma_log_is_prepended(pre: GameState, post: GameState)
    requires
        advance_spec(pre, post),
        pre.status == GameStatus::Playing,
    ensures
        post.logs@.len() > pre.logs@.len(),
        post.logs@.skip(post.logs@.len() - pre.logs@.len()) == pre.logs@,
        post.log_view().len() > pre.log_view().len(),
        post.log_view().skip(post.log_view().len() - pre.log_view().len()) == pre.log_view(),
        post.log_view()[0] == (if combat_wins(
            pre.player_health as nat,
            pre.player_attack as nat,
            ENEMY_BASE_HEALTH as nat,
            ENEMY_BASE_ATTACK as nat,
        ) {
            (LogType::Status, level_up_message(capped_level(pre.player_level as nat, 1)))
        } else {
            (LogType::Fight, "Lost the fight!"@)
        }),
{
    if combat_wins(
        pre.player_health as nat,
        pre.player_attack as nat,
        ENEMY_BASE_HEALTH as nat,
        ENEMY_BASE_ATTACK as nat,
    ) {
        assert(post.log_view().skip(2) =~= pre.log_view());
    } else {
        assert(post.log_view().skip(1) =~= pre.log_view());
    }
}

} // verus!
