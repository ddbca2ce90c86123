use vstd::prelude::*;
use crate::actions::{ActionChoice, ActionOutcome, execute_action, spec_action_applied};
use crate::player::{Player, same_player};
use crate::rng::roll_inclusive;

verus! {

/// Match mode; it affects only the human side's starting credits.
#[derive(Clone, Copy, PartialEq, Eq, Structural, Debug)]
pub enum GameMode {
    Unrated,
    Competitive,
    TeamDeathMatch,
}

/// Starting credits of the human side under a mode.
pub open spec fn spec_starting_credits(mode: GameMode) -> u32 {
    if mode == GameMode::Unrated {
        200
    } else {
        0
    }
}

/// The mode a 1-based menu selection resolves to; `None` is invalid.
pub open spec fn spec_mode_from_choice(choice: usize) -> Option<GameMode> {
    if choice == 1 {
        Some(GameMode::Unrated)
    } else if choice == 2 {
        Some(GameMode::Competitive)
    } else if choice == 3 {
        Some(GameMode::TeamDeathMatch)
    } else {
        None
    }
}

impl GameMode {
    /// Starting credits the human side receives in this mode.
    pub fn starting_credits(&self) -> (r: u32)
        ensures
            r == spec_starting_credits(*self),
    {
        match self {
            GameMode::Unrated => 200,
            GameMode::Competitive => 0,
            GameMode::TeamDeathMatch => 0,
        }
    }
}

/// Resolves a 1-based mode-menu selection.
pub fn mode_from_choice(choice: usize) -> (r: Option<GameMode>)
    ensures
        r == spec_mode_from_choice(choice),
{
    if choice == 1 {
        Some(GameMode::Unrated)
    } else if choice == 2 {
        Some(GameMode::Competitive)
    } else if choice == 3 {
        Some(GameMode::TeamDeathMatch)
    } else {
        None
    }
}

/// Why a match could not be constructed.
#[derive(Clone, Copy, PartialEq, Eq, Structural, Debug)]
pub enum InitError {
    /// The externally supplied agent list is empty: no opponent agent can be
    /// chosen, so the match cannot start.
    NoAgents,
    /// The externally supplied weapon list is empty.
    NoWeapons,
}

/// Match configuration: the chosen mode and the externally supplied agent
/// and weapon name lists.
pub struct Game {
    pub mode: GameMode,
    pub agents: Vec<String>,
    pub weapons: Vec<String>,
}

/// A well-formed configuration holds non-empty name lists.
pub open spec fn game_wf(g: Game) -> bool {
    g.agents@.len() > 0 && g.weapons@.len() > 0
}

impl Game {
    /// Builds the configuration from externally read name lists; an empty
    /// list is fatal and reported as the corresponding error.
    pub fn new(mode: GameMode, agents: Vec<String>, weapons: Vec<String>) -> (r: Result<
        Game,
        InitError,
    >)
        ensures
            match r {
                Ok(g) => {
                    &&& agents@.len() > 0
                    &&& weapons@.len() > 0
                    &&& g.mode == mode
                    &&& g.agents@ == agents@
                    &&& g.weapons@ == weapons@
                    &&& game_wf(g)
                },
                Err(e) => {
                    ||| (agents@.len() == 0 && e == InitError::NoAgents)
                    ||| (agents@.len() > 0 && weapons@.len() == 0 && e == InitError::NoWeapons)
                },
            },
    {
        if agents.len() == 0 {
            Err(InitError::NoAgents)
        } else if weapons.len() == 0 {
            Err(InitError::NoWeapons)
        } else {
            Ok(Game { mode, agents, weapons })
        }
    }

    /// The agent name behind a 1-based menu selection, or `None` when the
    /// selection is out of range.
    pub fn choose_agent(&self, choice: usize) -> (r: Option<String>)
        ensures
            match r {
                Some(s) => 1 <= choice <= self.agents@.len() && s@ == self.agents@[choice as int
                    - 1]@,
                None => !(1 <= choice <= self.agents@.len()),
            },
    {
        if 1 <= choice && choice <= self.agents.len() {
            Some(self.agents[choice - 1].clone())
        } else {
            None
        }
    }

    /// An agent name drawn from the list for the opponent side.
    pub fn random_agent(&self) -> (r: String)
        requires
            game_wf(*self),
            self.agents@.len() <= u32::MAX,
        ensures
            exists|i: int| 0 <= i < self.agents@.len() && r@ == self.agents@[i]@,
    {
        let n = self.agents.len();
        let i = roll_inclusive(0, (n - 1) as u32) as usize;
        let r = self.agents[i].clone();
        proof {
            assert(0 <= i < self.agents@.len() && r@ == self.agents@[i as int]@);
        }
        r
    }
}

/// Progress of a match.
#[derive(Clone, Copy, PartialEq, Eq, Structural, Debug)]
pub enum MatchState {
    InProgress,
    HumanWins,
    OpponentWins,
}

/// The state reached once the human's action has been applied and the
/// human-first victory check has run: an opponent at zero health decides the
/// match for the human before the opponent can act.
pub open spec fn spec_state_after_human_action(opponent_health: u32) -> MatchState {
    if opponent_health == 0 {
        MatchState::HumanWins
    } else {
        MatchState::InProgress
    }
}

/// The state reached once the opponent's action has been applied and the
/// follow-up check has run.
pub open spec fn spec_state_after_opponent_action(human_health: u32) -> MatchState {
    if human_health == 0 {
        MatchState::OpponentWins
    } else {
        MatchState::InProgress
    }
}

/// One running match: the two combatants and its progress.
pub struct Match {
    pub human: Player,
    pub opponent: Player,
    pub state: MatchState,
}

/// Match invariant: a decided state pins the loser at zero health, and a
/// running match has both sides alive.
pub open spec fn match_wf(m: Match) -> bool {
    &&& (m.state == MatchState::HumanWins ==> m.opponent.health == 0)
    &&& (m.state == MatchState::OpponentWins ==> m.human.health == 0)
    &&& (m.state == MatchState::InProgress ==> m.human.health > 0 && m.opponent.health > 0)
}

impl Match {
    /// Starts a match between two live combatants.
    pub fn new(human: Player, opponent: Player) -> (r: Match)
        requires
            human.health > 0,
            opponent.health > 0,
        ensures
            r.state == MatchState::InProgress,
            same_player(r.human, human),
            same_player(r.opponent, opponent),
            match_wf(r),
    {
        Match { human, opponent, state: MatchState::InProgress }
    }

    /// Runs the human half-turn: applies the action against the opponent,
    /// then the human-first victory check. An action that leaves the opponent
    /// at zero health decides the match at once; a decided match never admits
    /// a further turn, so the opponent cannot retaliate.
    pub fn human_turn(&mut self, action: ActionChoice) -> (r: ActionOutcome)
        requires
            old(self).state == MatchState::InProgress,
            match_wf(*old(self)),
            action matches ActionChoice::Move(dx, dy) ==> i32::MIN <= old(self).human.position.0
                + dx <= i32::MAX && i32::MIN <= old(self).human.position.1 + dy <= i32::MAX,
        ensures
            spec_action_applied(
                old(self).human,
                final(self).human,
                old(self).opponent,
                final(self).opponent,
                action,
                r,
            ),
            final(self).state == spec_state_after_human_action(final(self).opponent.health),
            match_wf(*final(self)),
    {
        let outcome = execute_action(&mut self.human, &mut self.opponent, action);
        if self.opponent.health == 0 {
            self.state = MatchState::HumanWins;
        }
        outcome
    }

    /// Runs the opponent half-turn from a still-running match: applies the
    /// action against the human, then the corresponding victory check.
    pub fn opponent_turn(&mut self, action: ActionChoice) -> (r: ActionOutcome)
        requires
            old(self).state == MatchState::InProgress,
            match_wf(*old(self)),
            action matches ActionChoice::Move(dx, dy) ==> i32::MIN <= old(self).opponent.position.0
                + dx <= i32::MAX && i32::MIN <= old(self).opponent.position.1 + dy <= i32::MAX,
        ensures
            spec_action_applied(
                old(self).opponent,
                final(self).opponent,
                old(self).human,
                final(self).human,
                action,
                r,
            ),
            final(self).state == spec_state_after_opponent_action(final(self).human.health),
            match_wf(*final(self)),
    {
        let outcome = execute_action(&mut self.opponent, &mut self.human, action);
        if self.human.health == 0 {
            self.state = MatchState::OpponentWins;
        }
        outcome
    }

    /// Whether the match has been decided.
    pub fn is_over(&self) -> (r: bool)
        ensures
            r == (self.state != MatchState::InProgress),
    {
        match self.state {
            MatchState::InProgress => false,
            MatchState::HumanWins => true,
            MatchState::OpponentWins => true,
        }
    }
}

/// Termination-ordering law: the victory check after the human's action runs
/// before the opponent ever acts, so a human action that leaves the opponent
/// at zero health ends the match as a human win and never as a running
/// match. The turn functions require a running match, so no action can be
/// executed from the decided state.
pub proof fn lemma_human_kill_decides(opponent_health: u32)
    requires
        opponent_health == 0,
    ensures
        spec_state_after_human_action(opponent_health) == MatchState::HumanWins,
        spec_state_after_human_action(opponent_health) != MatchState::InProgress,
{
}

} // verus!
