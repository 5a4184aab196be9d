//! The battle controller: the alternating turn loop between two combatants,
//! run to a terminal outcome and reported with the full health trajectory.

use crate::combatant::Character;
use crate::combatant::mitigated_damage;
use vstd::prelude::*;

verus! {

/// The enemy's health after the player's first `hits` blows, with no cut-off
/// at death: each blow removes the same mitigated damage, since attack power
/// and defence never change during a battle.
pub open spec fn enemy_hp_after(p0: Character, e0: Character, hits: int) -> int
    decreases hits,
{
    if hits <= 0 {
        e0.hp as int
    } else {
        enemy_hp_after(p0, e0, hits - 1) - mitigated_damage(p0.attack as int, e0.defence as int)
    }
}

/// The player's health after the enemy's first `hits` counter-blows, with no
/// cut-off at death.
pub open spec fn player_hp_after(p0: Character, e0: Character, hits: int) -> int
    decreases hits,
{
    if hits <= 0 {
        p0.hp as int
    } else {
        player_hp_after(p0, e0, hits - 1) - mitigated_damage(e0.attack as int, p0.defence as int)
    }
}

/// Both sides are still standing after each of the first `turns` full turns:
/// neither blow of any of those turns drove its target's health below zero.
pub open spec fn survives_through(p0: Character, e0: Character, turns: int) -> bool {
    forall|i: int|
        #![trigger enemy_hp_after(p0, e0, i)]
        #![trigger player_hp_after(p0, e0, i)]
        1 <= i <= turns ==> enemy_hp_after(p0, e0, i) >= 0 && player_hp_after(p0, e0, i) >= 0
}

/// The player wins on turn `n`: both sides stood through the first `n - 1`
/// turns and the player's `n`-th blow drives the enemy's health below zero.
/// The player's own survival is not checked on that turn.
pub open spec fn player_wins_at(p0: Character, e0: Character, n: int) -> bool {
    &&& 1 <= n
    &&& survives_through(p0, e0, n - 1)
    &&& enemy_hp_after(p0, e0, n) < 0
}

/// The enemy wins on turn `n`: both sides stood through the first `n - 1`
/// turns, the enemy stood the player's `n`-th blow, and the counter-blow
/// drives the player's health below zero.
pub open spec fn enemy_wins_at(p0: Character, e0: Character, n: int) -> bool {
    &&& 1 <= n
    &&& survives_through(p0, e0, n - 1)
    &&& enemy_hp_after(p0, e0, n) >= 0
    &&& player_hp_after(p0, e0, n) < 0
}

/// The battle between `p0` and `e0` ends on turn `n`, one way or the other.
pub open spec fn battle_ends_at(p0: Character, e0: Character, n: int) -> bool {
    player_wins_at(p0, e0, n) || enemy_wins_at(p0, e0, n)
}

/// The battle between `p0` and `e0` ends at all: some turn is terminal. On a
/// battle without one — every blow forever mitigated into harmlessness — the
/// turn loop would never return, so such battles are left out of its domain.
pub open spec fn battle_ends(p0: Character, e0: Character) -> bool {
    exists|n: int| #[trigger] battle_ends_at(p0, e0, n)
}

/// Machine limit on a battle: every health value the turn loop can reach fits
/// in an `i16`. Only the healths actually reached are constrained: the
/// condition on turn `j` is owed only while both sides stood through turn
/// `j - 1`, and the player's only once the enemy stood the `j`-th blow.
pub open spec fn battle_stays_in_range(p0: Character, e0: Character) -> bool {
    forall|j: int|
        #![trigger enemy_hp_after(p0, e0, j)]
        1 <= j && survives_through(p0, e0, j - 1) ==> i16::MIN <= enemy_hp_after(p0, e0, j)
            <= i16::MAX && (enemy_hp_after(p0, e0, j) >= 0 ==> i16::MIN <= player_hp_after(
            p0,
            e0,
            j,
        ) <= i16::MAX)
}

/// Terminal result of a battle, carrying the defeated combatant's final state.
pub enum Outcome {
    PlayerWon(Character),
    EnemyWon(Character),
}

/// What one finished battle hands back: the outcome and, for display, the
/// ordered health trajectory of each side, starting at the initial health and
/// recording every hit taken, the lethal one included.
pub struct BattleReport {
    pub outcome: Outcome,
    pub player_hp_log: Vec<i16>,
    pub enemy_hp_log: Vec<i16>,
}

/// The defeated combatant's final state: every attribute as at creation, the
/// death flag on, and health as left by the lethal blow.
pub open spec fn is_struck_down(c0: Character, hp: int, c: Character) -> bool {
    &&& c.chara_name == c0.chara_name
    &&& c.attack == c0.attack
    &&& c.defence == c0.defence
    &&& c.object_feature == c0.object_feature
    &&& c.dead
    &&& c.hp as int == hp
}

/// The health logs of a finished battle in which the player took `p_hits`
/// blows and the enemy `e_hits`: each log starts at the initial health and
/// follows the exact trajectory.
pub open spec fn logs_match(
    p0: Character,
    e0: Character,
    p_log: Seq<i16>,
    e_log: Seq<i16>,
    p_hits: int,
    e_hits: int,
) -> bool {
    &&& p_log.len() == p_hits + 1
    &&& (forall|i: int| #![trigger p_log[i]] 0 <= i <= p_hits ==> p_log[i] as int == player_hp_after(p0, e0, i))
    &&& e_log.len() == e_hits + 1
    &&& (forall|i: int| #![trigger e_log[i]] 0 <= i <= e_hits ==> e_log[i] as int == enemy_hp_after(p0, e0, i))
}

/// The report of a battle won by the player on turn `n`: the outcome carries
/// the struck-down enemy, the enemy's log records `n` hits, the player's
/// `n - 1` — the player's lethal blow resolves before any counter-blow.
pub open spec fn report_of_player_win(p0: Character, e0: Character, n: int, r: BattleReport) -> bool {
    &&& r.outcome is PlayerWon
    &&& is_struck_down(e0, enemy_hp_after(p0, e0, n), r.outcome->PlayerWon_0)
    &&& logs_match(p0, e0, r.player_hp_log@, r.enemy_hp_log@, n - 1, n)
}

/// The report of a battle won by the enemy on turn `n`: the outcome carries
/// the struck-down player, and both logs record `n` hits.
pub open spec fn report_of_enemy_win(p0: Character, e0: Character, n: int, r: BattleReport) -> bool {
    &&& r.outcome is EnemyWon
    &&& is_struck_down(p0, player_hp_after(p0, e0, n), r.outcome->EnemyWon_0)
    &&& logs_match(p0, e0, r.player_hp_log@, r.enemy_hp_log@, n, n)
}

/// Full meaning of one finished battle between initial states `p0` and `e0`:
/// the outcome names the side whose blow first drove the other's health below
/// zero, with the player's blow of each turn resolved strictly first, and the
/// logs record the whole trajectory. The winning turn is the first terminal
/// one, since the survival of every earlier turn is part of the claim.
pub open spec fn battle_report_correct(p0: Character, e0: Character, r: BattleReport) -> bool {
    match r.outcome {
        Outcome::PlayerWon(_) => exists|n: int|
            #[trigger] player_wins_at(p0, e0, n) && report_of_player_win(p0, e0, n, r),
        Outcome::EnemyWon(_) => exists|n: int|
            #[trigger] enemy_wins_at(p0, e0, n) && report_of_enemy_win(p0, e0, n, r),
    }
}

/// The field on which one battle is fought: exactly two combatants, by role.
/// `turn` is bookkeeping only; the loop neither increments nor reads it.
pub struct ButtleField {
    pub player_chara: Character,
    pub enemy_chara: Character,
    pub turn: i16,
}

impl ButtleField {
    /// Runs the battle to its end. Each turn the enemy takes the player's
    /// blow first; only if the enemy stands it does the player take the
    /// counter-blow.
    pub fn main_buttle(self) -> (r: BattleReport)
        requires
            !self.player_chara.dead,
            !self.enemy_chara.dead,
            battle_stays_in_range(self.player_chara, self.enemy_chara),
            battle_ends(self.player_chara, self.enemy_chara),
        ensures
            battle_report_correct(self.player_chara, self.enemy_chara, r),
            forall|n: int| #[trigger] player_wins_at(self.player_chara, self.enemy_chara, n)
                ==> report_of_player_win(self.player_chara, self.enemy_chara, n, r),
            forall|n: int| #[trigger] enemy_wins_at(self.player_chara, self.enemy_chara, n)
                ==> report_of_enemy_win(self.player_chara, self.enemy_chara, n, r),
    {
        let ghost p0 = self.player_chara;
        let ghost e0 = self.enemy_chara;
        let ghost n_end = choose|n: int| battle_ends_at(p0, e0, n);
        let mut player = self.player_chara;
        let mut enemy = self.enemy_chara;
        let mut player_hp_log: Vec<i16> = Vec::new();
        let mut enemy_hp_log: Vec<i16> = Vec::new();
        player_hp_log.push(player.hp);
        enemy_hp_log.push(enemy.hp);
        let ghost mut k: int = 0;
        loop
            invariant
                p0 == self.player_chara,
                e0 == self.enemy_chara,
                0 <= k,
                battle_ends_at(p0, e0, n_end),
                k < n_end,
                battle_stays_in_range(p0, e0),
                survives_through(p0, e0, k),
                player.chara_name == p0.chara_name,
                player.attack == p0.attack,
                player.defence == p0.defence,
                player.object_feature == p0.object_feature,
                !player.dead,
                player.hp as int == player_hp_after(p0, e0, k),
                enemy.chara_name == e0.chara_name,
                enemy.attack == e0.attack,
                enemy.defence == e0.defence,
                enemy.object_feature == e0.object_feature,
                !enemy.dead,
                enemy.hp as int == enemy_hp_after(p0, e0, k),
                logs_match(p0, e0, player_hp_log@, enemy_hp_log@, k, k),
            decreases n_end - k,
        {
            proof {
                assert(enemy_hp_after(p0, e0, k + 1) == enemy_hp_after(p0, e0, k)
                    - mitigated_damage(p0.attack as int, e0.defence as int));
            }
            let enemy_dead = enemy.attacked(player.attack());
            enemy_hp_log.push(enemy.hp);
            if enemy_dead {
                proof {
                    assert(player_wins_at(p0, e0, k + 1));
                    assert(is_struck_down(e0, enemy_hp_after(p0, e0, k + 1), enemy));
                    assert(logs_match(p0, e0, player_hp_log@, enemy_hp_log@, k, k + 1));
                    assert forall|n: int| player_wins_at(p0, e0, n) implies n == k + 1 by {
                        lemma_player_winning_turn_unique(p0, e0, n, k + 1);
                    }
                    assert forall|n: int| !enemy_wins_at(p0, e0, n) by {
                        lemma_player_wins_ties(p0, e0, k + 1, n);
                    }
                }
                return BattleReport {
                    outcome: Outcome::PlayerWon(enemy),
                    player_hp_log,
                    enemy_hp_log,
                };
            }
            proof {
                assert(player_hp_after(p0, e0, k + 1) == player_hp_after(p0, e0, k)
                    - mitigated_damage(e0.attack as int, p0.defence as int));
            }
            let player_dead = player.attacked(enemy.attack());
            player_hp_log.push(player.hp);
            if player_dead {
                proof {
                    assert(enemy_wins_at(p0, e0, k + 1));
                    assert(is_struck_down(p0, player_hp_after(p0, e0, k + 1), player));
                    assert(logs_match(p0, e0, player_hp_log@, enemy_hp_log@, k + 1, k + 1));
                    assert forall|n: int| enemy_wins_at(p0, e0, n) implies n == k + 1 by {
                        lemma_enemy_winning_turn_unique(p0, e0, n, k + 1);
                    }
                    assert forall|n: int| !player_wins_at(p0, e0, n) by {
                        if player_wins_at(p0, e0, n) {
                            lemma_player_wins_ties(p0, e0, n, k + 1);
                        }
                    }
                }
                return BattleReport {
                    outcome: Outcome::EnemyWon(player),
                    player_hp_log,
                    enemy_hp_log,
                };
            }
            proof {
                assert forall|i: int| 1 <= i <= k + 1 implies enemy_hp_after(p0, e0, i) >= 0
                    && player_hp_after(p0, e0, i) >= 0 by {
                    if i <= k {
                        assert(survives_through(p0, e0, k));
                    }
                }
                assert(n_end != k + 1) by {
                    if n_end == k + 1 {
                        assert(enemy_hp_after(p0, e0, k + 1) >= 0);
                        assert(player_hp_after(p0, e0, k + 1) >= 0);
                    }
                }
                k = k + 1;
            }
        }
    }
}

/// No turn can be won by both sides, and the player's blow of each turn
/// resolves strictly first: whenever some turn is a winning one for the
/// player, no turn at all is a winning one for the enemy. In particular, when
/// both blows of one turn would be lethal, the battle is the player's.
pub proof fn lemma_player_wins_ties(p0: Character, e0: Character, n: int, m: int)
    requires
        player_wins_at(p0, e0, n),
    ensures
        !enemy_wins_at(p0, e0, m),
{
    if enemy_wins_at(p0, e0, m) {
        if m < n {
            assert(survives_through(p0, e0, n - 1));
            assert(player_hp_after(p0, e0, m) >= 0);
        } else if m > n {
            assert(survives_through(p0, e0, m - 1));
            assert(enemy_hp_after(p0, e0, n) >= 0);
        }
    }
}

/// A battle has at most one winning turn for the player: its outcome and
/// final states are fully determined by the two initial states.
pub proof fn lemma_player_winning_turn_unique(p0: Character, e0: Character, n: int, m: int)
    requires
        player_wins_at(p0, e0, n),
        player_wins_at(p0, e0, m),
    ensures
        n == m,
{
    if n < m {
        assert(survives_through(p0, e0, m - 1));
        assert(enemy_hp_after(p0, e0, n) >= 0);
    } else if m < n {
        assert(survives_through(p0, e0, n - 1));
        assert(enemy_hp_after(p0, e0, m) >= 0);
    }
}

/// A battle has at most one winning turn for the enemy.
pub proof fn lemma_enemy_winning_turn_unique(p0: Character, e0: Character, n: int, m: int)
    requires
        enemy_wins_at(p0, e0, n),
        enemy_wins_at(p0, e0, m),
    ensures
        n == m,
{
    if n < m {
        assert(survives_through(p0, e0, m - 1));
        assert(player_hp_after(p0, e0, n) >= 0);
    } else if m < n {
        assert(survives_through(p0, e0, n - 1));
        assert(player_hp_after(p0, e0, m) >= 0);
    }
}

/// The demonstration battle: Akechi Mitsuhide (health 100, attack 30,
/// defence 10) against Hashiba Hideyoshi (health 80, attack 40, defence 0).
/// The player's blows land for 30, the counter-blows for 39, so the healths
/// run 80, 50, 20, -10 and 100, 61, 22: the enemy falls on the third turn
/// and the battle is the player's.
pub fn yamasaki_buttle() -> (r: BattleReport)
    ensures
        r.outcome is PlayerWon,
        r.outcome->PlayerWon_0.chara_name.0@ == "hashiba hideyoshi"@,
        r.outcome->PlayerWon_0.hp == -10,
        r.outcome->PlayerWon_0.attack == 40,
        r.outcome->PlayerWon_0.defence == 0,
        r.outcome->PlayerWon_0.dead,
        r.player_hp_log@ == seq![100i16, 61i16, 22i16],
        r.enemy_hp_log@ == seq![80i16, 50i16, 20i16, -10i16],
{
    proof {
        reveal_strlit("akechi mitsuhide");
        reveal_strlit("hashiba hideyoshi");
    }
    let player_chara = match Character::new("akechi mitsuhide", 100, 30, 10) {
        Ok(c) => c,
        Err(_) => unreached(),
    };
    let enemy_chara = match Character::new("hashiba hideyoshi", 80, 40, 0) {
        Ok(c) => c,
        Err(_) => unreached(),
    };
    let ghost p0 = player_chara;
    let ghost e0 = enemy_chara;
    let buttle_field = ButtleField { player_chara, enemy_chara, turn: 0 };
    proof {
        assert(mitigated_damage(30, 0) == 30);
        assert(mitigated_damage(40, 10) == 39);
        assert(enemy_hp_after(p0, e0, 0) == 80);
        assert(enemy_hp_after(p0, e0, 1) == 50);
        assert(enemy_hp_after(p0, e0, 2) == 20);
        assert(enemy_hp_after(p0, e0, 3) == -10);
        assert(player_hp_after(p0, e0, 0) == 100);
        assert(player_hp_after(p0, e0, 1) == 61);
        assert(player_hp_after(p0, e0, 2) == 22);
        assert(survives_through(p0, e0, 2)) by {
            assert forall|i: int| 1 <= i <= 2 implies enemy_hp_after(p0, e0, i) >= 0
                && player_hp_after(p0, e0, i) >= 0 by {
                if i == 1 {
                    assert(enemy_hp_after(p0, e0, 1) == 50);
                    assert(player_hp_after(p0, e0, 1) == 61);
                } else {
                    assert(enemy_hp_after(p0, e0, 2) == 20);
                    assert(player_hp_after(p0, e0, 2) == 22);
                }
            }
        }
        assert(player_wins_at(p0, e0, 3));
        assert(battle_ends_at(p0, e0, 3));
        assert(battle_stays_in_range(p0, e0)) by {
            assert forall|j: int| 1 <= j && survives_through(p0, e0, j - 1) implies i16::MIN
                <= enemy_hp_after(p0, e0, j) <= i16::MAX && (enemy_hp_after(p0, e0, j) >= 0
                ==> i16::MIN <= player_hp_after(p0, e0, j) <= i16::MAX) by {
                if j >= 4 {
                    assert(!survives_through(p0, e0, j - 1)) by {
                        if survives_through(p0, e0, j - 1) {
                            assert(enemy_hp_after(p0, e0, 3) >= 0);
                        }
                    }
                } else if j == 1 {
                    assert(enemy_hp_after(p0, e0, 1) == 50);
                    assert(player_hp_after(p0, e0, 1) == 61);
                } else if j == 2 {
                    assert(enemy_hp_after(p0, e0, 2) == 20);
                    assert(player_hp_after(p0, e0, 2) == 22);
                } else {
                    assert(enemy_hp_after(p0, e0, 3) == -10);
                }
            }
        }
    }
    let report = buttle_field.main_buttle();
    proof {
        assert(report_of_player_win(p0, e0, 3, report));
        assert(report.player_hp_log@ =~= seq![100i16, 61i16, 22i16]) by {
            assert(report.player_hp_log@[0] as int == player_hp_after(p0, e0, 0));
            assert(report.player_hp_log@[1] as int == player_hp_after(p0, e0, 1));
            assert(report.player_hp_log@[2] as int == player_hp_after(p0, e0, 2));
        }
        assert(report.enemy_hp_log@ =~= seq![80i16, 50i16, 20i16, -10i16]) by {
            assert(report.enemy_hp_log@[0] as int == enemy_hp_after(p0, e0, 0));
            assert(report.enemy_hp_log@[1] as int == enemy_hp_after(p0, e0, 1));
            assert(report.enemy_hp_log@[2] as int == enemy_hp_after(p0, e0, 2));
            assert(report.enemy_hp_log@[3] as int == enemy_hp_after(p0, e0, 3));
        }
    }
    report
}

} // verus!
