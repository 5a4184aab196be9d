//! The combatant model: attributes, name validation, and the effect of one hit.

use vstd::prelude::*;
use vstd::string::StrSliceExecFns;
use vstd::string::StringExecFns;

verus! {

/// The one failure the library knows: a combatant name of more than 20
/// characters, rejected at construction.
#[derive(Clone, Copy, Debug, PartialEq, Eq, Structural)]
pub enum RPGTurnButtleError {
    CharacterNameTooLong,
}

impl RPGTurnButtleError {
    /// A printable description of the error.
    pub fn message(&self) -> (r: String)
        ensures
            r@ == "character name must be 20 characters or fewer"@,
    {
        String::from_str("character name must be 20 characters or fewer")
    }
}

/// The longest name a combatant may carry, counted in characters.
pub const MAX_NAME_CHARS: usize = 20;

/// Field-object features shared by anything that can stand on the field.
#[derive(Clone, Copy, Debug)]
pub struct Object {
    pub collision_detection: bool,
}

impl Object {
    pub fn new(collision_detection: bool) -> (r: Self)
        ensures
            r.collision_detection == collision_detection,
    {
        Self { collision_detection }
    }
}

/// A combatant's display name, at most [`MAX_NAME_CHARS`] characters long.
#[derive(Debug, Clone)]
pub struct CharaName(pub String);

impl CharaName {
    /// Accepts exactly the names of at most 20 characters (counted by
    /// character, not by byte) and keeps them unchanged.
    pub fn new(chara_name: &str) -> (r: Result<Self, RPGTurnButtleError>)
        ensures
            r is Ok <==> chara_name@.len() <= MAX_NAME_CHARS,
            r is Ok ==> r->Ok_0.0@ == chara_name@,
            r is Err ==> r->Err_0 == RPGTurnButtleError::CharacterNameTooLong,
    {
        if chara_name.unicode_len() > MAX_NAME_CHARS {
            Err(RPGTurnButtleError::CharacterNameTooLong)
        } else {
            Ok(Self(String::from_str(chara_name)))
        }
    }
}

/// Damage reduction granted by defence: one tenth of it, truncated toward
/// zero, so that a negative defence deepens the blow symmetrically.
pub open spec fn mitigation(defence: int) -> int {
    if defence >= 0 {
        defence / 10
    } else {
        -((-defence) / 10)
    }
}

/// What one hit takes off the defender's health: the raw damage less the
/// defender's mitigation. Negative values heal; they are not special-cased.
pub open spec fn mitigated_damage(raw_damage: int, defence: int) -> int {
    raw_damage - mitigation(defence)
}

/// With zero defence nothing is mitigated: every hit lands with its raw
/// damage unchanged.
pub proof fn lemma_zero_defence_no_mitigation(raw_damage: int)
    ensures
        mitigated_damage(raw_damage, 0) == raw_damage,
{
}

/// One fighter: its attributes and the sticky death flag.
#[derive(Debug, Clone)]
pub struct Character {
    pub object_feature: Object,
    pub chara_name: CharaName,
    pub hp: i16,
    pub attack: i16,
    pub defence: i16,
    pub dead: bool,
}

impl Character {
    /// Builds a fighter. Only the name is validated; health, attack and
    /// defence accept any signed value. The death flag starts false.
    pub fn new(name: &str, hp: i16, attack: i16, defence: i16) -> (r: Result<
        Self,
        RPGTurnButtleError,
    >)
        ensures
            r is Ok <==> name@.len() <= MAX_NAME_CHARS,
            r is Ok ==> {
                &&& r->Ok_0.chara_name.0@ == name@
                &&& r->Ok_0.hp == hp
                &&& r->Ok_0.attack == attack
                &&& r->Ok_0.defence == defence
                &&& !r->Ok_0.dead
                &&& r->Ok_0.object_feature.collision_detection
            },
            r is Err ==> r->Err_0 == RPGTurnButtleError::CharacterNameTooLong,
    {
        let chara_name = match CharaName::new(name) {
            Ok(n) => n,
            Err(e) => {
                return Err(e);
            },
        };
        Ok(
            Self {
                object_feature: Object::new(true),
                chara_name,
                hp,
                attack,
                defence,
                dead: false,
            },
        )
    }

    /// Read-only accessor for the attack power.
    pub fn attack(&self) -> (r: i16)
        ensures
            r == self.attack,
    {
        self.attack
    }

    /// Resolves one hit: subtracts the mitigated damage from health, turns
    /// the death flag on when health has dropped below zero, and returns the
    /// flag. The flag is sticky: once set it never reverts, even when a later
    /// healing hit raises health back above zero.
    pub fn attacked(&mut self, damage: i16) -> (r: bool)
        requires
            i16::MIN <= old(self).hp - mitigated_damage(
                damage as int,
                old(self).defence as int,
            ) <= i16::MAX,
        ensures
            final(self).hp as int == old(self).hp - mitigated_damage(
                damage as int,
                old(self).defence as int,
            ),
            final(self).dead == (old(self).dead || final(self).hp < 0),
            r == final(self).dead,
            old(self).dead ==> final(self).dead,
            final(self).chara_name == old(self).chara_name,
            final(self).attack == old(self).attack,
            final(self).defence == old(self).defence,
            final(self).object_feature == old(self).object_feature,
    {
        let mitigation_amount: i32 = if self.defence >= 0 {
            ((self.defence as u32) / 10) as i32
        } else {
            let magnitude: u32 = (-(self.defence as i32)) as u32;
            -((magnitude / 10) as i32)
        };
        assert(mitigation_amount == mitigation(self.defence as int));
        let mitigated: i32 = (damage as i32) - mitigation_amount;
        let new_hp: i32 = (self.hp as i32) - mitigated;
        self.hp = new_hp as i16;
        if self.hp < 0 {
            self.dead = true;
            self.dead
        } else {
            self.dead
        }
    }
}

} // verus!
