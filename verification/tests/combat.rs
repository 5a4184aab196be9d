use turn_buttle::battlefield::ButtleField;
use turn_buttle::battlefield::Outcome;
use turn_buttle::battlefield::yamasaki_buttle;
use turn_buttle::combatant::CharaName;
use turn_buttle::combatant::Character;
use turn_buttle::combatant::Object;
use turn_buttle::combatant::RPGTurnButtleError;

#[test]
fn it_works() {
    assert_eq!(2 + 2, 4);
}

#[test]
fn object_keeps_collision_detection() {
    assert!(Object::new(true).collision_detection);
    assert!(!Object::new(false).collision_detection);
}

#[test]
fn short_name_is_accepted_unchanged() {
    let name = CharaName::new("oda nobunaga").unwrap();
    assert_eq!(name.0, "oda nobunaga");
    let empty = CharaName::new("").unwrap();
    assert_eq!(empty.0, "");
}

#[test]
fn twenty_character_name_is_accepted() {
    let name = CharaName::new("abcdefghijklmnopqrst").unwrap();
    assert_eq!(name.0, "abcdefghijklmnopqrst");
    let c = Character::new("abcdefghijklmnopqrst", 1, 2, 3).unwrap();
    assert_eq!(c.chara_name.0, "abcdefghijklmnopqrst");
}

#[test]
fn name_length_is_counted_in_characters_not_bytes() {
    // 14 characters, far more than 20 bytes.
    let name = CharaName::new("キャラクタ名は20文字までです").unwrap();
    assert_eq!(name.0, "キャラクタ名は20文字までです");
}

#[test]
fn long_name_is_rejected() {
    let r = CharaName::new("abcdefghijklmnopqrstu");
    assert_eq!(r.unwrap_err(), RPGTurnButtleError::CharacterNameTooLong);
    let c = Character::new("abcdefghijklmnopqrstu", 1, 2, 3);
    assert_eq!(c.unwrap_err(), RPGTurnButtleError::CharacterNameTooLong);
    let kana = CharaName::new("あああああああああああああああああああああ");
    assert_eq!(kana.unwrap_err(), RPGTurnButtleError::CharacterNameTooLong);
}

#[test]
fn error_message_names_the_limit() {
    let e = RPGTurnButtleError::CharacterNameTooLong;
    assert_eq!(e.message(), "character name must be 20 characters or fewer");
}

#[test]
fn create_keeps_all_attributes_raw() {
    let c = Character::new("saito toshimitsu", -5, 0, -32768).unwrap();
    assert_eq!(c.chara_name.0, "saito toshimitsu");
    assert_eq!(c.hp, -5);
    assert_eq!(c.attack, 0);
    assert_eq!(c.defence, -32768);
    assert!(!c.dead);
    assert!(c.object_feature.collision_detection);
}

#[test]
fn attack_returns_attack_power() {
    let c = Character::new("x", 10, 30, 10).unwrap();
    assert_eq!(c.attack(), 30);
    let weak = Character::new("y", 10, -7, 0).unwrap();
    assert_eq!(weak.attack(), -7);
}

#[test]
fn defence_ten_mitigates_one() {
    let mut c = Character::new("x", 100, 0, 10).unwrap();
    let dead = c.attacked(30);
    assert_eq!(c.hp, 71); // 30 raw less 10 / 10 = 1 mitigated
    assert!(!dead);
    assert!(!c.dead);
}

#[test]
fn zero_defence_mitigates_nothing() {
    let mut c = Character::new("x", 100, 0, 0).unwrap();
    assert!(!c.attacked(30));
    assert_eq!(c.hp, 70);
    assert!(!c.attacked(0));
    assert_eq!(c.hp, 70);
    assert!(!c.attacked(-25));
    assert_eq!(c.hp, 95);
}

#[test]
fn mitigation_truncates_toward_zero() {
    let mut c = Character::new("x", 100, 0, 19).unwrap();
    c.attacked(10); // mitigation 19 / 10 = 1
    assert_eq!(c.hp, 91);
    let mut d = Character::new("y", 100, 0, 9).unwrap();
    d.attacked(10); // mitigation 0
    assert_eq!(d.hp, 90);
    let mut n = Character::new("z", 100, 0, -19).unwrap();
    n.attacked(10); // mitigation -1 deepens the blow
    assert_eq!(n.hp, 89);
}

#[test]
fn negative_mitigated_damage_heals() {
    let mut c = Character::new("x", 10, 0, 50).unwrap();
    let dead = c.attacked(2); // 2 - 5 = -3
    assert_eq!(c.hp, 13);
    assert!(!dead);
}

#[test]
fn lethal_hit_sets_dead_and_returns_true() {
    let mut c = Character::new("x", 5, 0, 0).unwrap();
    let dead = c.attacked(6);
    assert_eq!(c.hp, -1);
    assert!(dead);
    assert!(c.dead);
}

#[test]
fn hit_to_exactly_zero_is_not_lethal() {
    let mut c = Character::new("x", 5, 0, 0).unwrap();
    let dead = c.attacked(5);
    assert_eq!(c.hp, 0);
    assert!(!dead);
    assert!(!c.dead);
}

#[test]
fn death_is_sticky_through_later_healing() {
    let mut c = Character::new("x", 5, 0, 0).unwrap();
    assert!(c.attacked(10));
    assert!(c.dead);
    assert_eq!(c.hp, -5);
    // A healing hit raises health above zero; the flag never reverts.
    let still_dead = c.attacked(-20);
    assert_eq!(c.hp, 15);
    assert!(still_dead);
    assert!(c.dead);
}

#[test]
fn yamasaki_buttle_exact_trajectory() {
    let report = yamasaki_buttle();
    assert_eq!(report.enemy_hp_log, vec![80, 50, 20, -10]);
    assert_eq!(report.player_hp_log, vec![100, 61, 22]);
    match report.outcome {
        Outcome::PlayerWon(loser) => {
            assert_eq!(loser.chara_name.0, "hashiba hideyoshi");
            assert_eq!(loser.hp, -10);
            assert_eq!(loser.attack, 40);
            assert_eq!(loser.defence, 0);
            assert!(loser.dead);
        }
        Outcome::EnemyWon(_) => panic!("the demonstration battle is the player's"),
    }
}

#[test]
fn enemy_can_win() {
    let player_chara = Character::new("ashigaru", 10, 1, 0).unwrap();
    let enemy_chara = Character::new("oni", 500, 100, 0).unwrap();
    let field = ButtleField { player_chara, enemy_chara, turn: 0 };
    let report = field.main_buttle();
    assert_eq!(report.enemy_hp_log, vec![500, 499]);
    assert_eq!(report.player_hp_log, vec![10, -90]);
    match report.outcome {
        Outcome::PlayerWon(_) => panic!("the stronger enemy wins this one"),
        Outcome::EnemyWon(loser) => {
            assert_eq!(loser.chara_name.0, "ashigaru");
            assert_eq!(loser.hp, -90);
            assert!(loser.dead);
        }
    }
}

#[test]
fn simultaneous_lethal_blows_fall_to_the_player() {
    // Either side's blow would kill on turn one; the player's resolves first.
    let player_chara = Character::new("player", 5, 50, 0).unwrap();
    let enemy_chara = Character::new("enemy", 5, 50, 0).unwrap();
    let field = ButtleField { player_chara, enemy_chara, turn: 0 };
    let report = field.main_buttle();
    match report.outcome {
        Outcome::PlayerWon(loser) => {
            assert_eq!(loser.chara_name.0, "enemy");
            assert_eq!(loser.hp, -45);
            assert!(loser.dead);
        }
        Outcome::EnemyWon(_) => panic!("the player's blow resolves first"),
    }
    // The player never takes the counter-blow of the final turn.
    assert_eq!(report.player_hp_log, vec![5]);
    assert_eq!(report.enemy_hp_log, vec![5, -45]);
}
