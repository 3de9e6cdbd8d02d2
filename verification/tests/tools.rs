use tcglense::commands::tools::{
    check_adjust, check_finish, check_start, check_update, counter_label, counter_list,
    parse_player_spec, playing, seat_name, update_counter_set, Counter, LifeArgError,
    PlayerSpecError,
};
use tcglense::models::{LifeEvent, LifePlayer};

#[test]
fn bare_spec_is_a_name() {
    let seat = parse_player_spec("Alice").unwrap();
    assert_eq!(seat.name.as_deref(), Some("Alice"));
    assert_eq!(seat.field_count(), 1);
}

#[test]
fn attributes_follow_the_name() {
    let seat = parse_player_spec("Alice, deck=12, rotation=90, life=40").unwrap();
    assert_eq!(seat.name.as_deref(), Some("Alice"));
    assert_eq!(seat.deck_id, Some(12));
    assert_eq!(seat.rotation, Some(90));
    assert_eq!(seat.starting_life, Some(40));
}

#[test]
fn name_may_be_given_as_an_attribute() {
    let seat = parse_player_spec("name=Bob,commander=abc-123").unwrap();
    assert_eq!(seat.name.as_deref(), Some("Bob"));
    assert_eq!(seat.commander_card_id.as_deref(), Some("abc-123"));
}

#[test]
fn an_empty_spec_leaves_every_field_to_the_server() {
    let seat = parse_player_spec("").unwrap();
    assert_eq!(seat.field_count(), 0);
}

#[test]
fn deck_and_commander_are_mutually_exclusive() {
    assert!(parse_player_spec("Alice,deck=1,commander=abc").is_err());
}

#[test]
fn no_counter_flags_leave_the_tracked_set_alone() {
    assert!(counter_list(&[]).is_none());
}

#[test]
fn counters_keep_their_order_and_de_duplicate() {
    let out = counter_list(&[
        Counter::Poison,
        Counter::CommanderDamage,
        Counter::Poison,
        Counter::Experience,
    ])
    .unwrap();
    assert_eq!(out, vec!["poison", "commander_damage", "experience"]);
}

#[test]
fn unknown_attributes_and_bad_numbers_are_rejected() {
    assert!(parse_player_spec("Alice,colour=red").is_err());
    assert!(parse_player_spec("Alice,deck=twelve").is_err());
    assert!(parse_player_spec("Alice,Bob").is_err());
}

#[test]
fn player_spec_errors_say_what_was_wrong() {
    let e = parse_player_spec("Alice,colour=red").unwrap_err();
    assert!(matches!(e, PlayerSpecError::UnknownAttribute { .. }));
    assert_eq!(
        e.message("Alice,colour=red"),
        "player spec `Alice,colour=red`: unknown attribute `colour` (expected name / deck / commander / rotation / life)"
    );
    let e = parse_player_spec("Alice,deck=twelve").unwrap_err();
    assert_eq!(
        e.message("Alice,deck=twelve"),
        "player spec `Alice,deck=twelve`: `deck` wants a number, got `twelve`"
    );
    let e = parse_player_spec("Alice,Bob").unwrap_err();
    assert_eq!(
        e.message("Alice,Bob"),
        "player spec `Alice,Bob`: `Bob` is not a key=value attribute"
    );
    let e = parse_player_spec("Alice,deck=1,commander=abc").unwrap_err();
    assert!(matches!(e, PlayerSpecError::DeckAndCommander));
}

#[test]
fn life_commands_refuse_what_cannot_be_sent() {
    assert_eq!(check_start(0, None), Err(LifeArgError::NoTable));
    assert_eq!(check_start(0, Some(3)), Ok(()));
    assert_eq!(check_update(false, false, false, false), Err(LifeArgError::NothingToUpdate));
    assert_eq!(check_update(false, true, false, false), Ok(()));
    assert_eq!(check_finish(None, false), Err(LifeArgError::NoResult));
    assert_eq!(check_finish(None, true), Ok(()));
    assert_eq!(check_adjust(Some(-3), Some(20), None, None), Err(LifeArgError::DeltaXorLife));
    assert_eq!(check_adjust(None, None, None, None), Err(LifeArgError::DeltaXorLife));
    assert_eq!(
        check_adjust(Some(2), None, Some(Counter::CommanderDamage), None),
        Err(LifeArgError::DamageNeedsSource)
    );
    assert_eq!(
        check_adjust(Some(2), None, Some(Counter::Poison), Some(4)),
        Err(LifeArgError::SourceOnlyForDamage)
    );
    assert_eq!(check_adjust(Some(2), None, Some(Counter::CommanderDamage), Some(4)), Ok(()));
    assert_eq!(check_adjust(None, Some(20), None, None), Ok(()));
    assert_eq!(
        LifeArgError::DeltaXorLife.message(),
        "pass exactly one of --delta <change> or --life <total>"
    );
}

#[test]
fn no_counters_is_the_explicit_empty_set() {
    assert_eq!(update_counter_set(&[], true), Some(vec![]));
    assert_eq!(update_counter_set(&[], false), None);
    assert_eq!(
        update_counter_set(&[Counter::Energy, Counter::Energy], false),
        Some(vec!["energy"])
    );
}

fn seat(id: i64, name: &str, deck: Option<(i64, &str)>, commander: Option<&str>) -> LifePlayer {
    LifePlayer {
        id,
        position: 0,
        name: name.to_string(),
        starting_life: 40,
        life: 40,
        rotation: 0,
        result: "none".to_string(),
        deck_id: deck.map(|d| d.0),
        deck_name: deck.map(|d| d.1.to_string()),
        commander_card_id: commander.map(|_| "c1".to_string()),
        commander_name: commander.map(|c| c.to_string()),
    }
}

#[test]
fn seats_are_named_by_id_and_show_what_they_play() {
    let seats = vec![seat(7, "Alice", Some((12, "Atraxa")), None), seat(9, "Bob", None, Some("Krenko"))];
    assert_eq!(seat_name(&seats, 9), "Bob");
    assert_eq!(playing(&seats[0]), "Atraxa (deck 12)");
    assert_eq!(playing(&seats[1]), "Krenko");
    assert_eq!(playing(&seat(1, "C", None, None)), "—");
    let e = LifeEvent {
        id: 1,
        player_id: 7,
        delta: -5,
        life_after: 35,
        counter: "commander_damage".to_string(),
        source_player_id: Some(9),
        kind: "adjust".to_string(),
        created_at: "now".to_string(),
    };
    assert_eq!(counter_label(&e), "commander_damage from #9");
}
