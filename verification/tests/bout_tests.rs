use bout_tracker::bout::Bout;
use bout_tracker::response::ResponseType;

fn five_map_bout(id: usize) -> Bout {
    Bout::new(
        id,
        String::from("Winter Cup"),
        1609502400,
        vec![
            String::from("m1"),
            String::from("m2"),
            String::from("m3"),
            String::from("m4"),
            String::from("m5"),
        ],
        String::from("Alpha"),
        String::from("Beta"),
    )
}

#[test]
fn insert_player_accepts_every_index_in_range() {
    let mut b = five_map_bout(1);
    for index in 1..=5usize {
        assert!(b.insert_player(index, String::from("nix")).is_ok());
        assert_eq!(b.map_slots()[index - 1].1, Some(String::from("nix")));
    }
}

#[test]
fn insert_player_rejects_zero_and_above_count() {
    let mut b = five_map_bout(1);
    let err = b.insert_player(0, String::from("nix")).unwrap_err();
    assert_eq!(err.response_type, ResponseType::Error);
    assert_eq!(err.title, "Invalid index.");
    assert_eq!(err.contents, "Please enter a number between 1 and 5");
    let err = b.insert_player(6, String::from("nix")).unwrap_err();
    assert_eq!(err.title, "Invalid index.");
    assert!(b.map_slots().iter().all(|slot| slot.1.is_none()));
}

#[test]
fn remove_player_accepts_every_index_in_range() {
    let mut b = five_map_bout(1);
    for index in 1..=5usize {
        b.insert_player(index, String::from("nix")).unwrap();
        assert!(b.remove_player(index).is_ok());
        assert_eq!(b.map_slots()[index - 1].1, None);
    }
}

#[test]
fn remove_player_rejects_zero_and_above_count() {
    let mut b = five_map_bout(1);
    assert!(b.remove_player(0).is_err());
    let err = b.remove_player(6).unwrap_err();
    assert_eq!(err.response_type, ResponseType::Error);
    assert_eq!(err.contents, "Please enter a number between 1 and 5");
}

#[test]
fn remove_player_on_empty_slot_succeeds() {
    let mut b = five_map_bout(1);
    assert!(b.remove_player(2).is_ok());
    assert!(b.remove_player(2).is_ok());
    assert_eq!(b.map_slots()[1].1, None);
}

#[test]
fn equality_depends_solely_on_id() {
    let same_id_other_fields = Bout::new(
        1,
        String::from("Other Cup"),
        99,
        vec![String::from("x")],
        String::from("Gamma"),
        String::from("Delta"),
    );
    assert!(five_map_bout(1) == same_id_other_fields);

    let other_id_same_fields = five_map_bout(2);
    assert!(five_map_bout(1) != other_id_same_fields);
}

#[test]
fn title_is_home_versus_away() {
    assert_eq!(five_map_bout(1).get_title(), "Alpha vs Beta");
}

#[test]
fn maps_render_markers_players_and_tiebreaker() {
    let mut b = five_map_bout(1);
    b.insert_player(3, String::from("nix")).unwrap();
    assert_eq!(b.get_maps(), "[1]: m1\n[2]: m2\nnix: m3\n[4]: m4\n[ACE]: m5\n");
}

#[test]
fn maps_render_all_unassigned() {
    let b = five_map_bout(1);
    assert_eq!(b.get_maps(), "[1]: m1\n[2]: m2\n[3]: m3\n[4]: m4\n[ACE]: m5\n");
}

#[test]
fn maps_render_of_empty_bout_is_empty() {
    let b = Bout::new(
        1,
        String::from("Cup"),
        0,
        Vec::new(),
        String::from("A"),
        String::from("B"),
    );
    assert_eq!(b.get_maps(), "");
}

#[test]
fn description_counts_down_days_hours_minutes() {
    let b = five_map_bout(7);
    // one day, one hour and one minute before the scheduled instant
    let now = 1609502400 - 86400 - 3600 - 60;
    assert_eq!(
        b.describe_at(now, "D", "T"),
        "Date: D\nTime: T (in: 1d 1hr 1min)\nChannel: spire7\nhttps://spire.gg/match/7"
    );
}

#[test]
fn description_countdown_is_negative_after_the_match() {
    let b = five_map_bout(7);
    let now = 1609502400 + 86400 + 3600 + 60;
    assert_eq!(
        b.describe_at(now, "D", "T"),
        "Date: D\nTime: T (in: -1d -1hr -1min)\nChannel: spire7\nhttps://spire.gg/match/7"
    );
}

#[test]
fn description_against_the_wall_clock_names_the_match_page() {
    let text = five_map_bout(7).get_description();
    assert!(text.starts_with("Date: "));
    assert!(text.contains(" (in: "));
    assert!(text.ends_with("\nChannel: spire7\nhttps://spire.gg/match/7"));
}
