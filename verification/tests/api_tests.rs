use bout_tracker::api::{
    bout_from_api, create_api_error_response, no_active_matches_response, select_team_bout,
    BoutSummary,
};
use bout_tracker::response::ResponseType;
use bout_tracker::text::{i128_to_string, u128_to_string, usize_to_string};

#[test]
fn select_picks_the_first_bout_involving_the_team() {
    let listing = vec![
        BoutSummary { id: 1, home_team_id: 5, away_team_id: 6 },
        BoutSummary { id: 2, home_team_id: 7, away_team_id: 5 },
        BoutSummary { id: 3, home_team_id: 9, away_team_id: 7 },
        BoutSummary { id: 4, home_team_id: 7, away_team_id: 8 },
    ];
    assert_eq!(select_team_bout(&listing, 7), Some(2));
    assert_eq!(select_team_bout(&listing, 8), Some(4));
    assert_eq!(select_team_bout(&listing, 99), None);
    assert_eq!(select_team_bout(&Vec::new(), 7), None);
}

#[test]
fn bout_from_api_parses_the_providers_datetime() {
    let b = bout_from_api(
        7,
        String::from("Winter Cup"),
        "2021-01-01T12:00:00",
        vec![String::from("m1")],
        String::from("Alpha"),
        String::from("Beta"),
    )
    .unwrap();
    // 2021-01-01 12:00:00 UTC is epoch second 1609502400: a render exactly
    // then shows a zero countdown
    assert_eq!(
        b.describe_at(1609502400, "D", "T"),
        "Date: D\nTime: T (in: 0d 0hr 0min)\nChannel: spire7\nhttps://spire.gg/match/7"
    );
    assert_eq!(b.id(), 7);
    assert_eq!(b.get_title(), "Alpha vs Beta");
    assert_eq!(b.get_maps(), "[ACE]: m1\n");
}

#[test]
fn bout_from_api_rejects_unparsable_datetimes() {
    let r = bout_from_api(
        7,
        String::from("Winter Cup"),
        "yesterday-ish",
        vec![String::from("m1")],
        String::from("Alpha"),
        String::from("Beta"),
    );
    assert!(r.is_none());
}

#[test]
fn no_active_matches_response_names_the_bracket_page() {
    let r = no_active_matches_response(123);
    assert_eq!(r.response_type, ResponseType::Error);
    assert_eq!(r.title, "No active matches found");
    assert_eq!(
        r.contents,
        "For further information see https://spire.gg/tournament/123#brackets."
    );
}

#[test]
fn api_error_response_carries_address_and_cause() {
    let r = create_api_error_response(
        String::from("timed out"),
        String::from("https://api.spire.gg/matches/7"),
    );
    assert_eq!(r.response_type, ResponseType::Error);
    assert_eq!(r.title, "API error");
    assert_eq!(
        r.contents,
        "Error parsing response of \"https://api.spire.gg/matches/7\"!\n\ttimed out"
    );
}

#[test]
fn decimal_rendering_matches_the_usual_base_10_form() {
    assert_eq!(u128_to_string(0), "0");
    assert_eq!(u128_to_string(7), "7");
    assert_eq!(u128_to_string(12345), "12345");
    assert_eq!(usize_to_string(100), "100");
    assert_eq!(i128_to_string(0), "0");
    assert_eq!(i128_to_string(-42), "-42");
    assert_eq!(i128_to_string(42), "42");
}
