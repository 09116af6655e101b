use arma_status_bot::colour::{player_colour, Rgb};
use arma_status_bot::presence::{ActivityKind, PollerState};
use arma_status_bot::reply::{info_reply, InfoOutcome, ServerSnapshot};

fn snapshot(players: u8, max_players: u8) -> ServerSnapshot {
    ServerSnapshot { game: "Altis Life".to_string(), players, max_players }
}

#[test]
fn first_success_always_updates() {
    let mut st = PollerState::new();
    let a = st.step(Some(7), false, 0).expect("first poll updates");
    assert_eq!(a.kind, ActivityKind::Playing);
    assert_eq!(a.text, "Arma 3 with 7 players");
    assert_eq!(st.last_players, Some(7));
}

#[test]
fn updates_follow_changes_in_count() {
    let mut st = PollerState::new();
    let counts = [3u8, 3, 4, 4, 4, 2, 3];
    let expected = [true, false, true, false, false, true, true];
    for (p, e) in counts.iter().zip(expected.iter()) {
        assert_eq!(st.step(Some(*p), false, 0).is_some(), *e);
    }
}

#[test]
fn repeated_count_sets_presence_once() {
    let mut st = PollerState::new();
    let mut calls = 0;
    for _ in 0..2 {
        if st.step(Some(12), false, 0).is_some() {
            calls += 1;
        }
    }
    assert_eq!(calls, 1);
}

#[test]
fn zero_players_without_quirky_mode_is_plural() {
    let mut st = PollerState::new();
    let a = st.step(Some(0), false, 2).unwrap();
    assert_eq!(a.kind, ActivityKind::Playing);
    assert_eq!(a.text, "Arma 3 with 0 players");
}

#[test]
fn zero_players_with_quirky_mode_is_whimsical() {
    let mut st = PollerState::new();
    let a = st.step(Some(0), true, 3).unwrap();
    assert_eq!(a.kind, ActivityKind::Competing);
    assert_eq!(a.text, "a boredom competition");
    assert!(st.step(Some(0), true, 1).is_none());
}

#[test]
fn random_zero_message_is_one_of_the_set() {
    let mut st = PollerState::new();
    let a = st.poll(Some(0), true).unwrap();
    let known = ["paint dry", "infantry playing cards", "a pot boil", "a boredom competition", "grass grow"];
    assert!(known.contains(&a.text.as_str()));
    assert_ne!(a.kind, ActivityKind::Playing);
}

#[test]
fn one_player_is_singular() {
    let mut st = PollerState::new();
    let a = st.step(Some(1), true, 0).unwrap();
    assert_eq!(a.text, "Arma 3 with 1 player");
}

#[test]
fn many_players_written_in_decimal() {
    let mut st = PollerState::new();
    assert_eq!(st.step(Some(255), false, 0).unwrap().text, "Arma 3 with 255 players");
}

#[test]
fn failure_shows_offline_and_forgets_last_count() {
    let mut st = PollerState::new();
    st.step(Some(5), false, 0);
    let a = st.step(None, false, 0).unwrap();
    assert_eq!(a.kind, ActivityKind::Custom);
    assert_eq!(a.text, "Arma 3 server is offline");
    assert!(st.step(None, false, 0).is_some());
    assert_eq!(st.last_players, None);
    let back = st.step(Some(5), false, 0).unwrap();
    assert_eq!(back.text, "Arma 3 with 5 players");
}

#[test]
fn half_full_is_midpoint_colour() {
    assert_eq!(player_colour(50, 100), Rgb { r: 181, g: 115, b: 187 });
}

#[test]
fn empty_and_full_colours_are_exact() {
    assert_eq!(player_colour(0, 64), Rgb { r: 0x71, g: 0x36, b: 0x8A });
    assert_eq!(player_colour(64, 64), Rgb { r: 0xFA, g: 0xB1, b: 0xED });
    assert_eq!(player_colour(200, 64), Rgb { r: 0xFA, g: 0xB1, b: 0xED });
}

#[test]
fn zero_capacity_clamps_the_ratio() {
    assert_eq!(player_colour(0, 0), Rgb { r: 0x71, g: 0x36, b: 0x8A });
    assert_eq!(player_colour(3, 0), Rgb { r: 0xFA, g: 0xB1, b: 0xED });
    assert_eq!(player_colour(1, 0), Rgb { r: 0xFA, g: 0xB1, b: 0xED });
}

#[test]
fn error_and_timeout_give_same_reply() {
    let a = info_reply(&InfoOutcome::Failed, Some("1.2.0".to_string()), Some("https://example.org".to_string()));
    let b = info_reply(&InfoOutcome::TimedOut, Some("1.2.0".to_string()), Some("https://example.org".to_string()));
    assert_eq!(a.title, b.title);
    assert_eq!(a.description, b.description);
    assert_eq!(a.colour, b.colour);
    assert_eq!(a.footer, b.footer);
    assert_eq!(a.url, None);
    assert!(a.fields.is_empty());
    assert_eq!(a.title, "ArmA 3 Server Info");
    assert_eq!(a.description, "The ArmA 3 server doesn't appear to be running right now. Please bear with!");
    assert_eq!(a.colour, Rgb { r: 0xE7, g: 0x4C, b: 0x3C });
    assert_eq!(a.footer.as_deref(), Some("arma-3-status-bot 1.2.0"));
}

#[test]
fn success_reply_has_fields_and_colour() {
    let r = info_reply(&InfoOutcome::Online(snapshot(50, 100)), None, Some("https://example.org".to_string()));
    let off = info_reply(&InfoOutcome::Failed, None, None);
    assert_ne!(r.description, off.description);
    assert_ne!(r.colour, off.colour);
    assert_eq!(r.colour, Rgb { r: 181, g: 115, b: 187 });
    assert_eq!(r.fields.len(), 3);
    assert_eq!(r.fields[0].name, "game");
    assert_eq!(r.fields[0].value, "Altis Life");
    assert!(!r.fields[0].inline);
    assert_eq!(r.fields[1].name, "players");
    assert_eq!(r.fields[1].value, "50");
    assert!(r.fields[1].inline);
    assert_eq!(r.fields[2].name, "max players");
    assert_eq!(r.fields[2].value, "100");
    assert_eq!(r.footer, None);
    assert_eq!(r.url.as_deref(), Some("https://example.org"));
}
