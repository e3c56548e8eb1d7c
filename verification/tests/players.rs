use chess_session::players::{Color, GameType, Player, PlayerHandler, Players, SetupError};

fn pair(white_local: bool, black_local: bool) -> Players {
    Players {
        white: Player { color: Color::White, name: None, local: white_local },
        black: Player { color: Color::Black, name: Some("peer".to_string()), local: black_local },
    }
}

fn host() -> GameType {
    GameType::Host("localhost:3000".to_string())
}

fn client() -> GameType {
    GameType::Client("example.org:4000".to_string())
}

#[test]
fn local_players_are_both_local_and_unnamed() {
    let players = Players::local();
    assert_eq!(
        players,
        Players {
            white: Player { color: Color::White, name: None, local: true },
            black: Player { color: Color::Black, name: None, local: true },
        }
    );
}

#[test]
fn get_player_goes_by_colour() {
    let players = pair(true, false);
    assert_eq!(players.get_player(Color::White), &players.white);
    assert_eq!(players.get_player(Color::Black), &players.black);
}

#[test]
fn a_local_session_owns_every_turn() {
    let handler = PlayerHandler::new(GameType::Local, None).ok().unwrap();
    assert!(!handler.is_networked());
    assert!(handler.can_move(Color::White));
    assert!(handler.can_move(Color::Black));
    assert!(handler.both_local());
    assert_eq!(handler.one_local(), Some(Color::Black));
    assert_eq!(handler.game_type(), &GameType::Local);
    assert_eq!(handler.players(), &Players::local());
}

#[test]
fn a_local_session_ignores_what_a_handshake_gave() {
    let handler = PlayerHandler::new(GameType::Local, Some(pair(true, false))).ok().unwrap();
    assert_eq!(handler.players(), &Players::local());
    assert!(handler.both_local());
}

#[test]
fn the_host_owns_the_turns_of_white() {
    let handler = PlayerHandler::new(host(), Some(pair(true, false))).ok().unwrap();
    assert!(handler.is_networked());
    assert!(handler.can_move(Color::White));
    assert!(!handler.can_move(Color::Black));
    assert!(!handler.both_local());
    assert_eq!(handler.one_local(), Some(Color::White));
    assert_eq!(handler.game_type(), &host());
    assert_eq!(handler.players(), &pair(true, false));
}

#[test]
fn the_client_owns_the_turns_of_black() {
    let handler = PlayerHandler::new(client(), Some(pair(false, true))).ok().unwrap();
    assert!(handler.is_networked());
    assert!(!handler.can_move(Color::White));
    assert!(handler.can_move(Color::Black));
    assert!(!handler.both_local());
    assert_eq!(handler.one_local(), Some(Color::Black));
}

#[test]
fn a_session_over_the_network_needs_a_handshake() {
    assert_eq!(PlayerHandler::new(host(), None).err(), Some(SetupError::NotNegotiated));
    assert_eq!(PlayerHandler::new(client(), None).err(), Some(SetupError::NotNegotiated));
}

#[test]
fn a_session_over_the_network_needs_one_player_at_each_end() {
    assert_eq!(PlayerHandler::new(host(), Some(pair(true, true))).err(), Some(SetupError::NotPaired));
    assert_eq!(PlayerHandler::new(host(), Some(pair(false, false))).err(), Some(SetupError::NotPaired));
    let mut swapped = pair(true, false);
    swapped.white.color = Color::Black;
    swapped.black.color = Color::White;
    assert_eq!(PlayerHandler::new(client(), Some(swapped)).err(), Some(SetupError::NotPaired));
    let mut twice = pair(true, false);
    twice.black.color = Color::White;
    assert_eq!(PlayerHandler::new(client(), Some(twice)).err(), Some(SetupError::NotPaired));
}

#[test]
fn players_are_replaced_over_the_network_only() {
    let mut handler = PlayerHandler::new(host(), Some(pair(true, false))).ok().unwrap();
    assert!(handler.replace_players(pair(false, true)));
    assert_eq!(handler.players(), &pair(false, true));
    assert_eq!(handler.one_local(), Some(Color::Black));
    assert!(!handler.replace_players(pair(true, true)));
    assert!(!handler.replace_players(pair(false, false)));
    assert_eq!(handler.players(), &pair(false, true));
    let mut local = PlayerHandler::new(GameType::Local, None).ok().unwrap();
    assert!(!local.replace_players(pair(true, false)));
    assert_eq!(local.players(), &Players::local());
}
