use chess_session::negotiation::{greeting, init, Negotiated, NegotiationError, Role};
use chess_session::packet::{Ack, Move, PacketType, Start};
use chess_session::players::{Color, GameType, Player, Players};

fn announcement() -> PacketType {
    PacketType::Start(Start { name: None, is_white: true })
}

#[test]
fn the_dialing_side_greets_first() {
    assert_eq!(greeting(Role::Client), Some(announcement()));
    assert_eq!(greeting(Role::Host), None);
}

#[test]
fn the_listening_side_is_white_and_answers() {
    let hello = PacketType::Start(Start { name: Some("Eve".to_string()), is_white: true });
    let done = init(Role::Host, Some(&hello)).unwrap();
    assert_eq!(
        done,
        Negotiated {
            players: Players {
                white: Player { color: Color::White, name: None, local: true },
                black: Player { color: Color::Black, name: Some("Eve".to_string()), local: false },
            },
            answer: Some(announcement()),
        }
    );
}

#[test]
fn the_listening_side_is_white_whatever_the_peer_claims() {
    for is_white in [true, false] {
        let hello = PacketType::Start(Start { name: None, is_white });
        let done = init(Role::Host, Some(&hello)).unwrap();
        assert!(done.players.white.local);
        assert!(!done.players.black.local);
        assert_eq!(done.players.white.color, Color::White);
        assert_eq!(done.players.black.color, Color::Black);
        assert_eq!(done.answer, Some(announcement()));
    }
}

#[test]
fn the_dialing_side_takes_the_colour_that_is_left() {
    let answer = PacketType::Start(Start { name: Some("Host".to_string()), is_white: true });
    let done = init(Role::Client, Some(&answer)).unwrap();
    assert_eq!(
        done,
        Negotiated {
            players: Players {
                white: Player { color: Color::White, name: None, local: false },
                black: Player { color: Color::Black, name: Some("Host".to_string()), local: true },
            },
            answer: None,
        }
    );
    let other = PacketType::Start(Start { name: Some("Host".to_string()), is_white: false });
    let done = init(Role::Client, Some(&other)).unwrap();
    assert_eq!(
        done,
        Negotiated {
            players: Players {
                white: Player { color: Color::White, name: Some("Host".to_string()), local: true },
                black: Player { color: Color::Black, name: None, local: false },
            },
            answer: None,
        }
    );
}

#[test]
fn host_and_client_agree_on_the_colours() {
    let hello = greeting(Role::Client).unwrap();
    let host = init(Role::Host, Some(&hello)).unwrap();
    let answer = host.answer.unwrap();
    let client = init(Role::Client, Some(&answer)).unwrap();
    assert!(host.players.white.local && !host.players.black.local);
    assert!(!client.players.white.local && client.players.black.local);
    assert_eq!(client.answer, None);
}

#[test]
fn a_handshake_run_again_settles_on_the_same() {
    let hello = greeting(Role::Client).unwrap();
    let first = init(Role::Host, Some(&hello)).unwrap();
    let again = init(Role::Host, Some(&greeting(Role::Client).unwrap())).unwrap();
    assert_eq!(first, again);
    let answer = first.answer.unwrap();
    assert_eq!(init(Role::Client, Some(&answer)), init(Role::Client, Some(&answer)));
}

#[test]
fn a_packet_that_is_no_start_fails_the_handshake() {
    let mv = PacketType::Move(Move {
        from: (4, 1),
        to: (4, 3),
        promotion: None,
        forfeit: false,
        offer_draw: false,
    });
    let ack = PacketType::Ack(Ack { ok: true, end_state: None });
    for role in [Role::Host, Role::Client] {
        assert_eq!(init(role, Some(&mv)), Err(NegotiationError::NotStart));
        assert_eq!(init(role, Some(&ack)), Err(NegotiationError::NotStart));
    }
}

#[test]
fn a_wait_without_a_packet_fails_the_handshake() {
    assert_eq!(init(Role::Host, None), Err(NegotiationError::Timeout));
    assert_eq!(init(Role::Client, None), Err(NegotiationError::Timeout));
}

#[test]
fn roles_of_the_kinds_of_session() {
    assert_eq!(GameType::Local.role(), None);
    assert_eq!(GameType::Host("localhost:3000".to_string()).role(), Some(Role::Host));
    assert_eq!(GameType::Client("localhost:3000".to_string()).role(), Some(Role::Client));
}
