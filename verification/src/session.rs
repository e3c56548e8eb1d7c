//! Two coordinators and the link between them, as contracts see them.
//!
//! Nothing here runs. The module states what holds of a session in which
//! each side ticks as `Coordinator::update` says and every packet that one
//! side sends joins, intact, the packets that wait at the other.

use vstd::prelude::*;
use crate::board::BoardView;
use crate::coordinator::{
    CoordinatorView, MoveKind, Phase, spec_end_state, spec_move_packet, update_keeps_wf,
    validation_adds_one_move,
};
use crate::negotiation::{Role, spec_announcement, spec_players};
use crate::packet::{Move, PacketView, StartView};
use crate::players::{Color, PlayerHandlerView};

verus! {

/// The moves among the packets that wait, oldest first.
pub open spec fn moves_waiting(waiting: Seq<PacketView>) -> Seq<Move>
    decreases waiting.len(),
{
    if waiting.len() == 0 {
        Seq::empty()
    } else {
        match waiting.last() {
            PacketView::Move(mv) => moves_waiting(waiting.drop_last()).push(mv),
            _ => moves_waiting(waiting.drop_last()),
        }
    }
}

/// The moves that have reached a side and that its rules engine has yet to
/// see, oldest first: the one that waits for the next tick, then those among
/// the packets that wait.
pub open spec fn moves_in_flight(waiting: Seq<PacketView>, receiver: CoordinatorView) -> Seq<Move> {
    match receiver.phase {
        Phase::Validate(MoveKind::Network(mv)) => seq![mv] + moves_waiting(waiting),
        _ => moves_waiting(waiting),
    }
}

/// The packets that wait once `sent`, if it is one, has joined them.
pub open spec fn delivered(waiting: Seq<PacketView>, sent: Option<PacketView>) -> Seq<PacketView> {
    match sent {
        Some(packet) => waiting.push(packet),
        None => waiting,
    }
}

/// A side of a session over the network that plays `color` and nothing
/// else, and whose link holds.
pub open spec fn plays(side: CoordinatorView, color: Color) -> bool {
    &&& side.wf()
    &&& side.handler.networked
    &&& side.handler.players.one_local() == Some(color)
    &&& !(side.phase is LinkBroken)
}

/// What a side is doing once its rules engine has taken a move that led to
/// `board`: nothing more if the move ended the game, and waiting for the
/// next move otherwise.
pub open spec fn phase_after_move(board: BoardView) -> Phase {
    if spec_end_state(board.status()) is Some {
        Phase::End(board.status())
    } else {
        Phase::Move
    }
}

/// Both sides have made the same moves, no move is in flight, and the game
/// is over for both or for neither.
pub open spec fn level(
    one: CoordinatorView,
    other: CoordinatorView,
    to_one: Seq<PacketView>,
    to_other: Seq<PacketView>,
) -> bool {
    &&& one.board.plies == other.board.plies
    &&& moves_in_flight(to_one, one).len() == 0
    &&& moves_in_flight(to_other, other).len() == 0
    &&& one.phase is End || other.phase is End ==> one.phase == other.phase
}

/// `sender`, who plays `color`, is one move ahead of `receiver`: that move
/// alone is in flight to `receiver`, whose rules engine will take it and
/// reach the moves that `sender` has made. The game goes on for `receiver`,
/// and is over for `sender` if that move ended it.
pub open spec fn ahead(
    sender: CoordinatorView,
    receiver: CoordinatorView,
    to_sender: Seq<PacketView>,
    to_receiver: Seq<PacketView>,
    color: Color,
) -> bool {
    &&& moves_in_flight(to_sender, sender).len() == 0
    &&& moves_in_flight(to_receiver, receiver).len() == 1
    &&& receiver.board.turn() == color
    &&& !(receiver.phase is End)
    &&& sender.phase == phase_after_move(sender.board)
    &&& {
        let mv = MoveKind::Network(moves_in_flight(to_receiver, receiver)[0]);
        &&& receiver.accepts(mv)
        &&& receiver.board_after(mv).plies == sender.board.plies
    }
}

/// What holds of a session from its start: the two sides play opposite
/// colours, and either they are level or one of them is one move ahead.
pub open spec fn in_step(
    one: CoordinatorView,
    other: CoordinatorView,
    to_one: Seq<PacketView>,
    to_other: Seq<PacketView>,
    color: Color,
) -> bool {
    &&& plays(one, color)
    &&& plays(other, color.spec_opponent())
    &&& {
        ||| level(one, other, to_one, to_other)
        ||| ahead(one, other, to_one, to_other, color)
        ||| ahead(other, one, to_other, to_one, color.spec_opponent())
    }
}

/// A packet that joins those that wait adds itself to the moves among them
/// if it is a move, and nothing otherwise.
pub proof fn moves_waiting_push(waiting: Seq<PacketView>, packet: PacketView)
    ensures
        moves_waiting(waiting.push(packet)) == match packet {
            PacketView::Move(mv) => moves_waiting(waiting).push(mv),
            _ => moves_waiting(waiting),
        },
{
    assert(waiting.push(packet).drop_last() == waiting);
}

/// Taking the oldest packet takes the oldest move if that packet is a
/// move, and no move otherwise.
pub proof fn moves_waiting_drop_first(waiting: Seq<PacketView>)
    requires
        waiting.len() > 0,
    ensures
        moves_waiting(waiting) == match waiting[0] {
            PacketView::Move(mv) => seq![mv] + moves_waiting(waiting.drop_first()),
            _ => moves_waiting(waiting.drop_first()),
        },
    decreases waiting.len(),
{
    if waiting.len() == 1 {
        assert(moves_waiting(waiting.drop_last()) == Seq::<Move>::empty());
    } else {
        // Both sides of the equation end in the last packet: take it away
        // and the claim is that of the shorter sequence.
        let front = waiting.drop_last();
        moves_waiting_drop_first(front);
        assert(front.drop_first() == waiting.drop_first().drop_last());
    }
}

/// The side that plays `color` in a session over the network owns the
/// turns of `color` and no others.
pub proof fn plays_own_colour(side: CoordinatorView, color: Color, turn: Color)
    requires
        plays(side, color),
    ensures
        side.handler.can_move(turn) <==> turn == color,
{
}

/// A tick of one side of a session keeps the two sides in step.
///
/// Whatever is clicked on the side that ticks, so long as no new game is
/// asked for: if the sides were level or one move apart in the way
/// `in_step` says, they are so again once the side has ticked, the packet
/// it sent, if any, has joined those that wait at the other side, and the
/// packet it took, if any, has left those that waited at its own.
pub proof fn tick_keeps_step(
    one: CoordinatorView,
    other: CoordinatorView,
    to_one: Seq<PacketView>,
    to_other: Seq<PacketView>,
    color: Color,
    click: Option<(u8, u8)>,
)
    requires
        in_step(one, other, to_one, to_other, color),
    ensures
        in_step(
            one.update(click, false, to_one),
            other,
            one.update_waiting(to_one),
            delivered(to_other, one.update_send()),
            color,
        ),
{
    update_keeps_wf(one, click, false, to_one);
    plays_own_colour(one, color, one.board.turn());
    plays_own_colour(other, color.spec_opponent(), other.board.turn());
    match one.phase {
        Phase::Move => {
            // A click changes neither board nor queue. A look at the queue
            // takes its oldest packet, and a move among the packets becomes
            // the move that waits: the moves in flight stay the same.
            if !one.owns_turn() && to_one.len() > 0 {
                moves_waiting_drop_first(to_one);
            }
        },
        Phase::Validate(mv) => {
            // A move chosen here puts this side ahead; the packet that tells
            // of it reads to the other side as the same request on the same
            // board. A move of the peer brings this side level. Whatever is
            // sent joins the packets that wait at the other side.
            validation_adds_one_move(one, mv);
            if one.update_send() is Some {
                moves_waiting_push(to_other, one.update_send()->0);
            }
        },
        Phase::End(_) => {},
        Phase::LinkBroken => {},
    }
}

/// A session at its start, each side at the initial position and no packet
/// on its way, is in step.
pub proof fn start_is_in_step(host: PlayerHandlerView, client: PlayerHandlerView, color: Color)
    requires
        host.wf(),
        client.wf(),
        host.networked,
        client.networked,
        host.players.one_local() == Some(color),
        client.players.one_local() == Some(color.spec_opponent()),
    ensures
        in_step(
            CoordinatorView::initial(host),
            CoordinatorView::initial(client),
            Seq::empty(),
            Seq::empty(),
            color,
        ),
{
    assert(level(
        CoordinatorView::initial(host),
        CoordinatorView::initial(client),
        Seq::empty(),
        Seq::empty(),
    ));
}

/// The two ends of a session.
pub enum Side {
    Host,
    Client,
}

/// One tick of one side, with the click that it sees, if any. No new game
/// is asked for.
pub struct Tick {
    pub side: Side,
    pub click: Option<(u8, u8)>,
}

/// Both sides of a session and the packets that wait at each.
pub struct Session {
    pub host: CoordinatorView,
    pub client: CoordinatorView,
    pub to_host: Seq<PacketView>,
    pub to_client: Seq<PacketView>,
}

impl Session {
    /// The session right after the handshake that the dialing side opened
    /// with `greeter`: each side holds the participants that the handshake
    /// gave it, stands at the initial position, and has no packet waiting.
    pub open spec fn start(greeter: StartView) -> Session {
        let host = PlayerHandlerView { networked: true, players: spec_players(Role::Host, greeter) };
        let client = PlayerHandlerView {
            networked: true,
            players: spec_players(Role::Client, spec_announcement()->Start_0),
        };
        Session {
            host: CoordinatorView::initial(host),
            client: CoordinatorView::initial(client),
            to_host: Seq::empty(),
            to_client: Seq::empty(),
        }
    }

    /// The session after one side has ticked: the packet it took has left
    /// those that waited for it, and the packet it sent waits at the other
    /// side.
    pub open spec fn tick(self, tick: Tick) -> Session {
        match tick.side {
            Side::Host => Session {
                host: self.host.update(tick.click, false, self.to_host),
                client: self.client,
                to_host: self.host.update_waiting(self.to_host),
                to_client: delivered(self.to_client, self.host.update_send()),
            },
            Side::Client => Session {
                host: self.host,
                client: self.client.update(tick.click, false, self.to_client),
                to_host: delivered(self.to_host, self.client.update_send()),
                to_client: self.client.update_waiting(self.to_client),
            },
        }
    }

    /// The session after `ticks`, first to last.
    pub open spec fn run(self, ticks: Seq<Tick>) -> Session
        decreases ticks.len(),
    {
        if ticks.len() == 0 {
            self
        } else {
            self.run(ticks.drop_last()).tick(ticks.last())
        }
    }

    /// The sides are in step, the host playing white.
    pub open spec fn in_step(self) -> bool {
        in_step(self.host, self.client, self.to_host, self.to_client, Color::White)
    }

    /// No move is on its way to either side.
    pub open spec fn settled(self) -> bool {
        &&& moves_in_flight(self.to_host, self.host).len() == 0
        &&& moves_in_flight(self.to_client, self.client).len() == 0
    }
}

/// Whatever the two sides click and in whatever order they tick, a session
/// stays in step from the handshake on.
pub proof fn session_stays_in_step(greeter: StartView, ticks: Seq<Tick>)
    ensures
        Session::start(greeter).run(ticks).in_step(),
    decreases ticks.len(),
{
    let start = Session::start(greeter);
    if ticks.len() == 0 {
        start_is_in_step(start.host.handler, start.client.handler, Color::White);
    } else {
        session_stays_in_step(greeter, ticks.drop_last());
        let before = start.run(ticks.drop_last());
        let tick = ticks.last();
        match tick.side {
            Side::Host => {
                tick_keeps_step(
                    before.host,
                    before.client,
                    before.to_host,
                    before.to_client,
                    Color::White,
                    tick.click,
                );
            },
            Side::Client => {
                tick_keeps_step(
                    before.client,
                    before.host,
                    before.to_client,
                    before.to_host,
                    Color::Black,
                    tick.click,
                );
            },
        }
    }
}

/// Host and client end up with the same game.
///
/// Whatever the two sides click and in whatever order they tick: at every
/// moment at most one move is on its way, the side it is on its way to is
/// exactly that move behind, and once no move is on its way both sides have
/// the same moves on their boards, the same side to move and the same
/// status, and the game is over for both or for neither.
pub proof fn host_and_client_agree(greeter: StartView, ticks: Seq<Tick>)
    ensures
        ({
            let session = Session::start(greeter).run(ticks);
            let to_host = moves_in_flight(session.to_host, session.host).len();
            let to_client = moves_in_flight(session.to_client, session.client).len();
            &&& to_host + to_client <= 1
            &&& to_host == 1 ==> session.client.board.plies.drop_last() == session.host.board.plies
            &&& to_client == 1 ==> session.host.board.plies.drop_last() == session.client.board.plies
            &&& session.settled() ==> {
                &&& session.host.board == session.client.board
                &&& session.host.board.turn() == session.client.board.turn()
                &&& session.host.board.status() == session.client.board.status()
                &&& session.host.phase is End || session.client.phase is End ==> session.host.phase
                    == session.client.phase
            }
        }),
{
    session_stays_in_step(greeter, ticks);
    let session = Session::start(greeter).run(ticks);
    if ahead(session.host, session.client, session.to_host, session.to_client, Color::White) {
        let mv = MoveKind::Network(moves_in_flight(session.to_client, session.client)[0]);
        validation_adds_one_move(session.client, mv);
        assert(session.client.board.plies.push(session.client.ply_of(mv)).drop_last()
            == session.client.board.plies);
    }
    if ahead(session.client, session.host, session.to_client, session.to_host, Color::Black) {
        let mv = MoveKind::Network(moves_in_flight(session.to_host, session.host)[0]);
        validation_adds_one_move(session.host, mv);
        assert(session.host.board.plies.push(session.host.ply_of(mv)).drop_last()
            == session.host.board.plies);
    }
}


} // verus!
