use vstd::prelude::*;

use crate::engine::{Memory, ROM_BANK_SIZE};
use crate::hooks::{GameData, GameState, NetworkRequest};
use crate::offsets::PROF_OAK_DATA_BANK;
use crate::party::{battle_ram, player_party, rom_with_party, set_battle, spec_player_party, Party};
use crate::player::{MovementData, PlayerData, PlayerId, PlayerView};
use crate::text::{encode, spec_encode};

verus! {

/// One message of the protocol; each travels as one line.
#[derive(Clone, Debug, PartialEq)]
pub enum NetworkEvent {
    PlayerJoin(PlayerId),
    FullUpdate(PlayerId, PlayerData),
    MovementUpdate(PlayerId, MovementData),
    PlayerQuit(PlayerId),
    Chat(PlayerId, String),
    /// Target, then requester.
    BattleDataRequest(PlayerId, PlayerId),
    /// Target, then the party.
    BattleDataResponse(PlayerId, Party),
    UpdateRequest,
}

/// The mathematical value of a `NetworkEvent`.
pub enum EventView {
    PlayerJoin(PlayerId),
    FullUpdate(PlayerId, PlayerView),
    MovementUpdate(PlayerId, MovementData),
    PlayerQuit(PlayerId),
    Chat(PlayerId, Seq<char>),
    BattleDataRequest(PlayerId, PlayerId),
    BattleDataResponse(PlayerId, Party),
    UpdateRequest,
}

impl View for NetworkEvent {
    type V = EventView;

    open spec fn view(&self) -> EventView {
        match self {
            NetworkEvent::PlayerJoin(id) => EventView::PlayerJoin(*id),
            NetworkEvent::FullUpdate(id, d) => EventView::FullUpdate(*id, d@),
            NetworkEvent::MovementUpdate(id, m) => EventView::MovementUpdate(*id, *m),
            NetworkEvent::PlayerQuit(id) => EventView::PlayerQuit(*id),
            NetworkEvent::Chat(id, s) => EventView::Chat(*id, s@),
            NetworkEvent::BattleDataRequest(t, r) => EventView::BattleDataRequest(*t, *r),
            NetworkEvent::BattleDataResponse(t, p) => EventView::BattleDataResponse(*t, *p),
            NetworkEvent::UpdateRequest => EventView::UpdateRequest,
        }
    }
}

/// The views of a sequence of events.
pub open spec fn events_view(es: Seq<NetworkEvent>) -> Seq<EventView> {
    es.map_values(|e: NetworkEvent| e@)
}

#[derive(Clone, Copy, Debug, PartialEq, Eq, Structural)]
pub enum NetworkError {
    /// A line that is not the message expected.
    DecodeError,
    /// Reading from or writing to the stream failed.
    IoError,
    /// A message that has no meaning where it came.
    ProtocolViolation,
}

/// Decides the connection setup from the first message received (`None` when the first line
/// did not decode): it must be a join, whose id becomes the local identity.
pub fn handshake(first: Option<NetworkEvent>) -> (r: Result<PlayerId, NetworkError>)
    ensures
        match first {
            Some(NetworkEvent::PlayerJoin(id)) => r == Ok::<PlayerId, NetworkError>(id),
            _ => r == Err::<PlayerId, NetworkError>(NetworkError::DecodeError),
        },
{
    match first {
        Some(NetworkEvent::PlayerJoin(id)) => Ok(id),
        _ => Err(NetworkError::DecodeError),
    }
}

/// One line of the chat transcript: who said it and what, both in engine encoding.
pub struct ChatLine {
    pub name: Vec<u8>,
    pub text: Vec<u8>,
}

impl View for ChatLine {
    type V = (Seq<u8>, Seq<u8>);

    open spec fn view(&self) -> (Seq<u8>, Seq<u8>) {
        (self.name@, self.text@)
    }
}

/// The views of a transcript.
pub open spec fn chat_view(log: Seq<ChatLine>) -> Seq<(Seq<u8>, Seq<u8>)> {
    log.map_values(|l: ChatLine| l@)
}

/// What a received message can change.
pub struct SessionView {
    pub players: Map<PlayerId, PlayerView>,
    pub game_state: GameState,
    pub chat: Seq<(Seq<u8>, Seq<u8>)>,
    pub ram: Seq<u8>,
    pub rom: Seq<u8>,
}

/// The name shown for a chat line from a peer that the table does not hold.
pub open spec fn unknown_name() -> Seq<char> {
    "UNKNOWN"@
}

/// Applies one received message to the session of local player `me`, whose last broadcast
/// state is `last`; gives the new session and the reply to send, if any.
pub open spec fn receive_step(
    s: SessionView,
    me: PlayerId,
    last: PlayerView,
    e: EventView,
) -> (SessionView, Option<EventView>) {
    match e {
        EventView::FullUpdate(id, d) => (SessionView { players: s.players.insert(id, d), ..s }, None),
        EventView::MovementUpdate(id, m) => {
            if s.players.contains_key(id) {
                (
                    SessionView {
                        players: s.players.insert(id, PlayerView { movement_data: m, ..s.players[id] }),
                        ..s
                    },
                    None,
                )
            } else {
                (s, None)
            }
        },
        EventView::PlayerQuit(id) => (SessionView { players: s.players.remove(id), ..s }, None),
        EventView::BattleDataRequest(_, requester) => (
            s,
            Some(EventView::BattleDataResponse(requester, spec_player_party(s.ram))),
        ),
        EventView::BattleDataResponse(_, party) => (
            SessionView {
                game_state: GameState::Normal,
                ram: battle_ram(s.ram),
                rom: rom_with_party(s.rom, party),
                ..s
            },
            None,
        ),
        EventView::UpdateRequest => (s, Some(EventView::FullUpdate(me, last))),
        EventView::Chat(id, msg) => {
            let name = if s.players.contains_key(id) {
                s.players[id].name
            } else {
                spec_encode(unknown_name())
            };
            (SessionView { chat: s.chat.push((name, spec_encode(msg))), ..s }, None)
        },
        EventView::PlayerJoin(_) => (s, None),
    }
}

/// Applies received messages in order; gives the new session and the replies in order.
pub open spec fn receive_all(
    s: SessionView,
    me: PlayerId,
    last: PlayerView,
    es: Seq<EventView>,
) -> (SessionView, Seq<EventView>)
    decreases es.len(),
{
    if es.len() == 0 {
        (s, Seq::empty())
    } else {
        let (s1, out1) = receive_all(s, me, last, es.drop_last());
        let (s2, reply) = receive_step(s1, me, last, es.last());
        (
            s2,
            match reply {
                Some(r) => out1.push(r),
                None => out1,
            },
        )
    }
}

/// A full update for an id the table does not hold adds exactly that entry; a movement update
/// for the same id that follows changes only that entry's movement, and keeps its name.
pub proof fn lemma_full_update_then_movement(
    s: SessionView,
    me: PlayerId,
    last: PlayerView,
    id: PlayerId,
    data: PlayerView,
    movement: MovementData,
)
    requires
        !s.players.contains_key(id),
    ensures
        ({
            let s1 = receive_step(s, me, last, EventView::FullUpdate(id, data)).0;
            let s2 = receive_step(s1, me, last, EventView::MovementUpdate(id, movement)).0;
            &&& s1.players == s.players.insert(id, data)
            &&& s1.players[id] == data
            &&& s2.players.dom() == s1.players.dom()
            &&& s2.players[id] == PlayerView { movement_data: movement, ..data }
            &&& s2.players[id].name == data.name
            &&& forall|k: PlayerId| #[trigger] s1.players.contains_key(k) && k != id ==> s2.players[k] == s1.players[k]
            &&& s2.game_state == s.game_state && s2.chat == s.chat && s2.ram == s.ram && s2.rom == s.rom
        }),
{
    let s1 = receive_step(s, me, last, EventView::FullUpdate(id, data)).0;
    let s2 = receive_step(s1, me, last, EventView::MovementUpdate(id, movement)).0;
    assert(s2.players.dom() =~= s1.players.dom());
}

/// A movement update for an id the table does not hold changes nothing and is not answered.
pub proof fn lemma_movement_update_unknown(
    s: SessionView,
    me: PlayerId,
    last: PlayerView,
    id: PlayerId,
    movement: MovementData,
)
    requires
        !s.players.contains_key(id),
    ensures
        receive_step(s, me, last, EventView::MovementUpdate(id, movement)) == (s, Option::<EventView>::None),
{
}

/// The local side of the protocol.
pub struct ClientDataManager {
    pub id: PlayerId,
    /// The local player's state as last seen.
    pub last_state: PlayerData,
    /// Whether `last_state` changed since it was last broadcast.
    pub new_update: bool,
    pub chat_log: Vec<ChatLine>,
}

/// The session as `receive_step` sees it.
pub open spec fn session_view(c: ClientDataManager, g: GameData, m: Memory) -> SessionView {
    SessionView {
        players: g.other_players@,
        game_state: g.game_state,
        chat: chat_view(c.chat_log@),
        ram: m.ram@,
        rom: m.rom@,
    }
}

/// The memory the receive pass works on: a full address space and a cartridge that holds the
/// professor's bank.
pub open spec fn memory_ready(m: Memory) -> bool {
    m.wf() && m.rom@.len() >= (PROF_OAK_DATA_BANK + 1) * ROM_BANK_SIZE
}

impl ClientDataManager {
    pub fn new(id: PlayerId) -> (r: ClientDataManager)
        ensures
            r.id == id,
            r.last_state@ == PlayerData::new_view(),
            !r.new_update,
            r.chat_log@.len() == 0,
    {
        ClientDataManager { id, last_state: PlayerData::new(), new_update: false, chat_log: Vec::new() }
    }

    /// Records the local player's current state; a state that differs from the last one is
    /// due for broadcast.
    pub fn update_player_data(&mut self, data: PlayerData)
        ensures
            final(self).last_state@ == data@,
            final(self).new_update == (old(self).new_update || old(self).last_state@ != data@),
            final(self).id == old(self).id,
            final(self).chat_log == old(self).chat_log,
    {
        if self.last_state != data {
            self.last_state = data;
            self.new_update = true;
        }
    }

    /// The outbound pass: a full update when the local state changed since it was last
    /// broadcast, then a battle-data request when the hooks asked for one. The request is
    /// cleared either way.
    pub fn send_update(&mut self, game_data: &mut GameData) -> (r: Vec<NetworkEvent>)
        ensures
            events_view(r@) == (if old(self).new_update {
                seq![EventView::FullUpdate(old(self).id, old(self).last_state@)]
            } else {
                Seq::empty()
            }) + match old(game_data).network_request {
                NetworkRequest::Battle(peer) => seq![EventView::BattleDataRequest(peer, old(self).id)],
                NetworkRequest::Idle => Seq::empty(),
            },
            !final(self).new_update,
            final(self).id == old(self).id,
            final(self).last_state == old(self).last_state,
            final(self).chat_log == old(self).chat_log,
            final(game_data).network_request == NetworkRequest::Idle,
            final(game_data).game_state == old(game_data).game_state,
            final(game_data).other_players == old(game_data).other_players,
            final(game_data).last_interaction == old(game_data).last_interaction,
            final(game_data).sprite_id_state == old(game_data).sprite_id_state,
            final(game_data).text_state == old(game_data).text_state,
            final(game_data).current_message == old(game_data).current_message,
    {
        let mut out: Vec<NetworkEvent> = Vec::new();
        if self.new_update {
            out.push(NetworkEvent::FullUpdate(self.id, self.last_state.duplicate()));
            self.new_update = false;
        }
        match game_data.network_request {
            NetworkRequest::Battle(peer) => {
                out.push(NetworkEvent::BattleDataRequest(peer, self.id));
            },
            NetworkRequest::Idle => {},
        }
        game_data.network_request = NetworkRequest::Idle;
        proof {
            let expected = (if old(self).new_update {
                seq![EventView::FullUpdate(old(self).id, old(self).last_state@)]
            } else {
                Seq::empty()
            }) + match old(game_data).network_request {
                NetworkRequest::Battle(peer) => seq![EventView::BattleDataRequest(peer, old(self).id)],
                NetworkRequest::Idle => Seq::empty(),
            };
            assert(events_view(out@) =~= expected);
        }
        out
    }

    /// Adds a line typed by the local player to the transcript and gives the chat message to
    /// send.
    pub fn send_message(&mut self, msg: String) -> (r: NetworkEvent)
        ensures
            r@ == EventView::Chat(old(self).id, msg@),
            chat_view(final(self).chat_log@) == chat_view(old(self).chat_log@).push(
                (old(self).last_state.name@, spec_encode(msg@)),
            ),
            final(self).id == old(self).id,
            final(self).last_state == old(self).last_state,
            final(self).new_update == old(self).new_update,
    {
        let name = self.last_state.name.clone();
        assert(name@ =~= self.last_state.name@);
        let text = encode(msg.as_str());
        self.chat_log.push(ChatLine { name, text });
        assert(chat_view(self.chat_log@) =~= chat_view(old(self).chat_log@).push(
            (old(self).last_state.name@, spec_encode(msg@)),
        ));
        NetworkEvent::Chat(self.id, msg)
    }

    /// Applies one received message; gives the reply to send, or `ProtocolViolation` for a
    /// join, which has no meaning once the session runs.
    pub fn handle_event(&mut self, game_data: &mut GameData, mem: &mut Memory, event: NetworkEvent) -> (r: Result<
        Option<NetworkEvent>,
        NetworkError,
    >)
        requires
            old(game_data).wf(),
            memory_ready(*old(mem)),
        ensures
            final(game_data).wf(),
            memory_ready(*final(mem)),
            ({
                let (s1, reply) = receive_step(
                    session_view(*old(self), *old(game_data), *old(mem)),
                    old(self).id,
                    old(self).last_state@,
                    event@,
                );
                &&& session_view(*final(self), *final(game_data), *final(mem)) == s1
                &&& match r {
                    Ok(Some(e)) => reply == Some(e@),
                    Ok(None) => reply is None && !(event is PlayerJoin),
                    Err(err) => err == NetworkError::ProtocolViolation && event is PlayerJoin,
                }
            }),
            final(self).id == old(self).id,
            final(self).last_state == old(self).last_state,
            final(self).new_update == old(self).new_update,
            final(game_data).network_request == old(game_data).network_request,
            final(game_data).last_interaction == old(game_data).last_interaction,
            final(game_data).sprite_id_state == old(game_data).sprite_id_state,
            final(game_data).text_state == old(game_data).text_state,
            final(game_data).current_message == old(game_data).current_message,
    {
        match event {
            NetworkEvent::FullUpdate(id, data) => {
                game_data.other_players.insert(id, data);
                Ok(None)
            },
            NetworkEvent::MovementUpdate(id, data) => {
                game_data.other_players.set_movement(id, data);
                Ok(None)
            },
            NetworkEvent::PlayerQuit(id) => {
                game_data.other_players.remove(id);
                Ok(None)
            },
            NetworkEvent::BattleDataRequest(_, requester) => {
                let party = player_party(mem);
                Ok(Some(NetworkEvent::BattleDataResponse(requester, party)))
            },
            NetworkEvent::BattleDataResponse(_, party) => {
                game_data.game_state = GameState::Normal;
                set_battle(mem, party);
                Ok(None)
            },
            NetworkEvent::UpdateRequest => {
                Ok(Some(NetworkEvent::FullUpdate(self.id, self.last_state.duplicate())))
            },
            NetworkEvent::Chat(id, msg) => {
                let name = match game_data.other_players.get(id) {
                    Some(player) => {
                        let n = player.name.clone();
                        assert(n@ =~= player.name@);
                        n
                    },
                    None => {
                        let n = encode("UNKNOWN");
                        n
                    },
                };
                let text = encode(msg.as_str());
                let ghost old_log = self.chat_log@;
                self.chat_log.push(ChatLine { name, text });
                assert(chat_view(self.chat_log@) =~= chat_view(old_log).push((name@, text@)));
                Ok(None)
            },
            NetworkEvent::PlayerJoin(_) => Err(NetworkError::ProtocolViolation),
        }
    }

    /// The inbound pass: applies the received messages in order and gives the replies to
    /// send, in order. Joins are skipped.
    pub fn recv_update(
        &mut self,
        game_data: &mut GameData,
        mem: &mut Memory,
        events: Vec<NetworkEvent>,
    ) -> (r: Vec<NetworkEvent>)
        requires
            old(game_data).wf(),
            memory_ready(*old(mem)),
        ensures
            final(game_data).wf(),
            memory_ready(*final(mem)),
            ({
                let (s1, replies) = receive_all(
                    session_view(*old(self), *old(game_data), *old(mem)),
                    old(self).id,
                    old(self).last_state@,
                    events_view(events@),
                );
                &&& session_view(*final(self), *final(game_data), *final(mem)) == s1
                &&& events_view(r@) == replies
            }),
            final(self).id == old(self).id,
            final(self).last_state == old(self).last_state,
            final(self).new_update == old(self).new_update,
            final(game_data).network_request == old(game_data).network_request,
            final(game_data).last_interaction == old(game_data).last_interaction,
            final(game_data).sprite_id_state == old(game_data).sprite_id_state,
            final(game_data).text_state == old(game_data).text_state,
            final(game_data).current_message == old(game_data).current_message,
    {
        let ghost all = events_view(events@);
        let ghost s0 = session_view(*self, *game_data, *mem);
        let mut events = events;
        let mut out: Vec<NetworkEvent> = Vec::new();
        let ghost mut done: int = 0;
        while events.len() > 0
            invariant
                0 <= done <= all.len(),
                events_view(events@) == all.subrange(done, all.len() as int),
                game_data.wf(),
                memory_ready(*mem),
                ({
                    let (s1, replies) = receive_all(
                        s0,
                        old(self).id,
                        old(self).last_state@,
                        all.subrange(0, done),
                    );
                    &&& session_view(*self, *game_data, *mem) == s1
                    &&& events_view(out@) == replies
                }),
                self.id == old(self).id,
                self.last_state == old(self).last_state,
                self.new_update == old(self).new_update,
                game_data.network_request == old(game_data).network_request,
                game_data.last_interaction == old(game_data).last_interaction,
                game_data.sprite_id_state == old(game_data).sprite_id_state,
                game_data.text_state == old(game_data).text_state,
                game_data.current_message == old(game_data).current_message,
            decreases events@.len(),
        {
            let ghost before = events_view(events@);
            let event = events.remove(0);
            let ghost ev = event@;
            proof {
                assert(ev == before[0]);
                assert(events_view(events@) =~= before.drop_first());
                assert(all.subrange(0, done + 1).drop_last() =~= all.subrange(0, done));
                assert(all.subrange(0, done + 1).last() == ev);
            }
            let ghost out_before = events_view(out@);
            match self.handle_event(game_data, mem, event) {
                Ok(Some(reply)) => {
                    out.push(reply);
                    assert(events_view(out@) =~= out_before.push(reply@));
                },
                _ => {},
            }
            proof {
                done = done + 1;
                assert(events_view(events@) =~= all.subrange(done, all.len() as int));
            }
        }
        assert(all.subrange(0, done) =~= all);
        out
    }
}

} // verus!
