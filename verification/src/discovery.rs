//! LAN discovery decisions: what to remember and report as peers appear,
//! expire and announce their rooms. Rooms of peers that speak another
//! protocol version are reported as incompatible and never remembered.

use vstd::prelude::*;

use crate::keyed::{
    Keyed, find_key, insert_keyed, keyed_map, lemma_keyed_map_at, remove_at, sorted_keys,
};
use crate::model::RoomVisibility;
use crate::protocol::PROTOCOL_VERSION;
use crate::text::text_eq;

verus! {

/// Room metadata broadcast to peers discovered on the LAN.
#[derive(Debug, PartialEq, Eq)]
pub struct RoomAnnouncement {
    pub room_id: String,
    pub room_name: String,
    pub visibility: RoomVisibility,
    pub admin_name: String,
    pub protocol_version: u32,
}

pub struct RoomAnnouncementView {
    pub room_id: Seq<char>,
    pub room_name: Seq<char>,
    pub visibility: RoomVisibility,
    pub admin_name: Seq<char>,
    pub protocol_version: u32,
}

impl View for RoomAnnouncement {
    type V = RoomAnnouncementView;

    open spec fn view(&self) -> RoomAnnouncementView {
        RoomAnnouncementView {
            room_id: self.room_id@,
            room_name: self.room_name@,
            visibility: self.visibility,
            admin_name: self.admin_name@,
            protocol_version: self.protocol_version,
        }
    }
}

impl Clone for RoomAnnouncement {
    fn clone(&self) -> (r: Self)
        ensures
            r@ == self@,
    {
        RoomAnnouncement {
            room_id: self.room_id.clone(),
            room_name: self.room_name.clone(),
            visibility: self.visibility,
            admin_name: self.admin_name.clone(),
            protocol_version: self.protocol_version,
        }
    }
}

impl RoomAnnouncement {
    /// An announcement that carries this side's protocol version.
    pub fn new(room_id: &str, room_name: &str, visibility: RoomVisibility, admin_name: &str) -> (r:
        Self)
        ensures
            r@ == (RoomAnnouncementView {
                room_id: room_id@,
                room_name: room_name@,
                visibility,
                admin_name: admin_name@,
                protocol_version: PROTOCOL_VERSION,
            }),
    {
        RoomAnnouncement {
            room_id: room_id.to_owned(),
            room_name: room_name.to_owned(),
            visibility,
            admin_name: admin_name.to_owned(),
            protocol_version: PROTOCOL_VERSION,
        }
    }
}

/// The view of an optional announcement.
pub open spec fn opt_announcement(o: Option<RoomAnnouncement>) -> Option<RoomAnnouncementView> {
    match o {
        Some(a) => Some(a@),
        None => None,
    }
}

fn clone_opt_announcement(o: &Option<RoomAnnouncement>) -> (r: Option<RoomAnnouncement>)
    ensures
        opt_announcement(r) == opt_announcement(*o),
{
    match o {
        Some(a) => Some(a.clone()),
        None => None,
    }
}

/// The addresses at which a peer has been seen.
#[derive(Debug, PartialEq, Eq)]
pub struct PeerAddresses {
    pub peer_id: String,
    pub addresses: Vec<String>,
}

/// The view of a list of strings.
pub open spec fn texts(v: Seq<String>) -> Seq<Seq<char>> {
    v.map_values(|s: String| s@)
}

impl View for PeerAddresses {
    type V = Seq<Seq<char>>;

    open spec fn view(&self) -> Seq<Seq<char>> {
        texts(self.addresses@)
    }
}

impl Keyed for PeerAddresses {
    open spec fn key_view(&self) -> Seq<char> {
        self.peer_id@
    }

    fn key(&self) -> (k: &str) {
        self.peer_id.as_str()
    }
}

fn clone_texts(v: &Vec<String>) -> (r: Vec<String>)
    ensures
        texts(r@) == texts(v@),
{
    let r = v.clone();
    assert(texts(r@) =~= texts(v@));
    r
}

/// A room that a peer announced.
#[derive(Debug, PartialEq, Eq)]
pub struct KnownRoom {
    pub peer_id: String,
    pub announcement: RoomAnnouncement,
}

impl View for KnownRoom {
    type V = RoomAnnouncementView;

    open spec fn view(&self) -> RoomAnnouncementView {
        self.announcement@
    }
}

impl Keyed for KnownRoom {
    open spec fn key_view(&self) -> Seq<char> {
        self.peer_id@
    }

    fn key(&self) -> (k: &str) {
        self.peer_id.as_str()
    }
}

/// What became of a room announcement.
#[derive(Debug, PartialEq, Eq)]
pub enum AnnouncementOutcome {
    /// The room is remembered for the peer and reported.
    Accepted(RoomAnnouncement),
    /// The peer speaks another protocol version: nothing is remembered.
    VersionMismatch { their_version: u32, our_version: u32 },
}

/// What discovery knows: the addresses of each peer, the room each peer
/// announced, and this side's own announcement.
pub struct DiscoveryModel {
    pub peers: Map<Seq<char>, Seq<Seq<char>>>,
    pub rooms: Map<Seq<char>, RoomAnnouncementView>,
    pub local: Option<RoomAnnouncementView>,
}

pub struct DiscoveryState {
    peers: Vec<PeerAddresses>,
    known_rooms: Vec<KnownRoom>,
    local_announcement: Option<RoomAnnouncement>,
}

impl View for DiscoveryState {
    type V = DiscoveryModel;

    open spec fn view(&self) -> DiscoveryModel {
        self.model()
    }
}

/// The addresses known for `peer` after it is seen at `address`.
pub open spec fn seen_at(m: DiscoveryModel, peer: Seq<char>, address: Seq<char>) -> Seq<Seq<char>> {
    if m.peers.contains_key(peer) {
        m.peers[peer].push(address)
    } else {
        seq![address]
    }
}

/// Discovery after `peer` is seen at `address`.
pub open spec fn discovered(m: DiscoveryModel, peer: Seq<char>, address: Seq<char>) -> DiscoveryModel {
    DiscoveryModel { peers: m.peers.insert(peer, seen_at(m, peer, address)), ..m }
}

/// Discovery after `peer` goes away: it is forgotten with its room.
pub open spec fn expired(m: DiscoveryModel, peer: Seq<char>) -> DiscoveryModel {
    DiscoveryModel { peers: m.peers.remove(peer), rooms: m.rooms.remove(peer), ..m }
}

/// Discovery after `peer` announces a room: a room of this side's protocol
/// version is remembered for the peer, any other leaves discovery as it was.
pub open spec fn announced(
    m: DiscoveryModel,
    peer: Seq<char>,
    announcement: RoomAnnouncementView,
) -> DiscoveryModel {
    if announcement.protocol_version == PROTOCOL_VERSION {
        DiscoveryModel { rooms: m.rooms.insert(peer, announcement), ..m }
    } else {
        m
    }
}

/// Every remembered room speaks this side's protocol version.
pub open spec fn rooms_compatible(m: DiscoveryModel) -> bool {
    forall|p: Seq<char>| #[trigger]
        m.rooms.contains_key(p) ==> m.rooms[p].protocol_version == PROTOCOL_VERSION
}

impl DiscoveryState {
    #[verifier::type_invariant]
    spec fn well_formed(self) -> bool {
        &&& sorted_keys(self.peers@)
        &&& sorted_keys(self.known_rooms@)
        &&& forall|i: int|
            0 <= i < self.known_rooms@.len() ==> #[trigger] self.known_rooms@[i].announcement.protocol_version
                == PROTOCOL_VERSION
    }

    pub closed spec fn model(&self) -> DiscoveryModel {
        DiscoveryModel {
            peers: keyed_map(self.peers@),
            rooms: keyed_map(self.known_rooms@),
            local: opt_announcement(self.local_announcement),
        }
    }

    pub fn new(local_announcement: Option<RoomAnnouncement>) -> (r: Self)
        ensures
            r@.peers.is_empty(),
            r@.rooms.is_empty(),
            r@.local == opt_announcement(local_announcement),
    {
        let r = DiscoveryState { peers: Vec::new(), known_rooms: Vec::new(), local_announcement };
        assert(r@.peers =~= Map::empty());
        assert(r@.rooms =~= Map::empty());
        r
    }

    /// The announcement this side sends and answers with.
    pub fn local_announcement(&self) -> (r: Option<RoomAnnouncement>)
        ensures
            opt_announcement(r) == self@.local,
    {
        clone_opt_announcement(&self.local_announcement)
    }

    pub fn set_local_announcement(&mut self, announcement: Option<RoomAnnouncement>)
        ensures
            final(self)@ == (DiscoveryModel { local: opt_announcement(announcement), ..old(self)@ }),
    {
        proof {
            use_type_invariant(&*self);
        }
        self.local_announcement = announcement;
    }

    /// The peers seen, in id order, with their addresses.
    pub fn known_peers(&self) -> (r: &[PeerAddresses])
        ensures
            sorted_keys(r@),
            keyed_map(r@) == self@.peers,
    {
        proof {
            use_type_invariant(self);
        }
        self.peers.as_slice()
    }

    /// The rooms announced, in peer-id order. Each speaks this side's protocol version.
    pub fn known_rooms(&self) -> (r: &[KnownRoom])
        ensures
            sorted_keys(r@),
            keyed_map(r@) == self@.rooms,
            forall|i: int|
                0 <= i < r@.len() ==> #[trigger] r@[i].announcement.protocol_version
                    == PROTOCOL_VERSION,
            rooms_compatible(self@),
    {
        proof {
            use_type_invariant(self);
            assert forall|p: Seq<char>| #[trigger] self@.rooms.contains_key(p) implies self@.rooms[p].protocol_version
                == PROTOCOL_VERSION by {
                let i = crate::keyed::index_of_key(self.known_rooms@, p);
                assert(self.known_rooms@[i].announcement.protocol_version == PROTOCOL_VERSION);
            }
        }
        self.known_rooms.as_slice()
    }

    /// A peer was found at `address`: its addresses so far, and the local
    /// announcement to send it, if there is one.
    pub fn peer_discovered(&mut self, peer_id: &str, address: String) -> (r: (
        Vec<String>,
        Option<RoomAnnouncement>,
    ))
        ensures
            final(self)@ == discovered(old(self)@, peer_id@, address@),
            texts(r.0@) == seen_at(old(self)@, peer_id@, address@),
            opt_announcement(r.1) == old(self)@.local,
    {
        proof {
            use_type_invariant(&*self);
        }
        let mut entry = match find_key(&self.peers, peer_id) {
            Some(i) => {
                proof {
                    lemma_keyed_map_at(self.peers@, i as int);
                }
                let addresses = clone_texts(&self.peers[i].addresses);
                PeerAddresses { peer_id: peer_id.to_owned(), addresses }
            },
            None => PeerAddresses { peer_id: peer_id.to_owned(), addresses: Vec::new() },
        };
        let ghost before = texts(entry.addresses@);
        entry.addresses.push(address);
        assert(texts(entry.addresses@) =~= before.push(address@));
        let reported = clone_texts(&entry.addresses);
        assert(texts(entry.addresses@) =~= seen_at(old(self)@, peer_id@, address@));
        let mut table = Vec::new();
        std::mem::swap(&mut table, &mut self.peers);
        insert_keyed(&mut table, entry);
        self.peers = table;
        (reported, clone_opt_announcement(&self.local_announcement))
    }

    /// A peer went away: it is forgotten with its room, whose id is returned.
    pub fn peer_expired(&mut self, peer_id: &str) -> (r: Option<String>)
        ensures
            final(self)@ == expired(old(self)@, peer_id@),
            r is Some <==> old(self)@.rooms.contains_key(peer_id@),
            r matches Some(id) ==> id@ == old(self)@.rooms[peer_id@].room_id,
    {
        proof {
            use_type_invariant(&*self);
        }
        match find_key(&self.peers, peer_id) {
            Some(i) => {
                proof {
                    lemma_keyed_map_at(self.peers@, i as int);
                }
                let mut table = Vec::new();
                std::mem::swap(&mut table, &mut self.peers);
                let _ = remove_at(&mut table, i);
                self.peers = table;
            },
            None => {
                assert(old(self)@.peers.remove(peer_id@) =~= old(self)@.peers);
            },
        }
        match find_key(&self.known_rooms, peer_id) {
            Some(i) => {
                proof {
                    lemma_keyed_map_at(self.known_rooms@, i as int);
                }
                let mut table = Vec::new();
                std::mem::swap(&mut table, &mut self.known_rooms);
                let ghost t = table@;
                let room = remove_at(&mut table, i);
                proof {
                    assert forall|k: int| 0 <= k < table@.len() implies #[trigger] table@[k].announcement.protocol_version
                        == PROTOCOL_VERSION by {
                        if k < i {
                            assert(table@[k] == t[k]);
                        } else {
                            assert(table@[k] == t[k + 1]);
                        }
                    }
                }
                self.known_rooms = table;
                Some(room.announcement.room_id)
            },
            None => {
                assert(old(self)@.rooms.remove(peer_id@) =~= old(self)@.rooms);
                None
            },
        }
    }

    /// A peer announced its room. A room of this side's protocol version is
    /// remembered for the peer; any other version is reported and dropped.
    pub fn announcement_received(&mut self, peer_id: &str, announcement: RoomAnnouncement) -> (r:
        AnnouncementOutcome)
        ensures
            final(self)@ == announced(old(self)@, peer_id@, announcement@),
            announcement.protocol_version != PROTOCOL_VERSION ==> r
                == (AnnouncementOutcome::VersionMismatch {
                their_version: announcement.protocol_version,
                our_version: PROTOCOL_VERSION,
            }),
            announcement.protocol_version == PROTOCOL_VERSION ==> (r matches AnnouncementOutcome::Accepted(
                a,
            ) && a@ == announcement@),
    {
        proof {
            use_type_invariant(&*self);
        }
        if announcement.protocol_version != PROTOCOL_VERSION {
            return AnnouncementOutcome::VersionMismatch {
                their_version: announcement.protocol_version,
                our_version: PROTOCOL_VERSION,
            };
        }
        let reported = announcement.clone();
        let entry = KnownRoom { peer_id: peer_id.to_owned(), announcement };
        let mut table = Vec::new();
        std::mem::swap(&mut table, &mut self.known_rooms);
        let ghost t = table@;
        insert_keyed(&mut table, entry);
        proof {
            assert forall|k: int| 0 <= k < table@.len() implies #[trigger] table@[k].announcement.protocol_version
                == PROTOCOL_VERSION by {
                let key = table@[k].key_view();
                lemma_keyed_map_at(table@, k);
                if key != entry.key_view() {
                    let j = crate::keyed::index_of_key(t, key);
                    assert(keyed_map(t).contains_key(key));
                    assert(t[j].announcement.protocol_version == PROTOCOL_VERSION);
                }
            }
        }
        self.known_rooms = table;
        AnnouncementOutcome::Accepted(reported)
    }
}

/// Forgetting a peer that was just found, and had announced nothing,
/// leaves discovery as it was before it was found.
pub proof fn lemma_expiry_undoes_discovery(m: DiscoveryModel, peer: Seq<char>, address: Seq<char>)
    requires
        !m.peers.contains_key(peer),
        !m.rooms.contains_key(peer),
    ensures
        expired(discovered(m, peer, address), peer) == m,
{
    assert(m.peers.insert(peer, seen_at(m, peer, address)).remove(peer) =~= m.peers);
    assert(m.rooms.remove(peer) =~= m.rooms);
}

/// Seeing a peer at an address only appends that address to the peer's
/// list (a new peer starts a list of one): no other peer, no remembered
/// room and not the local announcement changes.
pub proof fn lemma_discovery_appends_address(m: DiscoveryModel, peer: Seq<char>, address: Seq<char>)
    ensures
        ({
            let n = discovered(m, peer, address);
            &&& n.rooms == m.rooms
            &&& n.local == m.local
            &&& n.peers.contains_key(peer)
            &&& n.peers[peer].len() > 0
            &&& n.peers[peer].last() == address
            &&& n.peers[peer].drop_last() == (if m.peers.contains_key(peer) {
                m.peers[peer]
            } else {
                seq![]
            })
            &&& forall|k: Seq<char>|
                k != peer ==> (#[trigger] n.peers.contains_key(k) == m.peers.contains_key(k)
                    && n.peers[k] == m.peers[k])
        }),
{
    let n = discovered(m, peer, address);
    if m.peers.contains_key(peer) {
        assert(n.peers[peer].drop_last() =~= m.peers[peer]);
    } else {
        assert(n.peers[peer].drop_last() =~= seq![]);
    }
}

/// A peer going away forgets it and its room, and nothing else.
pub proof fn lemma_expiry_forgets_only_the_peer(m: DiscoveryModel, peer: Seq<char>)
    ensures
        ({
            let n = expired(m, peer);
            &&& !n.peers.contains_key(peer)
            &&& !n.rooms.contains_key(peer)
            &&& n.local == m.local
            &&& forall|k: Seq<char>|
                k != peer ==> (#[trigger] n.peers.contains_key(k) == m.peers.contains_key(k)
                    && n.peers[k] == m.peers[k])
            &&& forall|k: Seq<char>|
                k != peer ==> (#[trigger] n.rooms.contains_key(k) == m.rooms.contains_key(k)
                    && n.rooms[k] == m.rooms[k])
        }),
{
}

/// An announcement of this side's protocol version becomes the peer's room,
/// replacing any earlier one; one of another version changes nothing.
/// Peers and the local announcement are never touched.
pub proof fn lemma_announcement_sets_the_peers_room(
    m: DiscoveryModel,
    peer: Seq<char>,
    announcement: RoomAnnouncementView,
)
    ensures
        ({
            let n = announced(m, peer, announcement);
            &&& n.peers == m.peers
            &&& n.local == m.local
            &&& announcement.protocol_version == PROTOCOL_VERSION ==> n.rooms.contains_key(peer)
                && n.rooms[peer] == announcement
            &&& announcement.protocol_version != PROTOCOL_VERSION ==> n.rooms == m.rooms
            &&& forall|k: Seq<char>|
                k != peer ==> (#[trigger] n.rooms.contains_key(k) == m.rooms.contains_key(k)
                    && n.rooms[k] == m.rooms[k])
        }),
{
}

/// Whatever happens, every remembered room speaks this side's protocol
/// version: each step keeps that so.
pub proof fn lemma_steps_keep_rooms_compatible(
    m: DiscoveryModel,
    peer: Seq<char>,
    address: Seq<char>,
    announcement: RoomAnnouncementView,
)
    requires
        rooms_compatible(m),
    ensures
        rooms_compatible(discovered(m, peer, address)),
        rooms_compatible(expired(m, peer)),
        rooms_compatible(announced(m, peer, announcement)),
{
}

/// No two announcements in the list name the same room.
pub open spec fn distinct_rooms(rooms: Seq<RoomAnnouncement>) -> bool {
    forall|i: int, j: int|
        0 <= i < j < rooms.len() ==> #[trigger] rooms[i].room_id@ != #[trigger] rooms[j].room_id@
}

/// Adds an announced room to a list of discovered rooms unless a room with
/// the same id is already listed.
pub fn record_discovered_room(rooms: &mut Vec<RoomAnnouncement>, announcement: RoomAnnouncement)
    ensures
        (exists|i: int|
            0 <= i < old(rooms)@.len() && #[trigger] old(rooms)@[i].room_id@
                == announcement.room_id@) ==> final(rooms)@ == old(rooms)@,
        (forall|i: int|
            0 <= i < old(rooms)@.len() ==> #[trigger] old(rooms)@[i].room_id@
                != announcement.room_id@) ==> final(rooms)@ == old(rooms)@.push(announcement),
        distinct_rooms(old(rooms)@) ==> distinct_rooms(final(rooms)@),
{
    let mut i: usize = 0;
    while i < rooms.len()
        invariant
            i <= rooms@.len(),
            rooms@ == old(rooms)@,
            forall|j: int| 0 <= j < i ==> #[trigger] rooms@[j].room_id@ != announcement.room_id@,
        decreases rooms@.len() - i,
    {
        if text_eq(rooms[i].room_id.as_str(), announcement.room_id.as_str()) {
            return;
        }
        i = i + 1;
    }
    rooms.push(announcement);
}

/// Drops the room `room_id` from a list of discovered rooms, once its peer
/// has gone: the first entry with that id is removed and returned. In a
/// list without repeated rooms, no entry for the room remains.
pub fn forget_discovered_room(rooms: &mut Vec<RoomAnnouncement>, room_id: &str) -> (r: Option<
    RoomAnnouncement,
>)
    ensures
        r is None <==> forall|i: int|
            0 <= i < old(rooms)@.len() ==> #[trigger] old(rooms)@[i].room_id@ != room_id@,
        r is None ==> final(rooms)@ == old(rooms)@,
        r matches Some(a) ==> exists|i: int|
            0 <= i < old(rooms)@.len() && #[trigger] old(rooms)@[i].room_id@ == room_id@
                && (forall|j: int| 0 <= j < i ==> #[trigger] old(rooms)@[j].room_id@ != room_id@)
                && a == old(rooms)@[i] && final(rooms)@ == old(rooms)@.remove(i),
        distinct_rooms(old(rooms)@) ==> distinct_rooms(final(rooms)@),
        distinct_rooms(old(rooms)@) ==> forall|i: int|
            0 <= i < final(rooms)@.len() ==> #[trigger] final(rooms)@[i].room_id@ != room_id@,
{
    let mut i: usize = 0;
    while i < rooms.len()
        invariant
            i <= rooms@.len(),
            rooms@ == old(rooms)@,
            forall|j: int| 0 <= j < i ==> #[trigger] rooms@[j].room_id@ != room_id@,
        decreases rooms@.len() - i,
    {
        if text_eq(rooms[i].room_id.as_str(), room_id) {
            let ghost before = rooms@;
            let removed = rooms.remove(i);
            proof {
                assert(before[i as int].room_id@ == room_id@);
                if distinct_rooms(before) {
                    assert forall|x: int, y: int| 0 <= x < y < rooms@.len() implies #[trigger] rooms@[x].room_id@
                        != #[trigger] rooms@[y].room_id@ by {
                        let bx = if x < i { x } else { x + 1 };
                        let by = if y < i { y } else { y + 1 };
                        assert(rooms@[x] == before[bx]);
                        assert(rooms@[y] == before[by]);
                    }
                    assert forall|k: int| 0 <= k < rooms@.len() implies #[trigger] rooms@[k].room_id@
                        != room_id@ by {
                        if k < i {
                            assert(rooms@[k] == before[k]);
                        } else {
                            assert(rooms@[k] == before[k + 1]);
                            assert(before[i as int].room_id@ != before[k + 1].room_id@);
                        }
                    }
                }
            }
            return Some(removed);
        }
        i = i + 1;
    }
    None
}

/// What the list of discovered rooms hears of: a room announced, or the
/// room of a peer that went away.
#[derive(Debug, PartialEq, Eq)]
pub enum RoomListEvent {
    Announced(RoomAnnouncement),
    Expired(String),
}

/// Some entry of the list is room `id`.
pub open spec fn listed(rooms: Seq<RoomAnnouncement>, id: Seq<char>) -> bool {
    exists|i: int| 0 <= i < rooms.len() && #[trigger] rooms[i].room_id@ == id
}

/// `i` is the first entry of the list for room `id`.
pub open spec fn is_first_listed(rooms: Seq<RoomAnnouncement>, id: Seq<char>, i: int) -> bool {
    &&& 0 <= i < rooms.len()
    &&& rooms[i].room_id@ == id
    &&& forall|j: int| 0 <= j < i ==> #[trigger] rooms[j].room_id@ != id
}

/// The list after one event: an announced room is added unless it is
/// listed already; an expired room's first entry is dropped.
pub open spec fn room_list_step(rooms: Seq<RoomAnnouncement>, event: RoomListEvent) -> Seq<
    RoomAnnouncement,
> {
    match event {
        RoomListEvent::Announced(a) => if listed(rooms, a.room_id@) {
            rooms
        } else {
            rooms.push(a)
        },
        RoomListEvent::Expired(id) => if listed(rooms, id@) {
            rooms.remove(choose|i: int| is_first_listed(rooms, id@, i))
        } else {
            rooms
        },
    }
}

/// The list after a whole sequence of events, starting empty.
pub open spec fn rooms_after(events: Seq<RoomListEvent>) -> Seq<RoomAnnouncement>
    decreases events.len(),
{
    if events.len() == 0 {
        seq![]
    } else {
        room_list_step(rooms_after(events.drop_last()), events.last())
    }
}

pub open spec fn announces(event: RoomListEvent, id: Seq<char>) -> bool {
    event matches RoomListEvent::Announced(a) && a.room_id@ == id
}

pub open spec fn expires(event: RoomListEvent, id: Seq<char>) -> bool {
    event matches RoomListEvent::Expired(x) && x@ == id
}

/// Room `id` was announced, and has not expired since.
pub open spec fn announced_since_expiry(events: Seq<RoomListEvent>, id: Seq<char>) -> bool {
    exists|i: int|
        0 <= i < events.len() && #[trigger] announces(events[i], id) && forall|j: int|
            i < j < events.len() ==> !#[trigger] expires(events[j], id)
}

proof fn lemma_first_listed(rooms: Seq<RoomAnnouncement>, id: Seq<char>) -> (i: int)
    requires
        listed(rooms, id),
    ensures
        is_first_listed(rooms, id, i),
        (choose|k: int| is_first_listed(rooms, id, k)) == i,
    decreases rooms.len(),
{
    let w = choose|k: int| 0 <= k < rooms.len() && #[trigger] rooms[k].room_id@ == id;
    let i = lemma_first_below(rooms, id, w);
    let c = choose|k: int| is_first_listed(rooms, id, k);
    assert(is_first_listed(rooms, id, c));
    if c < i {
        assert(rooms[c].room_id@ != id);
    } else if c > i {
        assert(rooms[i].room_id@ != id);
    }
    i
}

proof fn lemma_first_below(rooms: Seq<RoomAnnouncement>, id: Seq<char>, w: int) -> (i: int)
    requires
        0 <= w < rooms.len(),
        rooms[w].room_id@ == id,
    ensures
        is_first_listed(rooms, id, i),
    decreases w,
{
    if exists|j: int| 0 <= j < w && #[trigger] rooms[j].room_id@ == id {
        let j = choose|j: int| 0 <= j < w && #[trigger] rooms[j].room_id@ == id;
        lemma_first_below(rooms, id, j)
    } else {
        w
    }
}

/// `i` is the first announcement of room `id` since its last expiry: the
/// room has not expired after it, and every earlier announcement of the
/// room was followed by an expiry before it.
pub open spec fn first_live(events: Seq<RoomListEvent>, id: Seq<char>, i: int) -> bool {
    &&& 0 <= i < events.len()
    &&& announces(events[i], id)
    &&& forall|j: int| i < j < events.len() ==> !#[trigger] expires(events[j], id)
    &&& forall|h: int|
        0 <= h < i && #[trigger] announces(events[h], id) ==> exists|j: int|
            h < j < i && #[trigger] expires(events[j], id)
}

proof fn lemma_first_live_extends(events: Seq<RoomListEvent>, id: Seq<char>, i: int)
    requires
        events.len() > 0,
        first_live(events.drop_last(), id, i),
        !expires(events.last(), id),
    ensures
        first_live(events, id, i),
{
    let prev = events.drop_last();
    assert forall|j: int| i < j < events.len() implies !#[trigger] expires(events[j], id) by {
        if j < prev.len() {
            assert(events[j] == prev[j]);
        }
    }
    assert forall|h: int| 0 <= h < i && #[trigger] announces(events[h], id) implies exists|j: int|
        h < j < i && #[trigger] expires(events[j], id) by {
        assert(events[h] == prev[h]);
        let j = choose|j: int| h < j < i && #[trigger] expires(prev[j], id);
        assert(events[j] == prev[j]);
    }
}

proof fn lemma_first_live_shrinks(events: Seq<RoomListEvent>, id: Seq<char>, i: int)
    requires
        first_live(events, id, i),
        i < events.len() - 1,
    ensures
        first_live(events.drop_last(), id, i),
        announced_since_expiry(events.drop_last(), id),
{
    let prev = events.drop_last();
    assert(events[i] == prev[i]);
    assert forall|j: int| i < j < prev.len() implies !#[trigger] expires(prev[j], id) by {
        assert(events[j] == prev[j]);
    }
    assert forall|h: int| 0 <= h < i && #[trigger] announces(prev[h], id) implies exists|j: int|
        h < j < i && #[trigger] expires(prev[j], id) by {
        assert(events[h] == prev[h]);
        let j = choose|j: int| h < j < i && #[trigger] expires(events[j], id);
        assert(events[j] == prev[j]);
    }
}

/// The last event cannot be a room's first announcement since its last
/// expiry while an earlier announcement of it is still live.
proof fn lemma_last_not_first_live(events: Seq<RoomListEvent>, id: Seq<char>)
    requires
        events.len() > 0,
        announced_since_expiry(events.drop_last(), id),
    ensures
        !first_live(events, id, events.len() - 1),
{
    let prev = events.drop_last();
    let n = events.len() - 1;
    let h = choose|h: int|
        0 <= h < prev.len() && #[trigger] announces(prev[h], id) && forall|j: int|
            h < j < prev.len() ==> !#[trigger] expires(prev[j], id);
    if first_live(events, id, n) {
        assert(events[h] == prev[h]);
        assert(announces(events[h], id));
        let j = choose|j: int| h < j < n && #[trigger] expires(events[j], id);
        assert(events[j] == prev[j]);
        assert(!expires(prev[j], id));
    }
}

/// The list of discovered rooms over any sequence of events: no room is
/// listed twice; a room is listed exactly when it was announced and has
/// not expired since; each entry is the first announcement of its room
/// since the room last expired; and the entries come in the order in which
/// those announcements arrived.
pub proof fn lemma_rooms_after(events: Seq<RoomListEvent>)
    ensures
        distinct_rooms(rooms_after(events)),
        forall|id: Seq<char>| listed(rooms_after(events), id) <==> announced_since_expiry(events, id),
        forall|k: int|
            0 <= k < rooms_after(events).len() ==> exists|i: int|
                first_live(events, rooms_after(events)[k].room_id@, i) && #[trigger] events[i]
                    == RoomListEvent::Announced(#[trigger] rooms_after(events)[k]),
        forall|x: int, y: int, i1: int, i2: int|
            0 <= x < y < rooms_after(events).len() && #[trigger] first_live(
                events,
                rooms_after(events)[x].room_id@,
                i1,
            ) && #[trigger] first_live(events, rooms_after(events)[y].room_id@, i2) ==> i1 < i2,
    decreases events.len(),
{
    if events.len() == 0 {
        return;
    }
    let prev = events.drop_last();
    let e = events.last();
    let n = events.len() - 1;
    lemma_rooms_after(prev);
    let r = rooms_after(prev);
    let r2 = rooms_after(events);
    assert(r2 == room_list_step(r, e));
    assert forall|k: int| 0 <= k < prev.len() implies #[trigger] events[k] == prev[k] by {}
    match e {
        RoomListEvent::Announced(a) => {
            if !listed(r, a.room_id@) {
                assert forall|x: int, y: int| 0 <= x < y < r2.len() implies #[trigger] r2[x].room_id@
                    != #[trigger] r2[y].room_id@ by {
                    if y == r.len() {
                        assert(r[x].room_id@ != a.room_id@);
                    }
                }
            }
            assert forall|id: Seq<char>| listed(r2, id) <==> announced_since_expiry(events, id) by {
                if id == a.room_id@ {
                    assert(announces(events[n], id));
                    if !listed(r, id) {
                        assert(r2[r.len() as int].room_id@ == id);
                    }
                } else {
                    if listed(r2, id) {
                        let k = choose|k: int| 0 <= k < r2.len() && #[trigger] r2[k].room_id@ == id;
                        assert(r[k].room_id@ == id);
                        assert(listed(r, id));
                        assert(announced_since_expiry(prev, id));
                        let i = choose|i: int|
                            0 <= i < prev.len() && #[trigger] announces(prev[i], id) && forall|j: int|
                                i < j < prev.len() ==> !#[trigger] expires(prev[j], id);
                        assert(announces(events[i], id));
                        assert forall|j: int| i < j < events.len() implies !#[trigger] expires(events[j], id) by {
                            if j < prev.len() {
                                assert(!expires(prev[j], id));
                            }
                        }
                    }
                    if announced_since_expiry(events, id) {
                        let i = choose|i: int|
                            0 <= i < events.len() && #[trigger] announces(events[i], id) && forall|j: int|
                                i < j < events.len() ==> !#[trigger] expires(events[j], id);
                        assert(i < n);
                        assert(announces(prev[i], id));
                        assert forall|j: int| i < j < prev.len() implies !#[trigger] expires(prev[j], id) by {
                            assert(!expires(events[j], id));
                        }
                        assert(announced_since_expiry(prev, id));
                        let k = choose|k: int| 0 <= k < r.len() && #[trigger] r[k].room_id@ == id;
                        if !listed(r, a.room_id@) {
                            assert(r2[k] == r[k]);
                        }
                    }
                }
            }
            assert forall|k: int| 0 <= k < r2.len() implies exists|i: int|
                first_live(events, r2[k].room_id@, i) && #[trigger] events[i]
                    == RoomListEvent::Announced(#[trigger] r2[k]) by {
                if k < r.len() {
                    assert(r2[k] == r[k]);
                    let i = choose|i: int|
                        first_live(prev, r[k].room_id@, i) && #[trigger] prev[i]
                            == RoomListEvent::Announced(#[trigger] r[k]);
                    lemma_first_live_extends(events, r[k].room_id@, i);
                    assert(events[i] == RoomListEvent::Announced(r2[k]));
                } else {
                    let id = a.room_id@;
                    assert(r2[k] == a);
                    assert(!announced_since_expiry(prev, id));
                    assert forall|h: int| 0 <= h < n && #[trigger] announces(events[h], id) implies exists|j: int|
                        h < j < n && #[trigger] expires(events[j], id) by {
                        assert(events[h] == prev[h]);
                        assert(announces(prev[h], id));
                        let j = choose|j: int| h < j < prev.len() && expires(prev[j], id);
                        assert(events[j] == prev[j]);
                    }
                    assert(first_live(events, id, n));
                    assert(events[n] == RoomListEvent::Announced(r2[k]));
                }
            }
            assert forall|x1: int, y1: int, i1: int, i2: int|
                0 <= x1 < y1 < r2.len() && #[trigger] first_live(events, r2[x1].room_id@, i1)
                    && #[trigger] first_live(events, r2[y1].room_id@, i2) implies i1 < i2 by {
                let idx = r2[x1].room_id@;
                let idy = r2[y1].room_id@;
                assert(r2[x1] == r[x1]);
                assert(listed(r, idx));
                assert(announced_since_expiry(prev, idx));
                lemma_last_not_first_live(events, idx);
                if y1 < r.len() {
                    assert(r2[y1] == r[y1]);
                    assert(listed(r, idy));
                    assert(announced_since_expiry(prev, idy));
                    lemma_last_not_first_live(events, idy);
                    lemma_first_live_shrinks(events, idx, i1);
                    lemma_first_live_shrinks(events, idy, i2);
                    assert(first_live(prev, r[x1].room_id@, i1));
                    assert(first_live(prev, r[y1].room_id@, i2));
                } else {
                    assert(idy == a.room_id@);
                    if i2 < n {
                        lemma_first_live_shrinks(events, idy, i2);
                        assert(listed(r, idy));
                    }
                }
            }
        },
        RoomListEvent::Expired(x) => {
            let id0 = x@;
            if listed(r, id0) {
                let f = lemma_first_listed(r, id0);
                assert(r2 == r.remove(f));
                assert forall|p: int| 0 <= p < r2.len() implies #[trigger] r2[p] == (if p < f {
                    r[p]
                } else {
                    r[p + 1]
                }) by {}
                assert forall|x1: int, y1: int| 0 <= x1 < y1 < r2.len() implies #[trigger] r2[x1].room_id@
                    != #[trigger] r2[y1].room_id@ by {
                    let bx = if x1 < f { x1 } else { x1 + 1 };
                    let by = if y1 < f { y1 } else { y1 + 1 };
                    assert(r2[x1] == r[bx]);
                    assert(r2[y1] == r[by]);
                }
                assert forall|id: Seq<char>| listed(r2, id) <==> announced_since_expiry(events, id) by {
                    if id == id0 {
                        if listed(r2, id) {
                            let k = choose|k: int| 0 <= k < r2.len() && #[trigger] r2[k].room_id@ == id;
                            let bk = if k < f { k } else { k + 1 };
                            assert(r2[k] == r[bk]);
                            assert(r[f].room_id@ != r[bk].room_id@);
                        }
                        if announced_since_expiry(events, id) {
                            let i = choose|i: int|
                                0 <= i < events.len() && #[trigger] announces(events[i], id) && forall|j: int|
                                    i < j < events.len() ==> !#[trigger] expires(events[j], id);
                            assert(expires(events[n], id));
                        }
                    } else {
                        if listed(r2, id) {
                            let k = choose|k: int| 0 <= k < r2.len() && #[trigger] r2[k].room_id@ == id;
                            let bk = if k < f { k } else { k + 1 };
                            assert(r2[k] == r[bk]);
                            assert(listed(r, id));
                            assert(announced_since_expiry(prev, id));
                            let i = choose|i: int|
                                0 <= i < prev.len() && #[trigger] announces(prev[i], id) && forall|j: int|
                                    i < j < prev.len() ==> !#[trigger] expires(prev[j], id);
                            assert(announces(events[i], id));
                            assert forall|j: int| i < j < events.len() implies !#[trigger] expires(events[j], id) by {
                                if j < prev.len() {
                                    assert(!expires(prev[j], id));
                                }
                            }
                        }
                        if announced_since_expiry(events, id) {
                            let i = choose|i: int|
                                0 <= i < events.len() && #[trigger] announces(events[i], id) && forall|j: int|
                                    i < j < events.len() ==> !#[trigger] expires(events[j], id);
                            assert(i < n);
                            assert(announces(prev[i], id));
                            assert forall|j: int| i < j < prev.len() implies !#[trigger] expires(prev[j], id) by {
                                assert(!expires(events[j], id));
                            }
                            assert(announced_since_expiry(prev, id));
                            let k = choose|k: int| 0 <= k < r.len() && #[trigger] r[k].room_id@ == id;
                            assert(k != f);
                            let k2 = if k < f { k } else { k - 1 };
                            assert(r2[k2] == r[k]);
                        }
                    }
                }
                assert forall|k: int| 0 <= k < r2.len() implies exists|i: int|
                    first_live(events, r2[k].room_id@, i) && #[trigger] events[i]
                        == RoomListEvent::Announced(#[trigger] r2[k]) by {
                    let bk = if k < f { k } else { k + 1 };
                    assert(r2[k] == r[bk]);
                    assert(r[f].room_id@ != r[bk].room_id@);
                    let i = choose|i: int|
                        first_live(prev, r[bk].room_id@, i) && #[trigger] prev[i]
                            == RoomListEvent::Announced(#[trigger] r[bk]);
                    lemma_first_live_extends(events, r[bk].room_id@, i);
                    assert(events[i] == RoomListEvent::Announced(r2[k]));
                }
                assert forall|x1: int, y1: int, i1: int, i2: int|
                    0 <= x1 < y1 < r2.len() && #[trigger] first_live(events, r2[x1].room_id@, i1)
                        && #[trigger] first_live(events, r2[y1].room_id@, i2) implies i1 < i2 by {
                    let bx = if x1 < f { x1 } else { x1 + 1 };
                    let by = if y1 < f { y1 } else { y1 + 1 };
                    assert(r2[x1] == r[bx]);
                    assert(r2[y1] == r[by]);
                    lemma_first_live_shrinks(events, r[bx].room_id@, i1);
                    lemma_first_live_shrinks(events, r[by].room_id@, i2);
                }
            } else {
                assert forall|id: Seq<char>| listed(r2, id) <==> announced_since_expiry(events, id) by {
                    if id == id0 {
                        if announced_since_expiry(events, id) {
                            let i = choose|i: int|
                                0 <= i < events.len() && #[trigger] announces(events[i], id) && forall|j: int|
                                    i < j < events.len() ==> !#[trigger] expires(events[j], id);
                            assert(expires(events[n], id));
                        }
                    } else {
                        if listed(r2, id) {
                            assert(listed(r, id));
                            assert(announced_since_expiry(prev, id));
                            let i = choose|i: int|
                                0 <= i < prev.len() && #[trigger] announces(prev[i], id) && forall|j: int|
                                    i < j < prev.len() ==> !#[trigger] expires(prev[j], id);
                            assert(announces(events[i], id));
                            assert forall|j: int| i < j < events.len() implies !#[trigger] expires(events[j], id) by {
                                if j < prev.len() {
                                    assert(!expires(prev[j], id));
                                }
                            }
                        }
                        if announced_since_expiry(events, id) {
                            let i = choose|i: int|
                                0 <= i < events.len() && #[trigger] announces(events[i], id) && forall|j: int|
                                    i < j < events.len() ==> !#[trigger] expires(events[j], id);
                            assert(i < n);
                            assert(announces(prev[i], id));
                            assert forall|j: int| i < j < prev.len() implies !#[trigger] expires(prev[j], id) by {
                                assert(!expires(events[j], id));
                            }
                            assert(announced_since_expiry(prev, id));
                        }
                    }
                }
                assert forall|k: int| 0 <= k < r2.len() implies exists|i: int|
                    first_live(events, r2[k].room_id@, i) && #[trigger] events[i]
                        == RoomListEvent::Announced(#[trigger] r2[k]) by {
                    assert(r2[k] == r[k]);
                    assert(r[k].room_id@ != id0);
                    let i = choose|i: int|
                        first_live(prev, r[k].room_id@, i) && #[trigger] prev[i]
                            == RoomListEvent::Announced(#[trigger] r[k]);
                    lemma_first_live_extends(events, r[k].room_id@, i);
                    assert(events[i] == RoomListEvent::Announced(r2[k]));
                }
                assert forall|x1: int, y1: int, i1: int, i2: int|
                    0 <= x1 < y1 < r2.len() && #[trigger] first_live(events, r2[x1].room_id@, i1)
                        && #[trigger] first_live(events, r2[y1].room_id@, i2) implies i1 < i2 by {
                    assert(r2[x1] == r[x1]);
                    assert(r2[y1] == r[y1]);
                    lemma_first_live_shrinks(events, r[x1].room_id@, i1);
                    lemma_first_live_shrinks(events, r[y1].room_id@, i2);
                }
            }
        },
    }
}

/// Applies one event to the list of discovered rooms.
pub fn apply_room_event(rooms: &mut Vec<RoomAnnouncement>, event: RoomListEvent)
    ensures
        final(rooms)@ == room_list_step(old(rooms)@, event),
{
    match event {
        RoomListEvent::Announced(a) => {
            record_discovered_room(rooms, a);
        },
        RoomListEvent::Expired(id) => {
            let ghost before = rooms@;
            let r = forget_discovered_room(rooms, id.as_str());
            proof {
                if listed(before, id@) {
                    let f = lemma_first_listed(before, id@);
                    assert(r is Some);
                    let i = choose|i: int|
                        0 <= i < before.len() && #[trigger] before[i].room_id@ == id@ && (forall|j: int|
                            0 <= j < i ==> #[trigger] before[j].room_id@ != id@) && rooms@ == before.remove(i);
                    assert(is_first_listed(before, id@, i));
                    if i < f {
                        assert(before[i].room_id@ != id@);
                    } else if i > f {
                        assert(before[f].room_id@ != id@);
                    }
                }
            }
        },
    }
}

} // verus!
