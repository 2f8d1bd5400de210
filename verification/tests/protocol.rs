use meowify::model::{JoinRequest, PartyRoom, RoomSettings, RoomState, RoomVisibility};
use meowify::protocol::{
    hash_invite_code, validate_join_request, verify_invite_code, JoinError, PROTOCOL_VERSION,
};

fn room(state: RoomState, visibility: RoomVisibility) -> PartyRoom {
    PartyRoom {
        room_id: "room-1".to_string(),
        room_name: "Living room".to_string(),
        visibility,
        admin_client_id: "admin-1".to_string(),
        created_at_ms: 1,
        invite_code_hash: hash_invite_code("123456", "room-1"),
        settings: RoomSettings::default(),
        state,
    }
}

fn join_request(code: Option<&str>) -> JoinRequest {
    JoinRequest {
        request_id: "request-1".to_string(),
        room_id: "room-1".to_string(),
        client_id: "client-1".to_string(),
        user_name: "tester".to_string(),
        device_name: "laptop".to_string(),
        invite_code_attempt: code.map(str::to_string),
        requested_at_ms: 2,
    }
}

#[test]
fn invite_code_hash_validates() {
    let room = room(RoomState::Active, RoomVisibility::Private);

    assert!(verify_invite_code(&room, "123456"));
    assert!(!verify_invite_code(&room, "000000"));
}

#[test]
fn locked_room_rejects_joins() {
    let room = room(RoomState::Locked, RoomVisibility::LanVisible);

    assert_eq!(
        validate_join_request(&room, &join_request(None)),
        Err(JoinError::RoomClosed)
    );
}

#[test]
fn private_room_requires_valid_invite_code() {
    let room = room(RoomState::Active, RoomVisibility::Private);

    assert_eq!(
        validate_join_request(&room, &join_request(Some("bad"))),
        Err(JoinError::InvalidInviteCode)
    );
    assert!(validate_join_request(&room, &join_request(Some("123456"))).is_ok());
}

#[test]
fn invite_hash_is_hex_sha256_of_room_and_code() {
    // SHA-256 of "room-1:123456", lower-case hex.
    assert_eq!(
        hash_invite_code("123456", "room-1"),
        "fc599e5320f1798218a8f0c40fcf46505374a39be31d38d9708f5c8178e20702"
    );
    assert_eq!(hash_invite_code("123456", "room-1").len(), 64);
    assert_ne!(
        hash_invite_code("123456", "room-1"),
        hash_invite_code("123456", "room-2")
    );
}

#[test]
fn private_room_without_code_is_refused() {
    let room = room(RoomState::Active, RoomVisibility::Private);

    assert_eq!(
        validate_join_request(&room, &join_request(None)),
        Err(JoinError::InvalidInviteCode)
    );
}

#[test]
fn open_rooms_ignore_the_invite_code() {
    for visibility in [RoomVisibility::LanVisible, RoomVisibility::Open] {
        let room = room(RoomState::Active, visibility);
        assert_eq!(validate_join_request(&room, &join_request(None)), Ok(()));
        assert_eq!(validate_join_request(&room, &join_request(Some("bad"))), Ok(()));
    }
}

#[test]
fn only_waiting_and_active_rooms_accept_joins() {
    for state in [
        RoomState::Creating,
        RoomState::WaitingForClients,
        RoomState::Active,
        RoomState::Locked,
        RoomState::PausedByAdminDisconnect,
        RoomState::Ending,
        RoomState::Ended,
    ] {
        let room = room(state, RoomVisibility::Open);
        let open = matches!(state, RoomState::WaitingForClients | RoomState::Active);
        assert_eq!(room.accepts_join_requests(), open);
        let expected = if open { Ok(()) } else { Err(JoinError::RoomClosed) };
        assert_eq!(validate_join_request(&room, &join_request(None)), expected);
    }
}

#[test]
fn closed_room_refuses_even_a_valid_code() {
    let room = room(RoomState::Ended, RoomVisibility::Private);

    assert_eq!(
        validate_join_request(&room, &join_request(Some("123456"))),
        Err(JoinError::RoomClosed)
    );
}

#[test]
fn protocol_version_is_one() {
    assert_eq!(PROTOCOL_VERSION, 1);
}
