use multiplayer::errors::{CreateError, JoinError, StoreError};
use multiplayer::player::MultiplayerPlayer;
use multiplayer::service::{JoinGamePathParameters, SessionService};
use multiplayer::session::MultiplayerGame;
use multiplayer::store::MemoryStore;

fn player(id: &str, name: &str) -> MultiplayerPlayer {
    MultiplayerPlayer::new(id.to_string(), name.to_string())
}

#[test]
fn created_ids_are_unique() {
    let mut svc = SessionService::new();
    let a = svc.create_session(&player("1", "pasha")).unwrap();
    let b = svc.create_session(&player("1", "pasha")).unwrap();
    let c = svc.create_session(&player("2", "anna")).unwrap();
    assert_ne!(a, b);
    assert_ne!(a, c);
    assert_ne!(b, c);
}

#[test]
fn created_id_is_a_rendered_token() {
    let mut svc = SessionService::new();
    let id = svc.create_session(&player("1", "pasha")).unwrap();
    assert_eq!(id.chars().count(), 36);
}

#[test]
fn listing_is_complete() {
    let mut svc = SessionService::new();
    let a = svc.create_session(&player("1", "pasha")).unwrap();
    let b = svc.create_session(&player("2", "anna")).unwrap();
    let c = svc.create_session(&player("3", "vlad")).unwrap();
    let mut listed = svc.list_sessions();
    let mut expected = vec![a, b, c];
    listed.sort();
    expected.sort();
    assert_eq!(listed, expected);
}

#[test]
fn join_on_unknown_id_is_not_found() {
    let mut svc = SessionService::new();
    let id = svc.create_session(&player("1", "pasha")).unwrap();
    let before = svc.list_sessions();
    let r = svc.join_session("does-not-exist", player("2", "anna"));
    assert_eq!(r, Err(JoinError::NotFound));
    assert_eq!(svc.list_sessions(), before);
    assert!(svc.get_session("does-not-exist").is_err());
    let g = svc.get_session(&id).unwrap();
    assert_eq!(g.players().len(), 1);
}

#[test]
fn duplicate_join_is_rejected_and_roster_unchanged() {
    let mut svc = SessionService::new();
    let id = svc.create_session(&player("1", "pasha")).unwrap();
    let r = svc.join_session(&id, player("1", "someone else"));
    assert_eq!(r, Err(JoinError::DuplicatePlayer));
    let g = svc.get_session(&id).unwrap();
    assert_eq!(g.players().len(), 1);
    assert_eq!(g.players()[0].name, "pasha");
}

#[test]
fn two_joins_preserve_both_writers() {
    let mut svc = SessionService::new();
    let id = svc.create_session(&player("1", "pasha")).unwrap();
    assert_eq!(svc.join_session(&id, player("2", "anna")), Ok(()));
    assert_eq!(svc.join_session(&id, player("3", "vlad")), Ok(()));
    let g = svc.get_session(&id).unwrap();
    assert_eq!(g.players().len(), 3);
    for wanted in ["1", "2", "3"] {
        let occurrences = g.players().iter().filter(|p| p.id == wanted).count();
        assert_eq!(occurrences, 1);
    }
}

#[test]
fn join_order_does_not_change_the_final_roster_set() {
    let mut rosters: Vec<Vec<(String, String)>> = Vec::new();
    for order in [["2", "3"], ["3", "2"]] {
        let mut svc = SessionService::new();
        let id = svc.create_session(&player("1", "pasha")).unwrap();
        assert_eq!(svc.join_session(&id, player(order[0], order[0])), Ok(()));
        assert_eq!(svc.join_session(&id, player(order[1], order[1])), Ok(()));
        let mut roster: Vec<(String, String)> = svc
            .get_session(&id)
            .unwrap()
            .players()
            .iter()
            .map(|p| (p.id.clone(), p.name.clone()))
            .collect();
        roster.sort();
        rosters.push(roster);
    }
    assert_eq!(rosters[0], rosters[1]);
    assert_eq!(rosters[0].len(), 3);
}

#[test]
fn example_scenario() {
    let mut svc = SessionService::new();
    let s = svc.create_session(&player("1", "pasha")).unwrap();
    assert_eq!(svc.list_sessions(), vec![s.clone()]);
    assert_eq!(svc.join_session(&s, player("2", "anna")), Ok(()));
    let g = svc.get_session(&s).unwrap();
    assert_eq!(g.id(), s);
    assert_eq!(g.players().len(), 2);
    assert_eq!(g.players()[0].id, "1");
    assert_eq!(g.players()[0].name, "pasha");
    assert_eq!(g.players()[1].id, "2");
    assert_eq!(g.players()[1].name, "anna");
}

#[test]
fn invalid_player_is_rejected_at_the_boundary() {
    let mut svc = SessionService::new();
    assert_eq!(
        svc.create_session(&player("", "nameless")),
        Err(CreateError::InvalidPlayer)
    );
    assert_eq!(svc.list_sessions().len(), 0);
    let id = svc.create_session(&player("1", "pasha")).unwrap();
    assert_eq!(
        svc.join_session(&id, player("", "nameless")),
        Err(JoinError::InvalidPlayer)
    );
    assert_eq!(svc.get_session(&id).unwrap().players().len(), 1);
}

#[test]
fn a_service_can_take_over_an_existing_store() {
    let mut store = MemoryStore::new();
    store
        .add_game(MultiplayerGame::new("g1", player("1", "pasha")))
        .unwrap();
    let svc = SessionService::with_store(store);
    assert_eq!(svc.list_sessions(), vec!["g1".to_string()]);
    assert_eq!(svc.get_session("g1").unwrap().players().len(), 1);
}

#[test]
fn get_session_returns_not_found_for_unknown_id() {
    let svc = SessionService::new();
    match svc.get_session("missing") {
        Err(StoreError::NotFound) => {}
        other => panic!("unexpected result: {:?}", other.map(|g| g.id().to_string())),
    }
}

#[test]
fn join_path_parameters_carry_the_game_id() {
    let params = JoinGamePathParameters {
        game_id: "abc".to_string(),
    };
    assert_eq!(params.game_id, "abc");
}
