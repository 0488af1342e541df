use multiplayer::errors::{JoinError, StoreError};
use multiplayer::player::{MultiplayerMove, MultiplayerPlayer};
use multiplayer::session::MultiplayerGame;
use multiplayer::store::MemoryStore;

fn player(id: &str, name: &str) -> MultiplayerPlayer {
    MultiplayerPlayer::new(id.to_string(), name.to_string())
}

#[test]
fn add_game_reports_conflict_on_reused_id() {
    let mut store = MemoryStore::new();
    assert_eq!(
        store.add_game(MultiplayerGame::new("g1", player("1", "pasha"))),
        Ok(())
    );
    assert_eq!(
        store.add_game(MultiplayerGame::new("g1", player("2", "anna"))),
        Err(StoreError::Conflict)
    );
    assert_eq!(store.get_games().len(), 1);
    assert_eq!(store.get_games()[0].players()[0].name, "pasha");
}

#[test]
fn get_game_returns_the_stored_game() {
    let mut store = MemoryStore::new();
    store
        .add_game(MultiplayerGame::new("g1", player("1", "pasha")))
        .unwrap();
    store
        .add_game(MultiplayerGame::new("g2", player("2", "anna")))
        .unwrap();
    let g = store.get_game("g2").unwrap();
    assert_eq!(g.id(), "g2");
    assert_eq!(g.players()[0].id, "2");
    assert_eq!(store.get_game("g3").err(), Some(StoreError::NotFound));
}

#[test]
fn game_ids_match_stored_games_in_insertion_order() {
    let mut store = MemoryStore::new();
    store
        .add_game(MultiplayerGame::new("g1", player("1", "pasha")))
        .unwrap();
    store
        .add_game(MultiplayerGame::new("g2", player("2", "anna")))
        .unwrap();
    assert_eq!(store.game_ids(), vec!["g1".to_string(), "g2".to_string()]);
}

#[test]
fn update_game_replaces_only_the_addressed_game() {
    let mut store = MemoryStore::new();
    store
        .add_game(MultiplayerGame::new("g1", player("1", "pasha")))
        .unwrap();
    store
        .add_game(MultiplayerGame::new("g2", player("2", "anna")))
        .unwrap();
    let replacement = MultiplayerGame::new("g1", player("3", "vlad"));
    assert_eq!(store.update_game("g1", replacement), Ok(()));
    assert_eq!(store.get_game("g1").unwrap().players()[0].name, "vlad");
    assert_eq!(store.get_game("g2").unwrap().players()[0].name, "anna");
    let stray = MultiplayerGame::new("g9", player("4", "olga"));
    assert_eq!(store.update_game("g9", stray), Err(StoreError::NotFound));
}

#[test]
fn add_player_to_game_appends_or_rejects() {
    let mut store = MemoryStore::new();
    store
        .add_game(MultiplayerGame::new("g1", player("1", "pasha")))
        .unwrap();
    assert_eq!(
        store.add_player_to_game("g9", player("2", "anna")),
        Err(JoinError::NotFound)
    );
    assert_eq!(store.add_player_to_game("g1", player("2", "anna")), Ok(()));
    assert_eq!(
        store.add_player_to_game("g1", player("2", "again")),
        Err(JoinError::DuplicatePlayer)
    );
    let g = store.get_game("g1").unwrap();
    assert_eq!(g.players().len(), 2);
    assert_eq!(g.players()[1].name, "anna");
}

#[test]
fn session_accessors_report_its_state() {
    let mut g = MultiplayerGame::new("g1", player("1", "pasha"));
    assert_eq!(g.id(), "g1");
    assert!(g.id_matches(&"g1".to_string()));
    assert!(!g.id_matches(&"g2".to_string()));
    assert!(g.has_player("1"));
    assert!(!g.has_player("2"));
    assert_eq!(g.add_player(player("2", "anna")), Ok(()));
    assert_eq!(
        g.add_player(player("1", "impostor")),
        Err(JoinError::DuplicatePlayer)
    );
    assert_eq!(g.players().len(), 2);
    assert_eq!(g.players()[1].id, "2");
    let copy = g.players()[0].clone();
    assert_eq!(copy.id, "1");
    assert_eq!(copy.name, "pasha");
}

#[test]
fn session_creation_time_is_read_from_the_clock() {
    let g = MultiplayerGame::new("g1", player("1", "pasha"));
    assert!(g.created_at() > 0);
}

#[test]
fn player_validation_requires_a_non_empty_id() {
    assert!(player("1", "pasha").is_valid());
    assert!(player("1", "").is_valid());
    assert!(!player("", "pasha").is_valid());
}

#[test]
fn move_addressing_names_player_and_game() {
    let m = MultiplayerMove {
        player_id: "1".to_string(),
        game_id: "g1".to_string(),
    };
    assert_eq!(m.player_id, "1");
    assert_eq!(m.game_id, "g1");
}
