use rustbreak::game_scene::{GameScene, GameSceneType, SceneOptions};
use rustbreak::game_session::{
    compose_prelude_text, GameEvent, GameSession, UpdateResult, MAX_PLAYERS_PER_SESSION,
};

fn name(s: &str) -> String {
    s.to_string()
}

fn scene(correct: &str) -> GameScene {
    GameScene {
        title: name("Cena"),
        description: name("Qual alternativa?"),
        options: SceneOptions {
            a: name("um"),
            b: name("dois"),
            c: name("tres"),
            d: name("quatro"),
            id_correct: name(correct),
        },
        success_msg: name("Muito bem."),
        error_msg: name("Errado."),
    }
}

fn answer(user: &str, text: &str) -> GameEvent {
    GameEvent::PlayerAnswer { username: name(user), answer: name(text) }
}

fn full_started_session(correct: &str) -> GameSession {
    let mut s = GameSession::new();
    for p in ["ana", "bia", "caio"] {
        assert!(s.add_player(&name(p)).is_ok());
    }
    assert!(s.begin_game());
    assert_eq!(s.next_scene(), Some(name("scene_1")));
    s.load_scene(scene(correct));
    s
}

fn text_of(r: &UpdateResult) -> (&'static str, Option<String>) {
    match r {
        UpdateResult::Advance(t) => ("advance", Some(t.clone())),
        UpdateResult::Continue(t) => ("continue", t.clone()),
        UpdateResult::EndGame(t) => ("end", Some(t.clone())),
        UpdateResult::GameOver(t) => ("over", Some(t.clone())),
    }
}

#[test]
fn new_session_is_empty_and_waiting() {
    let s = GameSession::new();
    assert!(s.party.is_empty());
    assert!(!s.has_started);
    assert!(matches!(&s.current_scene_state, GameSceneType::Prelude(t) if t.is_empty()));
    assert!(s.current_scene().is_none());
}

#[test]
fn scenes_come_in_order_then_run_out() {
    let mut s = GameSession::new();
    let expected = [
        "scene_1", "scene_2", "scene_3", "scene_4", "scene_5", "scene_6", "scene_7", "final_scene",
    ];
    for e in expected {
        assert_eq!(s.next_scene(), Some(name(e)));
    }
    assert_eq!(s.next_scene(), None);
    assert_eq!(s.next_scene(), None);
}

#[test]
fn add_player_registers_and_refuses() {
    let mut s = GameSession::new();
    assert_eq!(s.add_player(&name("ana")), Ok(()));
    assert!(s.contains(&name("ana")));
    assert!(!s.contains(&name("bia")));
    assert_eq!(s.add_player(&name("ana")), Err(name("Player já registrado: ana")));
    assert_eq!(s.party.len(), 1);
    assert_eq!(s.add_player(&name("bia")), Ok(()));
    assert_eq!(s.add_player(&name("caio")), Ok(()));
    assert_eq!(s.party.len(), MAX_PLAYERS_PER_SESSION);
    assert_eq!(s.add_player(&name("dani")), Err(name("Party já está cheia: dani")));
    assert_eq!(s.add_player(&name("bia")), Err(name("Player já registrado: bia")));
    assert_eq!(s.party_size(), 3);
}

#[test]
fn remove_player_keeps_the_others() {
    let mut s = GameSession::new();
    for p in ["ana", "bia", "caio"] {
        s.add_player(&name(p)).unwrap();
    }
    s.remove_player(&name("bia"));
    assert!(!s.contains(&name("bia")));
    assert!(s.contains(&name("ana")));
    assert!(s.contains(&name("caio")));
    assert_eq!(s.party.len(), 2);
    assert_eq!(s.party[0].username, "ana");
    assert_eq!(s.party[1].username, "caio");
    s.remove_player(&name("zeca"));
    assert_eq!(s.party.len(), 2);
    assert_eq!(s.add_player(&name("bia")), Ok(()));
}

#[test]
fn nothing_happens_before_the_game_starts() {
    let mut s = GameSession::new();
    s.add_player(&name("ana")).unwrap();
    s.load_scene(scene("a"));
    let r = s.update(answer("ana", "a"));
    assert_eq!(text_of(&r), ("continue", None));
    assert!(!s.has_started);
}

#[test]
fn prelude_scene_ignores_answers() {
    let mut s = GameSession::new();
    for p in ["ana", "bia", "caio"] {
        s.add_player(&name(p)).unwrap();
    }
    assert!(s.begin_game());
    let r = s.update(answer("ana", "a"));
    assert_eq!(text_of(&r), ("continue", None));
    assert!(s.update_is_defined(&answer("ana", "a")));
}

#[test]
fn other_events_carry_on() {
    let mut s = full_started_session("a");
    assert_eq!(text_of(&s.update(GameEvent::AdvanceTurn)), ("continue", None));
    assert_eq!(text_of(&s.update(GameEvent::PlayerJoined(name("ana")))), ("continue", None));
}

#[test]
fn round_won_by_majority_advances() {
    let mut s = full_started_session("b");
    let r = s.update(answer("ana", "  B \n"));
    assert_eq!(text_of(&r), ("continue", Some(name("  B \n"))));
    let r = s.update(answer("bia", "a"));
    assert_eq!(text_of(&r), ("continue", Some(name("a"))));
    let r = s.update(answer("caio", "b"));
    assert_eq!(
        text_of(&r),
        (
            "advance",
            Some(name("2 jogadores acertaram e 1 erraram! Vocês ainda têm 3 tentativa(s)! \nMuito bem."))
        )
    );
}

#[test]
fn round_lost_costs_a_life() {
    let mut s = full_started_session("c");
    s.update(answer("ana", "c"));
    s.update(answer("bia", "a"));
    let r = s.update(answer("caio", "d"));
    assert_eq!(
        text_of(&r),
        (
            "advance",
            Some(name("1 jogadores acertaram e 2 erraram! Vocês ainda têm 2 tentativa(s)! \nErrado."))
        )
    );
}

#[test]
fn answering_again_replaces_the_answer() {
    let mut s = full_started_session("a");
    s.update(answer("ana", "b"));
    let r = s.update(answer("ana", "a"));
    assert_eq!(text_of(&r), ("continue", Some(name("a"))));
    s.update(answer("bia", "a"));
    let r = s.update(answer("caio", "b"));
    assert_eq!(
        text_of(&r),
        (
            "advance",
            Some(name("2 jogadores acertaram e 1 erraram! Vocês ainda têm 3 tentativa(s)! \nMuito bem."))
        )
    );
}

#[test]
fn three_lost_rounds_end_the_game() {
    let mut s = full_started_session("a");
    for round in 0..3 {
        s.update(answer("ana", "b"));
        s.update(answer("bia", "b"));
        let r = s.update(answer("caio", "b"));
        if round < 2 {
            assert_eq!(text_of(&r).0, "advance");
        } else {
            assert_eq!(text_of(&r), ("over", Some(name("Errado."))));
        }
    }
}

#[test]
fn finishing_the_last_scene_ends_the_game() {
    let mut s = full_started_session("a");
    while s.next_scene().is_some() {}
    s.update(answer("ana", "a"));
    s.update(answer("bia", "a"));
    let r = s.update(answer("caio", "b"));
    assert_eq!(text_of(&r), ("end", Some(name("Muito bem."))));
}

#[test]
fn tie_counts_as_a_win() {
    let mut s = full_started_session("a");
    s.remove_player(&name("caio"));
    s.update(answer("ana", "a"));
    let r = s.update(answer("bia", "b"));
    assert_eq!(
        text_of(&r),
        (
            "advance",
            Some(name("1 jogadores acertaram e 1 erraram! Vocês ainda têm 3 tentativa(s)! \nMuito bem."))
        )
    );
}

#[test]
fn stale_answers_that_outnumber_the_party_are_refused() {
    let mut s = full_started_session("a");
    s.update(answer("ana", "a"));
    s.update(answer("bia", "a"));
    s.remove_player(&name("ana"));
    s.remove_player(&name("bia"));
    assert!(!s.update_is_defined(&answer("caio", "a")));
    assert!(!s.update_is_defined(&answer("caio", "b")));
}

#[test]
fn defined_on_ordinary_answers() {
    let s = full_started_session("a");
    assert!(s.update_is_defined(&answer("ana", "a")));
    assert!(s.update_is_defined(&GameEvent::AdvanceTurn));
}

#[test]
fn begin_game_only_once() {
    let mut s = GameSession::new();
    s.add_player(&name("ana")).unwrap();
    assert!(s.begin_game());
    assert!(s.has_started);
    let first = match &s.current_scene_state {
        GameSceneType::Prelude(t) => t.clone(),
        _ => panic!("prelude expected"),
    };
    assert!(first.starts_with("\nIniciando conexão com quantum.imd.ufrn.br..."));
    assert!(first.contains("STATUS DA SESSÃO: JOGADORES CONECTADOS: 1\n\nO chat de vocês"));
    assert!(first.ends_with("Boa sorte. Vocês vão precisar."));
    assert!(!s.begin_game());
    assert!(matches!(&s.current_scene_state, GameSceneType::Prelude(t) if *t == first));
}

#[test]
fn prelude_text_embeds_date_and_players() {
    let t = compose_prelude_text("05/03/2025 14:30", 3);
    assert!(t.contains("\nData Estelar: 05/03/2025 14:30\nStatus do Sistema: **CRÍTICO**\n"));
    assert!(t.contains("JOGADORES CONECTADOS: 3\n\nO chat"));
    assert!(t.starts_with("\nIniciando conexão"));
    let u = compose_prelude_text("", 12);
    assert!(u.contains("Data Estelar: \nStatus"));
    assert!(u.contains("CONECTADOS: 12\n"));
}

#[test]
fn get_prelude_text_counts_the_party() {
    let mut s = GameSession::new();
    s.add_player(&name("ana")).unwrap();
    s.add_player(&name("bia")).unwrap();
    let t = s.get_prelude_text();
    assert!(t.contains("JOGADORES CONECTADOS: 2\n"));
    assert!(t.contains("Data Estelar: "));
}

#[test]
fn current_scene_after_load() {
    let mut s = GameSession::new();
    s.load_scene(scene("d"));
    assert_eq!(s.current_scene().map(|c| c.options.id_correct.clone()), Some(name("d")));
    assert!(matches!(s.scene(), GameSceneType::Normal(_)));
    assert!(!s.is_started());
}

#[test]
fn sessions_get_distinct_identifiers() {
    let a = GameSession::new();
    let b = GameSession::new();
    assert_ne!(a.id, b.id);
}

#[test]
fn clone_copies_everything() {
    let mut s = full_started_session("a");
    s.update(answer("ana", "a"));
    let mut c = s.clone();
    assert_eq!(c.id, s.id);
    assert_eq!(c.party.len(), 3);
    assert!(c.has_started);
    c.update(answer("bia", "a"));
    let r = c.update(answer("caio", "a"));
    assert_eq!(text_of(&r).0, "advance");
    assert_eq!(s.next_scene(), c.next_scene());
}

#[test]
fn a_closed_round_starts_afresh() {
    let mut s = full_started_session("a");
    s.update(answer("ana", "a"));
    s.update(answer("bia", "a"));
    assert_eq!(text_of(&s.update(answer("caio", "a"))).0, "advance");
    assert_eq!(text_of(&s.update(answer("ana", "b"))), ("continue", Some(name("b"))));
    assert_eq!(text_of(&s.update(answer("bia", "b"))), ("continue", Some(name("b"))));
    assert_eq!(s.party.len(), 3);
    assert!(s.has_started);
    assert_eq!(s.next_scene(), Some(name("scene_2")));
}

#[test]
fn only_ascii_letters_fold_case() {
    let mut s = full_started_session("ä");
    s.update(answer("ana", "Ä"));
    s.update(answer("bia", "Ä"));
    let r = s.update(answer("caio", "ä"));
    assert_eq!(
        text_of(&r),
        (
            "advance",
            Some(name("1 jogadores acertaram e 2 erraram! Vocês ainda têm 2 tentativa(s)! \nErrado."))
        )
    );
}

#[test]
fn prelude_date_has_the_documented_shape() {
    let s = GameSession::new();
    let t = s.get_prelude_text();
    let start = t.find("Data Estelar: ").unwrap() + "Data Estelar: ".len();
    let date: Vec<char> = t[start..].chars().take_while(|c| *c != '\n').collect();
    assert_eq!(date.len(), 16);
    for (i, c) in date.iter().enumerate() {
        match i {
            2 | 5 => assert_eq!(*c, '/'),
            10 => assert_eq!(*c, ' '),
            13 => assert_eq!(*c, ':'),
            _ => assert!(c.is_ascii_digit()),
        }
    }
}

#[test]
fn session_ids_are_version_4_uuids() {
    for _ in 0..20 {
        let s = GameSession::new();
        let id = uuid::Uuid::from_u128(s.id);
        assert_eq!(id.get_version_num(), 4);
        assert_eq!(id.get_variant(), uuid::Variant::RFC4122);
        assert_eq!((s.id >> 76) & 0xf, 4);
        assert_eq!((s.id >> 62) & 0x3, 2);
    }
}

#[test]
fn members_answering_never_overflow() {
    let mut s = full_started_session("a");
    for _ in 0..4 {
        for p in ["ana", "bia", "caio"] {
            let e = answer(p, "b");
            assert!(s.update_is_defined(&e));
            s.update(e);
        }
    }
}
