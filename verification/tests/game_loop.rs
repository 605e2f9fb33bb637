use rustbreak::game_loop::{end_game, game_over, handle_game_event, LoopAction, GAME_OVER_TEXT};
use rustbreak::game_scene::{GameScene, GameSceneType, SceneOptions};
use rustbreak::game_session::{GameEvent, GameSession, UpdateResult};

fn name(s: &str) -> String {
    s.to_string()
}

fn scene() -> GameScene {
    GameScene {
        title: name("t"),
        description: name("d"),
        options: SceneOptions {
            a: name("1"),
            b: name("2"),
            c: name("3"),
            d: name("4"),
            id_correct: name("a"),
        },
        success_msg: name("ok!"),
        error_msg: name("no!"),
    }
}

fn describe(a: &LoopAction) -> String {
    match a {
        LoopAction::Announce(t) => format!("announce:{}", t),
        LoopAction::ReportStarted => "started".to_string(),
        LoopAction::EmitScene(GameSceneType::Prelude(_)) => "emit:prelude".to_string(),
        LoopAction::EmitScene(GameSceneType::Normal(_)) => "emit:normal".to_string(),
        LoopAction::LoadScene(n) => format!("load:{}", n),
        LoopAction::EmitSceneIfNormal => "emit-if-normal".to_string(),
        LoopAction::Notify(GameEvent::AdvanceTurn) => "notify:advance".to_string(),
        LoopAction::Notify(GameEvent::GameEnding(UpdateResult::GameOver(m))) => format!("notify:over:{}", m),
        LoopAction::Notify(GameEvent::GameEnding(UpdateResult::EndGame(m))) => format!("notify:end:{}", m),
        LoopAction::Notify(_) => "notify:other".to_string(),
        LoopAction::Pause(n) => format!("pause:{}", n),
        LoopAction::Shutdown => "shutdown".to_string(),
        LoopAction::CloseSession(r) => format!("close:{}", r),
    }
}

fn run(s: &mut GameSession, e: GameEvent) -> Vec<String> {
    assert!(s.update_is_defined(&e));
    handle_game_event(s, e).iter().map(describe).collect()
}

#[test]
fn joining_before_the_party_is_full_only_announces() {
    let mut s = GameSession::new();
    s.add_player(&name("ana")).unwrap();
    assert_eq!(run(&mut s, GameEvent::PlayerJoined(name("ana"))), vec!["announce:ana entrou no chat!"]);
    assert!(!s.has_started);
}

#[test]
fn the_third_player_starts_the_game() {
    let mut s = GameSession::new();
    for p in ["ana", "bia", "caio"] {
        s.add_player(&name(p)).unwrap();
    }
    assert_eq!(
        run(&mut s, GameEvent::PlayerJoined(name("caio"))),
        vec!["announce:caio entrou no chat!", "started", "emit:prelude", "load:scene_1", "emit-if-normal"]
    );
    assert!(s.has_started);
    assert_eq!(s.next_scene(), Some(name("scene_2")));
    assert_eq!(run(&mut s, GameEvent::PlayerJoined(name("caio"))), vec!["announce:caio entrou no chat!"]);
}

#[test]
fn answers_are_announced_and_rounds_advance() {
    let mut s = GameSession::new();
    for p in ["ana", "bia", "caio"] {
        s.add_player(&name(p)).unwrap();
    }
    run(&mut s, GameEvent::PlayerJoined(name("caio")));
    s.load_scene(scene());
    let answer = |u: &str, a: &str| GameEvent::PlayerAnswer { username: name(u), answer: name(a) };
    assert_eq!(run(&mut s, answer("ana", "a")), vec!["announce:ana escolheu a resposta a"]);
    assert_eq!(run(&mut s, answer("bia", "a")), vec!["announce:bia escolheu a resposta a"]);
    assert_eq!(
        run(&mut s, answer("caio", "c")),
        vec![
            "announce:2 jogadores acertaram e 1 erraram! Vocês ainda têm 3 tentativa(s)! \nok!",
            "notify:advance"
        ]
    );
    assert_eq!(run(&mut s, GameEvent::AdvanceTurn), vec!["load:scene_2", "emit-if-normal"]);
}

#[test]
fn advancing_without_scenes_only_reemits() {
    let mut s = GameSession::new();
    while s.next_scene().is_some() {}
    assert_eq!(run(&mut s, GameEvent::AdvanceTurn), vec!["emit-if-normal"]);
}

#[test]
fn losing_all_lives_notifies_game_over() {
    let mut s = GameSession::new();
    s.add_player(&name("ana")).unwrap();
    s.begin_game();
    s.load_scene(scene());
    let wrong = || GameEvent::PlayerAnswer { username: name("ana"), answer: name("b") };
    run(&mut s, wrong());
    run(&mut s, wrong());
    assert_eq!(run(&mut s, wrong()), vec!["notify:over:no!"]);
}

#[test]
fn endings_close_the_session() {
    let mut s = GameSession::new();
    assert_eq!(
        run(&mut s, GameEvent::GameEnding(UpdateResult::GameOver(name("no!")))),
        vec![
            "announce:no!".to_string(),
            "pause:2".to_string(),
            format!("announce:{}", GAME_OVER_TEXT),
            "shutdown".to_string(),
            "close:GameOver".to_string()
        ]
    );
    assert_eq!(
        run(&mut s, GameEvent::GameEnding(UpdateResult::EndGame(name("fim")))),
        vec!["announce:fim", "pause:5", "shutdown", "close:EndGame"]
    );
    assert!(run(&mut s, GameEvent::GameEnding(UpdateResult::Continue(None))).is_empty());
    assert!(run(&mut s, GameEvent::GameEnding(UpdateResult::Advance(name("x")))).is_empty());
}

#[test]
fn ending_sequences() {
    let e: Vec<String> = end_game(name("bye")).iter().map(describe).collect();
    assert_eq!(e, vec!["announce:bye", "pause:5", "shutdown"]);
    let o: Vec<String> = game_over(name("lost")).iter().map(describe).collect();
    assert_eq!(o.len(), 4);
    assert!(o[2].starts_with("announce:Andando pelos corredores do IMD"));
    assert!(o[2].ends_with("consertar este caos."));
}
