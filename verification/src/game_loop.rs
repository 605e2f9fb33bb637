//! The decisions of a session's game loop: for each game event, how the
//! session changes and what the server has to do about it.
use vstd::prelude::*;
use vstd::string::*;
use crate::game_scene::GameSceneType;
use crate::game_session::{
    GameEvent, GameEventView, GameSession, SessionView, UpdateResult, UpdateResultView,
    MAX_PLAYERS_PER_SESSION, is_prelude_text,
};
use crate::protocol::{choice_announcement, choice_text, join_announcement, join_text};

verus! {

/// Seconds the server waits between the last message and the shutdown of a
/// game that ended normally.
pub const END_GAME_PAUSE_SECS: u64 = 5;

/// Seconds the server waits before the closing words of a lost game.
pub const GAME_OVER_PAUSE_SECS: u64 = 2;

/// The closing words of a lost game.
pub const GAME_OVER_TEXT: &'static str = "Andando pelos corredores do IMD, vocês recebem uma notificação no terminal. Quando o abrem, leem a seguinte mensagem: \n 'Caros ajudantes, vocês se provaram ineficientes para a tarefa a qual lhes foi passada. Infelizmente, lhes falta conhecimento do nosso sistema para que consigam nos ajudar. Desejo que prosperem no seu desenvolvimento enquanto programadores e em outra vida sejam capazes de me ajudar. \nCrab Guardian'. Vocês saem cabisbaixos pela entrada do IMD sabendo que falharam na missão, esperando que outras pessoas mais experientes sejam capazes de consertar este caos.";

/// Something the server does for the game loop of a session.
pub enum LoopAction {
    /// Broadcast a notification from the server with this text.
    Announce(String),
    /// Log that the session started.
    ReportStarted,
    /// Broadcast this scene.
    EmitScene(GameSceneType),
    /// Load the scene of this name and show it in the session when it loads.
    LoadScene(String),
    /// Broadcast the scene the session shows, if it is a question scene.
    EmitSceneIfNormal,
    /// Queue this event for the game loop.
    Notify(GameEvent),
    /// Wait this many seconds.
    Pause(u64),
    /// Broadcast the shutdown signal.
    Shutdown,
    /// Remove the session from the server and end its game loop; the text says
    /// how the game ended.
    CloseSession(String),
}

/// `LoopAction` with its texts as character sequences.
pub enum LoopActionView {
    Announce(Seq<char>),
    ReportStarted,
    EmitScene(GameSceneType),
    LoadScene(Seq<char>),
    EmitSceneIfNormal,
    Notify(GameEventView),
    Pause(u64),
    Shutdown,
    CloseSession(Seq<char>),
}

impl View for LoopAction {
    type V = LoopActionView;

    open spec fn view(&self) -> LoopActionView {
        match self {
            LoopAction::Announce(s) => LoopActionView::Announce(s@),
            LoopAction::ReportStarted => LoopActionView::ReportStarted,
            LoopAction::EmitScene(s) => LoopActionView::EmitScene(*s),
            LoopAction::LoadScene(s) => LoopActionView::LoadScene(s@),
            LoopAction::EmitSceneIfNormal => LoopActionView::EmitSceneIfNormal,
            LoopAction::Notify(e) => LoopActionView::Notify(e@),
            LoopAction::Pause(n) => LoopActionView::Pause(*n),
            LoopAction::Shutdown => LoopActionView::Shutdown,
            LoopAction::CloseSession(s) => LoopActionView::CloseSession(s@),
        }
    }
}

/// A list of actions as views.
pub open spec fn actions_view(actions: Seq<LoopAction>) -> Seq<LoopActionView> {
    actions.map_values(|a: LoopAction| a@)
}

/// The actions that end a game the party won or finished.
pub open spec fn end_game_steps(msg: Seq<char>) -> Seq<LoopActionView> {
    seq![
        LoopActionView::Announce(msg),
        LoopActionView::Pause(END_GAME_PAUSE_SECS),
        LoopActionView::Shutdown,
    ]
}

/// The actions that end a game the party lost.
pub open spec fn game_over_steps(msg: Seq<char>) -> Seq<LoopActionView> {
    seq![
        LoopActionView::Announce(msg),
        LoopActionView::Pause(GAME_OVER_PAUSE_SECS),
        LoopActionView::Announce(GAME_OVER_TEXT@),
        LoopActionView::Shutdown,
    ]
}

/// Taking the next scene off the queue of `s`: the session after it, and the
/// actions that load the scene and show what the session then shows.
pub open spec fn advance_steps(s: SessionView) -> (SessionView, Seq<LoopActionView>) {
    if s.remaining_scenes.len() > 0 {
        (
            s.scene_taken(),
            seq![
                LoopActionView::LoadScene(s.remaining_scenes[0]),
                LoopActionView::EmitSceneIfNormal,
            ],
        )
    } else {
        (s, seq![LoopActionView::EmitSceneIfNormal])
    }
}

/// The session fills up with this joining player and has not started.
pub open spec fn starts_game(s: SessionView, e: GameEventView) -> bool {
    e is PlayerJoined && s.party.len() == MAX_PLAYERS_PER_SESSION && !s.has_started
}

/// What the actions reporting an update result are.
pub open spec fn result_steps(username: Seq<char>, r: UpdateResultView) -> Seq<LoopActionView> {
    match r {
        UpdateResultView::Advance(feedback) => seq![
            LoopActionView::Announce(feedback),
            LoopActionView::Notify(GameEventView::AdvanceTurn),
        ],
        UpdateResultView::Continue(Some(answer)) => seq![
            LoopActionView::Announce(choice_text(username, answer)),
        ],
        UpdateResultView::Continue(None) => seq![],
        UpdateResultView::GameOver(msg) => seq![
            LoopActionView::Notify(GameEventView::GameEnding(UpdateResultView::GameOver(msg))),
        ],
        UpdateResultView::EndGame(msg) => seq![
            LoopActionView::Notify(GameEventView::GameEnding(UpdateResultView::EndGame(msg))),
        ],
    }
}

/// One step of the game loop of session `s` on event `e`: the session after
/// it and the actions for the server. `shown` is the prelude the session shows
/// once a joining player starts the game.
pub open spec fn game_step(s: SessionView, e: GameEventView, shown: GameSceneType) -> (
    SessionView,
    Seq<LoopActionView>,
) {
    match e {
        GameEventView::PlayerJoined(player) => {
            let announce = seq![LoopActionView::Announce(join_text(player))];
            if starts_game(s, e) {
                let started = s.started_with(shown);
                let (after, steps) = advance_steps(started);
                (
                    after,
                    announce + seq![LoopActionView::ReportStarted, LoopActionView::EmitScene(shown)]
                        + steps,
                )
            } else {
                (s, announce)
            }
        },
        GameEventView::PlayerAnswer { username, answer } => {
            let (next, r) = s.update(e);
            (next, result_steps(username, r))
        },
        GameEventView::AdvanceTurn => advance_steps(s),
        GameEventView::GameEnding(UpdateResultView::GameOver(msg)) => (
            s,
            game_over_steps(msg) + seq![LoopActionView::CloseSession("GameOver"@)],
        ),
        GameEventView::GameEnding(UpdateResultView::EndGame(msg)) => (
            s,
            end_game_steps(msg) + seq![LoopActionView::CloseSession("EndGame"@)],
        ),
        GameEventView::GameEnding(_) => (s, seq![]),
    }
}

/// The actions that end a game the party won or finished, announcing `msg`.
pub fn end_game(msg: String) -> (actions: Vec<LoopAction>)
    ensures
        actions_view(actions@) == end_game_steps(msg@),
{
    let mut actions = Vec::new();
    actions.push(LoopAction::Announce(msg));
    actions.push(LoopAction::Pause(END_GAME_PAUSE_SECS));
    actions.push(LoopAction::Shutdown);
    proof {
        assert(actions_view(actions@) =~= end_game_steps(msg@));
    }
    actions
}

/// The actions that end a game the party lost, announcing `msg`.
pub fn game_over(msg: String) -> (actions: Vec<LoopAction>)
    ensures
        actions_view(actions@) == game_over_steps(msg@),
{
    let mut actions = Vec::new();
    actions.push(LoopAction::Announce(msg));
    actions.push(LoopAction::Pause(GAME_OVER_PAUSE_SECS));
    actions.push(LoopAction::Announce(String::from_str(GAME_OVER_TEXT)));
    actions.push(LoopAction::Shutdown);
    proof {
        assert(actions_view(actions@) =~= game_over_steps(msg@));
    }
    actions
}

/// Takes the next scene off the queue and appends the actions that load it
/// and show what the session then shows.
fn advance(session: &mut GameSession, actions: &mut Vec<LoopAction>)
    requires
        old(session).wf(),
    ensures
        final(session).wf(),
        final(session)@ == advance_steps(old(session)@).0,
        actions_view(final(actions)@) == actions_view(old(actions)@) + advance_steps(
            old(session)@,
        ).1,
{
    let ghost before = actions@;
    match session.next_scene() {
        Some(name) => {
            actions.push(LoopAction::LoadScene(name));
        },
        None => {},
    }
    actions.push(LoopAction::EmitSceneIfNormal);
    proof {
        assert(actions_view(actions@) =~= actions_view(before) + advance_steps(old(session)@).1);
    }
}

/// One step of the game loop: how `session` takes `event`, and what the server
/// has to do about it, in order.
pub fn handle_game_event(session: &mut GameSession, event: GameEvent) -> (actions: Vec<LoopAction>)
    requires
        old(session).wf(),
        old(session)@.update_defined(event@),
    ensures
        final(session).wf(),
        (final(session)@, actions_view(actions@)) == game_step(
            old(session)@,
            event@,
            final(session)@.scene,
        ),
        starts_game(old(session)@, event@) ==> (final(session)@.scene matches GameSceneType::Prelude(t)
            && is_prelude_text(t@, old(session)@.party.len())),
{
    let mut actions: Vec<LoopAction> = Vec::new();
    let ghost s0 = session@;
    let ghost e = event@;
    match event {
        GameEvent::PlayerJoined(player) => {
            actions.push(LoopAction::Announce(join_announcement(player.as_str())));
            if session.party_size() == MAX_PLAYERS_PER_SESSION && !session.is_started() {
                session.begin_game();
                actions.push(LoopAction::ReportStarted);
                let ghost started = session@;
                match session.scene() {
                    GameSceneType::Prelude(_) => {
                        actions.push(LoopAction::EmitScene(session.scene().clone()));
                        advance(session, &mut actions);
                    },
                    _ => {},
                }
                proof {
                    assert(actions_view(actions@) =~= seq![
                        LoopActionView::Announce(join_text(player@)),
                        LoopActionView::ReportStarted,
                        LoopActionView::EmitScene(started.scene),
                    ] + advance_steps(started).1);
                }
            } else {
                proof {
                    assert(actions_view(actions@) =~= seq![
                        LoopActionView::Announce(join_text(player@)),
                    ]);
                }
            }
        },
        GameEvent::PlayerAnswer { username, answer } => {
            let name = username.clone();
            let result = session.update(GameEvent::PlayerAnswer { username, answer });
            match result {
                UpdateResult::Advance(feedback) => {
                    actions.push(LoopAction::Announce(feedback));
                    actions.push(LoopAction::Notify(GameEvent::AdvanceTurn));
                },
                UpdateResult::Continue(Some(chosen)) => {
                    actions.push(
                        LoopAction::Announce(choice_announcement(name.as_str(), chosen.as_str())),
                    );
                },
                UpdateResult::Continue(None) => {},
                UpdateResult::GameOver(msg) => {
                    actions.push(
                        LoopAction::Notify(GameEvent::GameEnding(UpdateResult::GameOver(msg))),
                    );
                },
                UpdateResult::EndGame(msg) => {
                    actions.push(
                        LoopAction::Notify(GameEvent::GameEnding(UpdateResult::EndGame(msg))),
                    );
                },
            }
            proof {
                assert(actions_view(actions@) =~= game_step(s0, e, session@.scene).1);
            }
        },
        GameEvent::AdvanceTurn => {
            advance(session, &mut actions);
            proof {
                assert(actions_view(actions@) =~= advance_steps(s0).1);
            }
        },
        GameEvent::GameEnding(result) => {
            match result {
                UpdateResult::GameOver(msg) => {
                    actions = game_over(msg);
                    actions.push(LoopAction::CloseSession(String::from_str("GameOver")));
                },
                UpdateResult::EndGame(msg) => {
                    actions = end_game(msg);
                    actions.push(LoopAction::CloseSession(String::from_str("EndGame")));
                },
                _ => {},
            }
            proof {
                assert(actions_view(actions@) =~= game_step(s0, e, session@.scene).1);
            }
        },
    }
    actions
}

} // verus!
