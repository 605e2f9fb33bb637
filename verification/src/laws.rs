//! Properties of sessions that span several operations.
use vstd::prelude::*;
use crate::game_loop::{game_step, LoopActionView};
use crate::protocol::{
    choice_text, classify, first_available, invalid_answer_text, join_text, leave_text,
    ClientCommandView, ANSWER_COMMAND,
};
use crate::text::{ascii_fold, decimal, trim_spec, unicode_lowercase};
use crate::game_loop::GAME_OVER_TEXT;
use crate::game_scene::GameSceneType;
use crate::game_scene::GameScene;
use crate::game_session::{
    scene_order, party_full_text, answer_is_correct, round_summary,
    SessionView, GameEventView, UpdateResultView, MAX_PLAYERS_PER_SESSION, already_registered_text,
    answer_keys, count_correct, lemma_filter_no_duplicates,
    lemma_recorded_keys, not_named, record_answer,
};

verus! {

/// A player who was admitted is in the party, which grew by one and stays
/// within `MAX_PLAYERS_PER_SESSION`.
pub proof fn law_admitted_player_is_member(s: SessionView, name: Seq<char>)
    requires
        s.wf(),
        s.registration_error(name) is None,
    ensures
        s.with_player(name).party.contains(name),
        s.with_player(name).party.len() == s.party.len() + 1,
        s.with_player(name).wf(),
{
    assert(s.with_player(name).party[s.party.len() as int] == name);
}

/// Once admitted, a name is refused a second time as already registered.
pub proof fn law_no_second_registration(s: SessionView, name: Seq<char>)
    requires
        s.wf(),
        s.registration_error(name) is None,
    ensures
        s.with_player(name).registration_error(name) == Some(already_registered_text(name)),
{
    law_admitted_player_is_member(s, name);
}

/// A player who left is no longer in the party, and every other player stays.
pub proof fn law_removed_player_is_gone(s: SessionView, name: Seq<char>)
    requires
        s.wf(),
    ensures
        !s.without_player(name).party.contains(name),
        forall|other: Seq<char>|
            other != name ==> (#[trigger] s.without_player(name).party.contains(other)
                <==> s.party.contains(other)),
        s.without_player(name).wf(),
{
    let keep = not_named(name);
    if s.without_player(name).party.contains(name) {
        s.party.lemma_filter_contains_rev(keep, name);
    }
    assert forall|other: Seq<char>|
        other != name implies (#[trigger] s.without_player(name).party.contains(other)
            <==> s.party.contains(other)) by {
        if s.without_player(name).party.contains(other) {
            s.party.lemma_filter_contains_rev(keep, other);
        }
        if s.party.contains(other) {
            let i = choose|i: int| 0 <= i < s.party.len() && s.party[i] == other;
            assert(keep(s.party[i]));
        }
    }
    lemma_filter_no_duplicates(s.party, keep);
    s.party.lemma_filter_len(keep);
}

/// Before the game starts, no event changes the session, and the answer is
/// always to carry on.
pub proof fn law_nothing_happens_before_start(s: SessionView, e: GameEventView)
    requires
        !s.has_started,
    ensures
        s.update(e) == (s, UpdateResultView::Continue(None)),
{
}

/// `update` changes only the answers and the lives: never the party, the
/// scenes, the identifier, or whether the game has started.
pub proof fn law_update_keeps_the_rest(s: SessionView, e: GameEventView)
    ensures
        s.update(e).0.id == s.id,
        s.update(e).0.scene == s.scene,
        s.update(e).0.party == s.party,
        s.update(e).0.has_started == s.has_started,
        s.update(e).0.remaining_scenes == s.remaining_scenes,
{
}

/// A round costs at most one life, and lives are never regained.
pub proof fn law_at_most_one_life_per_update(s: SessionView, e: GameEventView)
    ensures
        s.update(e).0.remaining_answers == s.remaining_answers || s.update(e).0.remaining_answers
            == s.remaining_answers - 1,
{
}

/// Whenever `update` reports something other than carrying on, the round is
/// over: every answer is cleared. The game is over exactly when the party has
/// no life left after the round.
pub proof fn law_round_end_clears_answers(s: SessionView, e: GameEventView)
    requires
        s.update(e).1 !is Continue,
    ensures
        s.update(e).0.answers == Seq::<(Seq<char>, bool)>::empty(),
        (s.update(e).1 is GameOver) <==> s.update(e).0.remaining_answers <= 0,
{
}

/// A round is lost, and costs a life, exactly when the right answers are fewer
/// than the wrong ones.
pub proof fn law_majority_decides(s: SessionView, e: GameEventView)
    requires
        s.update(e).1 !is Continue,
    ensures
        ({
            let answers = match e {
                GameEventView::PlayerAnswer { username, answer } => record_answer(
                    s.answers,
                    username,
                    crate::game_session::answer_is_correct(
                        answer,
                        s.scene->Normal_0.options.id_correct@,
                    ),
                ),
                _ => s.answers,
            };
            let correct = count_correct(answers);
            (s.update(e).0.remaining_answers == s.remaining_answers - 1) <==> correct < s.party.len()
                - correct
        }),
{
}

/// `update` keeps the invariant of a session: recorded answers stay at most
/// one per name.
pub proof fn law_update_keeps_invariant(s: SessionView, e: GameEventView)
    requires
        s.wf(),
    ensures
        s.update(e).0.wf(),
{
    match e {
        GameEventView::PlayerAnswer { username, answer } => {
            if s.has_started && s.scene is Normal {
                let c = crate::game_session::answer_is_correct(
                    answer,
                    s.scene->Normal_0.options.id_correct@,
                );
                lemma_recorded_keys(s.answers, username, c);
                assert(answer_keys(Seq::<(Seq<char>, bool)>::empty()) =~= Seq::<Seq<char>>::empty());
            }
        },
        _ => {},
    }
}

/// `k` calls of `next_scene` take the first `k` names off the queue, or all
/// of them when there are fewer, and change nothing else.
pub proof fn law_scene_calls_take_the_queue(s: SessionView, k: nat)
    ensures
        s.after_scene_calls(k) == (SessionView {
            remaining_scenes: s.remaining_scenes.skip(
                if k <= s.remaining_scenes.len() {
                    k as int
                } else {
                    s.remaining_scenes.len() as int
                },
            ),
            ..s
        }),
    decreases k,
{
    if k == 0 {
        assert(s.remaining_scenes.skip(0) =~= s.remaining_scenes);
    } else {
        law_scene_calls_take_the_queue(s, (k - 1) as nat);
        let len = s.remaining_scenes.len();
        let m: int = if k - 1 <= len {
            k - 1
        } else {
            len as int
        };
        let prev = s.after_scene_calls((k - 1) as nat);
        if m < len {
            assert(prev.remaining_scenes.drop_first() =~= s.remaining_scenes.skip(m + 1));
        }
    }
}

/// A new session plays its scenes in `scene_order()`: after `k` calls of
/// `next_scene`, the next call gives the scene at position `k`, and once the
/// eight scenes are taken, a call gives nothing and changes nothing.
pub proof fn law_scenes_in_order(s: SessionView, k: nat)
    requires
        s.remaining_scenes == scene_order(),
    ensures
        k < scene_order().len() ==> s.after_scene_calls(k).next_scene_name() == Some(
            scene_order()[k as int],
        ),
        k >= scene_order().len() ==> s.after_scene_calls(k).next_scene_name() is None,
        k >= scene_order().len() ==> s.after_scene_calls(k).after_next_scene() == s.after_scene_calls(
            k,
        ),
{
    law_scene_calls_take_the_queue(s, k);
}

/// An answer that closes a won or survived round is announced, and then the
/// queued turn advance takes exactly one scene name off the queue, which is
/// never empty at that point.
pub proof fn law_advance_takes_one_scene(s: SessionView, e: GameEventView, shown: GameSceneType)
    requires
        s.update(e).1 is Advance,
    ensures
        game_step(s, e, shown).1 == seq![
            LoopActionView::Announce(s.update(e).1->Advance_0),
            LoopActionView::Notify(GameEventView::AdvanceTurn),
        ],
        game_step(s, e, shown).0.remaining_scenes.len() > 0,
        ({
            let next = game_step(s, e, shown).0;
            game_step(next, GameEventView::AdvanceTurn, shown) == (
                next.after_next_scene(),
                seq![
                    LoopActionView::LoadScene(next.remaining_scenes[0]),
                    LoopActionView::EmitSceneIfNormal,
                ],
            )
        }),
{
}

/// A list of distinct names all found in `names` is no longer than `names`.
pub proof fn lemma_distinct_within(a: Seq<Seq<char>>, names: Seq<Seq<char>>)
    requires
        a.no_duplicates(),
        forall|x: Seq<char>| a.contains(x) ==> names.contains(x),
    ensures
        a.len() <= names.len(),
{
    a.unique_seq_to_set();
    names.lemma_cardinality_of_set();
    vstd::seq_lib::seq_to_set_is_finite(names);
    assert(a.to_set().subset_of(names.to_set()));
    vstd::set_lib::lemma_len_subset(a.to_set(), names.to_set());
}

/// No more answers are right than there are answers.
pub proof fn lemma_count_correct_bound(answers: Seq<(Seq<char>, bool)>)
    ensures
        count_correct(answers) <= answers.len(),
    decreases answers.len(),
{
    if answers.len() > 0 {
        lemma_count_correct_bound(answers.drop_last());
    }
}

/// `update` is defined on an answer whenever the answering player and every
/// player who answered before are in the party, and the lives are above
/// `i8::MIN`: the overflows of the round judgement need answers from players
/// who left.
pub proof fn law_members_answers_are_defined(s: SessionView, e: GameEventView)
    requires
        s.wf(),
        s.remaining_answers > i8::MIN,
        forall|k: Seq<char>| answer_keys(s.answers).contains(k) ==> s.party.contains(k),
        e is PlayerAnswer ==> s.party.contains(e->username),
    ensures
        s.update_defined(e),
{
    match e {
        GameEventView::PlayerAnswer { username, answer } => {
            match s.scene {
                GameSceneType::Normal(scene) => {
                    let c = crate::game_session::answer_is_correct(
                        answer,
                        scene.options.id_correct@,
                    );
                    let rec = record_answer(s.answers, username, c);
                    lemma_recorded_keys(s.answers, username, c);
                    if answer_keys(s.answers).contains(username) {
                        assert(answer_keys(rec) =~= answer_keys(s.answers));
                    } else {
                        assert(answer_keys(rec) =~= answer_keys(s.answers).push(username));
                        assert forall|x: Seq<char>| answer_keys(rec).contains(x) implies s.party.contains(x) by {
                            let i = choose|i: int| 0 <= i < answer_keys(rec).len() && answer_keys(rec)[i] == x;
                            if i < answer_keys(s.answers).len() {
                                assert(answer_keys(s.answers)[i] == x);
                            }
                        }
                    }
                    lemma_distinct_within(answer_keys(rec), s.party);
                    lemma_count_correct_bound(rec);
                },
                _ => {},
            }
        },
        _ => {},
    }
}

/// Registration depends only on the name and the size of the party: a name not
/// yet in the party is admitted whenever the party has fewer than
/// `MAX_PLAYERS_PER_SESSION` players, whether or not the game has started; a
/// name already in it is refused as registered, and any other name is refused
/// as the party being full.
pub proof fn law_registration_by_size(s: SessionView, name: Seq<char>)
    ensures
        !s.party.contains(name) && s.party.len() < MAX_PLAYERS_PER_SESSION ==> s.registration_error(
            name,
        ) is None,
        s.party.contains(name) ==> s.registration_error(name) == Some(already_registered_text(name)),
        !s.party.contains(name) && s.party.len() >= MAX_PLAYERS_PER_SESSION ==> s.registration_error(
            name,
        ) == Some(party_full_text(name)),
        s.registration_error(name) is None ==> s.with_player(name).party == s.party.push(name)
            && s.with_player(name).has_started == s.has_started,
{
}

/// How an answer that closes a round ends it, in terms of the right answers
/// `c` and the wrong ones `w` (the party size less `c`): the round is won when
/// `c >= w` and otherwise costs a life; with no life left the game is over
/// with the scene's error message; on the last scene the game ends with the
/// scene's success message after a won round and its error message after a
/// lost one; otherwise the game advances with the round's report and that
/// same message. Every answer is cleared.
pub proof fn law_round_outcome(s: SessionView, scene: GameScene, username: Seq<char>, answer: Seq<char>)
    requires
        s.has_started,
        s.scene == GameSceneType::Normal(scene),
        record_answer(
            s.answers,
            username,
            answer_is_correct(answer, scene.options.id_correct@),
        ).len() >= s.party.len(),
    ensures
        ({
            let e = GameEventView::PlayerAnswer { username, answer };
            let rec = record_answer(
                s.answers,
                username,
                answer_is_correct(answer, scene.options.id_correct@),
            );
            let c = count_correct(rec);
            let w = s.party.len() - c;
            let lives = if c >= w {
                s.remaining_answers
            } else {
                s.remaining_answers - 1
            };
            let message = if c >= w {
                scene.success_msg@
            } else {
                scene.error_msg@
            };
            let (next, r) = s.update(e);
            &&& next.remaining_answers == lives
            &&& next.answers == Seq::<(Seq<char>, bool)>::empty()
            &&& lives <= 0 ==> r == UpdateResultView::GameOver(scene.error_msg@)
            &&& lives > 0 && s.remaining_scenes.len() == 0 ==> r == UpdateResultView::EndGame(message)
            &&& lives > 0 && s.remaining_scenes.len() > 0 ==> r == UpdateResultView::Advance(
                round_summary(c, w as nat, lives as nat) + message,
            )
        }),
{
}

/// An answer that does not close the round is recorded and echoed back.
pub proof fn law_open_round_continues(s: SessionView, scene: GameScene, username: Seq<char>, answer: Seq<char>)
    requires
        s.has_started,
        s.scene == GameSceneType::Normal(scene),
        record_answer(
            s.answers,
            username,
            answer_is_correct(answer, scene.options.id_correct@),
        ).len() < s.party.len(),
    ensures
        s.update(GameEventView::PlayerAnswer { username, answer }) == (
            SessionView {
                answers: record_answer(
                    s.answers,
                    username,
                    answer_is_correct(answer, scene.options.id_correct@),
                ),
                ..s
            },
            UpdateResultView::Continue(Some(answer)),
        ),
{
}

/// A joining player starts the game only when the party holds exactly
/// `MAX_PLAYERS_PER_SESSION` players and the game has not started: then the
/// session is marked started and shows the prelude, and the actions announce
/// the player, report the start, show the prelude, and end by showing the
/// scene. Otherwise the session is unchanged and the only action is the
/// announcement.
pub proof fn law_join_starts_only_a_full_party(s: SessionView, player: Seq<char>, shown: GameSceneType)
    ensures
        ({
            let (next, acts) = game_step(s, GameEventView::PlayerJoined(player), shown);
            s.party.len() != MAX_PLAYERS_PER_SESSION || s.has_started ==> next == s && acts == seq![
                LoopActionView::Announce(join_text(player)),
            ]
        }),
        ({
            let (next, acts) = game_step(s, GameEventView::PlayerJoined(player), shown);
            s.party.len() == MAX_PLAYERS_PER_SESSION && !s.has_started ==> {
                &&& next.has_started
                &&& next.scene == shown
                &&& next.party == s.party
                &&& next.answers == s.answers
                &&& next.remaining_answers == s.remaining_answers
                &&& acts.len() >= 4
                &&& acts[0] == LoopActionView::Announce(join_text(player))
                &&& acts[1] == LoopActionView::ReportStarted
                &&& acts[2] == LoopActionView::EmitScene(shown)
                &&& acts.last() == LoopActionView::EmitSceneIfNormal
            }
        }),
{
}

/// A line whose content, without surrounding whitespace, does not start with
/// `ANSWER_COMMAND` is a chat message carrying that content, never an answer.
pub proof fn law_other_lines_are_chat(line: Seq<char>)
    ensures
        ({
            let content = trim_spec(line);
            !(ANSWER_COMMAND@.len() <= content.len() && content.subrange(
                0,
                ANSWER_COMMAND@.len() as int,
            ) == ANSWER_COMMAND@) ==> classify(line) == ClientCommandView::Chat(content)
        }),
{
}

/// A line that starts with `ANSWER_COMMAND` is never a chat message.
pub proof fn law_answer_lines_are_not_chat(line: Seq<char>)
    ensures
        ({
            let content = trim_spec(line);
            ANSWER_COMMAND@.len() <= content.len() && content.subrange(0, ANSWER_COMMAND@.len() as int)
                == ANSWER_COMMAND@ ==> !(classify(line) is Chat)
        }),
{
}

/// Some session before position `i` has room, or `i` is the first that has.
proof fn lemma_first_with_room(sizes: Seq<usize>, i: int)
    requires
        0 <= i < sizes.len(),
        sizes[i] < MAX_PLAYERS_PER_SESSION,
    ensures
        exists|k: int|
            0 <= k <= i && #[trigger] sizes[k] < MAX_PLAYERS_PER_SESSION && forall|j: int|
                0 <= j < k ==> sizes[j] >= MAX_PLAYERS_PER_SESSION,
    decreases i,
{
    if exists|j: int| 0 <= j < i && #[trigger] sizes[j] < MAX_PLAYERS_PER_SESSION {
        let j = choose|j: int| 0 <= j < i && #[trigger] sizes[j] < MAX_PLAYERS_PER_SESSION;
        lemma_first_with_room(sizes, j);
    } else {
        assert(sizes[i] < MAX_PLAYERS_PER_SESSION);
    }
}

/// A new player joins the first session with room, however many sessions
/// there are: the answer is none only when every session is full, and
/// otherwise a session with room before which every session is full. (The
/// list is that of a `Vec`, so its length fits a `usize`.)
pub proof fn law_first_session_with_room(sizes: Seq<usize>)
    requires
        sizes.len() <= usize::MAX,
    ensures
        first_available(sizes) is None <==> forall|i: int|
            0 <= i < sizes.len() ==> #[trigger] sizes[i] >= MAX_PLAYERS_PER_SESSION,
        first_available(sizes) matches Some(i) ==> {
            &&& i < sizes.len()
            &&& sizes[i as int] < MAX_PLAYERS_PER_SESSION
            &&& forall|j: int| 0 <= j < i ==> sizes[j] >= MAX_PLAYERS_PER_SESSION
        },
{
    if exists|i: int| 0 <= i < sizes.len() && #[trigger] sizes[i] < MAX_PLAYERS_PER_SESSION {
        let i = choose|i: int| 0 <= i < sizes.len() && #[trigger] sizes[i] < MAX_PLAYERS_PER_SESSION;
        lemma_first_with_room(sizes, i);
        let k = choose|k: int|
            0 <= k <= i && #[trigger] sizes[k] < MAX_PLAYERS_PER_SESSION && forall|j: int|
                0 <= j < k ==> sizes[j] >= MAX_PLAYERS_PER_SESSION;
        assert(0 <= k < sizes.len() && sizes[k] < MAX_PLAYERS_PER_SESSION && forall|j: int|
            0 <= j < k ==> sizes[j] >= MAX_PLAYERS_PER_SESSION);
        let f = choose|f: int|
            0 <= f < sizes.len() && #[trigger] sizes[f] < MAX_PLAYERS_PER_SESSION && forall|j: int|
                0 <= j < f ==> sizes[j] >= MAX_PLAYERS_PER_SESSION;
        assert(first_available(sizes) == Some(f as usize));
        assert((f as usize) as int == f);
    }
}

/// The texts the library writes, as the players read them.
pub proof fn law_texts(name: Seq<char>, answer: Seq<char>, c: nat, w: nat, lives: nat)
    ensures
        already_registered_text(name) == "Player já registrado: "@ + name,
        party_full_text(name) == "Party já está cheia: "@ + name,
        join_text(name) == name + " entrou no chat!"@,
        leave_text(name) == name + " deixou o chat!"@,
        choice_text(name, answer) == name + " escolheu a resposta "@ + answer,
        invalid_answer_text(answer) == "Alternativa '"@ + answer
            + "' inválida! Por favor responda com A, B, C ou D."@,
        round_summary(c, w, lives) == decimal(c) + " jogadores acertaram e "@ + decimal(w)
            + " erraram! Vocês ainda têm "@ + decimal(lives) + " tentativa(s)! \n"@,
{
}

/// An answer is right exactly when, once surrounding whitespace is removed,
/// it has as many characters as the right alternative and each character
/// matches it up to the case of ASCII letters.
pub proof fn law_answer_correctness(answer: Seq<char>, id_correct: Seq<char>)
    ensures
        answer_is_correct(answer, id_correct) <==> {
            let t = trim_spec(answer);
            &&& t.len() == id_correct.len()
            &&& forall|i: int| 0 <= i < t.len() ==> ascii_fold(#[trigger] t[i]) == ascii_fold(
                id_correct[i],
            )
        },
{
}

/// Recording an answer: afterwards the player has exactly one answer, with
/// the flag given; every other player's answer stays; no other name appears;
/// the list grows by one exactly when the player had not answered.
pub proof fn law_record_answer(answers: Seq<(Seq<char>, bool)>, user: Seq<char>, correct: bool)
    requires
        answer_keys(answers).no_duplicates(),
    ensures
        ({
            let rec = record_answer(answers, user, correct);
            &&& answer_keys(rec).no_duplicates()
            &&& exists|i: int| 0 <= i < rec.len() && #[trigger] rec[i] == (user, correct)
            &&& forall|i: int| 0 <= i < answers.len() && answers[i].0 != user ==> rec.contains(
                #[trigger] answers[i],
            )
            &&& forall|i: int| 0 <= i < rec.len() && rec[i].0 != user ==> answers.contains(
                #[trigger] rec[i],
            )
            &&& rec.len() == answers.len() + if answer_keys(answers).contains(user) {
                0int
            } else {
                1int
            }
        }),
{
    let rec = record_answer(answers, user, correct);
    lemma_recorded_keys(answers, user, correct);
    if answer_keys(answers).contains(user) {
        let j = choose|j: int| 0 <= j < answer_keys(answers).len() && answer_keys(answers)[j] == user;
        assert(rec[j] == (user, correct));
        assert forall|i: int| 0 <= i < answers.len() && answers[i].0 != user implies rec.contains(
            #[trigger] answers[i],
        ) by {
            assert(rec[i] == answers[i]);
        }
        assert forall|i: int| 0 <= i < rec.len() && rec[i].0 != user implies answers.contains(
            #[trigger] rec[i],
        ) by {
            assert(rec[i] == answers[i]);
        }
    } else {
        assert(rec[answers.len() as int] == (user, correct));
        assert forall|i: int| 0 <= i < answers.len() && answers[i].0 != user implies rec.contains(
            #[trigger] answers[i],
        ) by {
            assert(rec[i] == answers[i]);
        }
        assert forall|i: int| 0 <= i < rec.len() && rec[i].0 != user implies answers.contains(
            #[trigger] rec[i],
        ) by {
            assert(rec[i] == answers[i]);
        }
    }
}

/// Counting the right answers: none in an empty list, and each answer adds
/// one exactly when it is right.
pub proof fn law_count_correct(answers: Seq<(Seq<char>, bool)>, e: (Seq<char>, bool))
    ensures
        count_correct(Seq::<(Seq<char>, bool)>::empty()) == 0,
        count_correct(answers.push(e)) == count_correct(answers) + if e.1 {
            1int
        } else {
            0int
        },
{
    assert(answers.push(e).drop_last() =~= answers);
}

/// A started session that shows the prelude, or any event other than an
/// answer, changes nothing and carries on.
pub proof fn law_only_answers_to_questions_count(s: SessionView, e: GameEventView)
    requires
        s.scene is Prelude || !(e is PlayerAnswer),
    ensures
        s.update(e) == (s, UpdateResultView::Continue(None)),
{
}

/// A line that starts with `ANSWER_COMMAND` answers with the rest of the line
/// without surrounding whitespace when, lower-cased, it is one of "a", "b",
/// "c", "d", and otherwise gets the reply naming that answer.
pub proof fn law_answer_lines(line: Seq<char>)
    ensures
        ({
            let content = trim_spec(line);
            let answer = trim_spec(content.subrange(ANSWER_COMMAND@.len() as int, content.len() as int));
            let lower = unicode_lowercase(answer);
            let valid = lower == "a"@ || lower == "b"@ || lower == "c"@ || lower == "d"@;
            ANSWER_COMMAND@.len() <= content.len() && content.subrange(0, ANSWER_COMMAND@.len() as int)
                == ANSWER_COMMAND@ ==> classify(line) == if valid {
                ClientCommandView::Answer(answer)
            } else {
                ClientCommandView::InvalidAnswer(
                    "Alternativa '"@ + answer + "' inválida! Por favor responda com A, B, C ou D."@,
                )
            }
        }),
{
}

/// What the game loop does about an answer, by the result of `update`: a
/// survived round is announced and the turn advanced; an answer that leaves
/// the round open is announced with the player's name; the end of the game is
/// queued as a game-ending event; anything else does nothing.
pub proof fn law_answer_actions(s: SessionView, username: Seq<char>, answer: Seq<char>, shown: GameSceneType)
    ensures
        ({
            let e = GameEventView::PlayerAnswer { username, answer };
            let (next, r) = s.update(e);
            let (after, acts) = game_step(s, e, shown);
            &&& after == next
            &&& (r matches UpdateResultView::Advance(f) ==> acts == seq![
                LoopActionView::Announce(f),
                LoopActionView::Notify(GameEventView::AdvanceTurn),
            ])
            &&& (r matches UpdateResultView::Continue(Some(a)) ==> acts == seq![
                LoopActionView::Announce(username + " escolheu a resposta "@ + a),
            ])
            &&& (r == UpdateResultView::Continue(None) ==> acts.len() == 0)
            &&& (r matches UpdateResultView::GameOver(m) ==> acts == seq![
                LoopActionView::Notify(GameEventView::GameEnding(UpdateResultView::GameOver(m))),
            ])
            &&& (r matches UpdateResultView::EndGame(m) ==> acts == seq![
                LoopActionView::Notify(GameEventView::GameEnding(UpdateResultView::EndGame(m))),
            ])
        }),
{
}

/// The end of a game leaves the session as it is and ends with its closing: a
/// lost game announces the last message, waits two seconds, announces the
/// closing words, shuts the clients down and closes the session; a finished
/// game announces its message, waits five seconds, shuts the clients down and
/// closes the session. Any other ending result does nothing.
pub proof fn law_endings(s: SessionView, r: UpdateResultView, shown: GameSceneType)
    ensures
        ({
            let (after, acts) = game_step(s, GameEventView::GameEnding(r), shown);
            &&& after == s
            &&& (r matches UpdateResultView::GameOver(m) ==> acts == seq![
                LoopActionView::Announce(m),
                LoopActionView::Pause(2),
                LoopActionView::Announce(GAME_OVER_TEXT@),
                LoopActionView::Shutdown,
                LoopActionView::CloseSession("GameOver"@),
            ])
            &&& (r matches UpdateResultView::EndGame(m) ==> acts == seq![
                LoopActionView::Announce(m),
                LoopActionView::Pause(5),
                LoopActionView::Shutdown,
                LoopActionView::CloseSession("EndGame"@),
            ])
            &&& (r is Advance || r is Continue ==> acts.len() == 0)
        }),
{
    assert(seq![
        LoopActionView::Announce(r->GameOver_0),
        LoopActionView::Pause(2),
        LoopActionView::Announce(GAME_OVER_TEXT@),
        LoopActionView::Shutdown,
    ] + seq![LoopActionView::CloseSession("GameOver"@)] =~= seq![
        LoopActionView::Announce(r->GameOver_0),
        LoopActionView::Pause(2),
        LoopActionView::Announce(GAME_OVER_TEXT@),
        LoopActionView::Shutdown,
        LoopActionView::CloseSession("GameOver"@),
    ]);
    assert(seq![
        LoopActionView::Announce(r->EndGame_0),
        LoopActionView::Pause(5),
        LoopActionView::Shutdown,
    ] + seq![LoopActionView::CloseSession("EndGame"@)] =~= seq![
        LoopActionView::Announce(r->EndGame_0),
        LoopActionView::Pause(5),
        LoopActionView::Shutdown,
        LoopActionView::CloseSession("EndGame"@),
    ]);
}

} // verus!
