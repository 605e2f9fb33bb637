//! A game session: the party of players, the scene they are looking at, their
//! answers to it, and the lives and scenes they have left.
use vstd::prelude::*;
use vstd::string::*;
use std::collections::VecDeque;
use crate::game_scene::{GameScene, GameSceneType};
use crate::player::Player;
use crate::text::{
    ascii_case_eq, decimal, digit_char, eq_ignore_ascii_case, trim, trim_spec, usize_text,
};

verus! {

/// How many players a session takes.
pub const MAX_PLAYERS_PER_SESSION: usize = 3;

/// The lives a party starts with.
pub const STARTING_ATTEMPTS: i8 = 3;

/// What happens in a game, as its consumer reports it.
pub enum GameEvent {
    PlayerJoined(String),
    PlayerAnswer { username: String, answer: String },
    AdvanceTurn,
    GameEnding(UpdateResult),
}

/// What `GameSession::update` tells its consumer to do next.
pub enum UpdateResult {
    Advance(String),
    Continue(Option<String>),
    EndGame(String),
    GameOver(String),
}

/// `UpdateResult` with its texts as character sequences.
pub enum UpdateResultView {
    Advance(Seq<char>),
    Continue(Option<Seq<char>>),
    EndGame(Seq<char>),
    GameOver(Seq<char>),
}

/// `GameEvent` with its texts as character sequences.
pub enum GameEventView {
    PlayerJoined(Seq<char>),
    PlayerAnswer { username: Seq<char>, answer: Seq<char> },
    AdvanceTurn,
    GameEnding(UpdateResultView),
}

impl View for UpdateResult {
    type V = UpdateResultView;

    open spec fn view(&self) -> UpdateResultView {
        match self {
            UpdateResult::Advance(s) => UpdateResultView::Advance(s@),
            UpdateResult::Continue(o) => UpdateResultView::Continue(
                match o {
                    Some(s) => Some(s@),
                    None => None,
                },
            ),
            UpdateResult::EndGame(s) => UpdateResultView::EndGame(s@),
            UpdateResult::GameOver(s) => UpdateResultView::GameOver(s@),
        }
    }
}

impl View for GameEvent {
    type V = GameEventView;

    open spec fn view(&self) -> GameEventView {
        match self {
            GameEvent::PlayerJoined(s) => GameEventView::PlayerJoined(s@),
            GameEvent::PlayerAnswer { username, answer } => GameEventView::PlayerAnswer {
                username: username@,
                answer: answer@,
            },
            GameEvent::AdvanceTurn => GameEventView::AdvanceTurn,
            GameEvent::GameEnding(r) => GameEventView::GameEnding(r@),
        }
    }
}

/// A session of the game.
pub struct GameSession {
    /// The 128 bits of the session's UUID, most significant first.
    pub id: u128,
    pub current_scene_state: GameSceneType,
    pub party: Vec<Player>,
    pub has_started: bool,
    answers: Vec<(String, bool)>,
    remaining_answers: i8,
    remaining_scenes: VecDeque<String>,
}

/// The abstract state of a session. `party` lists the players' names in the
/// order they joined; `answers` pairs the name of each player who answered the
/// current scene with whether the answer was right.
pub struct SessionView {
    pub id: u128,
    pub scene: GameSceneType,
    pub party: Seq<Seq<char>>,
    pub has_started: bool,
    pub answers: Seq<(Seq<char>, bool)>,
    pub remaining_answers: int,
    pub remaining_scenes: Seq<Seq<char>>,
}

/// Names other than `name`.
pub open spec fn not_named(name: Seq<char>) -> spec_fn(Seq<char>) -> bool {
    |n: Seq<char>| n != name
}

/// An answer entry as names and flags.
pub open spec fn pair_view(e: (String, bool)) -> (Seq<char>, bool) {
    (e.0@, e.1)
}

/// A list of answer entries as names and flags.
pub open spec fn answers_view(s: Seq<(String, bool)>) -> Seq<(Seq<char>, bool)> {
    s.map_values(|e: (String, bool)| pair_view(e))
}

impl View for GameSession {
    type V = SessionView;

    closed spec fn view(&self) -> SessionView {
        SessionView {
            id: self.id,
            scene: self.current_scene_state,
            party: self.party@.map_values(|p: Player| p.username@),
            has_started: self.has_started,
            answers: answers_view(self.answers@),
            remaining_answers: self.remaining_answers as int,
            remaining_scenes: self.remaining_scenes@.map_values(|s: String| s@),
        }
    }
}

/// The scenes a session plays, in order.
pub open spec fn scene_order() -> Seq<Seq<char>> {
    seq![
        "scene_1"@,
        "scene_2"@,
        "scene_3"@,
        "scene_4"@,
        "scene_5"@,
        "scene_6"@,
        "scene_7"@,
        "final_scene"@,
    ]
}

/// The names of the players who answered.
pub open spec fn answer_keys(answers: Seq<(Seq<char>, bool)>) -> Seq<Seq<char>> {
    answers.map_values(|e: (Seq<char>, bool)| e.0)
}

/// `answers` with the entry of `user` set to `correct`.
pub open spec fn replace_answer(answers: Seq<(Seq<char>, bool)>, user: Seq<char>, correct: bool) -> Seq<
    (Seq<char>, bool),
> {
    answers.map_values(|e: (Seq<char>, bool)| if e.0 == user { (user, correct) } else { e })
}

/// `answers` after `user` answered, right or not: the entry of `user` is
/// replaced, or added at the end if there was none.
pub open spec fn record_answer(answers: Seq<(Seq<char>, bool)>, user: Seq<char>, correct: bool) -> Seq<
    (Seq<char>, bool),
> {
    if answer_keys(answers).contains(user) {
        replace_answer(answers, user, correct)
    } else {
        answers.push((user, correct))
    }
}

/// How many of the answers are right.
pub open spec fn count_correct(answers: Seq<(Seq<char>, bool)>) -> nat
    decreases answers.len(),
{
    if answers.len() == 0 {
        0
    } else {
        count_correct(answers.drop_last()) + if answers.last().1 {
            1nat
        } else {
            0nat
        }
    }
}

/// An answer is right when, without surrounding whitespace, it names the right
/// alternative up to the case of ASCII letters.
pub open spec fn answer_is_correct(answer: Seq<char>, id_correct: Seq<char>) -> bool {
    ascii_case_eq(trim_spec(answer), id_correct)
}

/// The report of a round that the party survived.
pub open spec fn round_summary(correct: nat, wrong: nat, remaining: nat) -> Seq<char> {
    decimal(correct) + " jogadores acertaram e "@ + decimal(wrong) + " erraram! Vocês ainda têm "@
        + decimal(remaining) + " tentativa(s)! \n"@
}

/// The refusal of a name that is already in the party.
pub open spec fn already_registered_text(username: Seq<char>) -> Seq<char> {
    "Player já registrado: "@ + username
}

/// The refusal of a player by a full party.
pub open spec fn party_full_text(username: Seq<char>) -> Seq<char> {
    "Party já está cheia: "@ + username
}

/// The part of the prelude before the date.
pub open spec fn prelude_opening() -> Seq<char> {
    PRELUDE_OPENING@
}

/// The part of the prelude between the date and the number of players.
pub open spec fn prelude_middle() -> Seq<char> {
    PRELUDE_MIDDLE@
}

/// The part of the prelude after the number of players.
pub open spec fn prelude_closing() -> Seq<char> {
    PRELUDE_CLOSING@
}

/// The prelude shown on `date` to a party of `players`.
pub open spec fn prelude_text(date: Seq<char>, players: nat) -> Seq<char> {
    prelude_opening() + date + prelude_middle() + decimal(players) + prelude_closing()
}

/// `text` is the prelude for a party of `players`, on some date written
/// as `DATE_FORMAT` writes it.
pub open spec fn is_prelude_text(text: Seq<char>, players: nat) -> bool {
    exists|date: Seq<char>| is_date_text(date) && text == #[trigger] prelude_text(date, players)
}

/// How the prelude writes its date: day/month/year hour:minute.
pub const DATE_FORMAT: &'static str = "%d/%m/%Y %H:%M";

/// A decimal digit.
pub open spec fn is_digit(c: char) -> bool {
    48 <= (c as u32) <= 57
}

/// `n` (below 100) as two decimal digits.
pub open spec fn two_digits(n: nat) -> Seq<char> {
    seq![digit_char(n / 10), digit_char(n % 10)]
}

/// A year as `%Y` writes it: four digits, or a sign and at least four digits
/// outside the years 0 to 9999.
pub open spec fn is_year_text(y: Seq<char>) -> bool {
    ||| y.len() == 4 && forall|i: int| 0 <= i < 4 ==> is_digit(#[trigger] y[i])
    ||| y.len() >= 5 && (y[0] == '+' || y[0] == '-') && forall|i: int|
        1 <= i < y.len() ==> is_digit(#[trigger] y[i])
}

/// The date written from its parts.
pub open spec fn date_text(day: nat, month: nat, year: Seq<char>, hour: nat, minute: nat) -> Seq<
    char,
> {
    two_digits(day) + "/"@ + two_digits(month) + "/"@ + year + " "@ + two_digits(hour) + ":"@
        + two_digits(minute)
}

/// `t` is a date written as `DATE_FORMAT` writes it.
pub open spec fn is_date_text(t: Seq<char>) -> bool {
    exists|day: nat, month: nat, year: Seq<char>, hour: nat, minute: nat|
        1 <= day <= 31 && 1 <= month <= 12 && is_year_text(year) && hour < 24 && minute < 60 && t
            == #[trigger] date_text(day, month, year, hour, minute)
}

/// The prelude up to the date.
pub const PRELUDE_OPENING: &'static str = "\nIniciando conexão com quantum.imd.ufrn.br...\nProtocolo TELNET handshake... OK.\n...Conexão segura estabelecida.\n\nBEM-VINDOS, Investigadores.\n\n(A tela pisca brevemente...)\n(A luz do terminal falha...)\n\n[PANIC: unexpected kernel trap]\n[SEGFAULT @0x00ffd19a]\n[FATAL: recursion detected in non-recursive function]\n[STACK OVERFLOW PROTECTOR: DISARMED]\n\n(A tela estabiliza novamente.)\n\nData Estelar: ";

/// The prelude between the date and the number of players.
pub const PRELUDE_MIDDLE: &'static str = "\nStatus do Sistema: **CRÍTICO**\nLocal: Instituto Metrópole Digital (IMD), UFRN.\n\nO orgulho do IMD, o supercomputador 'Potiguara-Q', foi ativado esta manhã. Escrito inteiramente em Rust para garantir segurança e performance quântica, ele era a promessa de uma nova era…\n\nPorém...\n\nA promessa falhou.\n\nNão do jeito que vocês devem estar pensando. O 'Potiguara-Q' não 'crashou'. Ele... 'compilou'. A realidade do campus da UFRN foi tratada como seu código-fonte, e ele encontrou 'bugs'.\n\nAgora, o computador está ativamente tentando 'corrigir' a realidade, causando anomalias catastróficas. O sistema está em caos.\n\nUma sub-rotina de segurança de baixo nível, o 'Crab Guardian', conseguiu contatar vocês. Ele identificou seus terminais como pertencentes a usuários que entendem a Lógica por trás da Linguagem.\n\nSem mais enrolação, vamos para vossa missão:\n\nEntrar no sistema.\nEncontrar as anomalias.\nE forçar um CONSENSO.\n\nVocês devem 'corrigir o código' da realidade, juntos.\n\nMas cuidado.\nO 'Crab Guardian' detectou... 'interferência'. As anomalias não parecem totalmente acidentais…\n\nEnfim... O conhecimento, a discussão e o consenso são suas únicas armas.\n\nSTATUS DA SESSÃO: JOGADORES CONECTADOS: ";

/// The prelude after the number of players.
pub const PRELUDE_CLOSING: &'static str = "\n\nO chat de vocês está aberto. Discutam.\nO Saguão espera.\nBoa sorte. Vocês vão precisar.";

impl SessionView {
    /// The invariant of a session: no name twice in the party, at most
    /// `MAX_PLAYERS_PER_SESSION` players, at most one answer per name.
    pub open spec fn wf(self) -> bool {
        &&& self.party.no_duplicates()
        &&& self.party.len() <= MAX_PLAYERS_PER_SESSION
        &&& answer_keys(self.answers).no_duplicates()
    }

    /// Why `username` cannot join, if it cannot.
    pub open spec fn registration_error(self, username: Seq<char>) -> Option<Seq<char>> {
        if self.party.contains(username) {
            Some(already_registered_text(username))
        } else if self.party.len() >= MAX_PLAYERS_PER_SESSION {
            Some(party_full_text(username))
        } else {
            None
        }
    }

    /// The session once `username` joined.
    pub open spec fn with_player(self, username: Seq<char>) -> SessionView {
        SessionView { party: self.party.push(username), ..self }
    }

    /// The session once the scene queue lost its first name.
    pub open spec fn scene_taken(self) -> SessionView {
        SessionView { remaining_scenes: self.remaining_scenes.drop_first(), ..self }
    }

    /// The name `next_scene` gives: the first of the queue, if any.
    pub open spec fn next_scene_name(self) -> Option<Seq<char>> {
        if self.remaining_scenes.len() > 0 {
            Some(self.remaining_scenes[0])
        } else {
            None
        }
    }

    /// The session after a call of `next_scene`.
    pub open spec fn after_next_scene(self) -> SessionView {
        if self.remaining_scenes.len() > 0 {
            self.scene_taken()
        } else {
            self
        }
    }

    /// The session after `k` calls of `next_scene`.
    pub open spec fn after_scene_calls(self, k: nat) -> SessionView
        decreases k,
    {
        if k == 0 {
            self
        } else {
            self.after_scene_calls((k - 1) as nat).after_next_scene()
        }
    }

    /// The session showing the question scene `scene`.
    pub open spec fn showing(self, scene: GameScene) -> SessionView {
        SessionView { scene: GameSceneType::Normal(scene), ..self }
    }

    /// The session once started, showing `scene`.
    pub open spec fn started_with(self, scene: GameSceneType) -> SessionView {
        SessionView { has_started: true, scene, ..self }
    }

    /// The session once `username` left.
    pub open spec fn without_player(self, username: Seq<char>) -> SessionView {
        SessionView { party: self.party.filter(not_named(username)), ..self }
    }

    /// How a session that has started and shows `scene` takes the answer
    /// `answer` of `username`.
    pub open spec fn answer_step(self, scene: GameScene, username: Seq<char>, answer: Seq<char>) -> (
        SessionView,
        UpdateResultView,
    ) {
        let answers = record_answer(
            self.answers,
            username,
            answer_is_correct(answer, scene.options.id_correct@),
        );
        if answers.len() < self.party.len() {
            (SessionView { answers, ..self }, UpdateResultView::Continue(Some(answer)))
        } else {
            let correct = count_correct(answers);
            let wrong = self.party.len() - correct;
            let passed = correct >= wrong;
            let remaining = if passed {
                self.remaining_answers
            } else {
                self.remaining_answers - 1
            };
            let text = if passed {
                scene.success_msg@
            } else {
                scene.error_msg@
            };
            let next = SessionView { answers: Seq::empty(), remaining_answers: remaining, ..self };
            if remaining <= 0 {
                (next, UpdateResultView::GameOver(scene.error_msg@))
            } else if self.remaining_scenes.len() == 0 {
                (next, UpdateResultView::EndGame(text))
            } else {
                (
                    next,
                    UpdateResultView::Advance(
                        round_summary(correct, wrong as nat, remaining as nat) + text,
                    ),
                )
            }
        }
    }

    /// The session and the result after `event`: only an answer to a question
    /// scene of a started game changes anything.
    pub open spec fn update(self, event: GameEventView) -> (SessionView, UpdateResultView) {
        if !self.has_started {
            (self, UpdateResultView::Continue(None))
        } else {
            match event {
                GameEventView::PlayerAnswer { username, answer } => match self.scene {
                    GameSceneType::Normal(scene) => self.answer_step(scene, username, answer),
                    GameSceneType::Prelude(_) => (self, UpdateResultView::Continue(None)),
                },
                _ => (self, UpdateResultView::Continue(None)),
            }
        }
    }

    /// `update` is defined on `event`: when the answer closes the round, the
    /// right answers do not outnumber the party, and a lost round leaves a
    /// number of lives that `i8` holds.
    pub open spec fn update_defined(self, event: GameEventView) -> bool {
        match event {
            GameEventView::PlayerAnswer { username, answer } => match self.scene {
                GameSceneType::Normal(scene) => {
                    let answers = record_answer(
                        self.answers,
                        username,
                        answer_is_correct(answer, scene.options.id_correct@),
                    );
                    let correct = count_correct(answers);
                    self.has_started && answers.len() >= self.party.len() ==> {
                        &&& correct <= self.party.len()
                        &&& correct < self.party.len() - correct ==> self.remaining_answers > i8::MIN
                    }
                },
                GameSceneType::Prelude(_) => true,
            },
            _ => true,
        }
    }
}

/// A right answer counts one.
pub proof fn lemma_count_correct_push(answers: Seq<(Seq<char>, bool)>, e: (Seq<char>, bool))
    ensures
        count_correct(answers.push(e)) == count_correct(answers) + if e.1 {
            1nat
        } else {
            0nat
        },
{
    assert(answers.push(e).drop_last() =~= answers);
}

/// A name is among the answerers exactly when some answer carries it.
pub proof fn lemma_keys_contain(answers: Seq<(Seq<char>, bool)>, user: Seq<char>)
    ensures
        answer_keys(answers).contains(user) <==> exists|j: int|
            0 <= j < answers.len() && #[trigger] answers[j].0 == user,
{
    if answer_keys(answers).contains(user) {
        let j = choose|j: int| 0 <= j < answer_keys(answers).len() && answer_keys(answers)[j] == user;
        assert(answers[j].0 == user);
    }
    if exists|j: int| 0 <= j < answers.len() && #[trigger] answers[j].0 == user {
        let j = choose|j: int| 0 <= j < answers.len() && #[trigger] answers[j].0 == user;
        assert(answer_keys(answers)[j] == user);
    }
}

/// The first answer of a name leaves the others as they are and adds its own
/// to the count.
pub proof fn lemma_absent_user(answers: Seq<(Seq<char>, bool)>, user: Seq<char>, correct: bool)
    requires
        !answer_keys(answers).contains(user),
    ensures
        replace_answer(answers, user, correct) == answers,
        count_correct(record_answer(answers, user, correct)) == count_correct(answers) + if correct {
            1nat
        } else {
            0nat
        },
{
    lemma_keys_contain(answers, user);
    assert(replace_answer(answers, user, correct) =~= answers);
    lemma_count_correct_push(answers, (user, correct));
}

/// The bits of a version-4 (random) UUID: the version field holds 4 and the
/// variant field holds the RFC 4122 variant.
pub open spec fn is_version4_bits(id: u128) -> bool {
    &&& (id >> 76u128) & 0xfu128 == 4u128
    &&& (id >> 62u128) & 0x3u128 == 2u128
}

/// Calls `uuid::Uuid::new_v4` and takes its bits with `Uuid::as_u128`.
/// `new_v4` masks random bits and sets the version nibble to 4 and the
/// variant bits to 10; `as_u128` reads the bytes most significant first. The
/// random bits themselves are not stated.
#[verifier::external_body]
fn new_session_id() -> (id: u128)
    ensures
        is_version4_bits(id),
{
    uuid::Uuid::new_v4().as_u128()
}

/// Calls `chrono::Local::now` and formats it with `format`, which is
/// `DATE_FORMAT`: chrono writes the day, the month, the hour and the minute as
/// two digits each (`%d`, `%m`, `%H`, `%M`) and the year as four digits, or
/// with a sign outside the years 0 to 9999 (`%Y`). Which date comes out
/// depends on the clock and the time zone, and is not stated.
#[verifier::external_body]
fn local_date_text(format: &str) -> (res: String)
    requires
        format@ == DATE_FORMAT@,
    ensures
        is_date_text(res@),
{
    chrono::Local::now().format(format).to_string()
}

/// The prelude shown on `date` to a party of `players`.
pub fn compose_prelude_text(date: &str, players: usize) -> (res: String)
    ensures
        res@ == prelude_text(date@, players as nat),
{
    let mut text = String::from_str(PRELUDE_OPENING);
    text.append(date);
    text.append(PRELUDE_MIDDLE);
    let count = usize_text(players);
    text.append(count.as_str());
    text.append(PRELUDE_CLOSING);
    text
}

/// Scans `answers` for the entry of `user`, counting the right answers as if
/// `user`'s entry said `correct`.
fn scan_answers(answers: &Vec<(String, bool)>, user: &String, correct: bool) -> (res: (bool, usize))
    ensures
        res.0 == answer_keys(answers_view(answers@)).contains(user@),
        res.1 == count_correct(replace_answer(answers_view(answers@), user@, correct)),
        res.1 <= answers@.len(),
{
    let ghost a = answers_view(answers@);
    let ghost r = replace_answer(a, user@, correct);
    let mut found = false;
    let mut count: usize = 0;
    let n = answers.len();
    for i in 0..n
        invariant
            n == answers@.len(),
            a == answers_view(answers@),
            r == replace_answer(a, user@, correct),
            count == count_correct(r.take(i as int)),
            count <= i,
            found == (exists|j: int| 0 <= j < i && #[trigger] a[j].0 == user@),
    {
        let is_user = answers[i].0 == *user;
        let right = if is_user {
            correct
        } else {
            answers[i].1
        };
        proof {
            assert(r.take(i + 1).drop_last() =~= r.take(i as int));
            assert(r[i as int].1 == right);
        }
        if right {
            count = count + 1;
        }
        if is_user {
            found = true;
        }
        proof {
            assert(a[i as int].0 == answers@[i as int].0@);
        }
    }
    proof {
        assert(r.take(n as int) =~= r);
        lemma_keys_contain(a, user@);
    }
    (found, count)
}

/// `answers` after `user` answered.
fn recorded(answers: &Vec<(String, bool)>, user: &String, correct: bool) -> (res: Vec<(String, bool)>)
    ensures
        answers_view(res@) == record_answer(answers_view(answers@), user@, correct),
{
    let ghost a = answers_view(answers@);
    let mut out: Vec<(String, bool)> = Vec::new();
    let mut found = false;
    let n = answers.len();
    for i in 0..n
        invariant
            n == answers@.len(),
            a == answers_view(answers@),
            out@.len() == i,
            forall|j: int|
                0 <= j < i ==> pair_view(#[trigger] out@[j]) == (if a[j].0 == user@ {
                    (user@, correct)
                } else {
                    a[j]
                }),
            found == (exists|j: int| 0 <= j < i && #[trigger] a[j].0 == user@),
    {
        proof {
            assert(a[i as int] == pair_view(answers@[i as int]));
        }
        if answers[i].0 == *user {
            out.push((user.clone(), correct));
            found = true;
            proof {
                assert(a[i as int].0 == user@);
            }
        } else {
            out.push((answers[i].0.clone(), answers[i].1));
            proof {
                assert(a[i as int].0 != user@);
                assert forall|j: int| 0 <= j < i + 1 && #[trigger] a[j].0 == user@ implies j < i by {}
            }
        }
    }
    proof {
        lemma_keys_contain(a, user@);
    }
    if !found {
        proof {
            assert(answers_view(out@) =~= a);
        }
        out.push((user.clone(), correct));
        proof {
            assert(answers_view(out@) =~= a.push((user@, correct)));
        }
    } else {
        proof {
            assert(answers_view(out@) =~= replace_answer(a, user@, correct));
        }
    }
    out
}

impl GameSession {
    /// The invariant of a session.
    pub open spec fn wf(&self) -> bool {
        self@.wf()
    }

    /// A new session: a random version-4 UUID as identifier, an empty
    /// prelude, no players, not started, no answers, three lives, and the
    /// scenes in `scene_order()`.
    pub fn new() -> (s: Self)
        ensures
            s.wf(),
            is_version4_bits(s@.id),
            (s@.scene matches GameSceneType::Prelude(t) && t@ == Seq::<char>::empty()),
            s@.party == Seq::<Seq<char>>::empty(),
            !s@.has_started,
            s@.answers == Seq::<(Seq<char>, bool)>::empty(),
            s@.remaining_answers == STARTING_ATTEMPTS,
            s@.remaining_scenes == scene_order(),
    {
        let mut scenes: VecDeque<String> = VecDeque::new();
        scenes.push_back(String::from_str("scene_1"));
        scenes.push_back(String::from_str("scene_2"));
        scenes.push_back(String::from_str("scene_3"));
        scenes.push_back(String::from_str("scene_4"));
        scenes.push_back(String::from_str("scene_5"));
        scenes.push_back(String::from_str("scene_6"));
        scenes.push_back(String::from_str("scene_7"));
        scenes.push_back(String::from_str("final_scene"));
        let s = GameSession {
            id: new_session_id(),
            current_scene_state: GameSceneType::Prelude(String::new()),
            party: Vec::new(),
            answers: Vec::new(),
            has_started: false,
            remaining_answers: STARTING_ATTEMPTS,
            remaining_scenes: scenes,
        };
        proof {
            assert(s@.party =~= Seq::<Seq<char>>::empty());
            assert(s@.answers =~= Seq::<(Seq<char>, bool)>::empty());
            assert(answer_keys(s@.answers) =~= Seq::<Seq<char>>::empty());
            assert(s@.remaining_scenes =~= scene_order());
        }
        s
    }

    /// The number of players in the party.
    pub fn party_size(&self) -> (n: usize)
        ensures
            n == self@.party.len(),
    {
        self.party.len()
    }

    /// Whether the game of this session has started.
    pub fn is_started(&self) -> (b: bool)
        ensures
            b == self@.has_started,
    {
        self.has_started
    }

    /// What the session shows.
    pub fn scene(&self) -> (res: &GameSceneType)
        ensures
            *res == self@.scene,
    {
        &self.current_scene_state
    }

    /// Whether a player named `username` is in the party.
    pub fn contains(&self, username: &String) -> (res: bool)
        ensures
            res == self@.party.contains(username@),
    {
        let ghost names = self@.party;
        let n = self.party.len();
        for i in 0..n
            invariant
                n == self.party@.len(),
                names == self@.party,
                names == self.party@.map_values(|p: Player| p.username@),
                forall|j: int| 0 <= j < i ==> names[j] != username@,
        {
            if self.party[i].username == *username {
                proof {
                    assert(names[i as int] == username@);
                }
                return true;
            }
        }
        false
    }

    /// Registers `username` in the party. A name already in the party, or a
    /// full party, is refused with a message naming `username`, and the session
    /// is left as it was.
    pub fn add_player(&mut self, username: &String) -> (res: Result<(), String>)
        requires
            old(self).wf(),
        ensures
            final(self).wf(),
            match old(self)@.registration_error(username@) {
                Some(msg) => (res matches Err(e) && e@ == msg && final(self)@ == old(self)@),
                None => (res is Ok && final(self)@ == old(self)@.with_player(username@)),
            },
    {
        if self.contains(username) {
            let msg = String::from_str("Player já registrado: ").concat(username.as_str());
            return Err(msg);
        } else if self.party.len() >= MAX_PLAYERS_PER_SESSION {
            let msg = String::from_str("Party já está cheia: ").concat(username.as_str());
            return Err(msg);
        }
        let ghost before = self@;
        self.party.push(Player::new(username.clone()));
        proof {
            assert(self@.party =~= before.party.push(username@));
            assert(self@ == before.with_player(username@));
        }
        Ok(())
    }

    /// Removes the player named `username` from the party, if it is there.
    pub fn remove_player(&mut self, username: &String)
        requires
            old(self).wf(),
        ensures
            final(self).wf(),
            final(self)@ == old(self)@.without_player(username@),
    {
        let ghost before = self@;
        let ghost names = before.party;
        let ghost keep = not_named(username@);
        let mut kept: Vec<Player> = Vec::new();
        let n = self.party.len();
        for i in 0..n
            invariant
                n == self.party@.len(),
                names == self.party@.map_values(|p: Player| p.username@),
                names == before.party,
                keep == not_named(username@),
                kept@.map_values(|p: Player| p.username@) == names.take(i as int).filter(keep),
        {
            proof {
                reveal_with_fuel(Seq::filter, 1);
                assert(names.take(i + 1).drop_last() =~= names.take(i as int));
                assert(names.take(i + 1).last() == names[i as int]);
            }
            if self.party[i].username != *username {
                let ghost old_kept = kept@;
                kept.push(self.party[i].clone());
                proof {
                    assert(kept@.map_values(|p: Player| p.username@) =~= old_kept.map_values(
                        |p: Player| p.username@,
                    ).push(names[i as int]));
                }
            }
        }
        proof {
            assert(names.take(n as int) =~= names);
            lemma_filter_no_duplicates(names, keep);
        }
        self.party = kept;
        proof {
            assert(self@ == before.without_player(username@));
        }
    }

    /// The result of `update` for `event`, answer by answer: when the event is
    /// the answer of a player to the question of a started game, the answer is
    /// recorded; once the party has answered as many times as it has players,
    /// the round is judged by majority, a lost round costs a life, and the
    /// answers are cleared.
    pub fn update(&mut self, event: GameEvent) -> (res: UpdateResult)
        requires
            old(self).wf(),
            old(self)@.update_defined(event@),
        ensures
            final(self).wf(),
            (final(self)@, res@) == old(self)@.update(event@),
    {
        if !self.has_started {
            return UpdateResult::Continue(None);
        }
        match event {
            GameEvent::PlayerAnswer { username, answer } => {
                let (id_correct, success_msg, error_msg) = match &self.current_scene_state {
                    GameSceneType::Normal(scene) => (
                        scene.options.id_correct.clone(),
                        scene.success_msg.clone(),
                        scene.error_msg.clone(),
                    ),
                    _ => return UpdateResult::Continue(None),
                };
                let ghost before = self@;
                let correct = eq_ignore_ascii_case(trim(answer.as_str()), id_correct.as_str());
                let (found, correct_count) = scan_answers(&self.answers, &username, correct);
                let party_len = self.party.len();
                let n = self.answers.len();
                proof {
                    if !found {
                        lemma_absent_user(before.answers, username@, correct);
                    }
                }
                let round_done = n >= party_len || (!found && n + 1 >= party_len);
                if !round_done {
                    self.answers = recorded(&self.answers, &username, correct);
                    proof {
                        lemma_recorded_keys(before.answers, username@, correct);
                    }
                    return UpdateResult::Continue(Some(answer));
                }
                // Every player has answered: judge the round.
                let correct_count = if !found && correct {
                    correct_count + 1
                } else {
                    correct_count
                };
                let wrong_count = party_len - correct_count;
                self.answers = Vec::new();
                let passed = correct_count >= wrong_count;
                let text_result = if passed {
                    success_msg
                } else {
                    self.remaining_answers = self.remaining_answers - 1;
                    error_msg.clone()
                };
                proof {
                    assert(self@.answers =~= Seq::<(Seq<char>, bool)>::empty());
                    assert(answer_keys(self@.answers) =~= Seq::<Seq<char>>::empty());
                }
                if self.remaining_answers <= 0 {
                    return UpdateResult::GameOver(error_msg);
                }
                if self.remaining_scenes.len() == 0 {
                    return UpdateResult::EndGame(text_result);
                }
                let remaining = self.remaining_answers as usize;
                let mut count_result = usize_text(correct_count);
                count_result.append(" jogadores acertaram e ");
                count_result.append(usize_text(wrong_count).as_str());
                count_result.append(" erraram! Vocês ainda têm ");
                count_result.append(usize_text(remaining).as_str());
                count_result.append(" tentativa(s)! \n");
                count_result.append(text_result.as_str());
                UpdateResult::Advance(count_result)
            },
            GameEvent::PlayerJoined(_) => UpdateResult::Continue(None),
            _ => UpdateResult::Continue(None),
        }
    }

    /// Whether `update` is defined on `event`, as `update_defined` states.
    pub fn update_is_defined(&self, event: &GameEvent) -> (ok: bool)
        requires
            self.wf(),
        ensures
            ok == self@.update_defined(event@),
    {
        match event {
            GameEvent::PlayerAnswer { username, answer } => {
                let id_correct = match &self.current_scene_state {
                    GameSceneType::Normal(scene) => scene.options.id_correct.clone(),
                    _ => return true,
                };
                if !self.has_started {
                    return true;
                }
                let ghost before = self@;
                let correct = eq_ignore_ascii_case(trim(answer.as_str()), id_correct.as_str());
                let (found, count) = scan_answers(&self.answers, username, correct);
                proof {
                    if !found {
                        lemma_absent_user(before.answers, username@, correct);
                    }
                }
                let party_len = self.party.len();
                let n = self.answers.len();
                let round_done = n >= party_len || (!found && n + 1 >= party_len);
                if !round_done {
                    return true;
                }
                let adds_one = !found && correct;
                let fits = if adds_one {
                    count < party_len
                } else {
                    count <= party_len
                };
                if !fits {
                    return false;
                }
                let total = if adds_one {
                    count + 1
                } else {
                    count
                };
                total >= party_len - total || self.remaining_answers > i8::MIN
            },
            _ => true,
        }
    }

    /// Takes the next scene to play off the queue, and gives its name; `None`
    /// when no scene is left.
    pub fn next_scene(&mut self) -> (name: Option<String>)
        requires
            old(self).wf(),
        ensures
            final(self).wf(),
            final(self)@ == old(self)@.after_next_scene(),
            (match name {
                Some(n) => old(self)@.next_scene_name() == Some(n@),
                None => old(self)@.next_scene_name() is None,
            }),
    {
        let ghost before = self@;
        let popped = self.remaining_scenes.pop_front();
        proof {
            assert(self@.remaining_scenes =~= if before.remaining_scenes.len() == 0 {
                before.remaining_scenes
            } else {
                before.remaining_scenes.drop_first()
            });
        }
        popped
    }

    /// Shows `scene`: the scene loaded for the name that `next_scene` gave.
    pub fn load_scene(&mut self, scene: GameScene)
        requires
            old(self).wf(),
        ensures
            final(self).wf(),
            final(self)@ == old(self)@.showing(scene),
    {
        self.current_scene_state = GameSceneType::Normal(scene);
    }

    /// The question scene shown, if the session shows one.
    pub fn current_scene(&self) -> (res: Option<&GameScene>)
        ensures
            (match self@.scene {
                GameSceneType::Normal(scene) => (res matches Some(r) && *r == scene),
                GameSceneType::Prelude(_) => (res is None),
            }),
    {
        match &self.current_scene_state {
            GameSceneType::Normal(scene) => Some(scene),
            _ => None,
        }
    }

    /// The prelude for this party, dated with the local clock.
    pub fn get_prelude_text(&self) -> (res: String)
        ensures
            is_prelude_text(res@, self@.party.len()),
    {
        let date = local_date_text(DATE_FORMAT);
        let res = compose_prelude_text(date.as_str(), self.party.len());
        proof {
            assert(res@ == prelude_text(date@, self@.party.len()));
        }
        res
    }

    /// Starts the game: marks the session started and shows the prelude.
    /// A session that has started already is left as it is; the result says
    /// whether this call started it.
    pub fn begin_game(&mut self) -> (started: bool)
        requires
            old(self).wf(),
        ensures
            final(self).wf(),
            started == !old(self)@.has_started,
            !started ==> final(self)@ == old(self)@,
            started ==> final(self)@ == old(self)@.started_with(final(self)@.scene),
            started ==> (final(self)@.scene matches GameSceneType::Prelude(t) && is_prelude_text(
                t@,
                old(self)@.party.len(),
            )),
    {
        if self.has_started {
            return false;
        }
        self.has_started = true;
        let text = self.get_prelude_text();
        self.current_scene_state = GameSceneType::Prelude(text);
        true
    }
}

impl Clone for GameSession {
    /// A copy of the session, identifier included.
    fn clone(&self) -> (res: Self)
        ensures
            res@ == self@,
    {
        let mut answers: Vec<(String, bool)> = Vec::new();
        let n = self.answers.len();
        for i in 0..n
            invariant
                n == self.answers@.len(),
                answers@.len() == i,
                forall|j: int| 0 <= j < i ==> pair_view(#[trigger] answers@[j]) == pair_view(self.answers@[j]),
        {
            answers.push((self.answers[i].0.clone(), self.answers[i].1));
        }
        let res = GameSession {
            id: self.id,
            current_scene_state: self.current_scene_state.clone(),
            party: self.party.clone(),
            has_started: self.has_started,
            answers,
            remaining_answers: self.remaining_answers,
            remaining_scenes: self.remaining_scenes.clone(),
        };
        proof {
            assert(res@.party =~= self@.party);
            assert(res@.answers =~= self@.answers);
            assert(res@.remaining_scenes =~= self@.remaining_scenes);
        }
        res
    }
}

/// Filtering keeps a sequence free of duplicates.
pub proof fn lemma_filter_no_duplicates<A>(s: Seq<A>, keep: spec_fn(A) -> bool)
    requires
        s.no_duplicates(),
    ensures
        s.filter(keep).no_duplicates(),
    decreases s.len(),
{
    reveal_with_fuel(Seq::filter, 1);
    if s.len() > 0 {
        let rest = s.drop_last();
        assert(rest.no_duplicates());
        lemma_filter_no_duplicates(rest, keep);
        if keep(s.last()) {
            let f = rest.filter(keep);
            assert forall|x: A| f.contains(x) implies rest.contains(x) by {
                rest.lemma_filter_contains_rev(keep, x);
            }
            assert(!rest.contains(s.last())) by {
                if rest.contains(s.last()) {
                    let j = choose|j: int| 0 <= j < rest.len() && rest[j] == s.last();
                    assert(s[j] == s[s.len() - 1]);
                }
            }
            assert forall|i: int, j: int| 0 <= i < f.push(s.last()).len() && 0 <= j < f.push(
                s.last(),
            ).len() && i != j implies f.push(s.last())[i] != f.push(s.last())[j] by {
                if i < f.len() && j < f.len() {
                } else if i == f.len() {
                    assert(f.contains(f[j]));
                } else {
                    assert(f.contains(f[i]));
                }
            }
        }
    }
}

/// Recording an answer keeps at most one answer per name.
pub proof fn lemma_recorded_keys(answers: Seq<(Seq<char>, bool)>, user: Seq<char>, correct: bool)
    requires
        answer_keys(answers).no_duplicates(),
    ensures
        answer_keys(record_answer(answers, user, correct)).no_duplicates(),
{
    if answer_keys(answers).contains(user) {
        assert(answer_keys(replace_answer(answers, user, correct)) =~= answer_keys(answers));
    } else {
        assert(answer_keys(answers.push((user, correct))) =~= answer_keys(answers).push(user));
    }
}

} // verus!
