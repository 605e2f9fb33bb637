//! What the server makes of the lines a client sends, and the texts it
//! broadcasts about the players.
use vstd::prelude::*;
use vstd::string::*;
use crate::game_session::MAX_PLAYERS_PER_SESSION;
use crate::text::{has_prefix, starts_with, suffix_from, to_lowercase, trim, trim_spec, unicode_lowercase};

verus! {

/// The prefix of a line that answers the current question.
pub const ANSWER_COMMAND: &'static str = "/answer ";

/// What a client's line asks for.
pub enum ClientCommand {
    /// An answer to the current question, without surrounding whitespace.
    Answer(String),
    /// An answer that names no alternative; carries the reply to the client.
    InvalidAnswer(String),
    /// A chat message, without surrounding whitespace.
    Chat(String),
}

/// `ClientCommand` with its texts as character sequences.
pub enum ClientCommandView {
    Answer(Seq<char>),
    InvalidAnswer(Seq<char>),
    Chat(Seq<char>),
}

impl View for ClientCommand {
    type V = ClientCommandView;

    open spec fn view(&self) -> ClientCommandView {
        match self {
            ClientCommand::Answer(s) => ClientCommandView::Answer(s@),
            ClientCommand::InvalidAnswer(s) => ClientCommandView::InvalidAnswer(s@),
            ClientCommand::Chat(s) => ClientCommandView::Chat(s@),
        }
    }
}

/// A lower-cased answer that names one of the four alternatives.
pub open spec fn is_option_letter(lowered: Seq<char>) -> bool {
    lowered == "a"@ || lowered == "b"@ || lowered == "c"@ || lowered == "d"@
}

/// An answer names one of the four alternatives once lower-cased.
pub open spec fn is_valid_option(answer: Seq<char>) -> bool {
    is_option_letter(unicode_lowercase(answer))
}

/// What an answer asks for, given its lower-cased form `lowered`.
pub open spec fn answer_decision(answer: Seq<char>, lowered: Seq<char>) -> ClientCommandView {
    if is_option_letter(lowered) {
        ClientCommandView::Answer(answer)
    } else {
        ClientCommandView::InvalidAnswer(invalid_answer_text(answer))
    }
}

/// The reply to an answer that names no alternative.
pub open spec fn invalid_answer_text(answer: Seq<char>) -> Seq<char> {
    "Alternativa '"@ + answer + "' inválida! Por favor responda com A, B, C ou D."@
}

/// What the line `line` asks for: without surrounding whitespace, a line that
/// starts with `ANSWER_COMMAND` answers with the rest of it, trimmed; any other
/// line is a chat message.
pub open spec fn classify(line: Seq<char>) -> ClientCommandView {
    let content = trim_spec(line);
    if has_prefix(content, ANSWER_COMMAND@) {
        let answer = trim_spec(content.subrange(ANSWER_COMMAND@.len() as int, content.len() as int));
        answer_decision(answer, unicode_lowercase(answer))
    } else {
        ClientCommandView::Chat(content)
    }
}

/// The announcement that `player` joined.
pub open spec fn join_text(player: Seq<char>) -> Seq<char> {
    player + " entrou no chat!"@
}

/// The announcement that `player` left.
pub open spec fn leave_text(player: Seq<char>) -> Seq<char> {
    player + " deixou o chat!"@
}

/// The announcement of the alternative `answer` that `player` chose.
pub open spec fn choice_text(player: Seq<char>, answer: Seq<char>) -> Seq<char> {
    player + " escolheu a resposta "@ + answer
}

/// The first session, in the order given, whose party has room.
pub open spec fn first_available(sizes: Seq<usize>) -> Option<usize> {
    if exists|i: int| 0 <= i < sizes.len() && #[trigger] sizes[i] < MAX_PLAYERS_PER_SESSION {
        let i = choose|i: int|
            0 <= i < sizes.len() && #[trigger] sizes[i] < MAX_PLAYERS_PER_SESSION && forall|j: int|
                0 <= j < i ==> sizes[j] >= MAX_PLAYERS_PER_SESSION;
        Some(i as usize)
    } else {
        None
    }
}

/// What the line `line` from a registered client asks for.
pub fn classify_client_line(line: &str) -> (cmd: ClientCommand)
    ensures
        cmd@ == classify(line@),
{
    let content = trim(line);
    if starts_with(content, ANSWER_COMMAND) {
        let rest = suffix_from(content, ANSWER_COMMAND.unicode_len());
        let answer = String::from_str(trim(rest));
        let lower = to_lowercase(answer.as_str());
        answer_command(answer, lower.as_str())
    } else {
        ClientCommand::Chat(String::from_str(content))
    }
}

/// What the answer `answer` asks for, given its lower-cased form `lowered`:
/// the answer itself when `lowered` is one of the four alternatives, else the
/// reply that tells the client so.
pub fn answer_command(answer: String, lowered: &str) -> (cmd: ClientCommand)
    ensures
        cmd@ == answer_decision(answer@, lowered@),
{
    let lower = String::from_str(lowered);
    let valid = lower == String::from_str("a") || lower == String::from_str("b") || lower
        == String::from_str("c") || lower == String::from_str("d");
    if !valid {
        let mut reply = String::from_str("Alternativa '");
        reply.append(answer.as_str());
        reply.append("' inválida! Por favor responda com A, B, C ou D.");
        return ClientCommand::InvalidAnswer(reply);
    }
    ClientCommand::Answer(answer)
}

/// The name a client registers with, from the line it sent: the line without
/// surrounding whitespace, or `None` when nothing is left.
pub fn registration_name(line: &str) -> (name: Option<String>)
    ensures
        (match name {
            Some(n) => n@ == trim_spec(line@) && n@.len() > 0,
            None => trim_spec(line@).len() == 0,
        }),
{
    let trimmed = trim(line);
    if trimmed.unicode_len() == 0 {
        None
    } else {
        Some(String::from_str(trimmed))
    }
}

/// Among sessions whose parties have `sizes` players, the first with room for
/// one more.
pub fn find_available_session(sizes: &Vec<usize>) -> (res: Option<usize>)
    ensures
        res == first_available(sizes@),
{
    let n = sizes.len();
    for i in 0..n
        invariant
            n == sizes@.len(),
            forall|j: int| 0 <= j < i ==> sizes@[j] >= MAX_PLAYERS_PER_SESSION,
    {
        if sizes[i] < MAX_PLAYERS_PER_SESSION {
            proof {
                assert(sizes@[i as int] < MAX_PLAYERS_PER_SESSION);
                let k = choose|k: int|
                    0 <= k < sizes@.len() && #[trigger] sizes@[k] < MAX_PLAYERS_PER_SESSION
                        && forall|j: int| 0 <= j < k ==> sizes@[j] >= MAX_PLAYERS_PER_SESSION;
                if k < i {
                } else if k > i {
                    assert(sizes@[i as int] >= MAX_PLAYERS_PER_SESSION);
                }
            }
            return Some(i);
        }
    }
    None
}

/// The announcement that `player` joined.
pub fn join_announcement(player: &str) -> (res: String)
    ensures
        res@ == join_text(player@),
{
    String::from_str(player).concat(" entrou no chat!")
}

/// The announcement that `player` left.
pub fn leave_announcement(player: &str) -> (res: String)
    ensures
        res@ == leave_text(player@),
{
    String::from_str(player).concat(" deixou o chat!")
}

/// The announcement of the alternative `answer` that `player` chose.
pub fn choice_announcement(player: &str, answer: &str) -> (res: String)
    ensures
        res@ == choice_text(player@, answer@),
{
    String::from_str(player).concat(" escolheu a resposta ").concat(answer)
}

} // verus!
