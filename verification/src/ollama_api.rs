//! What the model server is asked and what is read from its replies: the
//! title request, the newline-delimited fragments of a streamed reply, and the
//! list of models.

use crate::json::{document_in, from_str, json_document, Json};
use crate::text::{chunk_lines, joined, lines_of, trim_matches, trimmed, utf8_lossy, views_of};
use regex::Regex;
use vstd::prelude::*;
use vstd::string::*;

verus! {

/// One line of a streamed reply to a title request.
#[derive(Debug, Clone, PartialEq, Eq)]
pub struct AIResponse {
    pub response: String,
    pub done: bool,
}

/// The instruction that precedes the prompt in a title request.
pub const TITLE_INSTRUCTION: &'static str =
    "Generate a concise and informative title (at most 10 words) summarizing the prompt. \n            Respond with only the title as plain text. Do not include any explanations, formatting, \n            or additional content. The prompt to summarize is: ```";

/// What closes the prompt in a title request.
pub const TITLE_FENCE: &'static str = "```";

/// A reasoning block at the start of a reply, with the white space after it.
pub const REASONING_BLOCK: &'static str = r"(?s)^<think>.*?</think>(\s*)";

/// What a cancelled generation appends to the text it has gathered.
pub const CANCELLED_MARKER: &'static str = "\n\nCancelled\n";

/// The prompt of the request that asks the model for a title for `prompt`.
pub open spec fn title_request(prompt: Seq<char>) -> Seq<char> {
    TITLE_INSTRUCTION@ + prompt + TITLE_FENCE@
}

/// The prompt of the request that asks the model for a title for `prompt`.
pub fn title_prompt(prompt: &str) -> (request: String)
    ensures
        request@ == title_request(prompt@),
{
    let mut request = joined(TITLE_INSTRUCTION, prompt);
    request.append(TITLE_FENCE);
    request
}

/// The text gathered from the parsed lines of a title reply, starting from
/// `text`, and whether a line said that the reply is complete. A line that did
/// not parse counts for nothing; nothing is read after the line that says
/// the reply is complete.
pub open spec fn title_text_after(text: Seq<char>, lines: Seq<Option<AIResponse>>) -> (
    Seq<char>,
    bool,
)
    decreases lines.len(),
{
    if lines.len() == 0 {
        (text, false)
    } else {
        match lines.first() {
            Some(line) => if line.done {
                (text + line.response@, true)
            } else {
                title_text_after(text + line.response@, lines.drop_first())
            },
            None => title_text_after(text, lines.drop_first()),
        }
    }
}

/// Appends to `text` what the parsed lines of one chunk of a title reply
/// carry, and says whether the reply is complete.
pub fn absorb_title_lines(text: &mut String, lines: &Vec<Option<AIResponse>>) -> (done: bool)
    ensures
        (final(text)@, done) == title_text_after(old(text)@, lines@),
{
    let mut i: usize = 0;
    proof {
        assert(lines@.skip(0) == lines@);
    }
    while i < lines.len()
        invariant
            i <= lines.len(),
            title_text_after(old(text)@, lines@) == title_text_after(text@, lines@.skip(i as int)),
        decreases lines.len() - i,
    {
        proof {
            assert(lines@.skip(i as int).first() == lines@[i as int]);
            assert(lines@.skip(i as int).drop_first() == lines@.skip(i + 1));
        }
        match &lines[i] {
            Some(line) => {
                text.append(line.response.as_str());
                if line.done {
                    return true;
                }
            },
            None => {},
        }
        i += 1;
    }
    false
}

/// What `regex::Regex::replace` makes of `haystack` when the regex is the one
/// that `regex::Regex::new` builds from `pattern`: the haystack with its first
/// match replaced. `None` where `pattern` is no regex.
pub uninterp spec fn regex_replace(
    pattern: Seq<char>,
    haystack: Seq<char>,
    replacement: Seq<char>,
) -> Option<Seq<char>>;

/// `regex::Regex::new`, then `regex::Regex::replace` on the regex it built.
/// Both depend on their arguments alone.
#[verifier::external_body]
fn replace_first(pattern: &str, haystack: &str, replacement: &str) -> (replaced: Option<String>)
    ensures
        match replaced {
            Some(text) => regex_replace(pattern@, haystack@, replacement@) == Some(text@),
            None => regex_replace(pattern@, haystack@, replacement@) is None,
        },
{
    match Regex::new(pattern) {
        Ok(regex) => Some(regex.replace(haystack, replacement).into_owned()),
        Err(_) => None,
    }
}

/// `reply` without a reasoning block at its start.
pub open spec fn without_reasoning(reply: Seq<char>) -> Option<Seq<char>> {
    regex_replace(REASONING_BLOCK@, reply, Seq::empty())
}

/// `reply` without a reasoning block at its start; `None` where the pattern
/// of such a block is refused as a regex.
pub fn strip_reasoning(reply: &str) -> (kept: Option<String>)
    ensures
        match kept {
            Some(text) => without_reasoning(reply@) == Some(text@),
            None => without_reasoning(reply@) is None,
        },
{
    let nothing = String::new();
    replace_first(REASONING_BLOCK, reply, nothing.as_str())
}

/// The title that `model` gave once its reasoning is gone: without the quotes
/// around it, then without the asterisks around that, behind the model's name
/// and a colon.
pub open spec fn session_title(model: Seq<char>, reply: Seq<char>) -> Seq<char> {
    model + ": "@ + trimmed(trimmed(reply, '"'), '*')
}

/// The session title made of `model` and its reply, once the reasoning is gone.
pub fn title_from_reply(model: &str, reply: &str) -> (title: String)
    ensures
        title@ == session_title(model@, reply@),
{
    let unquoted = trim_matches(reply, '"');
    let plain = trim_matches(unquoted.as_str(), '*');
    let mut title = joined(model, ": ");
    title.append(plain.as_str());
    title
}

/// Whether the status code `code` says that a request succeeded.
pub open spec fn is_success(code: u16) -> bool {
    200 <= code < 300
}

/// Whether the model server's status says that it accepted a request. A
/// reply with any other status is not read: it is an error.
pub fn succeeded(code: u16) -> (accepted: bool)
    ensures
        accepted == is_success(code),
{
    200 <= code && code < 300
}

/// How the exchange that asks the model for a title ended.
#[derive(Debug, Clone, PartialEq, Eq)]
pub enum TitleExchange {
    /// The request could not be sent; the text says why.
    SendFailed(String),
    /// The model server answered with a status other than success: its code,
    /// and the status as it is shown.
    Refused { code: u16, status: String },
    /// Reading the reply failed; the text says why.
    ReadFailed(String),
    /// The reply was read to its end; the text is what its lines carried.
    Completed(String),
}

/// The title, or the error text, that an exchange yields for `model`, given
/// what stripping the reasoning from a completed reply gave.
pub open spec fn title_outcome(
    model: Seq<char>,
    exchange: TitleExchange,
    stripped: Option<Seq<char>>,
) -> Result<Seq<char>, Seq<char>> {
    match exchange {
        TitleExchange::SendFailed(why) => Err("Failed to send request: "@ + why@),
        TitleExchange::Refused { status, .. } => Err("API call failed with status: "@ + status@),
        TitleExchange::ReadFailed(why) => Err("Error reading stream: "@ + why@),
        TitleExchange::Completed(_) => match stripped {
            Some(reply) => Ok(session_title(model, reply)),
            None => Err("Failed to build the reasoning pattern"@),
        },
    }
}

/// The transcript of an exchange, where it completed.
pub open spec fn reply_of(exchange: TitleExchange) -> Seq<char> {
    match exchange {
        TitleExchange::Completed(reply) => reply@,
        _ => Seq::empty(),
    }
}

/// The views of a title or an error text.
pub open spec fn outcome_view(outcome: Result<String, String>) -> Result<Seq<char>, Seq<char>> {
    match outcome {
        Ok(title) => Ok(title@),
        Err(why) => Err(why@),
    }
}

/// The session title that the exchange with `model` yields.
pub fn generate_session_title_with_ai(model: &str, exchange: &TitleExchange) -> (title: Result<
    String,
    String,
>)
    ensures
        outcome_view(title) == title_outcome(
            model@,
            *exchange,
            without_reasoning(reply_of(*exchange)),
        ),
{
    match exchange {
        TitleExchange::SendFailed(why) => Err(joined("Failed to send request: ", why.as_str())),
        TitleExchange::Refused { status, .. } => Err(
            joined("API call failed with status: ", status.as_str()),
        ),
        TitleExchange::ReadFailed(why) => Err(joined("Error reading stream: ", why.as_str())),
        TitleExchange::Completed(reply) => match strip_reasoning(reply.as_str()) {
            Some(kept) => Ok(title_from_reply(model, kept.as_str())),
            None => Err("Failed to build the reasoning pattern".to_owned()),
        },
    }
}

/// What one line of a chat reply carries: the text to append, if any, and
/// whether the reply is complete.
#[derive(Debug, Clone, PartialEq, Eq)]
pub struct ChatFragment {
    pub content: Option<String>,
    pub done: bool,
}

/// The text that `document` carries under `message.content`.
pub open spec fn content_of(document: Json) -> Option<Seq<char>> {
    match document.member("message"@) {
        Some(message) => match message.member("content"@) {
            Some(content) => content.text(),
            None => None,
        },
        None => None,
    }
}

/// Whether `document` says under `done` that the reply is complete.
pub open spec fn done_of(document: Json) -> bool {
    match document.member("done"@) {
        Some(done) => done.truth() == Some(true),
        None => false,
    }
}

/// The fragment that a parsed line of a chat reply holds.
pub fn chat_fragment(document: &Json) -> (fragment: ChatFragment)
    ensures
        fragment.done == done_of(*document),
        match fragment.content {
            Some(content) => content_of(*document) == Some(content@),
            None => content_of(*document) is None,
        },
{
    let content = match document.get("message") {
        Some(message) => match message.get("content") {
            Some(content) => match content.as_str() {
                Some(text) => Some(text.to_owned()),
                None => None,
            },
            None => None,
        },
        None => None,
    };
    let done = match document.get("done") {
        Some(done) => match done.as_bool() {
            Some(done) => done,
            None => false,
        },
        None => false,
    };
    ChatFragment { content, done }
}

/// The text after what `document` carries has been appended to `text`, and
/// whether the reply is complete. A line that is no JSON document changes
/// nothing.
pub open spec fn chat_text_with(text: Seq<char>, document: Option<Json>) -> (Seq<char>, bool) {
    match document {
        Some(document) => (
            match content_of(document) {
                Some(content) => text + content,
                None => text,
            },
            done_of(document),
        ),
        None => (text, false),
    }
}

/// Appends to `text` what one parsed line of a chat reply carries, and says
/// whether the reply is complete.
pub fn absorb_chat_document(text: &mut String, document: &Option<Json>) -> (done: bool)
    ensures
        (final(text)@, done) == chat_text_with(old(text)@, *document),
{
    match document {
        Some(document) => {
            let fragment = chat_fragment(document);
            match &fragment.content {
                Some(content) => {
                    text.append(content.as_str());
                },
                None => {},
            }
            fragment.done
        },
        None => false,
    }
}

/// The text after the lines of one chunk of a chat reply have been read in
/// turn, and whether one of them said that the reply is complete; nothing is
/// read after that line.
pub open spec fn chat_text_after(text: Seq<char>, lines: Seq<Seq<char>>) -> (Seq<char>, bool)
    decreases lines.len(),
{
    if lines.len() == 0 {
        (text, false)
    } else {
        let (grown, done) = chat_text_with(text, document_in(lines.first()));
        if done {
            (grown, true)
        } else {
            chat_text_after(grown, lines.drop_first())
        }
    }
}

/// Appends to `text` what one chunk of a chat reply carries, and says whether
/// the reply is complete.
pub fn absorb_chat_chunk(text: &mut String, bytes: &[u8]) -> (done: bool)
    ensures
        (final(text)@, done) == chat_text_after(old(text)@, lines_of(utf8_lossy(bytes@))),
{
    let lines = chunk_lines(bytes);
    let ghost all = views_of(lines@);
    let mut i: usize = 0;
    proof {
        assert(all.skip(0) == all);
    }
    while i < lines.len()
        invariant
            i <= lines.len(),
            all == views_of(lines@),
            all == lines_of(utf8_lossy(bytes@)),
            chat_text_after(old(text)@, all) == chat_text_after(text@, all.skip(i as int)),
        decreases lines.len() - i,
    {
        proof {
            assert(all.skip(i as int).first() == lines@[i as int]@);
            assert(all.skip(i as int).drop_first() == all.skip(i + 1));
        }
        let document = match from_str(lines[i].as_str()) {
            Ok(document) => Some(document),
            Err(_) => None,
        };
        if absorb_chat_document(text, &document) {
            return true;
        }
        i += 1;
    }
    false
}

/// The names under `models` in the catalogue `document`: of each entry of that
/// list its `name`, where it has one that is a string. `None` where `models`
/// is no list.
pub open spec fn names_in(document: Json) -> Option<Seq<Seq<char>>> {
    match document.member("models"@) {
        Some(models) => match models.items() {
            Some(entries) => Some(names_of(entries)),
            None => None,
        },
        None => None,
    }
}

/// Of each of `entries` its `name`, where it has one that is a string.
pub open spec fn names_of(entries: Seq<Json>) -> Seq<Seq<char>>
    decreases entries.len(),
{
    if entries.len() == 0 {
        Seq::empty()
    } else {
        let rest = names_of(entries.drop_last());
        match entries.last().member("name"@) {
            Some(name) => match name.text() {
                Some(name) => rest.push(name),
                None => rest,
            },
            None => rest,
        }
    }
}

/// The names of the models that the catalogue lists.
pub fn model_names(document: &Json) -> (names: Option<Vec<String>>)
    ensures
        match names {
            Some(names) => names_in(*document) == Some(views_of(names@)),
            None => names_in(*document) is None,
        },
{
    let entries = match document.get("models") {
        Some(models) => match models.as_array() {
            Some(entries) => entries,
            None => {
                return None;
            },
        },
        None => {
            return None;
        },
    };
    let mut names: Vec<String> = Vec::new();
    let mut i: usize = 0;
    while i < entries.len()
        invariant
            i <= entries.len(),
            views_of(names@) == names_of(entries@.take(i as int)),
        decreases entries.len() - i,
    {
        proof {
            assert(entries@.take(i + 1).drop_last() == entries@.take(i as int));
        }
        match entries[i].get("name") {
            Some(name) => match name.as_str() {
                Some(name) => {
                    let name = name.to_owned();
                    proof {
                        assert(views_of(names@.push(name)) == views_of(names@).push(name@));
                    }
                    names.push(name);
                },
                None => {},
            },
            None => {},
        }
        i += 1;
    }
    proof {
        assert(entries@.take(entries.len() as int) == entries@);
    }
    Some(names)
}

/// Why the list of models could not be read.
#[derive(Debug, Clone, PartialEq, Eq)]
pub enum CatalogueError {
    /// The reply is no JSON document; the text is what the parser reported.
    Malformed(String),
    /// The reply holds no list under `models`.
    NoList,
}

/// The names of the models in the body of the server's catalogue reply.
pub fn fetch_models(body: &str) -> (names: Result<Vec<String>, CatalogueError>)
    ensures
        match names {
            Ok(names) => json_document(body@) matches Ok(document) && names_in(document) == Some(
                views_of(names@),
            ),
            Err(CatalogueError::Malformed(why)) => json_document(body@) == Err::<Json, _>(why@),
            Err(CatalogueError::NoList) => json_document(body@) matches Ok(document) && names_in(
                document,
            ) is None,
        },
{
    match from_str(body) {
        Ok(document) => match model_names(&document) {
            Some(names) => Ok(names),
            None => Err(CatalogueError::NoList),
        },
        Err(why) => Err(CatalogueError::Malformed(why)),
    }
}

} // verus!
