use vstd::prelude::*;
use serde_json::Value;
use crate::json::{as_list, as_text, json_of, list_of, member, member_of, parse_json, text_of};

verus! {

/// How many jokes the local fallback list holds.
pub const FALLBACK_JOKE_COUNT: usize = 10;

/// How many emojis a joke may be decorated with.
pub const JOKE_EMOJI_COUNT: usize = 18;

/// How many joke services there are, each with its own response format.
pub const JOKE_API_COUNT: usize = 3;

/// Why a joke service's response gave no joke.
#[derive(Clone, Copy, Debug, PartialEq, Eq, Structural)]
pub enum JokeError {
    InvalidJson,
    EmptyResponse,
    InvalidFormat,
    UnknownApi,
}

/// Joke `i` of the fallback list.
pub open spec fn fallback_joke_text(i: int) -> Seq<char> {
    if i == 0 {
        "Why do programmers prefer dark mode? Because light attracts bugs!"@
    } else if i == 1 {
        "Why did the developer go broke? Because he used up all his cache."@
    } else if i == 2 {
        "How many programmers does it take to change a light bulb? None, that's a hardware problem."@
    } else if i == 3 {
        "A SQL query walks into a bar, sees two tables and asks, 'Can I join you?'"@
    } else if i == 4 {
        "Debugging: Being the detective in a crime movie where you are also the murderer."@
    } else if i == 5 {
        "The best thing about a Boolean is that even if you're wrong, you're only off by a bit."@
    } else if i == 6 {
        "Programming is like writing a book... except if you miss a single comma on page 126, the whole thing makes no sense."@
    } else if i == 7 {
        "Why do Java developers wear glasses? Because they don't C#!"@
    } else if i == 8 {
        "Why was the JavaScript developer sad? Because he didn't Node how to Express himself."@
    } else {
        "I'd tell you a UDP joke, but you might not get it."@
    }
}

/// Emoji `i` of the decorations.
pub open spec fn emoji_text(i: int) -> Seq<char> {
    if i == 0 {
        "😂"@
    } else if i == 1 {
        "🤣"@
    } else if i == 2 {
        "😆"@
    } else if i == 3 {
        "😅"@
    } else if i == 4 {
        "😄"@
    } else if i == 5 {
        "😁"@
    } else if i == 6 {
        "🙂"@
    } else if i == 7 {
        "😉"@
    } else if i == 8 {
        "🤪"@
    } else if i == 9 {
        "🤓"@
    } else if i == 10 {
        "👨‍💻"@
    } else if i == 11 {
        "👩‍💻"@
    } else if i == 12 {
        "💻"@
    } else if i == 13 {
        "⌨️"@
    } else if i == 14 {
        "🖥️"@
    } else if i == 15 {
        "🐛"@
    } else if i == 16 {
        "🔧"@
    } else {
        "🛠️"@
    }
}

/// Relies on `random_number::random_ranged` over `0..n`: a value drawn from the range,
/// which it needs to be non-empty.
#[verifier::external_body]
fn random_below(n: usize) -> (r: usize)
    requires
        n > 0,
    ensures
        r < n,
{
    random_number::random_ranged(0..n)
}

/// Joke `i` of the fallback list.
pub fn fallback_joke(i: usize) -> (r: String)
    requires
        i < FALLBACK_JOKE_COUNT,
    ensures
        r@ == fallback_joke_text(i as int),
{
    String::from_str(
        if i == 0 {
            "Why do programmers prefer dark mode? Because light attracts bugs!"
        } else if i == 1 {
            "Why did the developer go broke? Because he used up all his cache."
        } else if i == 2 {
            "How many programmers does it take to change a light bulb? None, that's a hardware problem."
        } else if i == 3 {
            "A SQL query walks into a bar, sees two tables and asks, 'Can I join you?'"
        } else if i == 4 {
            "Debugging: Being the detective in a crime movie where you are also the murderer."
        } else if i == 5 {
            "The best thing about a Boolean is that even if you're wrong, you're only off by a bit."
        } else if i == 6 {
            "Programming is like writing a book... except if you miss a single comma on page 126, the whole thing makes no sense."
        } else if i == 7 {
            "Why do Java developers wear glasses? Because they don't C#!"
        } else if i == 8 {
            "Why was the JavaScript developer sad? Because he didn't Node how to Express himself."
        } else {
            "I'd tell you a UDP joke, but you might not get it."
        }
    )
}

fn emoji(i: usize) -> (r: &'static str)
    requires
        i < JOKE_EMOJI_COUNT,
    ensures
        r@ == emoji_text(i as int),
{
    if i == 0 {
        "😂"
    } else if i == 1 {
        "🤣"
    } else if i == 2 {
        "😆"
    } else if i == 3 {
        "😅"
    } else if i == 4 {
        "😄"
    } else if i == 5 {
        "😁"
    } else if i == 6 {
        "🙂"
    } else if i == 7 {
        "😉"
    } else if i == 8 {
        "🤪"
    } else if i == 9 {
        "🤓"
    } else if i == 10 {
        "👨‍💻"
    } else if i == 11 {
        "👩‍💻"
    } else if i == 12 {
        "💻"
    } else if i == 13 {
        "⌨️"
    } else if i == 14 {
        "🖥️"
    } else if i == 15 {
        "🐛"
    } else if i == 16 {
        "🔧"
    } else {
        "🛠️"
    }
}

/// A joke followed by a space and emoji `i`.
pub fn joke_with_emoji(joke: &str, i: usize) -> (r: String)
    requires
        i < JOKE_EMOJI_COUNT,
    ensures
        r@ == joke@ + " "@ + emoji_text(i as int),
{
    let mut s = String::from_str(joke);
    s.append(" ");
    s.append(emoji(i));
    s
}

/// A joke followed by a space and an emoji picked at random.
pub fn add_emoji_to_joke(joke: &str) -> (r: String)
    ensures
        exists|i: int| 0 <= i < JOKE_EMOJI_COUNT && r@ == joke@ + " "@ + emoji_text(i),
{
    let i = random_below(JOKE_EMOJI_COUNT);
    joke_with_emoji(joke, i)
}

/// A joke of the fallback list, picked at random.
pub fn get_fallback_joke() -> (r: String)
    ensures
        exists|i: int| 0 <= i < FALLBACK_JOKE_COUNT && r@ == fallback_joke_text(i),
{
    let i = random_below(FALLBACK_JOKE_COUNT);
    fallback_joke(i)
}

/// A set-up and its punch line as one joke; both must be there.
pub fn joke_from_parts(setup: &str, punchline: &str) -> (r: Result<String, JokeError>)
    ensures
        setup@.len() > 0 && punchline@.len() > 0 ==> (r matches Ok(j) && j@ == setup@ + " "@
            + punchline@),
        !(setup@.len() > 0 && punchline@.len() > 0) ==> r == Err::<String, JokeError>(
            JokeError::InvalidFormat,
        ),
{
    if setup.unicode_len() > 0 && punchline.unicode_len() > 0 {
        let mut s = String::from_str(setup);
        s.append(" ");
        s.append(punchline);
        Ok(s)
    } else {
        Err(JokeError::InvalidFormat)
    }
}

/// The text of member `key` of `v`, empty where there is none.
pub open spec fn member_text(v: Value, key: Seq<char>) -> Seq<char> {
    match member_of(v, key) {
        Some(m) => match text_of(m) {
            Some(t) => t,
            None => Seq::empty(),
        },
        None => Seq::empty(),
    }
}

/// The joke that service `api_index` answered with `text`.
pub open spec fn joke_of(api_index: int, text: Seq<char>) -> Result<Seq<char>, JokeError> {
    if api_index >= JOKE_API_COUNT {
        Err(JokeError::UnknownApi)
    } else {
        match json_of(text) {
            None => Err(JokeError::InvalidJson),
            Some(v) => if api_index == 0 {
                match list_of(v) {
                    None => Err(JokeError::InvalidJson),
                    Some(items) => if items.len() == 0 {
                        Err(JokeError::EmptyResponse)
                    } else {
                        let setup = member_text(items[0], "setup"@);
                        let punchline = member_text(items[0], "punchline"@);
                        if setup.len() > 0 && punchline.len() > 0 {
                            Ok(setup + " "@ + punchline)
                        } else {
                            Err(JokeError::InvalidFormat)
                        }
                    },
                }
            } else {
                let joke = match member_of(v, "joke"@) {
                    Some(m) => text_of(m),
                    None => None,
                };
                match joke {
                    Some(t) => Ok(t),
                    None => if api_index == 1 {
                        Err(JokeError::InvalidFormat)
                    } else {
                        Err(JokeError::InvalidJson)
                    },
                }
            },
        }
    }
}

fn text_member(v: &Value, key: &str) -> (r: String)
    ensures
        r@ == member_text(*v, key@),
{
    match member(v, key) {
        Some(m) => match as_text(m) {
            Some(t) => String::from_str(t),
            None => String::new(),
        },
        None => String::new(),
    }
}

/// Reads the joke out of the response of joke service `api_index`: the first item's
/// set-up and punch line of an array, the `joke` member of an object, or the `joke`
/// member of a record.
pub fn parse_joke_response(api_index: usize, text: &str) -> (r: Result<String, JokeError>)
    ensures
        match joke_of(api_index as int, text@) {
            Ok(j) => r matches Ok(s) && s@ == j,
            Err(e) => r == Err::<String, JokeError>(e),
        },
{
    if api_index >= JOKE_API_COUNT {
        return Err(JokeError::UnknownApi);
    }
    let value = match parse_json(text) {
        Some(v) => v,
        None => return Err(JokeError::InvalidJson),
    };
    if api_index == 0 {
        let items = match as_list(&value) {
            Some(items) => items,
            None => return Err(JokeError::InvalidJson),
        };
        if items.len() == 0 {
            return Err(JokeError::EmptyResponse);
        }
        let setup = text_member(&items[0], "setup");
        let punchline = text_member(&items[0], "punchline");
        joke_from_parts(setup.as_str(), punchline.as_str())
    } else {
        let joke = match member(&value, "joke") {
            Some(m) => as_text(m),
            None => None,
        };
        match joke {
            Some(t) => Ok(String::from_str(t)),
            None => if api_index == 1 {
                Err(JokeError::InvalidFormat)
            } else {
                Err(JokeError::InvalidJson)
            },
        }
    }
}

} // verus!
