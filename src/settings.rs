use vstd::prelude::*;

verus! {

/// The options a run is started with, as given on the command line.
#[derive(Debug, Clone)]
pub struct Args {
    /// Target: a URL, optionally preceded by an HTTP method and whitespace.
    pub target: String,
    /// Path of the file whose content is sent as the request body.
    pub request_body: Option<String>,
    /// Number of concurrent clients.
    pub clients: usize,
    /// Total number of iterations.
    pub iterations: usize,
}

/// The HTTP methods a target may name.
#[derive(Debug, Clone, Copy, PartialEq, Eq, Structural)]
pub enum Operation {
    Get,
    Post,
    Head,
    Patch,
    Put,
    Delete,
}

/// A finished run configuration, read-only once built.
#[derive(Debug, Clone)]
pub struct Settings {
    /// Number of concurrent clients (lanes).
    pub clients: usize,
    /// Total number of requests asked for.
    pub requests: usize,
    /// Target as given: a URL, optionally preceded by a method.
    pub target: String,
    /// TCP keep-alive interval in milliseconds, if any.
    pub keep_alive: Option<u64>,
    /// Request body, sent as JSON with every request.
    pub body: Option<String>,
}

/// The whitespace-separated words of a text, as `str::split_whitespace` yields them.
pub uninterp spec fn words_of(s: Seq<char>) -> Seq<Seq<char>>;

/// A text in upper case, as `str::to_uppercase` produces it.
pub uninterp spec fn upper_of(s: Seq<char>) -> Seq<char>;

/// Relies on `str::split_whitespace`: the words of `s`, in order, which
/// depend on the characters of `s` alone.
#[verifier::external_body]
fn split_words(s: &str) -> (r: Vec<String>)
    ensures
        r@.map_values(|w: String| w@) == words_of(s@),
{
    s.split_whitespace().map(|w| w.to_string()).collect()
}

/// Relies on `str::to_uppercase`: the upper-case form of `s`, which depends
/// on the characters of `s` alone.
#[verifier::external_body]
fn uppercase(s: &str) -> (r: String)
    ensures
        r@ == upper_of(s@),
{
    s.to_uppercase()
}

/// The method an upper-case token names; any other token falls back to `Get`.
pub open spec fn token_operation(t: Seq<char>) -> Operation {
    if t == "POST"@ {
        Operation::Post
    } else if t == "HEAD"@ {
        Operation::Head
    } else if t == "PATCH"@ {
        Operation::Patch
    } else if t == "PUT"@ {
        Operation::Put
    } else if t == "DELETE"@ {
        Operation::Delete
    } else {
        Operation::Get
    }
}

/// The method selected by the words of a target: the first word, upper-cased,
/// when there are at least two words; `Get` otherwise.
pub open spec fn words_operation(words: Seq<Seq<char>>) -> Operation {
    if words.len() >= 2 {
        token_operation(upper_of(words[0]))
    } else {
        Operation::Get
    }
}

/// The URL among the words of a target: the only word, or the second one
/// when a method precedes it; empty when there is no word.
pub open spec fn words_url(words: Seq<Seq<char>>) -> Seq<char> {
    if words.len() == 0 {
        Seq::empty()
    } else if words.len() == 1 {
        words[0]
    } else {
        words[1]
    }
}

/// The views of a list of strings.
pub open spec fn texts(v: Seq<String>) -> Seq<Seq<char>> {
    v.map_values(|w: String| w@)
}

/// Whether two texts hold the same characters.
fn same_text(a: &str, b: &str) -> (r: bool)
    ensures
        r == (a@ == b@),
{
    let x = a.to_owned();
    let y = b.to_owned();
    x == y
}

impl Operation {
    /// The method an upper-case token names: `GET`, `POST`, `HEAD`, `PATCH`,
    /// `PUT` or `DELETE`; any other token gives `Get`.
    pub fn from_token(token: &str) -> (r: Operation)
        ensures
            r == token_operation(token@),
    {
        if same_text(token, "POST") {
            Operation::Post
        } else if same_text(token, "HEAD") {
            Operation::Head
        } else if same_text(token, "PATCH") {
            Operation::Patch
        } else if same_text(token, "PUT") {
            Operation::Put
        } else if same_text(token, "DELETE") {
            Operation::Delete
        } else {
            Operation::Get
        }
    }
}

/// The method selected by the words of a target.
pub fn operation_from_words(words: &Vec<String>) -> (r: Operation)
    ensures
        r == words_operation(texts(words@)),
{
    if words.len() < 2 {
        Operation::Get
    } else {
        let up = uppercase(words[0].as_str());
        Operation::from_token(up.as_str())
    }
}

/// The URL among the words of a target.
pub fn url_from_words(words: &Vec<String>) -> (r: String)
    ensures
        r@ == words_url(texts(words@)),
{
    if words.len() == 0 {
        String::new()
    } else if words.len() == 1 {
        words[0].clone()
    } else {
        words[1].clone()
    }
}

impl Settings {
    /// Requests each client issues: the total divided by the number of
    /// clients, the remainder being dropped.
    pub fn requests_by_client(&self) -> (r: usize)
        requires
            self.clients > 0,
        ensures
            r == self.requests / self.clients,
    {
        self.requests / self.clients
    }

    /// Settings from the command-line options and the body read from the
    /// file they name, with no keep-alive.
    pub fn from_args(args: Args, body: Option<String>) -> (r: Settings)
        ensures
            r.clients == args.clients,
            r.requests == args.iterations,
            r.target == args.target,
            r.keep_alive is None,
            r.body == body,
    {
        Settings {
            clients: args.clients,
            requests: args.iterations,
            target: args.target,
            keep_alive: None,
            body,
        }
    }

    /// The method the target names; `Get` when it names none or an unknown one.
    pub fn operation(&self) -> (r: Operation)
        ensures
            r == words_operation(words_of(self.target@)),
    {
        let words = split_words(self.target.as_str());
        operation_from_words(&words)
    }

    /// The target's URL, without the method that may precede it.
    pub fn target(&self) -> (r: String)
        ensures
            r@ == words_url(words_of(self.target@)),
    {
        let words = split_words(self.target.as_str());
        url_from_words(&words)
    }
}

} // verus!
