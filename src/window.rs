use vstd::prelude::*;
use crate::counter::{is_request_run, lemma_run_numbers, successor, WindowCounter};
use crate::label::{label_text, lemma_label_injective, title_text, window_label, window_title};

verus! {

#[verifier::external_type_specification]
#[verifier::external_body]
pub struct ExUrl(url::Url);

/// What parsing `s` as an absolute URL gives: the URL's serialization, or
/// the parser's description of why `s` is not one.
pub uninterp spec fn url_parsed(s: Seq<char>) -> Result<Seq<char>, Seq<char>>;

/// Relies on `url::Url::parse`, which `str::parse` into `tauri::Url` calls:
/// an absolute URL, with `Url::as_str` as its serialization, or a
/// `ParseError` shown through its `Display`. Either depends on `s` alone.
#[verifier::external_body]
fn parse_absolute_url(s: &str) -> (r: Result<(url::Url, String), String>)
    ensures
        match r {
            Ok((_, href)) => url_parsed(s@) == Ok::<Seq<char>, Seq<char>>(href@),
            Err(why) => url_parsed(s@) == Err::<Seq<char>, Seq<char>>(why@),
        },
{
    match url::Url::parse(s) {
        Ok(u) => {
            let href = u.as_str().to_string();
            Ok((u, href))
        },
        Err(e) => Err(e.to_string()),
    }
}

/// Parses `s` as an absolute URL: the URL with its serialization, or the
/// parser's description of why `s` is not one.
pub fn parse_url(s: &str) -> (r: Result<(url::Url, String), String>)
    ensures
        match r {
            Ok((_, href)) => url_parsed(s@) == Ok::<Seq<char>, Seq<char>>(href@),
            Err(why) => url_parsed(s@) == Err::<Seq<char>, Seq<char>>(why@),
        },
{
    parse_absolute_url(s)
}

/// The initial width of a secondary window, in logical units.
pub const WINDOW_WIDTH: u32 = 1200;

/// The initial height of a secondary window, in logical units.
pub const WINDOW_HEIGHT: u32 = 800;

/// Why a secondary window could not be opened.
#[derive(Debug)]
pub enum OpenError {
    /// The URL did not parse; the parser's description.
    InvalidUrl(String),
    /// The platform did not create the window; its description.
    WindowCreationFailed(String),
}

/// The text shown to the embedded page for `e`.
pub open spec fn error_text(e: OpenError) -> Seq<char> {
    match e {
        OpenError::InvalidUrl(why) => "Invalid URL: "@ + why@,
        OpenError::WindowCreationFailed(why) => "Failed to create window: "@ + why@,
    }
}

impl OpenError {
    /// The text shown to the embedded page for this error.
    pub fn message(&self) -> (r: String)
        ensures
            r@ == error_text(*self),
    {
        match self {
            OpenError::InvalidUrl(why) => {
                let mut r = String::from_str("Invalid URL: ");
                r.append(why.as_str());
                r
            },
            OpenError::WindowCreationFailed(why) => {
                let mut r = String::from_str("Failed to create window: ");
                r.append(why.as_str());
                r
            },
        }
    }
}

/// A secondary window to be created: where it loads from, what it is
/// called and how it is shaped.
#[derive(Debug)]
pub struct ResearchWindow {
    /// The unique internal label of the window.
    pub label: String,
    /// The title the window displays.
    pub title: String,
    /// The external URL the window loads.
    pub url: url::Url,
    /// The serialization of `url`.
    pub href: String,
    /// The initial width, in logical units.
    pub width: u32,
    /// The initial height, in logical units.
    pub height: u32,
    /// Whether the user may resize the window.
    pub resizable: bool,
}

/// `w` is the window for sequence number `n`, URL serialization `href` and
/// title `title`.
pub open spec fn is_window_for(w: ResearchWindow, n: u64, href: Seq<char>, title: Seq<char>) -> bool {
    &&& w.label@ == label_text(n)
    &&& w.title@ == title_text(title)
    &&& w.href@ == href
    &&& w.width == WINDOW_WIDTH
    &&& w.height == WINDOW_HEIGHT
    &&& w.resizable
}

/// `r` is what opening a window with sequence number `n` and title `title`
/// gives once the URL parsed to `parsed`: the window, or the parser's
/// complaint as an invalid URL.
pub open spec fn is_outcome_for(
    r: Result<ResearchWindow, OpenError>,
    n: u64,
    parsed: Result<Seq<char>, Seq<char>>,
    title: Seq<char>,
) -> bool {
    match parsed {
        Ok(href) => r is Ok && is_window_for(r->Ok_0, n, href, title),
        Err(why) => match r {
            Err(OpenError::InvalidUrl(w)) => w@ == why,
            _ => false,
        },
    }
}

/// The window for sequence number `sequence` and `title`, given what parsing
/// its URL gave: the URL with its serialization, or the parser's complaint.
pub fn research_window(
    sequence: u64,
    parsed: Result<(url::Url, String), String>,
    title: &str,
) -> (r: Result<ResearchWindow, OpenError>)
    ensures
        parsed is Ok ==> r is Ok && r->Ok_0.url == parsed->Ok_0.0,
        is_outcome_for(
            r,
            sequence,
            match parsed {
                Ok((_, href)) => Ok::<Seq<char>, Seq<char>>(href@),
                Err(why) => Err::<Seq<char>, Seq<char>>(why@),
            },
            title@,
        ),
{
    match parsed {
        Ok((url, href)) => Ok(
            ResearchWindow {
                label: window_label(sequence),
                title: window_title(title),
                url,
                href,
                width: WINDOW_WIDTH,
                height: WINDOW_HEIGHT,
                resizable: true,
            },
        ),
        Err(why) => Err(OpenError::InvalidUrl(why)),
    }
}

/// Takes the next sequence number from `counter` and prepares the secondary
/// window that loads `url` under `title`. The number is taken whether or not
/// `url` parses. The window loads the very URL that `parse_url` gave for `url`.
pub fn plan_research_window(
    counter: &mut WindowCounter,
    url: &str,
    title: &str,
) -> (r: Result<ResearchWindow, OpenError>)
    ensures
        final(counter)@ == successor(old(counter)@),
        is_outcome_for(r, old(counter)@, url_parsed(url@), title@),
        r is Ok ==> exists|h: String|
            h@ == r->Ok_0.href@ && call_ensures(
                parse_url,
                (url,),
                Ok::<(url::Url, String), String>((r->Ok_0.url, h)),
            ),
{
    let sequence = counter.next_sequence();
    let parsed = parse_url(url);
    let ghost given = parsed;
    let r = research_window(sequence, parsed, title);
    proof {
        if r is Ok {
            let h = given->Ok_0.1;
            assert(given == Ok::<(url::Url, String), String>((r->Ok_0.url, h)));
        }
    }
    r
}

/// Unique window labels: on a run of at most 2^64 successive requests on one
/// counter, whatever it stood at, the requests get pairwise distinct labels.
/// Request `i` takes `states[i]`, and its window is labelled
/// `label_text(states[i])`.
pub proof fn lemma_labels_unique(states: Seq<u64>)
    requires
        is_request_run(states),
        states.len() <= 0x1_0000_0000_0000_0001,
    ensures
        forall|i: int, j: int|
            0 <= i < states.len() - 1 && 0 <= j < states.len() - 1 && i != j ==> label_text(
                states[i],
            ) != label_text(states[j]),
{
    lemma_run_numbers(states);
    assert forall|i: int, j: int|
        0 <= i < states.len() - 1 && 0 <= j < states.len() - 1 && i != j implies label_text(
        states[i],
    ) != label_text(states[j]) by {
        if label_text(states[i]) == label_text(states[j]) {
            lemma_label_injective(states[i], states[j]);
        }
    }
}

} // verus!
