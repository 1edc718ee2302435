use vstd::prelude::*;

use crate::error::ClientError;
use crate::text::{
    ascii_upper, ascii_uppercase, chars_of, contains_seq, contains_text, decimal, decimal_seq,
    holds_text, same_text, seq_holds,
};

verus! {

broadcast use vstd::string::group_string_axioms;

/// The CSS selector of the message list entry with id `id`.
pub open spec fn selector_of(id: Seq<char>) -> Seq<char> {
    "[data-convid=\""@ + id + "\"]"@
}

/// Build a CSS selector for a message by ID
pub fn message_selector(id: &str) -> (r: String)
    ensures
        r@ == selector_of(id@),
{
    let mut r = "[data-convid=\"".to_owned();
    r.append(id);
    r.append("\"]");
    r
}

/// The address at which the browser describes its debugging endpoint.
pub fn version_url(port: u16) -> (r: String)
    ensures
        r@ == "http://127.0.0.1:"@ + decimal_seq(port as nat) + "/json/version"@,
{
    let mut r = "http://127.0.0.1:".to_owned();
    r.append(decimal(port as u64).as_str());
    r.append("/json/version");
    r
}

/// The command-line flag that opens the browser's debugging port.
pub fn debugging_flag(port: u16) -> (r: String)
    ensures
        r@ == "--remote-debugging-port="@ + decimal_seq(port as nat),
{
    let mut r = "--remote-debugging-port=".to_owned();
    r.append(decimal(port as u64).as_str());
    r
}

/// The browsers tried, each with the places its executable may be, in
/// order of preference.
pub open spec fn candidate_table() -> Seq<(Seq<char>, Seq<char>)> {
    seq![
        ("Vivaldi"@, "/usr/bin/vivaldi"@),
        ("Vivaldi"@, "/usr/bin/vivaldi-stable"@),
        ("Vivaldi"@, "/opt/vivaldi/vivaldi"@),
        ("Vivaldi"@, "/Applications/Vivaldi.app/Contents/MacOS/Vivaldi"@),
        ("Chromium"@, "/usr/bin/chromium"@),
        ("Chromium"@, "/usr/bin/chromium-browser"@),
        ("Chromium"@, "/snap/bin/chromium"@),
        ("Chromium"@, "/Applications/Chromium.app/Contents/MacOS/Chromium"@),
        ("Chrome"@, "/usr/bin/google-chrome"@),
        ("Chrome"@, "/usr/bin/google-chrome-stable"@),
        ("Chrome"@, "/opt/google/chrome/google-chrome"@),
        ("Chrome"@, "/Applications/Google Chrome.app/Contents/MacOS/Google Chrome"@),
    ]
}

/// The view of a (name, path) pair of string slices.
pub open spec fn pair_view(p: (&str, &str)) -> (Seq<char>, Seq<char>) {
    (p.0@, p.1@)
}

/// Browser executable paths to try, in order of preference, each with the
/// browser's name.
pub fn browser_candidates() -> (r: Vec<(&'static str, &'static str)>)
    ensures
        r@.len() == candidate_table().len(),
        forall|i: int| 0 <= i < r@.len() ==> pair_view(#[trigger] r@[i]) == candidate_table()[i],
{
    let r = vec![
        ("Vivaldi", "/usr/bin/vivaldi"),
        ("Vivaldi", "/usr/bin/vivaldi-stable"),
        ("Vivaldi", "/opt/vivaldi/vivaldi"),
        ("Vivaldi", "/Applications/Vivaldi.app/Contents/MacOS/Vivaldi"),
        ("Chromium", "/usr/bin/chromium"),
        ("Chromium", "/usr/bin/chromium-browser"),
        ("Chromium", "/snap/bin/chromium"),
        ("Chromium", "/Applications/Chromium.app/Contents/MacOS/Chromium"),
        ("Chrome", "/usr/bin/google-chrome"),
        ("Chrome", "/usr/bin/google-chrome-stable"),
        ("Chrome", "/opt/google/chrome/google-chrome"),
        ("Chrome", "/Applications/Google Chrome.app/Contents/MacOS/Google Chrome"),
    ];
    assert(r@.map_values(|p: (&str, &str)| pair_view(p)) =~= candidate_table());
    assert forall|i: int| 0 <= i < r@.len() implies pair_view(#[trigger] r@[i])
        == candidate_table()[i] by {
        assert(r@.map_values(|p: (&str, &str)| pair_view(p))[i] == pair_view(r@[i]));
    }
    r
}

/// `i` is the first index below the length of both sequences at which the
/// executable is present.
pub open spec fn first_present(available: Seq<bool>, i: int) -> bool {
    &&& 0 <= i < candidate_table().len()
    &&& i < available.len()
    &&& available[i]
    &&& forall|j: int| 0 <= j < i ==> !available[j]
}

/// Find the first available browser executable, given for each entry of
/// `browser_candidates()` whether its path exists (entries beyond the end of
/// `available` count as absent).
pub fn find_browser(available: &Vec<bool>) -> (r: Option<(&'static str, &'static str)>)
    ensures
        r is None <==> forall|i: int|
            0 <= i < candidate_table().len() && i < available@.len() ==> !available@[i],
        r matches Some(c) ==> exists|i: int|
            first_present(available@, i) && pair_view(c) == candidate_table()[i],
{
    let candidates = browser_candidates();
    let mut i: usize = 0;
    while i < candidates.len() && i < available.len()
        invariant
            candidates@.len() == candidate_table().len(),
            forall|k: int|
                0 <= k < candidates@.len() ==> pair_view(#[trigger] candidates@[k])
                    == candidate_table()[k],
            i <= candidates@.len(),
            forall|j: int| 0 <= j < i && j < available@.len() ==> !available@[j],
        decreases candidates@.len() - i,
    {
        if available[i] {
            let c = candidates[i];
            assert(first_present(available@, i as int));
            return Some(c);
        }
        i = i + 1;
    }
    None
}

/// `name` is what follows the last `/` of `path` (all of it where it has none).
pub open spec fn is_last_segment(path: Seq<char>, name: Seq<char>) -> bool {
    exists|k: int|
        0 <= k <= path.len() && (k == 0 || path[k - 1] == '/') && (forall|j: int|
            k <= j < path.len() ==> path[j] != '/') && name == path.subrange(k, path.len() as int)
}

/// The last component of a path: the name a running executable is listed by.
pub fn file_name(path: &str) -> (r: String)
    ensures
        is_last_segment(path@, r@),
{
    let c = chars_of(path);
    let n = c.len();
    let mut k: usize = n;
    while k > 0 && c[k - 1] != '/'
        invariant
            c@ == path@,
            n == c@.len(),
            k <= n,
            forall|j: int| k <= j < n ==> c@[j] != '/',
        decreases k,
    {
        k = k - 1;
    }
    let r = path.substring_char(k, n).to_owned();
    assert(r@ == path@.subrange(k as int, n as int));
    r
}

/// The names that the candidate browsers' processes run under.
pub fn process_names() -> (r: Vec<String>)
    ensures
        r@.len() == candidate_table().len(),
        forall|i: int| 0 <= i < r@.len() ==> is_last_segment(candidate_table()[i].1, #[trigger] r@[i]@),
{
    let candidates = browser_candidates();
    let mut r: Vec<String> = Vec::new();
    let mut i: usize = 0;
    while i < candidates.len()
        invariant
            candidates@.len() == candidate_table().len(),
            forall|k: int|
                0 <= k < candidates@.len() ==> pair_view(#[trigger] candidates@[k])
                    == candidate_table()[k],
            i <= candidates@.len(),
            r@.len() == i,
            forall|k: int| 0 <= k < i ==> is_last_segment(candidate_table()[k].1, #[trigger] r@[k]@),
        decreases candidates@.len() - i,
    {
        let (_, path) = candidates[i];
        assert(pair_view(candidates@[i as int]) == candidate_table()[i as int]);
        r.push(file_name(path));
        i = i + 1;
    }
    r
}

/// The address is one of the webmail's.
pub open spec fn is_outlook(url: Seq<char>) -> bool {
    ||| contains_seq(url, "outlook.office.com"@)
    ||| contains_seq(url, "outlook.live.com"@)
    ||| contains_seq(url, "outlook.office365.com"@)
}

/// Whether a tab's address is one of the webmail's.
pub fn is_outlook_url(url: &str) -> (r: bool)
    ensures
        r == is_outlook(url@),
{
    contains_text(url, "outlook.office.com") || contains_text(url, "outlook.live.com")
        || contains_text(url, "outlook.office365.com")
}

/// The tab at index `i` has a known webmail address.
pub open spec fn is_mail_tab(urls: Seq<Option<String>>, i: int) -> bool {
    urls[i] matches Some(u) && is_outlook(u@)
}

/// The first tab, by its address (`None` where it could not be read), that
/// shows the webmail.
pub fn first_outlook_page(urls: &Vec<Option<String>>) -> (r: Option<usize>)
    ensures
        r is None <==> forall|i: int| 0 <= i < urls@.len() ==> !is_mail_tab(urls@, i),
        r matches Some(i) ==> i < urls@.len() && is_mail_tab(urls@, i as int) && forall|j: int|
            0 <= j < i ==> !is_mail_tab(urls@, j),
{
    let mut i: usize = 0;
    while i < urls.len()
        invariant
            i <= urls@.len(),
            forall|j: int| 0 <= j < i ==> !is_mail_tab(urls@, j),
        decreases urls@.len() - i,
    {
        match &urls[i] {
            Some(u) => {
                if is_outlook_url(u.as_str()) {
                    assert(is_mail_tab(urls@, i as int));
                    return Some(i);
                }
            },
            None => {},
        }
        i = i + 1;
    }
    None
}

/// One line of the tab listing: title, address, and a mark on webmail tabs.
pub fn page_line(title: &str, url: &str) -> (r: String)
    ensures
        r@ == "  "@ + title@ + " ["@ + url@ + "]"@ + if contains_seq(url@, "outlook"@) {
            " <-- Outlook"@
        } else {
            Seq::empty()
        },
{
    let mut r = "  ".to_owned();
    r.append(title);
    r.append(" [");
    r.append(url);
    r.append("]");
    if contains_text(url, "outlook") {
        r.append(" <-- Outlook");
    } else {
        assert(r@ =~= r@ + Seq::<char>::empty());
    }
    r
}

/// Pause after a click when the caller names none.
pub const CLICK_SETTLE_MS: u64 = 300;

/// Pause after a key press when the caller names none.
pub const KEY_SETTLE_MS: u64 = 500;

/// Pause that lets the tab load another folder.
pub const NAVIGATION_SETTLE_MS: u64 = 2000;

/// The pause asked for, or the one after a click.
pub fn settle_or_default(sleep_ms: Option<u64>) -> (r: u64)
    ensures
        r == match sleep_ms {
            Some(ms) => ms,
            None => CLICK_SETTLE_MS,
        },
{
    match sleep_ms {
        Some(ms) => ms,
        None => CLICK_SETTLE_MS,
    }
}

/// A key given as a single lower-case ASCII letter.
pub open spec fn is_letter_key(key: Seq<char>) -> bool {
    key.len() == 1 && 'a' <= key[0] && key[0] <= 'z'
}

/// The key code of a key: "Key" and the upper-case letter for a lower-case
/// letter, the key's own name for a named key ("Delete", "Escape").
pub open spec fn key_code_of(key: Seq<char>) -> Seq<char> {
    if is_letter_key(key) {
        "Key"@ + seq![ascii_upper(key[0])]
    } else {
        key
    }
}

/// The code that goes with a key in a keyboard event.
pub fn key_code(key: &str) -> (r: String)
    ensures
        r@ == key_code_of(key@),
{
    if key.unicode_len() == 1 {
        let c = key.get_char(0);
        if c >= 'a' && c <= 'z' {
            let mut r = "Key".to_owned();
            let upper = ascii_uppercase(key);
            r.append(upper.as_str());
            assert(upper@ =~= seq![ascii_upper(key@[0])]);
            return r;
        }
    }
    key.to_owned()
}

/// The modifier keys held during a key press.
#[derive(Clone, Copy, Debug, PartialEq, Eq, Structural)]
pub struct KeyModifiers {
    pub ctrl: bool,
    pub shift: bool,
    pub alt: bool,
    pub meta: bool,
}

impl KeyModifiers {
    /// The modifiers named among "Ctrl", "Shift", "Alt" and "Meta"; other
    /// names are ignored.
    pub fn from_names(names: &Vec<String>) -> (r: KeyModifiers)
        ensures
            r.ctrl == seq_holds(names@, "Ctrl"@),
            r.shift == seq_holds(names@, "Shift"@),
            r.alt == seq_holds(names@, "Alt"@),
            r.meta == seq_holds(names@, "Meta"@),
    {
        KeyModifiers {
            ctrl: holds_text(names, "Ctrl"),
            shift: holds_text(names, "Shift"),
            alt: holds_text(names, "Alt"),
            meta: holds_text(names, "Meta"),
        }
    }
}

/// A key press to send to the tab, and the pause after it.
pub struct KeyPress {
    pub key: String,
    pub code: String,
    pub modifiers: KeyModifiers,
    pub pause_ms: u64,
}

impl KeyPress {
    /// The key press for `key` with the modifiers named (none where
    /// `modifiers` is `None`), then a pause of `sleep_ms` (by default a
    /// short one).
    pub fn new(key: &str, modifiers: Option<&Vec<String>>, sleep_ms: Option<u64>) -> (r: KeyPress)
        ensures
            r.key@ == key@,
            r.code@ == key_code_of(key@),
            match modifiers {
                Some(names) => {
                    &&& r.modifiers.ctrl == seq_holds(names@, "Ctrl"@)
                    &&& r.modifiers.shift == seq_holds(names@, "Shift"@)
                    &&& r.modifiers.alt == seq_holds(names@, "Alt"@)
                    &&& r.modifiers.meta == seq_holds(names@, "Meta"@)
                },
                None => r.modifiers == KeyModifiers {
                    ctrl: false,
                    shift: false,
                    alt: false,
                    meta: false,
                },
            },
            r.pause_ms == match sleep_ms {
                Some(ms) => ms,
                None => KEY_SETTLE_MS,
            },
    {
        let modifiers = match modifiers {
            Some(names) => KeyModifiers::from_names(names),
            None => KeyModifiers { ctrl: false, shift: false, alt: false, meta: false },
        };
        let pause_ms = match sleep_ms {
            Some(ms) => ms,
            None => KEY_SETTLE_MS,
        };
        KeyPress { key: key.to_owned(), code: key_code(key), modifiers, pause_ms }
    }
}

/// The pause after asking the tab for its inbox: a load's worth where the
/// page script reports that it is navigating, none otherwise.
pub fn inbox_navigation_pause(status: &str) -> (r: u64)
    ensures
        r == if status@ == "navigating"@ {
            NAVIGATION_SETTLE_MS
        } else {
            0
        },
{
    if same_text(status, "navigating") {
        NAVIGATION_SETTLE_MS
    } else {
        0
    }
}

/// What the script that moves the tab to the junk folder reports: a
/// failure where the tab's address could not be read, else the pause to
/// take (a load's worth when it is navigating, none when it is there
/// already).
pub fn junk_navigation(status: &str) -> (r: Result<u64, ClientError>)
    ensures
        status@ == "failed"@ ==> r matches Err(ClientError::JunkNavigationFailed),
        status@ != "failed"@ ==> r == Ok::<u64, ClientError>(
            if status@ == "navigating"@ {
                NAVIGATION_SETTLE_MS
            } else {
                0
            },
        ),
{
    if same_text(status, "failed") {
        Err(ClientError::JunkNavigationFailed)
    } else if same_text(status, "navigating") {
        Ok(NAVIGATION_SETTLE_MS)
    } else {
        Ok(0)
    }
}

/// What the script that sends the tab to the junk folder before a message
/// is moved out of it reports: a failure where the address could not be
/// read, else a load's worth of pause.
pub fn junk_redirect(status: &str) -> (r: Result<u64, ClientError>)
    ensures
        status@ == "url_parse_failed"@ ==> r matches Err(ClientError::JunkNavigationFailed),
        status@ != "url_parse_failed"@ ==> r == Ok::<u64, ClientError>(NAVIGATION_SETTLE_MS),
{
    if same_text(status, "url_parse_failed") {
        Err(ClientError::JunkNavigationFailed)
    } else {
        Ok(NAVIGATION_SETTLE_MS)
    }
}

/// What a click on the element matching `selector` comes to: the pause to
/// take after it, or the element missing.
pub fn click_outcome(selector: &str, clicked: bool, sleep_ms: Option<u64>) -> (r: Result<
    u64,
    ClientError,
>)
    ensures
        clicked ==> r == Ok::<u64, ClientError>(
            match sleep_ms {
                Some(ms) => ms,
                None => CLICK_SETTLE_MS,
            },
        ),
        !clicked ==> (r matches Err(ClientError::ElementNotFound { selector: s }) && s@
            == selector@),
{
    if clicked {
        Ok(settle_or_default(sleep_ms))
    } else {
        Err(ClientError::ElementNotFound { selector: selector.to_owned() })
    }
}

/// What a click on the menu entry holding `text` comes to: the pause to
/// take after it, or the entry missing.
pub fn menu_item_outcome(text: &str, clicked: bool, sleep_ms: Option<u64>) -> (r: Result<
    u64,
    ClientError,
>)
    ensures
        clicked ==> r == Ok::<u64, ClientError>(
            match sleep_ms {
                Some(ms) => ms,
                None => CLICK_SETTLE_MS,
            },
        ),
        !clicked ==> (r matches Err(ClientError::MenuItemNotFound { text: t }) && t@ == text@),
{
    if clicked {
        Ok(settle_or_default(sleep_ms))
    } else {
        Err(ClientError::MenuItemNotFound { text: text.to_owned() })
    }
}

/// How many times a freshly started browser is asked for its debugging port.
pub const CONNECT_ATTEMPTS: u32 = 120;

/// Pause before each of those attempts.
pub const CONNECT_RETRY_MS: u64 = 500;

/// A step in reaching the browser.
#[derive(Clone, Copy, Debug, PartialEq, Eq, Structural)]
pub enum ConnectAction {
    /// Wait `delay_ms`, then try the debugging port; answer whether it
    /// answered.
    TryConnect { delay_ms: u64 },
    /// Answer whether a candidate browser runs.
    CheckRunning,
    /// Start the preferred browser with its debugging port open.
    StartBrowser,
}

/// Where reaching the browser stands.
#[derive(Debug)]
pub enum ConnectStage {
    FirstTry,
    CheckRunning,
    Starting,
    /// The `attempt`-th try after starting the browser is pending.
    Retrying { attempt: u32 },
    Finished(Result<(), ClientError>),
}

/// Reaches a browser on `port`: the one running already, or one started for
/// the purpose and then tried every half second for a minute. A browser that
/// runs with its port closed is not started again.
pub struct ConnectFlow {
    pub port: u16,
    pub stage: ConnectStage,
}

impl ConnectFlow {
    /// Only tries that can still come are pending.
    pub open spec fn wf(self) -> bool {
        self.stage matches ConnectStage::Retrying { attempt } ==> 1 <= attempt <= CONNECT_ATTEMPTS
    }

    /// The step pending in this state, or `None` once finished.
    pub open spec fn spec_pending(self) -> Option<ConnectAction> {
        match self.stage {
            ConnectStage::FirstTry => Some(ConnectAction::TryConnect { delay_ms: 0 }),
            ConnectStage::CheckRunning => Some(ConnectAction::CheckRunning),
            ConnectStage::Starting => Some(ConnectAction::StartBrowser),
            ConnectStage::Retrying { .. } => Some(
                ConnectAction::TryConnect { delay_ms: CONNECT_RETRY_MS },
            ),
            ConnectStage::Finished(_) => None,
        }
    }

    /// The state an answer leads to. Starting the browser answers nothing:
    /// any answer then leads to the first try.
    pub open spec fn spec_advance(self, answer: bool) -> ConnectFlow {
        let stage = match self.stage {
            ConnectStage::FirstTry => if answer {
                ConnectStage::Finished(Ok(()))
            } else {
                ConnectStage::CheckRunning
            },
            ConnectStage::CheckRunning => if answer {
                ConnectStage::Finished(Err(ClientError::DebuggingDisabled { port: self.port }))
            } else {
                ConnectStage::Starting
            },
            ConnectStage::Starting => ConnectStage::Retrying { attempt: 1 },
            ConnectStage::Retrying { attempt } => if answer {
                ConnectStage::Finished(Ok(()))
            } else if attempt >= CONNECT_ATTEMPTS {
                ConnectStage::Finished(Err(ClientError::ConnectTimeout))
            } else {
                ConnectStage::Retrying { attempt: (attempt + 1) as u32 }
            },
            ConnectStage::Finished(res) => ConnectStage::Finished(res),
        };
        ConnectFlow { port: self.port, stage }
    }

    /// How many answers are still to come at most.
    pub open spec fn steps_left(self) -> nat {
        match self.stage {
            ConnectStage::FirstTry => (CONNECT_ATTEMPTS + 3) as nat,
            ConnectStage::CheckRunning => (CONNECT_ATTEMPTS + 2) as nat,
            ConnectStage::Starting => (CONNECT_ATTEMPTS + 1) as nat,
            ConnectStage::Retrying { attempt } => if attempt >= CONNECT_ATTEMPTS {
                1
            } else {
                (CONNECT_ATTEMPTS + 1 - attempt) as nat
            },
            ConnectStage::Finished(_) => 0,
        }
    }

    /// The flow before its first step.
    pub fn new(port: u16) -> (r: ConnectFlow)
        ensures
            r.port == port,
            r.stage == ConnectStage::FirstTry,
            r.wf(),
    {
        ConnectFlow { port, stage: ConnectStage::FirstTry }
    }

    /// The step pending in this state, or `None` once finished.
    pub fn pending(&self) -> (r: Option<ConnectAction>)
        ensures
            r == self.spec_pending(),
    {
        match &self.stage {
            ConnectStage::FirstTry => Some(ConnectAction::TryConnect { delay_ms: 0 }),
            ConnectStage::CheckRunning => Some(ConnectAction::CheckRunning),
            ConnectStage::Starting => Some(ConnectAction::StartBrowser),
            ConnectStage::Retrying { .. } => Some(
                ConnectAction::TryConnect { delay_ms: CONNECT_RETRY_MS },
            ),
            ConnectStage::Finished(_) => None,
        }
    }

    /// Takes the answer to the pending step.
    pub fn advance(self, answer: bool) -> (r: ConnectFlow)
        ensures
            r == self.spec_advance(answer),
            self.wf() ==> r.wf(),
    {
        let stage = match self.stage {
            ConnectStage::FirstTry => if answer {
                ConnectStage::Finished(Ok(()))
            } else {
                ConnectStage::CheckRunning
            },
            ConnectStage::CheckRunning => if answer {
                ConnectStage::Finished(Err(ClientError::DebuggingDisabled { port: self.port }))
            } else {
                ConnectStage::Starting
            },
            ConnectStage::Starting => ConnectStage::Retrying { attempt: 1 },
            ConnectStage::Retrying { attempt } => if answer {
                ConnectStage::Finished(Ok(()))
            } else if attempt >= CONNECT_ATTEMPTS {
                ConnectStage::Finished(Err(ClientError::ConnectTimeout))
            } else {
                ConnectStage::Retrying { attempt: attempt + 1 }
            },
            ConnectStage::Finished(res) => ConnectStage::Finished(res),
        };
        ConnectFlow { port: self.port, stage }
    }

    /// The result once finished, or `None` while a step is pending.
    pub fn into_result(self) -> (r: Option<Result<(), ClientError>>)
        ensures
            match self.stage {
                ConnectStage::Finished(res) => r == Some(res),
                _ => r is None,
            },
    {
        match self.stage {
            ConnectStage::Finished(res) => Some(res),
            _ => None,
        }
    }
}

/// Reaching the browser ends: while a step is pending, each answer brings
/// the flow closer to its end, so no more than `CONNECT_ATTEMPTS + 3`
/// answers are ever asked for.
pub proof fn connect_flow_ends(flow: ConnectFlow, answer: bool)
    requires
        flow.wf(),
        (flow.spec_pending() is Some),
    ensures
        flow.spec_advance(answer).steps_left() < flow.steps_left(),
        flow.steps_left() <= CONNECT_ATTEMPTS + 3,
        (flow.spec_advance(answer).spec_pending() is None) == (flow.spec_advance(
            answer,
        ).steps_left() == 0),
{
}

/// The flow in stage `stage`, on `port`.
pub open spec fn connect_at(port: u16, stage: ConnectStage) -> ConnectFlow {
    ConnectFlow { port, stage }
}

/// Once the browser is started, a port that never answers is tried exactly
/// `CONNECT_ATTEMPTS` times before the flow gives up.
pub proof fn connect_retries_exhaust(port: u16, k: u32)
    requires
        1 <= k < CONNECT_ATTEMPTS,
    ensures
        connect_at(port, ConnectStage::Starting).spec_advance(false) == connect_at(
            port,
            ConnectStage::Retrying { attempt: 1 },
        ),
        connect_at(port, ConnectStage::Retrying { attempt: k }).spec_advance(false) == connect_at(
            port,
            ConnectStage::Retrying { attempt: (k + 1) as u32 },
        ),
        connect_at(port, ConnectStage::Retrying { attempt: CONNECT_ATTEMPTS }).spec_advance(false)
            == connect_at(port, ConnectStage::Finished(Err(ClientError::ConnectTimeout))),
{
}

} // verus!
