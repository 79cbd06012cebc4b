//! The log classifier: a pure mapping from one line of subprocess output to
//! at most one status verdict. Connection state is inferred from the text
//! the external binary logs, so the rules are heuristic; they live here as
//! one table, apart from the supervisor's control flow.

use vstd::prelude::*;

use crate::event::ConnectionState;
use crate::text::{contains_seq, contains_sub, extract_url, spec_extract_url};

verus! {

/// The verdict of the classifier on one line: a state, a message, and, for
/// the URL-bearing rule only, the freshly extracted URL.
#[derive(Clone, Debug)]
pub struct LineEvent {
    pub state: ConnectionState,
    pub message: String,
    pub url: Option<String>,
}

/// Mathematical image of a `LineEvent`.
#[verifier::ext_equal]
pub struct LineEventModel {
    pub state: ConnectionState,
    pub message: Seq<char>,
    pub url: Option<Seq<char>>,
}

impl View for LineEvent {
    type V = LineEventModel;

    open spec fn view(&self) -> LineEventModel {
        LineEventModel {
            state: self.state,
            message: self.message@,
            url: match self.url {
                Some(u) => Some(u@),
                None => None,
            },
        }
    }
}

impl DeepView for LineEvent {
    type V = LineEventModel;

    open spec fn deep_view(&self) -> LineEventModel {
        self.view()
    }
}

/// The lowercase image of a string of characters.
pub uninterp spec fn lower_of(s: Seq<char>) -> Seq<char>;

/// Relies on `str::to_lowercase`: the result is a function of the characters
/// alone.
#[verifier::external_body]
fn lowercase(s: &str) -> (r: String)
    ensures
        r@ == lower_of(s@),
{
    s.to_lowercase()
}

/// The verdict on one line of the process's standard error, `low` being the
/// lowercase image of the raw line. The rules apply in priority order and
/// the first match wins:
/// 1. registration or startup notices mean the tunnel is established;
/// 2. a line announcing a tunnel URL yields the URL itself;
/// 3. a failure line is reported verbatim, except that lines about the
///    `loglevel` setting never count as errors;
/// 4. a registered ingress means the tunnel is active;
/// 5. protocol or connector-id notices mean the tunnel is connected.
pub open spec fn stderr_verdict(low: Seq<char>, raw: Seq<char>) -> Option<LineEventModel> {
    if (contains_seq(low, "connection"@) && contains_seq(low, "registered"@))
        || (contains_seq(low, "registered"@) && contains_seq(low, "tunnel"@))
        || (contains_seq(low, "starting tunnel"@) && contains_seq(low, "tunnelid"@)) {
        Some(LineEventModel {
            state: ConnectionState::Connected,
            message: "Tunnel established"@,
            url: None,
        })
    } else if contains_seq(low, "tunnel url:"@) || contains_seq(raw, ".trycloudflare.com"@)
        || contains_seq(raw, ".cfargotunnel.com"@) {
        match spec_extract_url(raw) {
            Some(u) => Some(LineEventModel {
                state: ConnectionState::Connected,
                message: "Tunnel ready"@,
                url: Some(u),
            }),
            None => None,
        }
    } else if contains_seq(low, "failed"@)
        || (contains_seq(low, "error"@) && !contains_seq(low, "loglevel"@)) {
        Some(LineEventModel { state: ConnectionState::Error, message: raw, url: None })
    } else if contains_seq(low, "ingress"@) && contains_seq(low, "registered"@) {
        Some(LineEventModel {
            state: ConnectionState::Connected,
            message: "Tunnel active"@,
            url: None,
        })
    } else if contains_seq(low, "initial protocol"@) || contains_seq(low, "connector id"@) {
        Some(LineEventModel {
            state: ConnectionState::Connected,
            message: "Tunnel connected"@,
            url: None,
        })
    } else {
        None
    }
}

/// The verdict on one line of the process's standard output. Standard output
/// is treated more narrowly than standard error: only the URL-extraction
/// rule applies, and the domain substrings match case-sensitively.
pub open spec fn stdout_verdict(raw: Seq<char>) -> Option<LineEventModel> {
    if contains_seq(raw, "https://"@)
        && (contains_seq(raw, ".trycloudflare.com"@) || contains_seq(raw, ".cfargotunnel.com"@)) {
        match spec_extract_url(raw) {
            Some(u) => Some(LineEventModel {
                state: ConnectionState::Connected,
                message: "Tunnel ready"@,
                url: Some(u),
            }),
            None => None,
        }
    } else {
        None
    }
}

/// Classifies one line of standard error, as `stderr_verdict` states it on
/// the lowercase image and the raw line.
pub fn classify_stderr(line: &str) -> (r: Option<LineEvent>)
    ensures
        r.deep_view() == stderr_verdict(lower_of(line@), line@),
{
    let low_string = lowercase(line);
    let low = low_string.as_str();
    if (contains_sub(low, "connection") && contains_sub(low, "registered"))
        || (contains_sub(low, "registered") && contains_sub(low, "tunnel"))
        || (contains_sub(low, "starting tunnel") && contains_sub(low, "tunnelid")) {
        Some(LineEvent {
            state: ConnectionState::Connected,
            message: "Tunnel established".to_owned(),
            url: None,
        })
    } else if contains_sub(low, "tunnel url:") || contains_sub(line, ".trycloudflare.com")
        || contains_sub(line, ".cfargotunnel.com") {
        match extract_url(line) {
            Some(u) => Some(LineEvent {
                state: ConnectionState::Connected,
                message: "Tunnel ready".to_owned(),
                url: Some(u),
            }),
            None => None,
        }
    } else if contains_sub(low, "failed")
        || (contains_sub(low, "error") && !contains_sub(low, "loglevel")) {
        Some(LineEvent { state: ConnectionState::Error, message: line.to_owned(), url: None })
    } else if contains_sub(low, "ingress") && contains_sub(low, "registered") {
        Some(LineEvent {
            state: ConnectionState::Connected,
            message: "Tunnel active".to_owned(),
            url: None,
        })
    } else if contains_sub(low, "initial protocol") || contains_sub(low, "connector id") {
        Some(LineEvent {
            state: ConnectionState::Connected,
            message: "Tunnel connected".to_owned(),
            url: None,
        })
    } else {
        None
    }
}

/// Classifies one line of standard output, as `stdout_verdict` states it.
pub fn classify_stdout(line: &str) -> (r: Option<LineEvent>)
    ensures
        r.deep_view() == stdout_verdict(line@),
{
    if contains_sub(line, "https://")
        && (contains_sub(line, ".trycloudflare.com") || contains_sub(line, ".cfargotunnel.com")) {
        match extract_url(line) {
            Some(u) => Some(LineEvent {
                state: ConnectionState::Connected,
                message: "Tunnel ready".to_owned(),
                url: Some(u),
            }),
            None => None,
        }
    } else {
        None
    }
}

} // verus!
