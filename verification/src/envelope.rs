//! The uniform result of a command, and the failures it can report.

use crate::config::{AppConfig, AppConfigView};
use vstd::prelude::*;
use vstd::string::*;

verus! {

/// Why an operation of the shell did not succeed. None of these ends the
/// process: each is reported to whoever asked.
#[derive(Debug, PartialEq, Eq)]
pub enum ShellError {
    /// A network fetch failed in transport, name resolution or decoding.
    Transport(String),
    /// No live window has this id.
    NotFound(String),
    /// A facility of the operating system refused the request.
    Capability(String),
    /// The text is no absolute URL; holds the parser's reason.
    InvalidUrl(String),
    /// The request lacks the argument of this name.
    MissingArgument(String),
    /// The command surface has no command of this name.
    UnknownCommand(String),
    /// A live window already has this id.
    IdInUse(String),
    /// No further window id can be issued.
    Exhausted,
    /// The shell could not be set up; holds what the system said.
    Setup(String),
}

/// What a [`ShellError`] holds.
pub enum ShellErrorView {
    Transport(Seq<char>),
    NotFound(Seq<char>),
    Capability(Seq<char>),
    InvalidUrl(Seq<char>),
    MissingArgument(Seq<char>),
    UnknownCommand(Seq<char>),
    IdInUse(Seq<char>),
    Exhausted,
    Setup(Seq<char>),
}

impl View for ShellError {
    type V = ShellErrorView;

    open spec fn view(&self) -> ShellErrorView {
        match self {
            ShellError::Transport(m) => ShellErrorView::Transport(m@),
            ShellError::NotFound(id) => ShellErrorView::NotFound(id@),
            ShellError::Capability(m) => ShellErrorView::Capability(m@),
            ShellError::InvalidUrl(m) => ShellErrorView::InvalidUrl(m@),
            ShellError::MissingArgument(k) => ShellErrorView::MissingArgument(k@),
            ShellError::UnknownCommand(n) => ShellErrorView::UnknownCommand(n@),
            ShellError::IdInUse(id) => ShellErrorView::IdInUse(id@),
            ShellError::Exhausted => ShellErrorView::Exhausted,
            ShellError::Setup(m) => ShellErrorView::Setup(m@),
        }
    }
}

impl ShellErrorView {
    /// The message that hosted content is shown. A failure reported from
    /// outside without any text gets a fixed one, so that no message is empty.
    pub open spec fn message(self) -> Seq<char> {
        match self {
            ShellErrorView::Transport(m) => if m.len() == 0 {
                "transport failure"@
            } else {
                m
            },
            ShellErrorView::NotFound(id) => "window not found: "@ + id,
            ShellErrorView::Capability(m) => if m.len() == 0 {
                "capability refused"@
            } else {
                m
            },
            ShellErrorView::InvalidUrl(m) => "Invalid URL: "@ + m,
            ShellErrorView::MissingArgument(k) => "missing argument: "@ + k,
            ShellErrorView::UnknownCommand(n) => "unknown command: "@ + n,
            ShellErrorView::IdInUse(id) => "window id in use: "@ + id,
            ShellErrorView::Exhausted => "window ids are used up"@,
            ShellErrorView::Setup(m) => "setup failed: "@ + m,
        }
    }

    /// Every failure has a message of at least one character.
    pub proof fn lemma_message_nonempty(self)
        ensures
            self.message().len() > 0,
    {
        reveal_strlit("transport failure");
        reveal_strlit("window not found: ");
        reveal_strlit("capability refused");
        reveal_strlit("Invalid URL: ");
        reveal_strlit("missing argument: ");
        reveal_strlit("unknown command: ");
        reveal_strlit("window id in use: ");
        reveal_strlit("window ids are used up");
        reveal_strlit("setup failed: ");
    }
}

/// `prefix` followed by `rest`.
fn prefixed(prefix: &str, rest: &String) -> (text: String)
    ensures
        text@ == prefix@ + rest@,
{
    let mut text = prefix.to_owned();
    text.append(rest.as_str());
    text
}

/// `given`, or `fallback` where `given` is empty.
fn text_or(given: &String, fallback: &str) -> (text: String)
    ensures
        text@ == (if given@.len() == 0 {
            fallback@
        } else {
            given@
        }),
{
    if given.as_str().is_empty() {
        fallback.to_owned()
    } else {
        given.clone()
    }
}

impl ShellError {
    /// The message that hosted content is shown.
    pub fn message(&self) -> (text: String)
        ensures
            text@ == self@.message(),
            text@.len() > 0,
    {
        proof {
            self@.lemma_message_nonempty();
        }
        match self {
            ShellError::Transport(m) => text_or(m, "transport failure"),
            ShellError::NotFound(id) => prefixed("window not found: ", id),
            ShellError::Capability(m) => text_or(m, "capability refused"),
            ShellError::InvalidUrl(m) => prefixed("Invalid URL: ", m),
            ShellError::MissingArgument(k) => prefixed("missing argument: ", k),
            ShellError::UnknownCommand(n) => prefixed("unknown command: ", n),
            ShellError::IdInUse(id) => prefixed("window id in use: ", id),
            ShellError::Exhausted => "window ids are used up".to_owned(),
            ShellError::Setup(m) => prefixed("setup failed: ", m),
        }
    }
}

/// What the shell knows of the machine it runs on.
#[derive(Debug, PartialEq, Eq)]
pub struct SystemInfo {
    pub platform: String,
    pub arch: String,
    pub family: String,
}

/// What a [`SystemInfo`] holds.
pub struct SystemInfoView {
    pub platform: Seq<char>,
    pub arch: Seq<char>,
    pub family: Seq<char>,
}

impl View for SystemInfo {
    type V = SystemInfoView;

    open spec fn view(&self) -> SystemInfoView {
        SystemInfoView { platform: self.platform@, arch: self.arch@, family: self.family@ }
    }
}

impl SystemInfoView {
    /// The mapping that hosted content receives: three keys, in this order.
    pub open spec fn entries(self) -> Seq<(Seq<char>, Seq<char>)> {
        seq![("platform"@, self.platform), ("arch"@, self.arch), ("family"@, self.family)]
    }
}

impl Clone for SystemInfo {
    fn clone(&self) -> (copy: SystemInfo)
        ensures
            copy@ == self@,
    {
        SystemInfo {
            platform: self.platform.clone(),
            arch: self.arch.clone(),
            family: self.family.clone(),
        }
    }
}

impl SystemInfo {
    /// The mapping from `platform`, `arch` and `family` to their values.
    pub fn entries(&self) -> (pairs: Vec<(String, String)>)
        ensures
            pairs@.len() == 3,
            forall|i: int|
                0 <= i < 3 ==> (#[trigger] pairs@[i].0@, pairs@[i].1@) == self@.entries()[i],
    {
        let mut pairs: Vec<(String, String)> = Vec::new();
        pairs.push(("platform".to_owned(), self.platform.clone()));
        pairs.push(("arch".to_owned(), self.arch.clone()));
        pairs.push(("family".to_owned(), self.family.clone()));
        pairs
    }
}

/// What a successful command hands back.
#[derive(Debug, PartialEq, Eq)]
pub enum Payload {
    /// The body of a fetched resource.
    Text(String),
    /// The settings record.
    Config(AppConfig),
    /// The description of the machine.
    System(SystemInfo),
}

/// What a [`Payload`] holds.
pub enum PayloadView {
    Text(Seq<char>),
    Config(AppConfigView),
    System(SystemInfoView),
}

impl View for Payload {
    type V = PayloadView;

    open spec fn view(&self) -> PayloadView {
        match self {
            Payload::Text(t) => PayloadView::Text(t@),
            Payload::Config(c) => PayloadView::Config(c@),
            Payload::System(s) => PayloadView::System(s@),
        }
    }
}

/// The envelope in which every command answers.
#[derive(Debug, PartialEq, Eq)]
pub struct CommandResult {
    pub success: bool,
    pub data: Option<Payload>,
    pub error: Option<String>,
}

/// What a [`CommandResult`] holds.
pub struct CommandResultView {
    pub success: bool,
    pub data: Option<PayloadView>,
    pub error: Option<Seq<char>>,
}

impl View for CommandResult {
    type V = CommandResultView;

    open spec fn view(&self) -> CommandResultView {
        CommandResultView {
            success: self.success,
            data: match self.data {
                Some(d) => Some(d@),
                None => None,
            },
            error: match self.error {
                Some(e) => Some(e@),
                None => None,
            },
        }
    }
}

impl CommandResultView {
    /// The envelope of a command that succeeded with `data`.
    pub open spec fn succeeded(data: Option<PayloadView>) -> CommandResultView {
        CommandResultView { success: true, data, error: None }
    }

    /// The envelope of a command that failed with `error`.
    pub open spec fn failed(error: ShellErrorView) -> CommandResultView {
        CommandResultView { success: false, data: None, error: Some(error.message()) }
    }

    /// The rule of the envelope: a success carries no error; a failure
    /// carries an error of at least one character and no data.
    pub open spec fn well_formed(self) -> bool {
        if self.success {
            self.error is None
        } else {
            self.data is None && self.error is Some && self.error->0.len() > 0
        }
    }

    /// Both ways of making an envelope keep its rule.
    pub proof fn lemma_made_well_formed(data: Option<PayloadView>, error: ShellErrorView)
        ensures
            CommandResultView::succeeded(data).well_formed(),
            CommandResultView::failed(error).well_formed(),
    {
        error.lemma_message_nonempty();
    }
}

impl CommandResult {
    /// The envelope of a command that succeeded, with what it hands back.
    pub fn succeeded(data: Option<Payload>) -> (result: CommandResult)
        ensures
            result@ == CommandResultView::succeeded(
                match data {
                    Some(d) => Some(d@),
                    None => None,
                },
            ),
            result@.well_formed(),
    {
        CommandResult { success: true, data, error: None }
    }

    /// The envelope of a command that failed.
    pub fn failed(error: &ShellError) -> (result: CommandResult)
        ensures
            result@ == CommandResultView::failed(error@),
            result@.well_formed(),
    {
        CommandResult { success: false, data: None, error: Some(error.message()) }
    }
}

} // verus!
