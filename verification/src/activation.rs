//! Activation manager: the link of each terminal session, which selects the
//! JDK that is current for that session alone.

use vstd::hash_map::StringHashMap;
use vstd::prelude::*;
use vstd::string::*;
use crate::error::{bare, caused, ErrorKind, ErrorText, JdkError};
use crate::install::{Event, EventText};
use crate::paths::{file_name, file_name_of, join_path, joined};
use crate::registry::{get_jdk_version, major_of, parse_major, version_of, Cache, Disk};

verus! {

/// What was found of the terminal behind the error stream.
#[derive(Debug, PartialEq, Eq)]
pub enum Terminal {
    /// The error stream is not attached to an interactive terminal.
    Detached,
    /// The error stream is attached to the terminal at `device`. Where the
    /// directory of session links could not be created, `link_dir_failure`
    /// says why.
    Attached { device: String, link_dir_failure: Option<String> },
}

/// `Terminal` as text.
pub enum TerminalText {
    Detached,
    Attached { device: Seq<char>, link_dir_failure: Option<Seq<char>> },
}

impl View for Terminal {
    type V = TerminalText;

    open spec fn view(&self) -> TerminalText {
        match self {
            Terminal::Detached => TerminalText::Detached,
            Terminal::Attached { device, link_dir_failure } => TerminalText::Attached {
                device: device@,
                link_dir_failure: link_dir_failure.deep_view(),
            },
        }
    }
}

/// The session links as they were read: what each link points at, by the
/// link's path.
pub type LinkTargets = Map<Seq<char>, Seq<char>>;

/// The session links as they were read.
pub struct Links {
    /// What each link points at, by the link's path.
    pub targets: StringHashMap<String>,
}

impl View for Links {
    type V = LinkTargets;

    open spec fn view(&self) -> LinkTargets {
        self.targets@.map_values(|target: String| target@)
    }
}

/// What an activation waits for.
#[derive(Clone, Copy, Debug, PartialEq, Eq, Structural)]
pub enum LinkPhase {
    /// Whether a former attempt left a spare link.
    CheckingSpare,
    /// The removal of what a former attempt left.
    RemovingSpare,
    /// The making of the new link under the spare name.
    LinkingSpare,
    /// The renaming of the spare link to the session link.
    Replacing,
    /// Nothing: the activation is over.
    Finished,
}

/// The step that the holder of an activation carries out next. The session
/// link is the activation's `link`; the spare link, under which the new link
/// is made before it takes the place of the old one, is its `spare`.
#[derive(Debug, PartialEq, Eq)]
pub enum LinkAction {
    /// Find out whether anything lies at the spare link's path.
    CheckSpare,
    /// Remove what lies at the spare link's path.
    RemoveSpare,
    /// Make a symbolic link to the target at the spare link's path.
    LinkSpare,
    /// Rename the spare link to the session link, in place of what is there.
    Replace,
    /// Stop, with this result.
    Finish(Result<(), JdkError>),
}

/// `LinkAction` as text.
pub enum LinkActionText {
    CheckSpare,
    RemoveSpare,
    LinkSpare,
    Replace,
    Finish(Result<(), ErrorText>),
}

impl View for LinkAction {
    type V = LinkActionText;

    open spec fn view(&self) -> LinkActionText {
        match self {
            LinkAction::CheckSpare => LinkActionText::CheckSpare,
            LinkAction::RemoveSpare => LinkActionText::RemoveSpare,
            LinkAction::LinkSpare => LinkActionText::LinkSpare,
            LinkAction::Replace => LinkActionText::Replace,
            LinkAction::Finish(Ok(())) => LinkActionText::Finish(Ok(())),
            LinkAction::Finish(Err(e)) => LinkActionText::Finish(Err(e@)),
        }
    }
}

/// One attempt to point the link of a session at a JDK.
#[derive(Debug, PartialEq, Eq)]
pub struct Activation {
    /// The directory that the link is to point at.
    pub target: String,
    /// The path of the session link.
    pub link: String,
    /// The path of the spare link.
    pub spare: String,
    /// What the activation waits for.
    pub phase: LinkPhase,
}

/// `Activation` as text.
pub struct ActivationText {
    pub target: Seq<char>,
    pub link: Seq<char>,
    pub spare: Seq<char>,
    pub phase: LinkPhase,
}

impl View for Activation {
    type V = ActivationText;

    open spec fn view(&self) -> ActivationText {
        ActivationText {
            target: self.target@,
            link: self.link@,
            spare: self.spare@,
            phase: self.phase,
        }
    }
}

/// The directory of session links inside the directory for temporary files.
pub open spec fn link_dir_in(temp_dir: Seq<char>) -> Seq<char> {
    joined(temp_dir, "jpre-by-tty"@)
}

/// What stands for one character of a device path in the name of a link. A
/// separator becomes a hyphen. A hyphen of the path itself, and the percent
/// sign that marks it, are written behind a percent sign, so that no two
/// paths get the same name. Other characters stay.
pub open spec fn link_code(c: char) -> Seq<char> {
    if c == '/' {
        seq!['-']
    } else if c == '-' {
        seq!['%', '-']
    } else if c == '%' {
        seq!['%', '%']
    } else {
        seq![c]
    }
}

/// The file name of the link of the session at `device`: what stands for
/// each character of the device path, in the order of the path.
pub open spec fn link_name_text(device: Seq<char>) -> Seq<char>
    decreases device.len(),
{
    if device.len() == 0 {
        Seq::empty()
    } else {
        link_name_text(device.drop_last()) + link_code(device.last())
    }
}

/// The path of the link of a session, or why the session has none: a
/// session needs an interactive terminal and the directory of session links.
pub open spec fn session_link(link_dir: Seq<char>, terminal: TerminalText) -> Result<
    Seq<char>,
    ErrorText,
> {
    match terminal {
        TerminalText::Detached => Err(bare(ErrorKind::NotATty)),
        TerminalText::Attached { device, link_dir_failure } => match link_dir_failure {
            Some(cause) => Err(caused(ErrorKind::LinkDirectory, cause)),
            None => Ok(joined(link_dir, link_name_text(device))),
        },
    }
}

/// The file name of the spare link of the session at `device`: a percent
/// sign and a dot, then the name of the session link. No session link has
/// such a name, since a percent sign in it is followed by a hyphen or by a
/// percent sign.
pub open spec fn spare_name_text(device: Seq<char>) -> Seq<char> {
    seq!['%', '.'] + link_name_text(device)
}

/// The activation stopped with a failure.
pub open spec fn link_failed(
    state: ActivationText,
    kind: ErrorKind,
    subject: Seq<char>,
    cause: Seq<char>,
) -> (ActivationText, LinkActionText) {
    (
        ActivationText { phase: LinkPhase::Finished, ..state },
        LinkActionText::Finish(Err(ErrorText { kind, subject, cause })),
    )
}

/// The activation goes on to `phase` and asks for `action`.
pub open spec fn link_proceed(state: ActivationText, phase: LinkPhase, action: LinkActionText) -> (
    ActivationText,
    LinkActionText,
) {
    (ActivationText { phase, ..state }, action)
}

/// The activation's rule: the state and the step that follow on `event`. The
/// new link is made under the spare name and then renamed over the session
/// link, so that the session link is never missing in between.
pub open spec fn link_step(state: ActivationText, event: EventText) -> (
    ActivationText,
    LinkActionText,
) {
    let unexpected = link_failed(
        state,
        ErrorKind::UnexpectedEvent,
        Seq::empty(),
        Seq::empty(),
    );
    match state.phase {
        LinkPhase::CheckingSpare => match event {
            EventText::Exists(true) => link_proceed(
                state,
                LinkPhase::RemovingSpare,
                LinkActionText::RemoveSpare,
            ),
            EventText::Exists(false) => link_proceed(
                state,
                LinkPhase::LinkingSpare,
                LinkActionText::LinkSpare,
            ),
            _ => unexpected,
        },
        LinkPhase::RemovingSpare => match event {
            EventText::Done => link_proceed(
                state,
                LinkPhase::LinkingSpare,
                LinkActionText::LinkSpare,
            ),
            EventText::Failed(cause) => link_failed(
                state,
                ErrorKind::RemoveLink,
                state.spare,
                cause,
            ),
            _ => unexpected,
        },
        LinkPhase::LinkingSpare => match event {
            EventText::Done => link_proceed(state, LinkPhase::Replacing, LinkActionText::Replace),
            EventText::Failed(cause) => link_failed(
                state,
                ErrorKind::MakeLink,
                state.spare,
                cause,
            ),
            _ => unexpected,
        },
        LinkPhase::Replacing => match event {
            EventText::Done => link_proceed(
                state,
                LinkPhase::Finished,
                LinkActionText::Finish(Ok(())),
            ),
            EventText::Failed(cause) => link_failed(
                state,
                ErrorKind::ReplaceLink,
                state.link,
                cause,
            ),
            _ => unexpected,
        },
        LinkPhase::Finished => unexpected,
    }
}

/// The path of the spare link of a session that has a link.
pub open spec fn session_spare(link_dir: Seq<char>, terminal: TerminalText) -> Seq<char> {
    match terminal {
        TerminalText::Detached => Seq::empty(),
        TerminalText::Attached { device, link_dir_failure } => joined(
            link_dir,
            spare_name_text(device),
        ),
    }
}

/// An activation that is over before it has begun.
pub open spec fn link_stopped(link: Seq<char>, spare: Seq<char>, e: ErrorText) -> (
    ActivationText,
    LinkActionText,
) {
    (
        ActivationText { target: Seq::empty(), link, spare, phase: LinkPhase::Finished },
        LinkActionText::Finish(Err(e)),
    )
}

/// How an activation begins for the session of `terminal`, where `jdk` is
/// the directory of the installed JDK or the reason why there is none. Where
/// the JDK could not be installed, the activation stops with that failure
/// and asks for no step, so the link of the session stays as it is. Where
/// the session has no link, it stops with the reason for that. Else it
/// begins with a look at the spare link.
pub open spec fn link_started(
    jdk: Result<Seq<char>, ErrorText>,
    link_dir: Seq<char>,
    terminal: TerminalText,
) -> (ActivationText, LinkActionText) {
    match session_link(link_dir, terminal) {
        Ok(link) => match jdk {
            Ok(target) => (
                ActivationText {
                    target,
                    link,
                    spare: session_spare(link_dir, terminal),
                    phase: LinkPhase::CheckingSpare,
                },
                LinkActionText::CheckSpare,
            ),
            Err(e) => link_stopped(link, session_spare(link_dir, terminal), e),
        },
        Err(no_session) => match jdk {
            Ok(_) => link_stopped(Seq::empty(), Seq::empty(), no_session),
            Err(e) => link_stopped(Seq::empty(), Seq::empty(), e),
        },
    }
}

/// The major that a link target stands for: its trailing component, read as
/// a major.
pub open spec fn linked_major(target: Seq<char>) -> Option<u8> {
    match file_name_of(target) {
        Some(name) => major_of(name),
        None => None,
    }
}

/// The version of the JDK that the link at `link` selects. A link that is
/// missing, one whose target names no major, and one whose major is not
/// installed all give the same failure.
pub open spec fn selected(disk: Disk, links: LinkTargets, link: Seq<char>) -> Result<
    Seq<char>,
    ErrorText,
> {
    if !links.contains_key(link) {
        Err(bare(ErrorKind::NoCurrentJdk))
    } else {
        match linked_major(links[link]) {
            None => Err(bare(ErrorKind::NoCurrentJdk)),
            Some(major) => match version_of(disk, major) {
                None => Err(bare(ErrorKind::NoCurrentJdk)),
                Some(version) => Ok(version),
            },
        }
    }
}

/// The version of the JDK that is current for the session of `terminal`.
pub open spec fn current_jdk(
    disk: Disk,
    links: LinkTargets,
    link_dir: Seq<char>,
    terminal: TerminalText,
) -> Result<Seq<char>, ErrorText> {
    match session_link(link_dir, terminal) {
        Err(e) => Err(e),
        Ok(link) => selected(disk, links, link),
    }
}

impl Links {
    /// No session links.
    pub fn new() -> (r: Links)
        ensures
            r@ == Map::<Seq<char>, Seq<char>>::empty(),
    {
        let r = Links { targets: StringHashMap::new() };
        assert(r@ =~= Map::<Seq<char>, Seq<char>>::empty());
        r
    }

    /// Records that the link at `link` points at `target`, in place of what
    /// was recorded of it before.
    pub fn record(&mut self, link: String, target: String)
        ensures
            final(self)@ == old(self)@.insert(link@, target@),
    {
        let ghost key: Seq<char> = link@;
        let ghost value: Seq<char> = target@;
        self.targets.insert(link, target);
        assert(self@ =~= old(self)@.insert(key, value));
    }
}

/// The path of the directory of session links inside the directory for
/// temporary files.
pub fn link_dir(temp_dir: &str) -> (r: String)
    ensures
        r@ == link_dir_in(temp_dir@),
{
    join_path(temp_dir, "jpre-by-tty")
}

/// The file name of the link of the session at `device`.
pub fn link_name(device: &str) -> (r: String)
    ensures
        r@ == link_name_text(device@),
{
    let n: usize = device.unicode_len();
    let mut r: String = String::new();
    let mut i: usize = 0;
    assert(device@.take(0) =~= Seq::<char>::empty());
    while i < n
        invariant
            i <= n,
            n == device@.len(),
            r@ == link_name_text(device@.take(i as int)),
        decreases n - i,
    {
        let c: char = device.get_char(i);
        proof {
            reveal_strlit("-");
            reveal_strlit("%-");
            reveal_strlit("%%");
            assert(device@.take(i + 1).drop_last() =~= device@.take(i as int));
            assert(device@.take(i + 1).last() == c);
            assert("-"@ =~= seq!['-']);
            assert("%-"@ =~= seq!['%', '-']);
            assert("%%"@ =~= seq!['%', '%']);
            assert(device@.subrange(i as int, i + 1) =~= seq![c]);
        }
        if c == '/' {
            r.append("-");
        } else if c == '-' {
            r.append("%-");
        } else if c == '%' {
            r.append("%%");
        } else {
            r.append(device.substring_char(i, i + 1));
        }
        i = i + 1;
    }
    assert(device@.take(n as int) =~= device@);
    r
}

/// The paths of the link and of the spare link of the session of `terminal`.
fn session_paths(link_dir: &str, terminal: &Terminal) -> (r: Result<(String, String), JdkError>)
    ensures
        match r {
            Ok(paths) => session_link(link_dir@, terminal@) == Ok::<Seq<char>, ErrorText>(
                paths.0@,
            ) && paths.1@ == session_spare(link_dir@, terminal@),
            Err(e) => session_link(link_dir@, terminal@) == Err::<Seq<char>, ErrorText>(e@),
        },
{
    match terminal {
        Terminal::Detached => Err(JdkError::new(ErrorKind::NotATty)),
        Terminal::Attached { device, link_dir_failure } => match link_dir_failure {
            Some(cause) => Err(JdkError::with_cause(ErrorKind::LinkDirectory, cause.as_str())),
            None => {
                let link_file: String = link_name(device.as_str());
                let spare_file: String = spare_name(device.as_str());
                Ok(
                    (
                        join_path(link_dir, link_file.as_str()),
                        join_path(link_dir, spare_file.as_str()),
                    ),
                )
            },
        },
    }
}

/// The path of the link of the session of `terminal`, in the directory of
/// session links at `link_dir`.
pub fn get_symlink_location(link_dir: &str, terminal: &Terminal) -> (r: Result<String, JdkError>)
    ensures
        match r {
            Ok(link) => session_link(link_dir@, terminal@) == Ok::<Seq<char>, ErrorText>(link@),
            Err(e) => session_link(link_dir@, terminal@) == Err::<Seq<char>, ErrorText>(e@),
        },
{
    match session_paths(link_dir, terminal) {
        Ok(paths) => Ok(paths.0),
        Err(e) => Err(e),
    }
}

/// The version of the JDK that the link at `link` selects.
pub fn selected_version(cache: &Cache, links: &Links, link: &str) -> (r: Result<String, JdkError>)
    ensures
        match r {
            Ok(version) => selected(cache@, links@, link@) == Ok::<Seq<char>, ErrorText>(
                version@,
            ),
            Err(e) => selected(cache@, links@, link@) == Err::<Seq<char>, ErrorText>(e@),
        },
{
    let target: &String = match links.targets.get(link) {
        Some(target) => target,
        None => {
            return Err(JdkError::new(ErrorKind::NoCurrentJdk));
        },
    };
    let name: String = match file_name(target.as_str()) {
        Some(name) => name,
        None => {
            return Err(JdkError::new(ErrorKind::NoCurrentJdk));
        },
    };
    let major: u8 = match parse_major(name.as_str()) {
        Some(major) => major,
        None => {
            return Err(JdkError::new(ErrorKind::NoCurrentJdk));
        },
    };
    match get_jdk_version(cache, major) {
        Some(version) => Ok(version),
        None => Err(JdkError::new(ErrorKind::NoCurrentJdk)),
    }
}

/// The version of the JDK that is current for the session of `terminal`.
pub fn get_current_jdk(cache: &Cache, links: &Links, link_dir: &str, terminal: &Terminal) -> (r:
    Result<String, JdkError>)
    ensures
        match r {
            Ok(version) => current_jdk(cache@, links@, link_dir@, terminal@) == Ok::<
                Seq<char>,
                ErrorText,
            >(version@),
            Err(e) => current_jdk(cache@, links@, link_dir@, terminal@) == Err::<
                Seq<char>,
                ErrorText,
            >(e@),
        },
{
    match get_symlink_location(link_dir, terminal) {
        Err(e) => Err(e),
        Ok(link) => selected_version(cache, links, link.as_str()),
    }
}

/// The file name of the spare link of the session at `device`.
pub fn spare_name(device: &str) -> (r: String)
    ensures
        r@ == spare_name_text(device@),
{
    proof {
        reveal_strlit("%.");
    }
    let mut r: String = "%.".to_owned();
    let name: String = link_name(device);
    r.append(name.as_str());
    assert(r@ =~= spare_name_text(device@));
    r
}

impl Activation {
    /// Stops with a failure.
    fn fail(self, kind: ErrorKind, subject: String, cause: String) -> (r: (Activation, LinkAction))
        ensures
            (r.0@, r.1@) == link_failed(self@, kind, subject@, cause@),
    {
        let state = Activation {
            target: self.target,
            link: self.link,
            spare: self.spare,
            phase: LinkPhase::Finished,
        };
        (state, LinkAction::Finish(Err(JdkError { kind, subject, cause })))
    }

    /// Stops because the event does not answer the step that was asked for.
    fn unexpected(self) -> (r: (Activation, LinkAction))
        ensures
            (r.0@, r.1@) == link_failed(
                self@,
                ErrorKind::UnexpectedEvent,
                Seq::empty(),
                Seq::empty(),
            ),
    {
        self.fail(ErrorKind::UnexpectedEvent, String::new(), String::new())
    }

    /// Goes on to `phase` and asks for `action`.
    fn go(self, phase: LinkPhase, action: LinkAction) -> (r: (Activation, LinkAction))
        ensures
            (r.0@, r.1@) == link_proceed(self@, phase, action@),
    {
        let state = Activation { target: self.target, link: self.link, spare: self.spare, phase };
        (state, action)
    }

    /// Takes the outcome of the step that was asked for last, and says which
    /// step comes next.
    pub fn advance(self, event: Event) -> (r: (Activation, LinkAction))
        ensures
            (r.0@, r.1@) == link_step(self@, event@),
    {
        match self.phase {
            LinkPhase::CheckingSpare => match event {
                Event::Exists(true) => self.go(LinkPhase::RemovingSpare, LinkAction::RemoveSpare),
                Event::Exists(false) => self.go(LinkPhase::LinkingSpare, LinkAction::LinkSpare),
                _ => self.unexpected(),
            },
            LinkPhase::RemovingSpare => match event {
                Event::Done => self.go(LinkPhase::LinkingSpare, LinkAction::LinkSpare),
                Event::Failed(cause) => {
                    let spare: String = self.spare.clone();
                    self.fail(ErrorKind::RemoveLink, spare, cause)
                },
                _ => self.unexpected(),
            },
            LinkPhase::LinkingSpare => match event {
                Event::Done => self.go(LinkPhase::Replacing, LinkAction::Replace),
                Event::Failed(cause) => {
                    let spare: String = self.spare.clone();
                    self.fail(ErrorKind::MakeLink, spare, cause)
                },
                _ => self.unexpected(),
            },
            LinkPhase::Replacing => match event {
                Event::Done => self.go(LinkPhase::Finished, LinkAction::Finish(Ok(()))),
                Event::Failed(cause) => {
                    let link: String = self.link.clone();
                    self.fail(ErrorKind::ReplaceLink, link, cause)
                },
                _ => self.unexpected(),
            },
            LinkPhase::Finished => self.unexpected(),
        }
    }
}

/// Begins to point the link of the session of `terminal` at the installed
/// JDK, where `jdk` is its directory or the reason why there is none.
pub fn symlink_jdk_path(jdk: Result<String, JdkError>, link_dir: &str, terminal: &Terminal) -> (r:
    (Activation, LinkAction))
    ensures
        (r.0@, r.1@) == link_started(
            match jdk {
                Ok(target) => Ok(target@),
                Err(e) => Err(e@),
            },
            link_dir@,
            terminal@,
        ),
{
    let (link, spare, session): (String, String, Option<JdkError>) = match session_paths(
        link_dir,
        terminal,
    ) {
        Ok(paths) => (paths.0, paths.1, None),
        Err(e) => (String::new(), String::new(), Some(e)),
    };
    match jdk {
        Err(e) => {
            let state = Activation {
                target: String::new(),
                link,
                spare,
                phase: LinkPhase::Finished,
            };
            (state, LinkAction::Finish(Err(e)))
        },
        Ok(target) => match session {
            Some(e) => {
                let state = Activation {
                    target: String::new(),
                    link,
                    spare,
                    phase: LinkPhase::Finished,
                };
                (state, LinkAction::Finish(Err(e)))
            },
            None => {
                let state = Activation { target, link, spare, phase: LinkPhase::CheckingSpare };
                (state, LinkAction::CheckSpare)
            },
        },
    }
}

} // verus!
