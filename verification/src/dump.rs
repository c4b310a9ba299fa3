//! The retrieval of all three namespaces, as a sequence of decisions: which command to run
//! next, and what to do with the reply. The caller runs each command and has its output
//! parsed; this module decides everything else.

use vstd::prelude::*;
use vstd::string::StringExecFns;
use crate::entries::Entry;
use crate::namespace::{retrieval_order, Namespace};
use crate::settings::Settings;

verus! {

/// Why a retrieval was given up.
#[derive(Debug)]
pub enum DumpError {
    /// The command for `namespace` could not be run, or the device did not answer.
    ChannelFailure { namespace: Namespace, cause: String },
    /// The device's answer for `namespace` was not a settings listing.
    ParseFailure { namespace: Namespace, cause: String },
}

/// A [`DumpError`] with its text as a sequence of characters.
pub enum DumpErrorView {
    ChannelFailure { namespace: Namespace, cause: Seq<char> },
    ParseFailure { namespace: Namespace, cause: Seq<char> },
}

impl DumpErrorView {
    /// The namespace whose retrieval failed.
    pub open spec fn namespace(self) -> Namespace {
        match self {
            DumpErrorView::ChannelFailure { namespace, .. } => namespace,
            DumpErrorView::ParseFailure { namespace, .. } => namespace,
        }
    }

    /// What the error says went wrong, naming the command where one failed.
    pub open spec fn context(self) -> Seq<char> {
        match self {
            DumpErrorView::ChannelFailure { namespace, .. } => "Failed to run: \""@
                + namespace.command_spec() + "\""@,
            DumpErrorView::ParseFailure { .. } => "Failed to parse settings from device"@,
        }
    }
}

impl View for DumpError {
    type V = DumpErrorView;

    open spec fn view(&self) -> DumpErrorView {
        match self {
            DumpError::ChannelFailure { namespace, cause } => DumpErrorView::ChannelFailure {
                namespace: *namespace,
                cause: cause@,
            },
            DumpError::ParseFailure { namespace, cause } => DumpErrorView::ParseFailure {
                namespace: *namespace,
                cause: cause@,
            },
        }
    }
}

impl DumpError {
    /// The namespace whose retrieval failed.
    pub fn namespace(&self) -> (namespace: Namespace)
        ensures
            namespace == self@.namespace(),
    {
        match self {
            DumpError::ChannelFailure { namespace, .. } => *namespace,
            DumpError::ParseFailure { namespace, .. } => *namespace,
        }
    }

    /// What the channel or the parser reported.
    pub fn cause(&self) -> (cause: &String)
        ensures
            cause@ == match self@ {
                DumpErrorView::ChannelFailure { cause, .. } => cause,
                DumpErrorView::ParseFailure { cause, .. } => cause,
            },
    {
        match self {
            DumpError::ChannelFailure { cause, .. } => cause,
            DumpError::ParseFailure { cause, .. } => cause,
        }
    }

    /// What the error says went wrong, naming the command where one failed.
    pub fn context(&self) -> (text: String)
        ensures
            text@ == self@.context(),
    {
        match self {
            DumpError::ChannelFailure { namespace, .. } => {
                let command = namespace.command();
                String::from_str("Failed to run: \"").concat(command.as_str()).concat("\"")
            },
            DumpError::ParseFailure { .. } => String::from_str(
                "Failed to parse settings from device",
            ),
        }
    }
}

/// What came of running one namespace's command and parsing its output.
#[derive(Debug)]
pub enum Reply {
    /// The command could not be run; the text says why.
    ChannelFailed(String),
    /// The command ran, but its output was not a settings listing; the text says why.
    ParseFailed(String),
    /// The command ran and its output was parsed.
    Parsed(Settings),
}

/// A [`Reply`] with its contents as mathematical values.
pub enum ReplyView {
    ChannelFailed(Seq<char>),
    ParseFailed(Seq<char>),
    Parsed(Seq<Entry>),
}

impl View for Reply {
    type V = ReplyView;

    open spec fn view(&self) -> ReplyView {
        match self {
            Reply::ChannelFailed(cause) => ReplyView::ChannelFailed(cause@),
            Reply::ParseFailed(cause) => ReplyView::ParseFailed(cause@),
            Reply::Parsed(settings) => ReplyView::Parsed(settings.entries()),
        }
    }
}

/// The settings of all three namespaces, as one retrieval found them.
#[derive(Debug)]
pub struct SettingsSnapshot {
    system: Settings,
    secure: Settings,
    global: Settings,
}

impl SettingsSnapshot {
    /// The entries that the snapshot holds for `namespace`.
    pub closed spec fn entries_of(&self, namespace: Namespace) -> Seq<Entry> {
        match namespace {
            Namespace::System => self.system.entries(),
            Namespace::Secure => self.secure.entries(),
            Namespace::Global => self.global.entries(),
        }
    }

    /// The settings of `namespace`.
    pub fn get(&self, namespace: Namespace) -> (settings: &Settings)
        ensures
            self@.contains_key(namespace),
            settings.entries() == self@[namespace],
    {
        match namespace {
            Namespace::System => &self.system,
            Namespace::Secure => &self.secure,
            Namespace::Global => &self.global,
        }
    }
}

impl View for SettingsSnapshot {
    type V = Map<Namespace, Seq<Entry>>;

    /// The mapping from each of the three namespaces to its entries.
    open spec fn view(&self) -> Map<Namespace, Seq<Entry>> {
        Map::new(|namespace: Namespace| true, |namespace: Namespace| self.entries_of(namespace))
    }
}

/// The snapshot that holds the three listings of `collected`, in the order of retrieval.
pub open spec fn snapshot_of(collected: Seq<Seq<Entry>>) -> Map<Namespace, Seq<Entry>>
    recommends
        collected.len() == 3,
{
    Map::new(
        |namespace: Namespace| true,
        |namespace: Namespace|
            match namespace {
                Namespace::System => collected[0],
                Namespace::Secure => collected[1],
                Namespace::Global => collected[2],
            },
    )
}

/// What is held between two commands.
#[derive(Debug)]
enum Stage {
    System,
    Secure(Settings),
    Global(Settings, Settings),
}

/// A retrieval under way: the settings gathered so far. There is always a namespace left to
/// retrieve.
#[derive(Debug)]
pub struct Dump {
    stage: Stage,
}

/// Where a retrieval stands after a reply.
#[derive(Debug)]
pub enum Progress {
    /// The reply was taken in; the next command is due.
    Next(Dump),
    /// All three namespaces are in.
    Done(SettingsSnapshot),
    /// The retrieval is given up, and nothing of what was gathered is handed out.
    Failed(DumpError),
}

/// A [`Progress`] with its contents as mathematical values.
pub enum ProgressView {
    Next(Seq<Seq<Entry>>),
    Done(Map<Namespace, Seq<Entry>>),
    Failed(DumpErrorView),
}

impl View for Progress {
    type V = ProgressView;

    open spec fn view(&self) -> ProgressView {
        match self {
            Progress::Next(dump) => ProgressView::Next(dump@),
            Progress::Done(snapshot) => ProgressView::Done(snapshot@),
            Progress::Failed(error) => ProgressView::Failed(error@),
        }
    }
}

/// What one reply does to a retrieval that has gathered `collected`: a failure ends it with an
/// error that names the namespace whose command was due; a parsed listing is added, and ends
/// the retrieval with the snapshot if it was the third.
pub open spec fn step(collected: Seq<Seq<Entry>>, reply: ReplyView) -> ProgressView
    recommends
        collected.len() < 3,
{
    let namespace = retrieval_order()[collected.len() as int];
    match reply {
        ReplyView::ChannelFailed(cause) => ProgressView::Failed(
            DumpErrorView::ChannelFailure { namespace, cause },
        ),
        ReplyView::ParseFailed(cause) => ProgressView::Failed(
            DumpErrorView::ParseFailure { namespace, cause },
        ),
        ReplyView::Parsed(entries) => if collected.len() == 2 {
            ProgressView::Done(snapshot_of(collected.push(entries)))
        } else {
            ProgressView::Next(collected.push(entries))
        },
    }
}

impl View for Dump {
    type V = Seq<Seq<Entry>>;

    /// The listings gathered so far, in the order of retrieval.
    closed spec fn view(&self) -> Seq<Seq<Entry>> {
        match self.stage {
            Stage::System => Seq::empty(),
            Stage::Secure(system) => seq![system.entries()],
            Stage::Global(system, secure) => seq![system.entries(), secure.entries()],
        }
    }
}

impl Dump {
    /// A retrieval that has gathered nothing yet.
    pub fn start() -> (dump: Dump)
        ensures
            dump@ == Seq::<Seq<Entry>>::empty(),
    {
        Dump { stage: Stage::System }
    }

    /// The namespace whose command is due.
    pub fn pending(&self) -> (namespace: Namespace)
        ensures
            self@.len() < 3,
            namespace == retrieval_order()[self@.len() as int],
    {
        match &self.stage {
            Stage::System => Namespace::System,
            Stage::Secure(_) => Namespace::Secure,
            Stage::Global(_, _) => Namespace::Global,
        }
    }

    /// The command that is due.
    pub fn command(&self) -> (command: String)
        ensures
            self@.len() < 3,
            command@ == retrieval_order()[self@.len() as int].command_spec(),
    {
        self.pending().command()
    }

    /// Takes in the reply to the command that was due.
    pub fn advance(self, reply: Reply) -> (progress: Progress)
        ensures
            self@.len() < 3,
            progress@ == step(self@, reply@),
    {
        let namespace = self.pending();
        match reply {
            Reply::ChannelFailed(cause) => Progress::Failed(
                DumpError::ChannelFailure { namespace, cause },
            ),
            Reply::ParseFailed(cause) => Progress::Failed(
                DumpError::ParseFailure { namespace, cause },
            ),
            Reply::Parsed(settings) => match self.stage {
                Stage::System => {
                    let next = Dump { stage: Stage::Secure(settings) };
                    assert(next@ =~= self@.push(settings.entries()));
                    Progress::Next(next)
                },
                Stage::Secure(system) => {
                    let next = Dump { stage: Stage::Global(system, settings) };
                    assert(next@ =~= self@.push(settings.entries()));
                    Progress::Next(next)
                },
                Stage::Global(system, secure) => {
                    let snapshot = SettingsSnapshot { system, secure, global: settings };
                    assert(snapshot@ =~= snapshot_of(self@.push(settings.entries())));
                    Progress::Done(snapshot)
                },
            },
        }
    }
}

/// A whole retrieval, given what the device and the parser answer for each namespace: the
/// replies are taken in the order of retrieval, and the first failure ends it, so that a later
/// namespace's command is never run.
pub open spec fn run(system: ReplyView, secure: ReplyView, global: ReplyView) -> ProgressView {
    match step(Seq::empty(), system) {
        ProgressView::Next(first) => match step(first, secure) {
            ProgressView::Next(second) => step(second, global),
            ended => ended,
        },
        ended => ended,
    }
}

/// The error that a failed reply for `namespace` gives rise to.
pub open spec fn failure(namespace: Namespace, reply: ReplyView) -> DumpErrorView
    recommends
        !(reply is Parsed),
{
    match reply {
        ReplyView::ParseFailed(cause) => DumpErrorView::ParseFailure { namespace, cause },
        ReplyView::ChannelFailed(cause) => DumpErrorView::ChannelFailure { namespace, cause },
        ReplyView::Parsed(_) => arbitrary(),
    }
}

/// A retrieval is over after three replies at the latest: it has either a snapshot or an error.
pub proof fn lemma_run_ends(system: ReplyView, secure: ReplyView, global: ReplyView)
    ensures
        !(run(system, secure, global) is Next),
{
}

/// A retrieval yields a snapshot exactly when all three namespaces were parsed. The snapshot
/// then has the three namespaces for its keys, no more and no fewer, and holds for each the
/// listing that was parsed for it.
pub proof fn lemma_run_done(system: ReplyView, secure: ReplyView, global: ReplyView)
    ensures
        run(system, secure, global) is Done <==> system is Parsed && secure is Parsed
            && global is Parsed,
        run(system, secure, global) matches ProgressView::Done(snapshot) ==> {
            &&& snapshot.dom() == set![Namespace::System, Namespace::Secure, Namespace::Global]
            &&& snapshot.dom().len() == 3
            &&& system == ReplyView::Parsed(snapshot[Namespace::System])
            &&& secure == ReplyView::Parsed(snapshot[Namespace::Secure])
            &&& global == ReplyView::Parsed(snapshot[Namespace::Global])
        },
{
    if let ProgressView::Done(snapshot) = run(system, secure, global) {
        let all = set![Namespace::System, Namespace::Secure, Namespace::Global];
        assert forall|namespace: Namespace| all.contains(namespace) by {
            match namespace {
                Namespace::System => {},
                Namespace::Secure => {},
                Namespace::Global => {},
            }
        }
        assert(snapshot.dom() =~= all);
        let one = Set::<Namespace>::empty().insert(Namespace::System);
        let two = one.insert(Namespace::Secure);
        assert(all =~= two.insert(Namespace::Global));
        assert(one.len() == 1);
        assert(two.len() == 2);
    }
}

/// Where the reply for any one namespace is a failure, the retrieval fails and no snapshot
/// comes of it. The error is that of the first namespace, in the order of retrieval, whose
/// reply is a failure.
pub proof fn lemma_run_failed(system: ReplyView, secure: ReplyView, global: ReplyView)
    requires
        !(system is Parsed) || !(secure is Parsed) || !(global is Parsed),
    ensures
        run(system, secure, global) == ProgressView::Failed(
            if !(system is Parsed) {
                failure(Namespace::System, system)
            } else if !(secure is Parsed) {
                failure(Namespace::Secure, secure)
            } else {
                failure(Namespace::Global, global)
            },
        ),
{
}

} // verus!
