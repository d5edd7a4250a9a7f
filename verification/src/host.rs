//! What passes between the supervisor and its host: the files seen at a
//! server's location, the work the host is asked to do, and its reports.

use vstd::prelude::*;
use crate::error::{Error, ErrorView};

verus! {

/// One entry of a directory listing.
pub struct Entry {
    pub name: String,
    pub is_file: bool,
}

/// A directory entry as contracts speak of it.
pub struct EntryView {
    pub name: Seq<char>,
    pub is_file: bool,
}

impl View for Entry {
    type V = EntryView;

    open spec fn view(&self) -> EntryView {
        EntryView { name: self.name@, is_file: self.is_file }
    }
}

/// What the host saw at a server's location.
pub struct Site {
    /// The entries of the directory at the server's path, in the order the
    /// listing gave them.
    pub entries: Vec<Entry>,
    /// The absolute form of the server's log directory, or the reason for
    /// which the host could not resolve it.
    pub log_dir: Result<String, String>,
}

/// A site as contracts speak of it.
pub struct SiteView {
    pub entries: Seq<EntryView>,
    pub log_dir: Result<Seq<char>, Seq<char>>,
}

impl View for Site {
    type V = SiteView;

    open spec fn view(&self) -> SiteView {
        SiteView {
            entries: self.entries@.map_values(|e: Entry| e@),
            log_dir: match self.log_dir {
                Ok(dir) => Ok(dir@),
                Err(reason) => Err(reason@),
            },
        }
    }
}

impl SiteView {
    /// An entry called `name` is listed.
    pub open spec fn has(self, name: Seq<char>) -> bool {
        exists|i: int| 0 <= i < self.entries.len() && #[trigger] self.entries[i].name == name
    }
}

impl Site {
    /// Whether an entry called `name` is listed.
    pub fn has(&self, name: &str) -> (r: bool)
        ensures
            r == self@.has(name@),
    {
        let key = String::from_str(name);
        let mut i: usize = 0;
        while i < self.entries.len()
            invariant
                i <= self.entries.len(),
                key@ == name@,
                forall|j: int| 0 <= j < i ==> self@.entries[j].name != name@,
            decreases self.entries.len() - i,
        {
            if self.entries[i].name == key {
                assert(self@.entries[i as int].name == name@);
                return true;
            }
            i += 1;
        }
        false
    }
}

/// An external command: the program, its arguments, and the directory in
/// which it runs.
pub struct Invocation {
    pub program: String,
    pub args: Vec<String>,
    pub dir: String,
}

/// An invocation as contracts speak of it.
pub struct InvocationView {
    pub program: Seq<char>,
    pub args: Seq<Seq<char>>,
    pub dir: Seq<char>,
}

impl View for Invocation {
    type V = InvocationView;

    open spec fn view(&self) -> InvocationView {
        InvocationView {
            program: self.program@,
            args: self.args@.map_values(|a: String| a@),
            dir: self.dir@,
        }
    }
}

/// Work that only the host can do.
pub enum Action {
    /// Run a command and wait for it.
    Execute(Invocation),
    /// Pull the latest changes into the working tree at `path`.
    Pull { path: String },
    /// Name the files that differ between two revisions of the tree at `path`.
    DiffNames { from: String, to: String, path: String },
    /// Make the directory at `path` a repository.
    InitRepository { path: String },
    /// Set the remote origin of the repository at `path`.
    SetRemote { path: String, url: String },
    /// Configure the build of the project at `path`.
    Configure { path: String },
    /// Compile and install the project at `path`.
    Build { path: String },
    /// Show the machine's processor and memory usage until interrupted.
    ShowHardware,
}

/// An action as contracts speak of it.
pub enum ActionView {
    Execute(InvocationView),
    Pull { path: Seq<char> },
    DiffNames { from: Seq<char>, to: Seq<char>, path: Seq<char> },
    InitRepository { path: Seq<char> },
    SetRemote { path: Seq<char>, url: Seq<char> },
    Configure { path: Seq<char> },
    Build { path: Seq<char> },
    ShowHardware,
}

impl View for Action {
    type V = ActionView;

    open spec fn view(&self) -> ActionView {
        match self {
            Action::Execute(invocation) => ActionView::Execute(invocation@),
            Action::Pull { path } => ActionView::Pull { path: path@ },
            Action::DiffNames { from, to, path } => ActionView::DiffNames {
                from: from@,
                to: to@,
                path: path@,
            },
            Action::InitRepository { path } => ActionView::InitRepository { path: path@ },
            Action::SetRemote { path, url } => ActionView::SetRemote { path: path@, url: url@ },
            Action::Configure { path } => ActionView::Configure { path: path@ },
            Action::Build { path } => ActionView::Build { path: path@ },
            Action::ShowHardware => ActionView::ShowHardware,
        }
    }
}

/// What the host reports of one action: whether it succeeded, and the
/// text it produced.
pub struct Report {
    pub success: bool,
    pub stdout: String,
    pub stderr: String,
}

/// A report as contracts speak of it.
pub struct ReportView {
    pub success: bool,
    pub stdout: Seq<char>,
    pub stderr: Seq<char>,
}

impl View for Report {
    type V = ReportView;

    open spec fn view(&self) -> ReportView {
        ReportView { success: self.success, stdout: self.stdout@, stderr: self.stderr@ }
    }
}

/// The reports of a slice, in order.
pub open spec fn report_views(reports: Seq<Report>) -> Seq<ReportView> {
    reports.map_values(|r: Report| r@)
}

/// How far an operation got with the reports it was given.
///
/// An operation is a function of the state and of the reports of the
/// actions it has asked for so far. With too few reports it changes
/// nothing and answers `Run` with the next action; the caller performs it,
/// appends the report, and calls again with the same arguments.
pub enum Step<T> {
    /// The operation needs this action performed before it can go on.
    Run(Action),
    /// The operation is complete.
    Done(Result<T, Error>),
}

/// A step as contracts speak of it.
pub enum StepView<V> {
    Run(ActionView),
    Done(Result<V, ErrorView>),
}

impl<T: View> View for Step<T> {
    type V = StepView<T::V>;

    open spec fn view(&self) -> StepView<T::V> {
        match self {
            Step::Run(action) => StepView::Run(action@),
            Step::Done(Ok(value)) => StepView::Done(Ok(value@)),
            Step::Done(Err(error)) => StepView::Done(Err(error@)),
        }
    }
}

} // verus!
