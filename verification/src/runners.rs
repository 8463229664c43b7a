//! Runners and runner groups as the dashboard shows them.

use crate::api::custom_label_names;
use crate::api::custom_labels;
use crate::api::ApiRunner;
use crate::api::ApiRunnerGroup;
use crate::api::RunnerGroupVisibility;
use crate::text::decimal;
use crate::text::decimal_digits;
use crate::text::join;
use crate::text::joined;
use crate::text::same_text;
use crate::text::texts;
use crate::ui::DisplayText;
use vstd::prelude::*;
use vstd::string::StringExecFns;

verus! {

/// What a runner is doing.
#[derive(Debug, Clone, Copy, PartialEq, Eq, Structural)]
pub enum RunnerStatus {
    Online,
    Offline,
    Busy,
}

/// The status that a text names, if it names one.
pub open spec fn parsed_status(s: Seq<char>) -> Option<RunnerStatus> {
    if s == "online"@ {
        Some(RunnerStatus::Online)
    } else if s == "offline"@ {
        Some(RunnerStatus::Offline)
    } else if s == "busy"@ {
        Some(RunnerStatus::Busy)
    } else {
        None
    }
}

/// The message for a text that names no status.
pub open spec fn unknown_status(s: Seq<char>) -> Seq<char> {
    "Unknown runner status: "@ + s
}

impl RunnerStatus {
    /// The status named `online`, `offline` or `busy`; any other text is
    /// refused with a message that quotes it.
    pub fn from_str(s: &str) -> (r: Result<RunnerStatus, String>)
        ensures
            match r {
                Ok(status) => parsed_status(s@) == Some(status),
                Err(message) => parsed_status(s@).is_none() && message@ == unknown_status(s@),
            },
    {
        if same_text(s, "online") {
            Ok(RunnerStatus::Online)
        } else if same_text(s, "offline") {
            Ok(RunnerStatus::Offline)
        } else if same_text(s, "busy") {
            Ok(RunnerStatus::Busy)
        } else {
            let message = String::from_str("Unknown runner status: ").concat(s);
            Err(message)
        }
    }

    /// The name of the status.
    pub fn as_str(&self) -> (name: &'static str)
        ensures
            name@ == self.text(),
    {
        match self {
            RunnerStatus::Online => "online",
            RunnerStatus::Offline => "offline",
            RunnerStatus::Busy => "busy",
        }
    }
}

impl DisplayText for RunnerStatus {
    open spec fn text(&self) -> Seq<char> {
        match self {
            RunnerStatus::Online => "online"@,
            RunnerStatus::Offline => "offline"@,
            RunnerStatus::Busy => "busy"@,
        }
    }

    fn display(&self) -> (s: String) {
        String::from_str(self.as_str())
    }
}

/// A build runner: replaced wholesale on every refresh.
#[derive(Debug, Clone)]
pub struct Runner {
    pub id: usize,
    pub status: RunnerStatus,
    pub name: String,
    pub labels: Vec<String>,
    pub group: Option<String>,
}

/// What is compared of a runner.
pub struct RunnerView {
    pub id: usize,
    pub status: RunnerStatus,
    pub name: Seq<char>,
    pub labels: Seq<Seq<char>>,
    pub group: Option<Seq<char>>,
}

/// The text of an optional string.
pub open spec fn opt_text(s: Option<String>) -> Option<Seq<char>> {
    match s {
        Some(t) => Some(t@),
        None => None,
    }
}

impl View for Runner {
    type V = RunnerView;

    open spec fn view(&self) -> RunnerView {
        RunnerView {
            id: self.id,
            status: self.status,
            name: self.name@,
            labels: texts(self.labels@),
            group: opt_text(self.group),
        }
    }
}

/// The status of a reported runner: busy when it is flagged so, else the
/// status that its status text names.
pub open spec fn reported_status(runner: ApiRunner) -> Option<RunnerStatus> {
    if runner.busy {
        Some(RunnerStatus::Busy)
    } else {
        parsed_status(runner.status@)
    }
}

/// The runner that a report with status `status` describes: its custom
/// labels only, and no group yet.
pub open spec fn reported_runner(runner: ApiRunner, status: RunnerStatus) -> RunnerView {
    RunnerView {
        id: runner.id,
        status,
        name: runner.name@,
        labels: custom_labels(runner.labels@),
        group: None,
    }
}

impl Runner {
    pub fn new(id: usize, status: RunnerStatus, name: String, labels: Vec<String>, group: Option<String>) -> (runner:
        Self)
        ensures
            runner == (Runner { id, status, name, labels, group }),
    {
        Runner { id, status, name, labels, group }
    }

    /// The runner that a report describes. A runner flagged busy is busy
    /// whatever its status text says; otherwise the status text decides. The
    /// report has a status: a report that is not busy and whose status text
    /// names none is left to `from_ref`, which refuses it.
    pub fn from(runner: ApiRunner) -> (made: Runner)
        requires
            reported_status(runner).is_some(),
        ensures
            made@ == reported_runner(runner, reported_status(runner).unwrap()),
    {
        let status = if runner.busy {
            RunnerStatus::Busy
        } else {
            match RunnerStatus::from_str(runner.status.as_str()) {
                Ok(status) => status,
                Err(_) => vstd::pervasive::unreached(),
            }
        };
        let labels = custom_label_names(&runner.labels);
        Runner::new(runner.id, status, runner.name, labels, None)
    }

    /// The runner that a report describes, leaving the report in place. A
    /// report that is not busy and whose status text names no status is
    /// refused with the message of `RunnerStatus::from_str`.
    pub fn from_ref(runner: &ApiRunner) -> (r: Result<Runner, String>)
        ensures
            match r {
                Ok(made) => reported_status(*runner).is_some() && made@ == reported_runner(
                    *runner,
                    reported_status(*runner).unwrap(),
                ),
                Err(message) => reported_status(*runner).is_none() && message@ == unknown_status(runner.status@),
            },
    {
        let status = if runner.busy {
            RunnerStatus::Busy
        } else {
            match RunnerStatus::from_str(runner.status.as_str()) {
                Ok(status) => status,
                Err(message) => {
                    return Err(message);
                },
            }
        };
        let labels = custom_label_names(&runner.labels);
        Ok(Runner::new(runner.id, status, runner.name.clone(), labels, None))
    }

    /// The name of the runner's group, `default` for a runner without one.
    pub open spec fn group_text(&self) -> Seq<char> {
        match self.group {
            Some(g) => g@,
            None => "default"@,
        }
    }
}

impl DisplayText for Runner {
    open spec fn text(&self) -> Seq<char> {
        self.name@ + " ["@ + self.status.text() + "] ("@ + self.group_text() + ") | "@ + joined(
            texts(self.labels@),
            " | "@,
        )
    }

    fn display(&self) -> (s: String) {
        let mut s = self.name.clone();
        s.append(" [");
        s.append(self.status.as_str());
        s.append("] (");
        match &self.group {
            Some(g) => s.append(g.as_str()),
            None => s.append("default"),
        }
        s.append(") | ");
        let labels = join(&self.labels, " | ");
        s.append(labels.as_str());
        s
    }
}

/// A named collection of runners.
#[derive(Debug, Clone)]
pub struct RunnerGroup {
    pub id: usize,
    pub name: String,
    pub visibility: RunnerGroupVisibility,
}

/// What is compared of a runner group.
pub struct RunnerGroupView {
    pub id: usize,
    pub name: Seq<char>,
    pub visibility: RunnerGroupVisibility,
}

impl View for RunnerGroup {
    type V = RunnerGroupView;

    open spec fn view(&self) -> RunnerGroupView {
        RunnerGroupView { id: self.id, name: self.name@, visibility: self.visibility }
    }
}

impl RunnerGroup {
    pub fn new(id: usize, name: String, visibility: RunnerGroupVisibility) -> (group: Self)
        ensures
            group == (RunnerGroup { id, name, visibility }),
    {
        RunnerGroup { id, name, visibility }
    }

    /// The group that a report describes.
    pub fn from(group: ApiRunnerGroup) -> (made: RunnerGroup)
        ensures
            made == (RunnerGroup { id: group.id, name: group.name, visibility: group.visibility }),
    {
        RunnerGroup::new(group.id, group.name, group.visibility)
    }

    /// The group that a report describes, leaving the report in place.
    pub fn from_ref(group: &ApiRunnerGroup) -> (made: RunnerGroup)
        ensures
            made == (RunnerGroup { id: group.id, name: group.name, visibility: group.visibility }),
    {
        RunnerGroup::new(group.id, group.name.clone(), group.visibility)
    }
}

impl DisplayText for RunnerGroup {
    open spec fn text(&self) -> Seq<char> {
        self.name@ + " ID: "@ + decimal_digits(self.id as nat)
    }

    fn display(&self) -> (s: String) {
        let mut s = self.name.clone();
        s.append(" ID: ");
        let id = decimal(self.id);
        s.append(id.as_str());
        s
    }
}

} // verus!
