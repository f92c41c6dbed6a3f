//! Starting, stopping and configuring the reaction process on command.
//!
//! The supervisor decides; its caller acts. [`Supervisor::command`] answers
//! a command of the operator with the actions to perform and says which
//! report, if any, it awaits; [`Supervisor::report`] answers that report in
//! the same way. A command is over when nothing is awaited any more. What
//! is awaited is a value in the caller's hands: a caller that cannot go on
//! drops it, and the supervisor is as it was after the last answer.

use crate::filter::{FilterSettings, FilterView, DEFAULT_MIN_AMOUNT};
use crate::number::{decimal_chars, decimal_text};
use crate::text::{
    chars_of, lowercase, lowercase_chars, optional_text, same_chars, string_of, trim, trimmed,
};
use vstd::prelude::*;
use vstd::string::StringExecFns;

verus! {

/// Where the reaction process's binary lies below its project directory.
pub const BINARY_SUFFIX: &'static str = "/target/release/tdlib-test";

/// The name by which stray reaction processes are found.
pub const PROCESS_NAME: &'static str = "tdlib-test";

/// The variable that carries the bank filter to the reaction process.
pub const BANK_VARIABLE: &'static str = "BANK_FILTER";

/// The variable that carries the requisite filter to the reaction process.
pub const REQUISITE_VARIABLE: &'static str = "REQUISITE_FILTER";

/// The variable that carries the minimum amount to the reaction process.
pub const AMOUNT_VARIABLE: &'static str = "MIN_AMOUNT";

/// A command of the operator.
pub enum Command {
    Start,
    Stop,
    Status,
    Bank(String),
    Requisite(String),
    Amount(i32),
    Clear,
    Help,
}

/// A command as plain values.
pub enum CommandView {
    Start,
    Stop,
    Status,
    Bank(Seq<char>),
    Requisite(Seq<char>),
    Amount(i32),
    Clear,
    Help,
}

impl View for Command {
    type V = CommandView;

    open spec fn view(&self) -> CommandView {
        match self {
            Command::Start => CommandView::Start,
            Command::Stop => CommandView::Stop,
            Command::Status => CommandView::Status,
            Command::Bank(filter) => CommandView::Bank(filter@),
            Command::Requisite(filter) => CommandView::Requisite(filter@),
            Command::Amount(value) => CommandView::Amount(*value),
            Command::Clear => CommandView::Clear,
            Command::Help => CommandView::Help,
        }
    }
}

/// How an action ended. An action that failed reports the text of its
/// error.
pub enum Report {
    /// Whether the binary exists.
    BinaryProbed(bool),
    BuildFinished(Option<String>),
    SpawnFinished(Option<String>),
    GroupSignalled(Option<String>),
    ChildKilled(Option<String>),
}

/// A report as plain values.
pub enum ReportView {
    BinaryProbed(bool),
    BuildFinished(Option<Seq<char>>),
    SpawnFinished(Option<Seq<char>>),
    GroupSignalled(Option<Seq<char>>),
    ChildKilled(Option<Seq<char>>),
}

impl View for Report {
    type V = ReportView;

    open spec fn view(&self) -> ReportView {
        match self {
            Report::BinaryProbed(present) => ReportView::BinaryProbed(*present),
            Report::BuildFinished(error) => ReportView::BuildFinished(optional_text(*error)),
            Report::SpawnFinished(error) => ReportView::SpawnFinished(optional_text(*error)),
            Report::GroupSignalled(error) => ReportView::GroupSignalled(optional_text(*error)),
            Report::ChildKilled(error) => ReportView::ChildKilled(optional_text(*error)),
        }
    }
}

/// Which report a command still awaits.
pub enum Pending {
    ProbingBinary,
    Building,
    Spawning,
    SignallingGroup,
    /// The direct kill, after signalling the group failed with this error.
    KillingChild(String),
}

/// What is awaited, as plain values.
pub enum PendingView {
    ProbingBinary,
    Building,
    Spawning,
    SignallingGroup,
    KillingChild(Seq<char>),
}

impl View for Pending {
    type V = PendingView;

    open spec fn view(&self) -> PendingView {
        match self {
            Pending::ProbingBinary => PendingView::ProbingBinary,
            Pending::Building => PendingView::Building,
            Pending::Spawning => PendingView::Spawning,
            Pending::SignallingGroup => PendingView::SignallingGroup,
            Pending::KillingChild(error) => PendingView::KillingChild(error@),
        }
    }
}

/// What is awaited, if anything, as plain values.
pub open spec fn pending_view(pending: Option<Pending>) -> Option<PendingView> {
    match pending {
        Some(pending) => Some(pending@),
        None => None,
    }
}

/// What the operator is told.
pub enum Notice {
    AlreadyRunning,
    Building,
    BuildFailed(String),
    Started(FilterSettings),
    StartFailed(String),
    NotRunning,
    Stopped,
    StoppedByFallback,
    /// The error of the group signal, then the error of the direct kill.
    StopFailed(String, String),
    /// Whether the reaction process runs, and the configured filters.
    Status(bool, FilterSettings),
    BankCleared,
    BankSet(String),
    RequisiteCleared,
    RequisiteSet(String),
    AmountSet(i32),
    Cleared,
    RestartNeeded,
}

/// A notice as plain values.
pub enum NoticeView {
    AlreadyRunning,
    Building,
    BuildFailed(Seq<char>),
    Started(FilterView),
    StartFailed(Seq<char>),
    NotRunning,
    Stopped,
    StoppedByFallback,
    StopFailed(Seq<char>, Seq<char>),
    Status(bool, FilterView),
    BankCleared,
    BankSet(Seq<char>),
    RequisiteCleared,
    RequisiteSet(Seq<char>),
    AmountSet(i32),
    Cleared,
    RestartNeeded,
}

impl View for Notice {
    type V = NoticeView;

    open spec fn view(&self) -> NoticeView {
        match self {
            Notice::AlreadyRunning => NoticeView::AlreadyRunning,
            Notice::Building => NoticeView::Building,
            Notice::BuildFailed(error) => NoticeView::BuildFailed(error@),
            Notice::Started(filters) => NoticeView::Started(filters@),
            Notice::StartFailed(error) => NoticeView::StartFailed(error@),
            Notice::NotRunning => NoticeView::NotRunning,
            Notice::Stopped => NoticeView::Stopped,
            Notice::StoppedByFallback => NoticeView::StoppedByFallback,
            Notice::StopFailed(first, second) => NoticeView::StopFailed(first@, second@),
            Notice::Status(running, filters) => NoticeView::Status(*running, filters@),
            Notice::BankCleared => NoticeView::BankCleared,
            Notice::BankSet(filter) => NoticeView::BankSet(filter@),
            Notice::RequisiteCleared => NoticeView::RequisiteCleared,
            Notice::RequisiteSet(filter) => NoticeView::RequisiteSet(filter@),
            Notice::AmountSet(value) => NoticeView::AmountSet(*value),
            Notice::Cleared => NoticeView::Cleared,
            Notice::RestartNeeded => NoticeView::RestartNeeded,
        }
    }
}

/// What the supervisor asks its caller to do.
pub enum Action {
    /// Tell the operator.
    Reply(Notice),
    /// Send the operator the list of commands.
    DescribeCommands,
    /// Kill every process with the reaction process's name; how that ends
    /// is not reported.
    SweepStrays,
    /// Report with [`Report::BinaryProbed`] whether this file exists.
    ProbeBinary(String),
    /// Build the project in this directory and report with
    /// [`Report::BuildFinished`].
    Build(String),
    /// Spawn this binary with these variables added to its environment,
    /// keep its handle, and report with [`Report::SpawnFinished`].
    Spawn(String, Vec<(String, String)>),
    /// Ask the tracked child's process group to terminate and report with
    /// [`Report::GroupSignalled`].
    SignalGroup,
    /// Kill the tracked child; drop its handle if that worked, keep it
    /// otherwise, and report with [`Report::ChildKilled`].
    KillChild,
    /// Kill the tracked child and drop its handle, whatever comes of it.
    DiscardChild,
}

/// An action as plain values.
pub enum ActionView {
    Reply(NoticeView),
    DescribeCommands,
    SweepStrays,
    ProbeBinary(Seq<char>),
    Build(Seq<char>),
    Spawn(Seq<char>, Seq<(Seq<char>, Seq<char>)>),
    SignalGroup,
    KillChild,
    DiscardChild,
}

/// The pairs of texts held by a vector of pairs of strings.
pub open spec fn pairs_view(pairs: Seq<(String, String)>) -> Seq<(Seq<char>, Seq<char>)> {
    Seq::new(pairs.len(), |i: int| (pairs[i].0@, pairs[i].1@))
}

impl View for Action {
    type V = ActionView;

    open spec fn view(&self) -> ActionView {
        match self {
            Action::Reply(notice) => ActionView::Reply(notice@),
            Action::DescribeCommands => ActionView::DescribeCommands,
            Action::SweepStrays => ActionView::SweepStrays,
            Action::ProbeBinary(path) => ActionView::ProbeBinary(path@),
            Action::Build(directory) => ActionView::Build(directory@),
            Action::Spawn(binary, environment) => ActionView::Spawn(
                binary@,
                pairs_view(environment@),
            ),
            Action::SignalGroup => ActionView::SignalGroup,
            Action::KillChild => ActionView::KillChild,
            Action::DiscardChild => ActionView::DiscardChild,
        }
    }
}

/// The actions held by a vector, as plain values.
pub open spec fn actions_view(actions: Seq<Action>) -> Seq<ActionView> {
    Seq::new(actions.len(), |i: int| actions[i]@)
}

/// What the supervisor knows.
/// What the supervisor knows.
pub struct Supervisor {
    /// The project directory of the reaction process.
    pub reaction_bot_path: String,
    /// Whether the caller holds the handle of a child.
    pub child_tracked: bool,
    pub is_running: bool,
    pub last_status: String,
    pub filters: FilterSettings,
}

/// What the supervisor knows, as plain values.
pub struct SupervisorView {
    pub reaction_bot_path: Seq<char>,
    pub child_tracked: bool,
    pub is_running: bool,
    pub last_status: Seq<char>,
    pub filters: FilterView,
}

impl View for Supervisor {
    type V = SupervisorView;

    open spec fn view(&self) -> SupervisorView {
        SupervisorView {
            reaction_bot_path: self.reaction_bot_path@,
            child_tracked: self.child_tracked,
            is_running: self.is_running,
            last_status: self.last_status@,
            filters: self.filters@,
        }
    }
}

/// An answer of the supervisor: what it knows now, the actions it asks
/// for, and the report that the command still awaits.
pub struct Answer {
    pub state: SupervisorView,
    pub actions: Seq<ActionView>,
    pub pending: Option<PendingView>,
}

/// The filters that hold when none is configured.
pub open spec fn default_filters() -> FilterView {
    FilterView { bank_filter: None, requisite_filter: None, min_amount: DEFAULT_MIN_AMOUNT as int }
}

/// A filter value that clears the filter: empty or `none` in any case,
/// white space around it aside.
pub open spec fn clears_filter(value: Seq<char>) -> bool {
    lowercase(trimmed(value)) == "none"@ || trimmed(value).len() == 0
}

/// The binary of the reaction process below its project directory.
pub open spec fn binary_path(project: Seq<char>) -> Seq<char> {
    project + BINARY_SUFFIX@
}

/// The variables that carry the filters to the reaction process: a filter
/// that is absent has no variable, the minimum always has one.
pub open spec fn spawn_environment(filters: FilterView) -> Seq<(Seq<char>, Seq<char>)> {
    (match filters.bank_filter {
        Some(filter) => seq![(BANK_VARIABLE@, filter)],
        None => Seq::empty(),
    }) + (match filters.requisite_filter {
        Some(filter) => seq![(REQUISITE_VARIABLE@, filter)],
        None => Seq::empty(),
    }) + seq![(AMOUNT_VARIABLE@, decimal_text(filters.min_amount))]
}

/// The action that spawns the reaction process.
pub open spec fn spawn_action(s: SupervisorView) -> ActionView {
    ActionView::Spawn(binary_path(s.reaction_bot_path), spawn_environment(s.filters))
}

/// `actions`, followed while the reaction process runs by the notice that
/// a change takes effect only after a restart.
pub open spec fn with_restart_hint(running: bool, actions: Seq<ActionView>) -> Seq<ActionView> {
    if running {
        actions.push(ActionView::Reply(NoticeView::RestartNeeded))
    } else {
        actions
    }
}

/// The supervisor with other filters.
pub open spec fn with_filters(s: SupervisorView, filters: FilterView) -> SupervisorView {
    SupervisorView { filters, ..s }
}

/// The supervisor once the reaction process is known to be gone.
pub open spec fn stopped(s: SupervisorView) -> SupervisorView {
    SupervisorView { child_tracked: false, is_running: false, last_status: "Stopped"@, ..s }
}

/// An answer that ends the command.
pub open spec fn done(state: SupervisorView, actions: Seq<ActionView>) -> Answer {
    Answer { state, actions, pending: None }
}

/// An answer that changes nothing yet and awaits a report.
pub open spec fn awaiting(
    state: SupervisorView,
    actions: Seq<ActionView>,
    pending: PendingView,
) -> Answer {
    Answer { state, actions, pending: Some(pending) }
}

/// What a command does, whatever the supervisor knows.
pub open spec fn on_command(s: SupervisorView, command: CommandView) -> Answer {
    match command {
        CommandView::Start => if s.is_running {
            done(s, seq![ActionView::Reply(NoticeView::AlreadyRunning)])
        } else {
            awaiting(
                s,
                seq![
                    ActionView::SweepStrays,
                    ActionView::ProbeBinary(binary_path(s.reaction_bot_path)),
                ],
                PendingView::ProbingBinary,
            )
        },
        CommandView::Stop => if !s.is_running {
            done(s, seq![ActionView::Reply(NoticeView::NotRunning)])
        } else if s.child_tracked {
            awaiting(s, seq![ActionView::SignalGroup], PendingView::SignallingGroup)
        } else {
            done(
                stopped(s),
                seq![ActionView::SweepStrays, ActionView::Reply(NoticeView::Stopped)],
            )
        },
        CommandView::Status => done(
            s,
            seq![ActionView::Reply(NoticeView::Status(s.is_running, s.filters))],
        ),
        CommandView::Bank(value) => if clears_filter(value) {
            done(
                with_filters(s, FilterView { bank_filter: None, ..s.filters }),
                with_restart_hint(s.is_running, seq![ActionView::Reply(NoticeView::BankCleared)]),
            )
        } else {
            done(
                with_filters(s, FilterView { bank_filter: Some(value), ..s.filters }),
                with_restart_hint(
                    s.is_running,
                    seq![ActionView::Reply(NoticeView::BankSet(value))],
                ),
            )
        },
        CommandView::Requisite(value) => if clears_filter(value) {
            done(
                with_filters(s, FilterView { requisite_filter: None, ..s.filters }),
                with_restart_hint(
                    s.is_running,
                    seq![ActionView::Reply(NoticeView::RequisiteCleared)],
                ),
            )
        } else {
            done(
                with_filters(s, FilterView { requisite_filter: Some(value), ..s.filters }),
                with_restart_hint(
                    s.is_running,
                    seq![ActionView::Reply(NoticeView::RequisiteSet(value))],
                ),
            )
        },
        CommandView::Amount(value) => done(
            with_filters(s, FilterView { min_amount: value as int, ..s.filters }),
            with_restart_hint(s.is_running, seq![ActionView::Reply(NoticeView::AmountSet(value))]),
        ),
        CommandView::Clear => done(
            with_filters(s, default_filters()),
            with_restart_hint(s.is_running, seq![ActionView::Reply(NoticeView::Cleared)]),
        ),
        CommandView::Help => done(s, seq![ActionView::DescribeCommands]),
    }
}

/// What the report of an awaited action does. A report of another kind
/// than the awaited one changes nothing, asks for nothing and leaves the
/// same report awaited.
pub open spec fn on_report(s: SupervisorView, pending: PendingView, report: ReportView) -> Answer {
    match (pending, report) {
        (PendingView::ProbingBinary, ReportView::BinaryProbed(present)) => if present {
            awaiting(s, seq![spawn_action(s)], PendingView::Spawning)
        } else {
            awaiting(
                s,
                seq![
                    ActionView::Reply(NoticeView::Building),
                    ActionView::Build(s.reaction_bot_path),
                ],
                PendingView::Building,
            )
        },
        (PendingView::Building, ReportView::BuildFinished(error)) => match error {
            Some(error) => done(
                SupervisorView { last_status: "Failed to build: "@ + error, ..s },
                seq![ActionView::Reply(NoticeView::BuildFailed(error))],
            ),
            None => awaiting(s, seq![spawn_action(s)], PendingView::Spawning),
        },
        (PendingView::Spawning, ReportView::SpawnFinished(error)) => match error {
            Some(error) => done(
                SupervisorView { last_status: "Failed to start: "@ + error, ..s },
                seq![ActionView::Reply(NoticeView::StartFailed(error))],
            ),
            None => done(
                SupervisorView {
                    child_tracked: true,
                    is_running: true,
                    last_status: "Running"@,
                    ..s
                },
                seq![ActionView::Reply(NoticeView::Started(s.filters))],
            ),
        },
        (PendingView::SignallingGroup, ReportView::GroupSignalled(error)) => match error {
            Some(error) => awaiting(
                s,
                seq![ActionView::KillChild],
                PendingView::KillingChild(error),
            ),
            None => done(
                stopped(s),
                seq![ActionView::DiscardChild, ActionView::Reply(NoticeView::Stopped)],
            ),
        },
        (PendingView::KillingChild(first), ReportView::ChildKilled(error)) => match error {
            Some(second) => done(
                s,
                seq![ActionView::Reply(NoticeView::StopFailed(first, second))],
            ),
            None => done(stopped(s), seq![ActionView::Reply(NoticeView::StoppedByFallback)]),
        },
        _ => awaiting(s, Seq::empty(), pending),
    }
}

pub open spec fn or_none(filter: Option<Seq<char>>) -> Seq<char> {
    match filter {
        Some(filter) => filter,
        None => "None"@,
    }
}

/// The filters as the operator is shown them.
pub open spec fn filter_info(filters: FilterView) -> Seq<char> {
    "Bank filter: "@ + or_none(filters.bank_filter) + "\nRequisite filter: "@ + or_none(
        filters.requisite_filter,
    ) + "\nMinimum amount: "@ + decimal_text(filters.min_amount)
}

/// The text of a notice.
pub open spec fn notice_text(notice: NoticeView) -> Seq<char> {
    match notice {
        NoticeView::AlreadyRunning => "The reaction bot is already running."@,
        NoticeView::Building => "🔨 Building reaction bot (one-time setup)..."@,
        NoticeView::BuildFailed(error) => "❌ Failed to build reaction bot: "@ + error,
        NoticeView::Started(filters) =>
            "✅ Reaction bot started successfully with the following settings:\n\n"@
            + filter_info(filters),
        NoticeView::StartFailed(error) => "❌ Failed to start reaction bot: "@ + error,
        NoticeView::NotRunning => "The reaction bot is not running."@,
        NoticeView::Stopped => "✅ Reaction bot stopped successfully."@,
        NoticeView::StoppedByFallback => "✅ Reaction bot stopped successfully (fallback method)."@,
        NoticeView::StopFailed(first, second) => "❌ Failed to stop reaction bot: "@ + first
            + " (fallback error: "@ + second + ")"@,
        NoticeView::Status(running, filters) => "Reaction bot status: "@ + (if running {
            "✅ Running"@
        } else {
            "❌ Not running"@
        }) + "\n\nCurrent settings:\n"@ + filter_info(filters),
        NoticeView::BankCleared => "✅ Bank filter cleared."@,
        NoticeView::BankSet(filter) => "✅ Bank filter set to: "@ + filter,
        NoticeView::RequisiteCleared => "✅ Requisite filter cleared."@,
        NoticeView::RequisiteSet(filter) => if filter == seq!['+'] {
            "✅ Requisite filter set to: "@ + filter
                + "\n\n⚠️ Note: With '+' filter, the bot will also react to T-Bank messages regardless of their requisite."@
        } else {
            "✅ Requisite filter set to: "@ + filter
        },
        NoticeView::AmountSet(value) => "✅ Minimum amount set to: "@ + decimal_text(value as int),
        NoticeView::Cleared =>
            "✅ All filters cleared and minimum amount reset to default (38000)."@,
        NoticeView::RestartNeeded =>
            "⚠️ Please restart the bot with /stop and then /start for the changes to take effect."@,
    }
}

/// While a start is under way the reaction process does not run, and while

/// A start while the reaction process runs says so and changes nothing,
/// whatever else the supervisor knows: no process is touched and nothing
/// is awaited.
pub proof fn lemma_start_while_running(s: SupervisorView)
    requires
        s.is_running,
    ensures
        on_command(s, CommandView::Start) == done(
            s,
            seq![ActionView::Reply(NoticeView::AlreadyRunning)],
        ),
{
}

/// A stop while the reaction process does not run says so and changes
/// nothing, whatever else the supervisor knows: nothing is killed and
/// nothing is awaited.
pub proof fn lemma_stop_while_not_running(s: SupervisorView)
    requires
        !s.is_running,
    ensures
        on_command(s, CommandView::Stop) == done(
            s,
            seq![ActionView::Reply(NoticeView::NotRunning)],
        ),
{
}

/// After the minimum is set, the status reports it, in a text that ends
/// with its digits; after a clear the filters are the default ones again.
pub proof fn lemma_amount_then_status(s: SupervisorView, value: i32)
    ensures
        ({
            let set = on_command(s, CommandView::Amount(value)).state;
            let filters = FilterView { min_amount: value as int, ..s.filters };
            let report = NoticeView::Status(s.is_running, filters);
            let cleared = on_command(set, CommandView::Clear).state;
            &&& set == with_filters(s, filters)
            &&& on_command(set, CommandView::Status) == done(
                set,
                seq![ActionView::Reply(report)],
            )
            &&& notice_text(report).len() >= decimal_text(value as int).len()
            &&& notice_text(report).skip(
                notice_text(report).len() - decimal_text(value as int).len(),
            ) == decimal_text(value as int)
            &&& cleared.filters == default_filters()
            &&& on_command(cleared, CommandView::Status).actions == seq![
                ActionView::Reply(NoticeView::Status(s.is_running, default_filters())),
            ]
        }),
{
    let filters = FilterView { min_amount: value as int, ..s.filters };
    let report = NoticeView::Status(s.is_running, filters);
    let digits = decimal_text(value as int);
    let text = notice_text(report);
    assert(text.skip(text.len() - digits.len()) =~= digits);
}

/// The operator is told that the reaction process was stopped.
pub open spec fn tells_stopped(actions: Seq<ActionView>) -> bool {
    actions.contains(ActionView::Reply(NoticeView::Stopped)) || actions.contains(
        ActionView::Reply(NoticeView::StoppedByFallback),
    )
}

/// Whenever a command tells the operator that the reaction process was
/// stopped, it is recorded as not running and no child is tracked.
pub proof fn lemma_stopped_command_means_not_running(s: SupervisorView, command: CommandView)
    requires
        tells_stopped(on_command(s, command).actions),
    ensures
        !on_command(s, command).state.is_running,
        !on_command(s, command).state.child_tracked,
{
    let actions = on_command(s, command).actions;
    let told = if actions.contains(ActionView::Reply(NoticeView::Stopped)) {
        ActionView::Reply(NoticeView::Stopped)
    } else {
        ActionView::Reply(NoticeView::StoppedByFallback)
    };
    let i = choose|i: int| 0 <= i < actions.len() && actions[i] == told;
    assert(actions[i] == told);
}

/// Whenever a report tells the operator that the reaction process was
/// stopped, it is recorded as not running and no child is tracked.
pub proof fn lemma_stopped_report_means_not_running(
    s: SupervisorView,
    pending: PendingView,
    report: ReportView,
)
    requires
        tells_stopped(on_report(s, pending, report).actions),
    ensures
        !on_report(s, pending, report).state.is_running,
        !on_report(s, pending, report).state.child_tracked,
{
    let actions = on_report(s, pending, report).actions;
    let told = if actions.contains(ActionView::Reply(NoticeView::Stopped)) {
        ActionView::Reply(NoticeView::Stopped)
    } else {
        ActionView::Reply(NoticeView::StoppedByFallback)
    };
    let i = choose|i: int| 0 <= i < actions.len() && actions[i] == told;
    assert(actions[i] == told);
}

/// Until its last report a start changes nothing that the supervisor
/// knows, so a start that is given up leaves no trace, and a spawn that
/// fails leaves the reaction process recorded as not running.
pub proof fn lemma_failed_start_is_not_running(s: SupervisorView, present: bool, error: Seq<char>)
    requires
        !s.is_running,
    ensures
        on_command(s, CommandView::Start).state == s,
        on_command(s, CommandView::Start).pending == Some(PendingView::ProbingBinary),
        on_report(s, PendingView::ProbingBinary, ReportView::BinaryProbed(present)).state == s,
        on_report(s, PendingView::Building, ReportView::BuildFinished(None)).state == s,
        !on_report(
            s,
            PendingView::Building,
            ReportView::BuildFinished(Some(error)),
        ).state.is_running,
        !on_report(
            s,
            PendingView::Spawning,
            ReportView::SpawnFinished(Some(error)),
        ).state.is_running,
        on_report(s, PendingView::Spawning, ReportView::SpawnFinished(Some(error))).pending
            is None,
{
}

/// The reaction process reads from its environment the minimum that the
/// supervisor wrote there.
pub proof fn lemma_environment_carries_minimum(filters: FilterView)
    requires
        i32::MIN <= filters.min_amount <= i32::MAX,
    ensures
        spawn_environment(filters).last().0 == AMOUNT_VARIABLE@,
        crate::filter::configured_minimum(Some(spawn_environment(filters).last().1))
            == filters.min_amount,
{
    crate::number::lemma_i32_round_trip(filters.min_amount as i32);
}

pub open spec fn operator_allowed(operators: Seq<i64>, sender: Option<i64>) -> bool {
    sender matches Some(id) && (operators.len() == 0 || operators.contains(id))
}

/// Whether commands of `sender` are obeyed.
pub fn is_authorized(operators: &Vec<i64>, sender: Option<i64>) -> (r: bool)
    ensures
        r == operator_allowed(operators@, sender),
{
    match sender {
        Some(id) => {
            if operators.len() == 0 {
                return true;
            }
            let mut i: usize = 0;
            while i < operators.len()
                invariant
                    i <= operators.len(),
                    sender == Some(id),
                    operators.len() > 0,
                    forall|k: int| 0 <= k < i ==> operators@[k] != id,
                decreases operators.len() - i,
            {
                if operators[i] == id {
                    assert(operators@[i as int] == id);
                    return true;
                }
                i += 1;
            }
            false
        },
        None => false,
    }
}

/// A copy of an optional string.
fn copy_text(text: &Option<String>) -> (r: Option<String>)
    ensures
        optional_text(r) == optional_text(*text),
{
    match text {
        Some(text) => Some(text.clone()),
        None => None,
    }
}

/// A copy of the filters.
fn copy_filters(filters: &FilterSettings) -> (r: FilterSettings)
    ensures
        r@ == filters@,
{
    FilterSettings {
        bank_filter: copy_text(&filters.bank_filter),
        requisite_filter: copy_text(&filters.requisite_filter),
        min_amount: filters.min_amount,
    }
}

/// `head` followed by `tail`.
fn join(head: &str, tail: &str) -> (r: String)
    ensures
        r@ == head@ + tail@,
{
    let mut r = head.to_owned();
    r.append(tail);
    r
}

/// The decimal text of `value`.
fn amount_text(value: i32) -> (r: String)
    ensures
        r@ == decimal_text(value as int),
{
    string_of(&decimal_chars(value as i64))
}

/// Whether a filter value clears the filter.
pub fn clears(value: &str) -> (r: bool)
    ensures
        r == clears_filter(value@),
{
    let bare = trim(&chars_of(value));
    if bare.len() == 0 {
        return true;
    }
    same_chars(&lowercase_chars(&bare), &chars_of("none"))
}

/// The variables that carry the filters to the reaction process.
pub fn environment(filters: &FilterSettings) -> (r: Vec<(String, String)>)
    ensures
        pairs_view(r@) == spawn_environment(filters@),
{
    let mut out: Vec<(String, String)> = Vec::new();
    match &filters.bank_filter {
        Some(filter) => {
            out.push((BANK_VARIABLE.to_owned(), filter.clone()));
        },
        None => {},
    }
    match &filters.requisite_filter {
        Some(filter) => {
            out.push((REQUISITE_VARIABLE.to_owned(), filter.clone()));
        },
        None => {},
    }
    out.push((AMOUNT_VARIABLE.to_owned(), amount_text(filters.min_amount)));
    assert(pairs_view(out@) =~= spawn_environment(filters@));
    out
}

/// The filters as the operator is shown them.
fn filter_info_text(filters: &FilterSettings) -> (r: String)
    ensures
        r@ == filter_info(filters@),
{
    let mut r = "Bank filter: ".to_owned();
    match &filters.bank_filter {
        Some(filter) => r.append(filter.as_str()),
        None => r.append("None"),
    }
    r.append("\nRequisite filter: ");
    match &filters.requisite_filter {
        Some(filter) => r.append(filter.as_str()),
        None => r.append("None"),
    }
    r.append("\nMinimum amount: ");
    r.append(amount_text(filters.min_amount).as_str());
    r
}

impl Notice {
    /// The text that the operator reads.
    pub fn text(&self) -> (r: String)
        ensures
            r@ == notice_text(self@),
    {
        match self {
            Notice::AlreadyRunning => "The reaction bot is already running.".to_owned(),
            Notice::Building => "🔨 Building reaction bot (one-time setup)...".to_owned(),
            Notice::BuildFailed(error) => join(
                "❌ Failed to build reaction bot: ",
                error.as_str(),
            ),
            Notice::Started(filters) => join(
                "✅ Reaction bot started successfully with the following settings:\n\n",
                filter_info_text(filters).as_str(),
            ),
            Notice::StartFailed(error) => join(
                "❌ Failed to start reaction bot: ",
                error.as_str(),
            ),
            Notice::NotRunning => "The reaction bot is not running.".to_owned(),
            Notice::Stopped => "✅ Reaction bot stopped successfully.".to_owned(),
            Notice::StoppedByFallback =>
                "✅ Reaction bot stopped successfully (fallback method).".to_owned(),
            Notice::StopFailed(first, second) => {
                let mut r = join("❌ Failed to stop reaction bot: ", first.as_str());
                r.append(" (fallback error: ");
                r.append(second.as_str());
                r.append(")");
                r
            },
            Notice::Status(running, filters) => {
                let mut r = join(
                    "Reaction bot status: ",
                    if *running {
                        "✅ Running"
                    } else {
                        "❌ Not running"
                    },
                );
                r.append("\n\nCurrent settings:\n");
                r.append(filter_info_text(filters).as_str());
                r
            },
            Notice::BankCleared => "✅ Bank filter cleared.".to_owned(),
            Notice::BankSet(filter) => join("✅ Bank filter set to: ", filter.as_str()),
            Notice::RequisiteCleared => "✅ Requisite filter cleared.".to_owned(),
            Notice::RequisiteSet(filter) => {
                let mut r = join("✅ Requisite filter set to: ", filter.as_str());
                let plus: Vec<char> = vec!['+'];
                assert(plus@ =~= seq!['+']);
                if same_chars(&chars_of(filter.as_str()), &plus) {
                    r.append(
                        "\n\n⚠️ Note: With '+' filter, the bot will also react to T-Bank messages regardless of their requisite.",
                    );
                }
                r
            },
            Notice::AmountSet(value) => join(
                "✅ Minimum amount set to: ",
                amount_text(*value).as_str(),
            ),
            Notice::Cleared =>
                "✅ All filters cleared and minimum amount reset to default (38000).".to_owned(),
            Notice::RestartNeeded =>
                "⚠️ Please restart the bot with /stop and then /start for the changes to take effect.".to_owned(),
        }
    }
}

impl Supervisor {
    /// A supervisor that has started nothing yet, with no filter but the
    /// default minimum.
    pub fn new(reaction_bot_path: String) -> (r: Self)
        ensures
            r@ == (SupervisorView {
                reaction_bot_path: reaction_bot_path@,
                child_tracked: false,
                is_running: false,
                last_status: "Not started"@,
                filters: default_filters(),
            }),
    {
        Supervisor {
            reaction_bot_path,
            child_tracked: false,
            is_running: false,
            last_status: "Not started".to_owned(),
            filters: FilterSettings {
                bank_filter: None,
                requisite_filter: None,
                min_amount: DEFAULT_MIN_AMOUNT,
            },
        }
    }

    /// The action that spawns the reaction process.
    fn spawn(&self) -> (r: Action)
        ensures
            r@ == spawn_action(self@),
    {
        Action::Spawn(
            join(self.reaction_bot_path.as_str(), BINARY_SUFFIX),
            environment(&self.filters),
        )
    }

    /// Marks the reaction process as gone.
    fn set_stopped(&mut self)
        ensures
            final(self)@ == stopped(old(self)@),
    {
        self.child_tracked = false;
        self.is_running = false;
        self.last_status = "Stopped".to_owned();
    }

    /// `first`, followed while the reaction process runs by the notice that
    /// a change takes effect only after a restart.
    fn hinted(&self, first: Notice) -> (r: Vec<Action>)
        ensures
            actions_view(r@) == with_restart_hint(
                self@.is_running,
                seq![ActionView::Reply(first@)],
            ),
    {
        let mut out: Vec<Action> = Vec::new();
        out.push(Action::Reply(first));
        if self.is_running {
            out.push(Action::Reply(Notice::RestartNeeded));
        }
        assert(actions_view(out@) =~= with_restart_hint(
            self@.is_running,
            seq![ActionView::Reply(first@)],
        ));
        out
    }

    /// Takes a command of the operator: returns the actions to perform and
    /// the report that the command awaits after them, if it awaits one.
    pub fn command(&mut self, command: Command) -> (r: (Vec<Action>, Option<Pending>))
        ensures
            final(self)@ == on_command(old(self)@, command@).state,
            actions_view(r.0@) == on_command(old(self)@, command@).actions,
            pending_view(r.1) == on_command(old(self)@, command@).pending,
    {
        match command {
            Command::Start => {
                if self.is_running {
                    let out: Vec<Action> = vec![Action::Reply(Notice::AlreadyRunning)];
                    assert(actions_view(out@) =~= on_command(old(self)@, command@).actions);
                    (out, None)
                } else {
                    let binary = join(self.reaction_bot_path.as_str(), BINARY_SUFFIX);
                    let out: Vec<Action> = vec![Action::SweepStrays, Action::ProbeBinary(binary)];
                    assert(actions_view(out@) =~= on_command(old(self)@, command@).actions);
                    (out, Some(Pending::ProbingBinary))
                }
            },
            Command::Stop => {
                if !self.is_running {
                    let out: Vec<Action> = vec![Action::Reply(Notice::NotRunning)];
                    assert(actions_view(out@) =~= on_command(old(self)@, command@).actions);
                    (out, None)
                } else if self.child_tracked {
                    let out: Vec<Action> = vec![Action::SignalGroup];
                    assert(actions_view(out@) =~= on_command(old(self)@, command@).actions);
                    (out, Some(Pending::SignallingGroup))
                } else {
                    self.set_stopped();
                    let out: Vec<Action> = vec![
                        Action::SweepStrays,
                        Action::Reply(Notice::Stopped),
                    ];
                    assert(actions_view(out@) =~= on_command(old(self)@, command@).actions);
                    (out, None)
                }
            },
            Command::Status => {
                let out: Vec<Action> = vec![
                    Action::Reply(Notice::Status(self.is_running, copy_filters(&self.filters))),
                ];
                assert(actions_view(out@) =~= on_command(old(self)@, command@).actions);
                (out, None)
            },
            Command::Bank(value) => {
                if clears(value.as_str()) {
                    self.filters.bank_filter = None;
                    (self.hinted(Notice::BankCleared), None)
                } else {
                    self.filters.bank_filter = Some(value.clone());
                    (self.hinted(Notice::BankSet(value)), None)
                }
            },
            Command::Requisite(value) => {
                if clears(value.as_str()) {
                    self.filters.requisite_filter = None;
                    (self.hinted(Notice::RequisiteCleared), None)
                } else {
                    self.filters.requisite_filter = Some(value.clone());
                    (self.hinted(Notice::RequisiteSet(value)), None)
                }
            },
            Command::Amount(value) => {
                self.filters.min_amount = value;
                (self.hinted(Notice::AmountSet(value)), None)
            },
            Command::Clear => {
                self.filters.bank_filter = None;
                self.filters.requisite_filter = None;
                self.filters.min_amount = DEFAULT_MIN_AMOUNT;
                (self.hinted(Notice::Cleared), None)
            },
            Command::Help => {
                let out: Vec<Action> = vec![Action::DescribeCommands];
                assert(actions_view(out@) =~= on_command(old(self)@, command@).actions);
                (out, None)
            },
        }
    }

    /// Takes the report of an awaited action: returns the actions to
    /// perform and the report that the command awaits after them, if it
    /// still awaits one.
    pub fn report(&mut self, pending: Pending, report: Report) -> (r: (
        Vec<Action>,
        Option<Pending>,
    ))
        ensures
            final(self)@ == on_report(old(self)@, pending@, report@).state,
            actions_view(r.0@) == on_report(old(self)@, pending@, report@).actions,
            pending_view(r.1) == on_report(old(self)@, pending@, report@).pending,
    {
        let nothing: Vec<Action> = Vec::new();
        assert(actions_view(nothing@) =~= Seq::<ActionView>::empty());
        match (pending, report) {
            (Pending::ProbingBinary, Report::BinaryProbed(present)) => {
                if present {
                    let out: Vec<Action> = vec![self.spawn()];
                    assert(actions_view(out@) =~= seq![spawn_action(old(self)@)]);
                    (out, Some(Pending::Spawning))
                } else {
                    let out: Vec<Action> = vec![
                        Action::Reply(Notice::Building),
                        Action::Build(self.reaction_bot_path.clone()),
                    ];
                    assert(actions_view(out@) =~= on_report(
                        old(self)@,
                        pending@,
                        report@,
                    ).actions);
                    (out, Some(Pending::Building))
                }
            },
            (Pending::Building, Report::BuildFinished(error)) => match error {
                Some(error) => {
                    self.last_status = join("Failed to build: ", error.as_str());
                    let out: Vec<Action> = vec![Action::Reply(Notice::BuildFailed(error))];
                    assert(actions_view(out@) =~= on_report(
                        old(self)@,
                        pending@,
                        report@,
                    ).actions);
                    (out, None)
                },
                None => {
                    let out: Vec<Action> = vec![self.spawn()];
                    assert(actions_view(out@) =~= seq![spawn_action(old(self)@)]);
                    (out, Some(Pending::Spawning))
                },
            },
            (Pending::Spawning, Report::SpawnFinished(error)) => match error {
                Some(error) => {
                    self.last_status = join("Failed to start: ", error.as_str());
                    let out: Vec<Action> = vec![Action::Reply(Notice::StartFailed(error))];
                    assert(actions_view(out@) =~= on_report(
                        old(self)@,
                        pending@,
                        report@,
                    ).actions);
                    (out, None)
                },
                None => {
                    self.child_tracked = true;
                    self.is_running = true;
                    self.last_status = "Running".to_owned();
                    let out: Vec<Action> = vec![
                        Action::Reply(Notice::Started(copy_filters(&self.filters))),
                    ];
                    assert(actions_view(out@) =~= on_report(
                        old(self)@,
                        pending@,
                        report@,
                    ).actions);
                    (out, None)
                },
            },
            (Pending::SignallingGroup, Report::GroupSignalled(error)) => match error {
                Some(error) => {
                    let out: Vec<Action> = vec![Action::KillChild];
                    assert(actions_view(out@) =~= on_report(
                        old(self)@,
                        pending@,
                        report@,
                    ).actions);
                    (out, Some(Pending::KillingChild(error)))
                },
                None => {
                    self.set_stopped();
                    let out: Vec<Action> = vec![
                        Action::DiscardChild,
                        Action::Reply(Notice::Stopped),
                    ];
                    assert(actions_view(out@) =~= on_report(
                        old(self)@,
                        pending@,
                        report@,
                    ).actions);
                    (out, None)
                },
            },
            (Pending::KillingChild(first), Report::ChildKilled(error)) => match error {
                Some(second) => {
                    let out: Vec<Action> = vec![Action::Reply(Notice::StopFailed(first, second))];
                    assert(actions_view(out@) =~= on_report(
                        old(self)@,
                        pending@,
                        report@,
                    ).actions);
                    (out, None)
                },
                None => {
                    self.set_stopped();
                    let out: Vec<Action> = vec![Action::Reply(Notice::StoppedByFallback)];
                    assert(actions_view(out@) =~= on_report(
                        old(self)@,
                        pending@,
                        report@,
                    ).actions);
                    (out, None)
                },
            },
            (pending, _) => (nothing, Some(pending)),
        }
    }
}

} // verus!
