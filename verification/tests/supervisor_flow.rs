use reaction_bot::filter::FilterSettings;
use reaction_bot::supervisor::{
    clears, environment, is_authorized, Action, Command, Notice, Pending, Report, Supervisor,
};

fn supervisor() -> Supervisor {
    Supervisor::new("/srv/bot".to_string())
}

fn running() -> Supervisor {
    let mut s = supervisor();
    let (_, pending) = s.command(Command::Start);
    let (_, pending) = s.report(pending.unwrap(), Report::BinaryProbed(true));
    let (_, pending) = s.report(pending.unwrap(), Report::SpawnFinished(None));
    assert!(pending.is_none());
    s
}

fn texts(actions: &[Action]) -> Vec<String> {
    actions
        .iter()
        .map(|action| match action {
            Action::Reply(notice) => notice.text(),
            Action::DescribeCommands => "<help>".to_string(),
            Action::SweepStrays => "<sweep>".to_string(),
            Action::ProbeBinary(path) => format!("<probe {path}>"),
            Action::Build(directory) => format!("<build {directory}>"),
            Action::Spawn(binary, environment) => format!("<spawn {binary} {environment:?}>"),
            Action::SignalGroup => "<signal>".to_string(),
            Action::KillChild => "<kill>".to_string(),
            Action::DiscardChild => "<discard>".to_string(),
        })
        .collect()
}

fn said(s: &mut Supervisor, command: Command) -> Vec<String> {
    let (actions, pending) = s.command(command);
    assert!(pending.is_none());
    texts(&actions)
}

const RESTART: &str =
    "⚠️ Please restart the bot with /stop and then /start for the changes to take effect.";

#[test]
fn a_new_supervisor_has_the_defaults() {
    let s = supervisor();
    assert!(!s.is_running);
    assert!(!s.child_tracked);
    assert_eq!(s.last_status, "Not started");
    assert_eq!(s.filters.bank_filter, None);
    assert_eq!(s.filters.requisite_filter, None);
    assert_eq!(s.filters.min_amount, 38000);
}

#[test]
fn set_amount_then_status_then_clear() {
    let mut s = supervisor();
    assert_eq!(said(&mut s, Command::Amount(50000)), vec!["✅ Minimum amount set to: 50000"]);
    assert_eq!(s.filters.min_amount, 50000);
    assert_eq!(
        said(&mut s, Command::Status),
        vec!["Reaction bot status: ❌ Not running\n\nCurrent settings:\nBank filter: None\nRequisite filter: None\nMinimum amount: 50000"]
    );
    assert_eq!(
        said(&mut s, Command::Clear),
        vec!["✅ All filters cleared and minimum amount reset to default (38000)."]
    );
    assert_eq!(s.filters.min_amount, 38000);
    let status = said(&mut s, Command::Status);
    assert!(status[0].ends_with("Minimum amount: 38000"));
}

#[test]
fn amounts_are_accepted_without_validation() {
    let mut s = supervisor();
    said(&mut s, Command::Amount(-5));
    assert_eq!(s.filters.min_amount, -5);
    assert_eq!(said(&mut s, Command::Amount(0)), vec!["✅ Minimum amount set to: 0"]);
    assert_eq!(s.filters.min_amount, 0);
}

#[test]
fn start_when_already_running_changes_nothing() {
    let mut s = running();
    assert!(s.is_running && s.child_tracked);
    let (actions, pending) = s.command(Command::Start);
    assert_eq!(texts(&actions), vec!["The reaction bot is already running."]);
    assert!(pending.is_none());
    assert!(s.is_running && s.child_tracked);
    assert_eq!(s.last_status, "Running");
}

#[test]
fn start_when_running_without_a_tracked_child_changes_nothing() {
    let mut s = supervisor();
    s.is_running = true;
    let (actions, pending) = s.command(Command::Start);
    assert_eq!(texts(&actions), vec!["The reaction bot is already running."]);
    assert!(pending.is_none());
    assert!(s.is_running && !s.child_tracked);
    assert_eq!(s.last_status, "Not started");
}

#[test]
fn stop_when_not_running_kills_nothing() {
    let mut s = supervisor();
    let (actions, pending) = s.command(Command::Stop);
    assert_eq!(texts(&actions), vec!["The reaction bot is not running."]);
    assert!(pending.is_none());
    assert!(!s.is_running);
    assert_eq!(s.last_status, "Not started");
}

#[test]
fn start_with_the_binary_present_spawns_with_the_filters() {
    let mut s = supervisor();
    said(&mut s, Command::Bank("t".to_string()));
    said(&mut s, Command::Requisite("+".to_string()));
    said(&mut s, Command::Amount(50000));
    let (actions, pending) = s.command(Command::Start);
    assert_eq!(texts(&actions), vec!["<sweep>", "<probe /srv/bot/target/release/tdlib-test>"]);
    assert!(matches!(pending, Some(Pending::ProbingBinary)));
    let (actions, pending) = s.report(pending.unwrap(), Report::BinaryProbed(true));
    match &actions[..] {
        [Action::Spawn(binary, env)] => {
            assert_eq!(binary, "/srv/bot/target/release/tdlib-test");
            assert_eq!(
                env,
                &vec![
                    ("BANK_FILTER".to_string(), "t".to_string()),
                    ("REQUISITE_FILTER".to_string(), "+".to_string()),
                    ("MIN_AMOUNT".to_string(), "50000".to_string()),
                ]
            );
        }
        _ => panic!("expected a spawn"),
    }
    assert!(matches!(pending, Some(Pending::Spawning)));
    assert!(!s.is_running);
    let (actions, pending) = s.report(pending.unwrap(), Report::SpawnFinished(None));
    assert_eq!(
        texts(&actions),
        vec!["✅ Reaction bot started successfully with the following settings:\n\nBank filter: t\nRequisite filter: +\nMinimum amount: 50000"]
    );
    assert!(pending.is_none());
    assert!(s.is_running && s.child_tracked);
    assert_eq!(s.last_status, "Running");
}

#[test]
fn start_builds_a_missing_binary_first() {
    let mut s = supervisor();
    let (_, pending) = s.command(Command::Start);
    let (actions, pending) = s.report(pending.unwrap(), Report::BinaryProbed(false));
    assert_eq!(
        texts(&actions),
        vec!["🔨 Building reaction bot (one-time setup)...", "<build /srv/bot>"]
    );
    assert!(matches!(pending, Some(Pending::Building)));
    let (actions, pending) = s.report(pending.unwrap(), Report::BuildFinished(None));
    assert!(matches!(&actions[..], [Action::Spawn(_, env)] if env.len() == 1));
    let (_, pending) = s.report(pending.unwrap(), Report::SpawnFinished(None));
    assert!(pending.is_none());
    assert!(s.is_running);
}

#[test]
fn a_start_that_is_given_up_leaves_no_trace() {
    let mut s = supervisor();
    let (_, pending) = s.command(Command::Start);
    let (_, pending) = s.report(pending.unwrap(), Report::BinaryProbed(false));
    drop(pending);
    assert!(!s.is_running && !s.child_tracked);
    assert_eq!(s.last_status, "Not started");
    assert_eq!(said(&mut s, Command::Stop), vec!["The reaction bot is not running."]);
}

#[test]
fn a_failed_build_is_reported() {
    let mut s = supervisor();
    let (_, pending) = s.command(Command::Start);
    let (_, pending) = s.report(pending.unwrap(), Report::BinaryProbed(false));
    let (actions, pending) =
        s.report(pending.unwrap(), Report::BuildFinished(Some("no cargo".to_string())));
    assert_eq!(texts(&actions), vec!["❌ Failed to build reaction bot: no cargo"]);
    assert!(pending.is_none());
    assert_eq!(s.last_status, "Failed to build: no cargo");
    assert!(!s.is_running);
}

#[test]
fn a_failed_spawn_leaves_the_process_not_running() {
    let mut s = supervisor();
    let (_, pending) = s.command(Command::Start);
    let (_, pending) = s.report(pending.unwrap(), Report::BinaryProbed(true));
    let (actions, pending) =
        s.report(pending.unwrap(), Report::SpawnFinished(Some("permission denied".to_string())));
    assert_eq!(texts(&actions), vec!["❌ Failed to start reaction bot: permission denied"]);
    assert!(pending.is_none());
    assert_eq!(s.last_status, "Failed to start: permission denied");
    assert!(!s.is_running && !s.child_tracked);
}

#[test]
fn stop_signals_the_group_then_discards_the_child() {
    let mut s = running();
    let (actions, pending) = s.command(Command::Stop);
    assert_eq!(texts(&actions), vec!["<signal>"]);
    assert!(matches!(pending, Some(Pending::SignallingGroup)));
    assert!(s.is_running);
    let (actions, pending) = s.report(pending.unwrap(), Report::GroupSignalled(None));
    assert_eq!(texts(&actions), vec!["<discard>", "✅ Reaction bot stopped successfully."]);
    assert!(pending.is_none());
    assert!(!s.is_running && !s.child_tracked);
    assert_eq!(s.last_status, "Stopped");
}

#[test]
fn stop_falls_back_to_a_direct_kill() {
    let mut s = running();
    let (_, pending) = s.command(Command::Stop);
    let (actions, pending) =
        s.report(pending.unwrap(), Report::GroupSignalled(Some("no pkill".to_string())));
    assert_eq!(texts(&actions), vec!["<kill>"]);
    assert!(matches!(&pending, Some(Pending::KillingChild(e)) if e == "no pkill"));
    let (actions, pending) = s.report(pending.unwrap(), Report::ChildKilled(None));
    assert_eq!(texts(&actions), vec!["✅ Reaction bot stopped successfully (fallback method)."]);
    assert!(pending.is_none());
    assert!(!s.is_running && !s.child_tracked);
    assert_eq!(s.last_status, "Stopped");
}

#[test]
fn a_stop_that_fails_twice_keeps_the_child() {
    let mut s = running();
    let (_, pending) = s.command(Command::Stop);
    let (_, pending) =
        s.report(pending.unwrap(), Report::GroupSignalled(Some("no pkill".to_string())));
    let (actions, pending) =
        s.report(pending.unwrap(), Report::ChildKilled(Some("gone".to_string())));
    assert_eq!(
        texts(&actions),
        vec!["❌ Failed to stop reaction bot: no pkill (fallback error: gone)"]
    );
    assert!(pending.is_none());
    assert!(s.is_running && s.child_tracked);
    assert_eq!(s.last_status, "Running");
}

#[test]
fn stop_without_a_tracked_child_sweeps_by_name() {
    let mut s = supervisor();
    s.is_running = true;
    assert_eq!(
        said(&mut s, Command::Stop),
        vec!["<sweep>", "✅ Reaction bot stopped successfully."]
    );
    assert!(!s.is_running);
    assert_eq!(s.last_status, "Stopped");
}

#[test]
fn a_report_of_another_kind_is_set_aside() {
    let mut s = supervisor();
    let (_, pending) = s.command(Command::Start);
    let (actions, pending) = s.report(pending.unwrap(), Report::SpawnFinished(None));
    assert!(actions.is_empty());
    assert!(matches!(pending, Some(Pending::ProbingBinary)));
    assert!(!s.is_running && !s.child_tracked);
    let (actions, pending) = s.report(Pending::Spawning, Report::ChildKilled(None));
    assert!(actions.is_empty());
    assert!(matches!(pending, Some(Pending::Spawning)));
    assert_eq!(s.last_status, "Not started");
}

#[test]
fn filters_are_set_and_cleared() {
    let mut s = supervisor();
    assert_eq!(
        said(&mut s, Command::Bank(" Сбер ".to_string())),
        vec!["✅ Bank filter set to:  Сбер "]
    );
    assert_eq!(s.filters.bank_filter.as_deref(), Some(" Сбер "));
    assert_eq!(said(&mut s, Command::Bank(" NoNe ".to_string())), vec!["✅ Bank filter cleared."]);
    assert_eq!(s.filters.bank_filter, None);
    assert_eq!(
        said(&mut s, Command::Requisite("2200".to_string())),
        vec!["✅ Requisite filter set to: 2200"]
    );
    assert_eq!(
        said(&mut s, Command::Requisite("+".to_string())),
        vec!["✅ Requisite filter set to: +\n\n⚠️ Note: With '+' filter, the bot will also react to T-Bank messages regardless of their requisite."]
    );
    assert_eq!(s.filters.requisite_filter.as_deref(), Some("+"));
    assert_eq!(
        said(&mut s, Command::Requisite("".to_string())),
        vec!["✅ Requisite filter cleared."]
    );
    assert_eq!(s.filters.requisite_filter, None);
}

#[test]
fn changes_while_running_ask_for_a_restart() {
    let mut s = running();
    assert_eq!(
        said(&mut s, Command::Bank("t".to_string())),
        vec!["✅ Bank filter set to: t", RESTART]
    );
    assert_eq!(
        said(&mut s, Command::Requisite("none".to_string())),
        vec!["✅ Requisite filter cleared.", RESTART]
    );
    assert_eq!(said(&mut s, Command::Amount(1)), vec!["✅ Minimum amount set to: 1", RESTART]);
    assert_eq!(
        said(&mut s, Command::Clear),
        vec!["✅ All filters cleared and minimum amount reset to default (38000).", RESTART]
    );
    let status = said(&mut s, Command::Status);
    assert!(status[0].starts_with("Reaction bot status: ✅ Running"));
    assert_eq!(status.len(), 1);
}

#[test]
fn help_asks_for_the_list_of_commands() {
    let mut s = supervisor();
    assert_eq!(said(&mut s, Command::Help), vec!["<help>"]);
    assert!(!s.is_running);
}

#[test]
fn clears_recognises_none_and_empty() {
    for value in ["", "  ", "none", "NONE", " None\t"] {
        assert!(clears(value), "{value:?}");
    }
    for value in ["nonе", "n one", "t", "+", "none."] {
        assert!(!clears(value), "{value:?}");
    }
}

#[test]
fn environment_is_read_back_by_the_reaction_process() {
    let written = FilterSettings {
        bank_filter: Some("t".to_string()),
        requisite_filter: None,
        min_amount: -42,
    };
    let env = environment(&written);
    let get = |name: &str| env.iter().find(|(k, _)| k == name).map(|(_, v)| v.clone());
    let min = get("MIN_AMOUNT");
    let read = FilterSettings::from_env(get("BANK_FILTER"), get("REQUISITE_FILTER"), min.as_deref());
    assert_eq!(read.bank_filter, written.bank_filter);
    assert_eq!(read.requisite_filter, written.requisite_filter);
    assert_eq!(read.min_amount, written.min_amount);
}

#[test]
fn operators_are_checked_against_the_list() {
    assert!(is_authorized(&vec![1, 2], Some(2)));
    assert!(!is_authorized(&vec![1, 2], Some(3)));
    assert!(!is_authorized(&vec![1, 2], None));
    assert!(is_authorized(&Vec::new(), Some(3)));
    assert!(!is_authorized(&Vec::new(), None));
}

#[test]
fn notices_have_their_texts() {
    assert_eq!(Notice::AlreadyRunning.text(), "The reaction bot is already running.");
    assert_eq!(Notice::NotRunning.text(), "The reaction bot is not running.");
    assert_eq!(Notice::AmountSet(-7).text(), "✅ Minimum amount set to: -7");
    assert_eq!(Notice::RestartNeeded.text(), RESTART);
}
