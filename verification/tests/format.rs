use please_install::{ExecPlan, PlsCommand, Vendor};
use please_install::replace_all;
use please_install::vendors::unsupported_advisory;

#[test]
fn pacman_install_assume_yes() {
    let data = Vendor::Pacman.data();
    let cmd = PlsCommand::Install.format(&data, "vim", true, None);
    assert_eq!(cmd, "pacman -S --noconfirm vim");
}

#[test]
fn apt_update_no_yes_keeps_trailing_space() {
    let data = Vendor::Apt.data();
    let cmd = PlsCommand::Update.format(&data, "", false, None);
    assert_eq!(cmd, "apt update ");
}

#[test]
fn flatpak_update_is_unsupported() {
    let data = Vendor::Flatpak.data();
    let cmd = PlsCommand::Update.format(&data, "", false, None);
    assert_eq!(cmd, "");
    let plan = Vendor::Flatpak.dispatch(PlsCommand::Update, "", false, false, false, None);
    assert_eq!(plan, ExecPlan::Unsupported);
    assert_eq!(plan.immediate_exit(), Some(1));
    assert_eq!(
        unsupported_advisory(),
        "command not supported by the current vendor"
    );
}

#[test]
fn every_args_occurrence_is_substituted() {
    let out = replace_all("echo $args and $args", "$args", "vim");
    assert_eq!(out, "echo vim and vim");
}

#[test]
fn mixed_placeholders_are_each_substituted() {
    let step1 = replace_all("x $yes y $args z $yes $args", "$yes", "-f");
    let out = replace_all(&step1, "$args", "vim");
    assert_eq!(out, "x -f y vim z -f vim");
}

#[test]
fn search_appends_pager() {
    let data = Vendor::Apt.data();
    let cmd = PlsCommand::Search.format(&data, "vim", false, Some("less"));
    assert_eq!(cmd, "apt search vim | less");
}

#[test]
fn search_pager_own_args_placeholder_is_expanded() {
    let data = Vendor::Apt.data();
    let cmd = PlsCommand::Search.format(&data, "vim", false, Some("grep $args | less"));
    assert_eq!(cmd, "apt search vim | grep vim | less");
}

#[test]
fn list_appends_pager() {
    let data = Vendor::Apt.data();
    let cmd = PlsCommand::List.format(&data, "", false, Some("less"));
    assert_eq!(cmd, "apt list --installed | less");
}

#[test]
fn pager_ignored_outside_paging_commands() {
    let data = Vendor::Apt.data();
    let cmd = PlsCommand::Install.format(&data, "vim", false, Some("less"));
    assert_eq!(cmd, "apt install  vim");
}

#[test]
fn no_yes_leaves_no_flag_trace() {
    let data = Vendor::Apt.data();
    let cmd = PlsCommand::Install.format(&data, "vim", false, None);
    assert_eq!(cmd, "apt install  vim");
    assert!(!cmd.contains("--yes"));
}

#[test]
fn empty_yes_flag_behaves_like_no() {
    let data = Vendor::Apk.data();
    let with_yes = PlsCommand::Install.format(&data, "vim", true, None);
    let without = PlsCommand::Install.format(&data, "vim", false, None);
    assert_eq!(with_yes, without);
    assert_eq!(with_yes, "apk add vim");
}

#[test]
fn dry_run_prints_exact_command_and_reports_zero() {
    let plan = Vendor::Pacman.dispatch(PlsCommand::Install, "vim", true, false, true, None);
    assert_eq!(plan, ExecPlan::DryRun("pacman -S --noconfirm vim".to_string()));
    assert_eq!(plan.immediate_exit(), Some(0));
}

#[test]
fn plain_run_goes_through_the_shell() {
    let plan = Vendor::Pacman.dispatch(PlsCommand::Install, "vim", true, false, false, None);
    assert_eq!(plan, ExecPlan::Shell("pacman -S --noconfirm vim".to_string()));
    assert_eq!(plan.immediate_exit(), None);
}

#[test]
fn elevated_run_splits_on_every_space() {
    // The command is split naively on single spaces: the empty token left by
    // the unused `$yes` slot, and any space inside an argument, become
    // separate tokens. This documents a known boundary of elevated runs.
    let plan = Vendor::Pacman.dispatch(PlsCommand::Install, "foo bar", false, true, false, None);
    let expected: Vec<String> = vec!["pacman", "-S", "", "foo", "bar"]
        .into_iter()
        .map(|s| s.to_string())
        .collect();
    assert_eq!(plan, ExecPlan::Elevated(expected));
}
