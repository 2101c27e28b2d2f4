use please_install::{Cmd, Params, PlsCommand, PlsError, Settings, Vendor};

fn base_params(cmd: Cmd) -> Params {
    Params {
        skip_settings: false,
        config: None,
        dry_run: false,
        yes: false,
        su: false,
        vendor: None,
        cmd,
    }
}

fn empty_settings() -> Settings {
    Settings { pager: None, assume_yes: false, su: false, vendor: None }
}

#[test]
fn install_args_join_with_spaces() {
    let cmd = Cmd::Install { args: vec!["vim".to_string(), "git".to_string()] };
    assert_eq!(cmd.args(), "vim git");
}

#[test]
fn bare_commands_have_no_args() {
    assert_eq!(Cmd::Update.args(), "");
    assert_eq!(Cmd::ListVendors.args(), "");
}

#[test]
fn search_and_info_args_pass_verbatim() {
    let cmd = Cmd::Search { args: "query words".to_string(), paginate: false, pager: None };
    assert_eq!(cmd.args(), "query words");
    let cmd = Cmd::Info { args: "vim".to_string() };
    assert_eq!(cmd.args(), "vim");
}

#[test]
fn upgrade_without_targets_means_upgrade_all() {
    let all = Cmd::Upgrade { args: vec![] };
    assert_eq!(all.action(), PlsCommand::UpgradeAll);
    let some = Cmd::Upgrade { args: vec!["vim".to_string()] };
    assert_eq!(some.action(), PlsCommand::Upgrade);
}

#[test]
fn listing_vendors_shares_the_list_slot() {
    assert_eq!(Cmd::ListVendors.action(), PlsCommand::List);
    assert_eq!(Cmd::List { paginate: false, pager: None }.action(), PlsCommand::List);
}

#[test]
fn command_labels_key_the_config_tables() {
    assert_eq!(Cmd::Update.label(), "update");
    assert_eq!(Cmd::ListVendors.label(), "list-vendors");
    assert_eq!(Cmd::Install { args: vec![] }.label(), "install");
}

#[test]
fn configured_pager_settles_into_search() {
    let params = base_params(Cmd::Search {
        args: "vim".to_string(),
        paginate: false,
        pager: None,
    });
    let settings = Settings { pager: Some("grep $args".to_string()), ..empty_settings() };
    let out = params.apply_settings(&settings).unwrap();
    assert_eq!(
        out.cmd,
        Cmd::Search {
            args: "vim".to_string(),
            paginate: true,
            pager: Some("grep vim".to_string()),
        }
    );
}

#[test]
fn empty_configured_pager_is_dropped() {
    let params = base_params(Cmd::Search {
        args: "vim".to_string(),
        paginate: false,
        pager: None,
    });
    let settings = Settings { pager: Some(String::new()), ..empty_settings() };
    let out = params.apply_settings(&settings).unwrap();
    assert_eq!(
        out.cmd,
        Cmd::Search { args: "vim".to_string(), paginate: true, pager: None }
    );
}

#[test]
fn configured_pager_settles_into_list_verbatim() {
    let params = base_params(Cmd::List { paginate: false, pager: None });
    let settings = Settings { pager: Some("less $args".to_string()), ..empty_settings() };
    let out = params.apply_settings(&settings).unwrap();
    assert_eq!(
        out.cmd,
        Cmd::List { paginate: true, pager: Some("less $args".to_string()) }
    );
}

#[test]
fn configured_pager_ignored_elsewhere() {
    let params = base_params(Cmd::Update);
    let settings = Settings { pager: Some("less".to_string()), ..empty_settings() };
    let out = params.apply_settings(&settings).unwrap();
    assert_eq!(out.cmd, Cmd::Update);
}

#[test]
fn configured_flags_only_turn_on() {
    let params = base_params(Cmd::Update);
    let settings = Settings { assume_yes: true, su: true, ..empty_settings() };
    let out = params.apply_settings(&settings).unwrap();
    assert!(out.yes);
    assert!(out.su);

    let mut params = base_params(Cmd::Update);
    params.yes = true;
    let out = params.apply_settings(&empty_settings()).unwrap();
    assert!(out.yes);
    assert!(!out.su);
}

#[test]
fn configured_vendor_fills_an_empty_slot() {
    let params = base_params(Cmd::Update);
    let settings = Settings { vendor: Some("dnf".to_string()), ..empty_settings() };
    let out = params.apply_settings(&settings).unwrap();
    assert_eq!(out.vendor, Some(Vendor::Dnf));
}

#[test]
fn pinned_vendor_beats_the_configuration() {
    let mut params = base_params(Cmd::Update);
    params.vendor = Some(Vendor::Apt);
    let settings = Settings { vendor: Some("dnf".to_string()), ..empty_settings() };
    let out = params.apply_settings(&settings).unwrap();
    assert_eq!(out.vendor, Some(Vendor::Apt));
}

#[test]
fn configured_pager_flows_through_to_the_formatted_command() {
    let params = base_params(Cmd::Search {
        args: "vim".to_string(),
        paginate: false,
        pager: None,
    });
    let settings = Settings { pager: Some("less".to_string()), ..empty_settings() };
    let out = params.apply_settings(&settings).unwrap();
    let pager = match &out.cmd {
        Cmd::Search { pager, .. } => pager.clone(),
        _ => None,
    };
    let data = Vendor::Apt.data();
    let cmd = out.cmd.action().format(&data, &out.cmd.args(), false, pager.as_deref());
    assert_eq!(cmd, "apt search vim | less");
}

#[test]
fn invalid_configured_vendor_is_a_hard_error() {
    let params = base_params(Cmd::Update);
    let settings = Settings { vendor: Some("NoPe".to_string()), ..empty_settings() };
    match params.apply_settings(&settings) {
        Err(PlsError::UnknownVendorName(m)) => assert_eq!(m, "invalid vendor name nope"),
        other => panic!("expected an unknown-vendor error, got {:?}", other),
    }
}
