//! The parsed invocation: the chosen command with its arguments and flags,
//! and the application of configured defaults to it.

use vstd::prelude::*;

use crate::catalog::PlsCommand;
use crate::catalog::Vendor;
use crate::text::join_all;
use crate::text::joined;
use crate::text::lowered;
use crate::text::replace_all;
use crate::text::replaced;
use crate::vendors::PlsError;
use crate::vendors::resolved_name;

verus! {

/// The subcommand of one invocation, with its arguments.
#[derive(Debug, PartialEq)]
#[allow(inconsistent_fields)]
pub enum Cmd {
    /// Install the named packages.
    Install { args: Vec<String> },
    /// Remove the named packages.
    Remove { args: Vec<String> },
    /// Upgrade the named packages, or everything when none are named.
    Upgrade { args: Vec<String> },
    /// Search for packages matching a query, optionally paged.
    Search { args: String, paginate: bool, pager: Option<String> },
    /// Show information on one package.
    Info { args: String },
    /// Update the package database.
    Update,
    /// List the installed packages, optionally paged.
    List { paginate: bool, pager: Option<String> },
    /// List the known vendors.
    ListVendors,
}

/// One parsed invocation: global flags and the chosen subcommand.
#[derive(Debug, PartialEq)]
pub struct Params {
    /// Skip the configuration file altogether.
    pub skip_settings: bool,
    /// An explicit configuration-file path.
    pub config: Option<String>,
    /// Print the command instead of running it.
    pub dry_run: bool,
    /// Assume yes for all prompts.
    pub yes: bool,
    /// Run elevated.
    pub su: bool,
    /// An explicitly pinned vendor.
    pub vendor: Option<Vendor>,
    /// The subcommand.
    pub cmd: Cmd,
}

/// Defaults drawn from the configuration file, already merged per command and
/// reduced to plain values.
#[derive(Debug, PartialEq)]
pub struct Settings {
    /// The configured pager command, present exactly when the key is: an
    /// empty string stands for a key whose value is empty or unusable, which
    /// asks for paging with no pager command.
    pub pager: Option<String>,
    /// Assume yes by default.
    pub assume_yes: bool,
    /// Run elevated by default.
    pub su: bool,
    /// The configured default vendor name.
    pub vendor: Option<String>,
}

/// The raw argument text a command hands to the formatter: package names
/// joined with spaces, a query or package verbatim, nothing for the rest.
pub open spec fn cmd_args(c: Cmd) -> Seq<char> {
    match c {
        Cmd::Install { args } => joined(args.deep_view(), " "@),
        Cmd::Remove { args } => joined(args.deep_view(), " "@),
        Cmd::Upgrade { args } => joined(args.deep_view(), " "@),
        Cmd::Search { args, .. } => args@,
        Cmd::Info { args } => args@,
        _ => Seq::<char>::empty(),
    }
}

/// The abstract operation a command stands for: upgrading nothing in
/// particular means upgrading everything, and listing vendors shares the
/// listing slot.
pub open spec fn cmd_action(c: Cmd) -> PlsCommand {
    match c {
        Cmd::Install { .. } => PlsCommand::Install,
        Cmd::Remove { .. } => PlsCommand::Remove,
        Cmd::Upgrade { args } => if args@.len() == 0 {
            PlsCommand::UpgradeAll
        } else {
            PlsCommand::Upgrade
        },
        Cmd::Search { .. } => PlsCommand::Search,
        Cmd::Info { .. } => PlsCommand::Info,
        Cmd::Update => PlsCommand::Update,
        Cmd::List { .. } => PlsCommand::List,
        Cmd::ListVendors => PlsCommand::List,
    }
}

/// The name of each command, as the configuration file keys its per-command
/// tables.
pub open spec fn cmd_label(c: Cmd) -> Seq<char> {
    match c {
        Cmd::Install { .. } => "install"@,
        Cmd::Remove { .. } => "remove"@,
        Cmd::Upgrade { .. } => "upgrade"@,
        Cmd::Search { .. } => "search"@,
        Cmd::Info { .. } => "info"@,
        Cmd::Update => "update"@,
        Cmd::List { .. } => "list"@,
        Cmd::ListVendors => "list-vendors"@,
    }
}

/// How a configured pager settles into a command: the paging commands take it
/// (an empty pager string is dropped, and a search pager has `$args` replaced
/// by the query), every other command ignores it.
pub open spec fn cmd_settled(c: Cmd, pager: Option<String>, r: Cmd) -> bool {
    match pager {
        None => r == c,
        Some(pg) => match c {
            Cmd::Search { args, .. } => r matches Cmd::Search {
                args: out_args,
                paginate: out_paginate,
                pager: out_pager,
            } && out_args == args && out_paginate == true && (pg@.len() == 0 ==> out_pager is None) && (pg@.len() > 0
                ==> (out_pager matches Some(q) && q@ == replaced(pg@, "$args"@, args@))),
            Cmd::List { .. } => r matches Cmd::List { paginate: out_paginate, pager: out_pager }
                && out_paginate == true && (pg@.len() == 0 ==> out_pager is None) && (pg@.len() > 0
                ==> (out_pager matches Some(q) && q@ == pg@)),
            _ => r == c,
        },
    }
}

impl Cmd {
    /// The raw argument text handed to the formatter.
    pub fn args(&self) -> (r: String)
        ensures
            r@ == cmd_args(*self),
    {
        match self {
            Cmd::Install { args } => join_all(args, " "),
            Cmd::Remove { args } => join_all(args, " "),
            Cmd::Upgrade { args } => join_all(args, " "),
            Cmd::Search { args, .. } => args.clone(),
            Cmd::Info { args } => args.clone(),
            _ => String::new(),
        }
    }

    /// The abstract operation this command stands for.
    pub fn action(&self) -> (r: PlsCommand)
        ensures
            r == cmd_action(*self),
    {
        match self {
            Cmd::Install { .. } => PlsCommand::Install,
            Cmd::Remove { .. } => PlsCommand::Remove,
            Cmd::Upgrade { args } => if args.len() == 0 {
                PlsCommand::UpgradeAll
            } else {
                PlsCommand::Upgrade
            },
            Cmd::Search { .. } => PlsCommand::Search,
            Cmd::Info { .. } => PlsCommand::Info,
            Cmd::Update => PlsCommand::Update,
            Cmd::List { .. } => PlsCommand::List,
            Cmd::ListVendors => PlsCommand::List,
        }
    }

    /// The command's name, as the configuration file keys its per-command
    /// tables.
    pub fn label(&self) -> (r: &'static str)
        ensures
            r@ == cmd_label(*self),
    {
        match self {
            Cmd::Install { .. } => "install",
            Cmd::Remove { .. } => "remove",
            Cmd::Upgrade { .. } => "upgrade",
            Cmd::Search { .. } => "search",
            Cmd::Info { .. } => "info",
            Cmd::Update => "update",
            Cmd::List { .. } => "list",
            Cmd::ListVendors => "list-vendors",
        }
    }
}

impl Params {
    /// Lays the configured defaults over the invocation: flags only ever turn
    /// on, a configured vendor fills in only when none was pinned, and a
    /// configured pager settles into the paging commands. An unknown vendor
    /// name in the configuration is a hard error, never silently defaulted.
    pub fn apply_settings(self, settings: &Settings) -> (r: Result<Params, PlsError>)
        ensures
            (r is Err <==> (self.vendor is None && (settings.vendor matches Some(n)
                && resolved_name(n@) is None))),
            r matches Err(e) ==> (settings.vendor matches Some(n)
                && e matches PlsError::UnknownVendorName(m) && m@ == "invalid vendor name "@ + lowered(n@)),
            r matches Ok(p) ==> ({
                &&& p.skip_settings == self.skip_settings
                &&& p.config == self.config
                &&& p.dry_run == self.dry_run
                &&& p.yes == (self.yes || settings.assume_yes)
                &&& p.su == (self.su || settings.su)
                &&& (self.vendor is Some ==> p.vendor == self.vendor)
                &&& (self.vendor is None && settings.vendor is None ==> p.vendor is None)
                &&& (self.vendor is None ==> (settings.vendor matches Some(n) ==> (resolved_name(
                    n@,
                ) matches Some(v) && p.vendor == Some(v))))
                &&& cmd_settled(self.cmd, settings.pager, p.cmd)
            }),
    {
        let Params { skip_settings, config, dry_run, yes, su, vendor, cmd } = self;
        let cmd = match &settings.pager {
            None => cmd,
            Some(pg) => match cmd {
                Cmd::Search { args, .. } => {
                    let pager = if pg.as_str().is_empty() {
                        None
                    } else {
                        proof {
                            reveal_strlit("$args");
                        }
                        Some(replace_all(pg.as_str(), "$args", args.as_str()))
                    };
                    Cmd::Search { args, paginate: true, pager }
                },
                Cmd::List { .. } => {
                    let pager = if pg.as_str().is_empty() {
                        None
                    } else {
                        Some(pg.clone())
                    };
                    Cmd::List { paginate: true, pager }
                },
                other => other,
            },
        };
        let yes = yes || settings.assume_yes;
        let su = su || settings.su;
        let vendor = if vendor.is_none() {
            match &settings.vendor {
                Some(name) => match Vendor::from_name(name.as_str()) {
                    Ok(v) => Some(v),
                    Err(e) => {
                        return Err(e);
                    },
                },
                None => None,
            }
        } else {
            vendor
        };
        Ok(Params { skip_settings, config, dry_run, yes, su, vendor, cmd })
    }
}

} // verus!
