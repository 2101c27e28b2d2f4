//! Vendor resolution, command formatting and the execution-dispatch decision.

use vstd::prelude::*;

use crate::catalog::PlsCommand;
use crate::catalog::ProfileSpec;
use crate::catalog::Vendor;
use crate::catalog::VendorData;
use crate::catalog::profile_spec;
use crate::catalog::vendor_name;
use crate::catalog::vendor_order;
use crate::text::eq_ignore_ascii_case;
use crate::text::free_of;
use crate::text::has_substring;
use crate::text::join_all;
use crate::text::joined;
use crate::text::lemma_has_substring_extend_left;
use crate::text::lemma_joined_has_parts;
use crate::text::lemma_lowered_idempotent;
use crate::text::lemma_replaced_at_match;
use crate::text::lemma_replaced_clean;
use crate::text::lemma_replaced_skips_clean;
use crate::text::lemma_replaced_steps_over;
use crate::text::lemma_replaced_two_occurrences;
use crate::text::lower_all;
use crate::text::lowered;
use crate::text::replace_all;
use crate::text::replaced;
use crate::text::split_all;
use crate::text::split_on;

verus! {

/// An error of this library, with its human-readable message.
#[derive(Debug, PartialEq)]
pub enum PlsError {
    /// No recognized package manager was found on the host `PATH`.
    NoVendorAvailable(String),
    /// An explicit vendor name matched no known vendor.
    UnknownVendorName(String),
}

/// The message carried by an error.
pub open spec fn error_text(e: PlsError) -> Seq<char> {
    match e {
        PlsError::NoVendorAvailable(m) => m@,
        PlsError::UnknownVendorName(m) => m@,
    }
}

impl PlsError {
    /// The human-readable message of the error.
    pub fn text(&self) -> (r: &str)
        ensures
            r@ == error_text(*self),
    {
        match self {
            PlsError::NoVendorAvailable(m) => m.as_str(),
            PlsError::UnknownVendorName(m) => m.as_str(),
        }
    }
}

/// The template slot that an operation selects from a profile.
pub open spec fn template_spec(p: ProfileSpec, c: PlsCommand) -> Seq<char> {
    match c {
        PlsCommand::Install => p.install,
        PlsCommand::Remove => p.remove,
        PlsCommand::Upgrade => p.upgrade,
        PlsCommand::Search => p.search,
        PlsCommand::Info => p.info,
        PlsCommand::Update => p.update,
        PlsCommand::UpgradeAll => p.upgrade_all,
        PlsCommand::List => p.list,
    }
}

/// The view of an optional pager string.
pub open spec fn pager_view(p: Option<&str>) -> Option<Seq<char>> {
    match p {
        Some(s) => Some(s@),
        None => None,
    }
}

/// The template an operation selects, with the pager piped on for the
/// operations that page their output.
pub open spec fn paged_template_spec(
    p: ProfileSpec,
    c: PlsCommand,
    pager: Option<Seq<char>>,
) -> Seq<char> {
    let base = template_spec(p, c);
    match pager {
        Some(pg) => if c is Search || c is List {
            base + " | "@ + pg
        } else {
            base
        },
        None => base,
    }
}

/// The formatted command: the selected template, with the pager piped on for
/// the operations that page their output, then `$yes` replaced by the
/// profile's yes-flag text (or nothing), then `$args` replaced by the argument
/// text. An empty result is the vendor's way of saying the operation is
/// unsupported.
pub open spec fn format_spec(
    p: ProfileSpec,
    c: PlsCommand,
    args: Seq<char>,
    yes: bool,
    pager: Option<Seq<char>>,
) -> Seq<char> {
    let yes_text = if yes {
        p.yes_flag
    } else {
        Seq::<char>::empty()
    };
    replaced(replaced(paged_template_spec(p, c, pager), "$yes"@, yes_text), "$args"@, args)
}

impl PlsCommand {
    /// Formats the operation against a vendor's profile by template
    /// substitution.
    pub fn format(self, vendor: &VendorData, args: &str, yes: bool, pager: Option<&str>) -> (r:
        String)
        ensures
            r@ == format_spec(vendor@, self, args@, yes, pager_view(pager)),
    {
        let template: String = match self {
            PlsCommand::Install => String::from_str(vendor.install),
            PlsCommand::Remove => String::from_str(vendor.remove),
            PlsCommand::Upgrade => String::from_str(vendor.upgrade),
            PlsCommand::Info => String::from_str(vendor.info),
            PlsCommand::Update => String::from_str(vendor.update),
            PlsCommand::UpgradeAll => String::from_str(vendor.upgrade_all),
            PlsCommand::Search => match pager {
                Some(p) => {
                    let mut t = String::from_str(vendor.search);
                    t.append(" | ");
                    t.append(p);
                    t
                },
                None => String::from_str(vendor.search),
            },
            PlsCommand::List => match pager {
                Some(p) => {
                    let mut t = String::from_str(vendor.list);
                    t.append(" | ");
                    t.append(p);
                    t
                },
                None => String::from_str(vendor.list),
            },
        };
        proof {
            reveal_strlit("$yes");
            reveal_strlit("$args");
            reveal_strlit("");
            assert(""@ =~= Seq::<char>::empty());
        }
        let yes_text: &str = if yes {
            vendor.yes_flag
        } else {
            ""
        };
        let with_yes = replace_all(template.as_str(), "$yes", yes_text);
        replace_all(with_yes.as_str(), "$args", args)
    }
}

/// How a formatted command is to be run: refused as unsupported, printed as a
/// dry run, spawned through the shell, or spawned elevated with the command
/// split on spaces into discrete arguments.
#[derive(Debug, PartialEq)]
pub enum ExecPlan {
    Unsupported,
    DryRun(String),
    Shell(String),
    Elevated(Vec<String>),
}

impl ExecPlan {
    /// The exit status settled without spawning anything: refusing an
    /// unsupported operation reports 1, a dry run reports 0. A plan that
    /// spawns has no immediate status.
    pub fn immediate_exit(&self) -> (r: Option<i32>)
        ensures
            *self is Unsupported ==> r == Some(1i32),
            *self is DryRun ==> r == Some(0i32),
            *self is Shell || *self is Elevated ==> r is None,
    {
        match self {
            ExecPlan::Unsupported => Some(1),
            ExecPlan::DryRun(_) => Some(0),
            ExecPlan::Shell(_) => None,
            ExecPlan::Elevated(_) => None,
        }
    }
}

/// The exit code reported for a finished child process: its own code, or 0
/// when the status carries none, as when the child was ended by a signal.
pub fn exit_code(status: Option<i32>) -> (r: i32)
    ensures
        status matches Some(c) ==> r == c,
        status is None ==> r == 0,
{
    match status {
        Some(c) => c,
        None => 0,
    }
}

/// The advisory printed when the resolved vendor has no command for the
/// requested operation.
pub fn unsupported_advisory() -> (r: &'static str)
    ensures
        r@ == "command not supported by the current vendor"@,
{
    "command not supported by the current vendor"
}

impl Vendor {
    /// Decides how an operation runs on this vendor: formats the command, then
    /// refuses it when the vendor has no template for it, prints it on a dry
    /// run, and otherwise hands it to the shell, split into discrete arguments
    /// when elevation reroutes it through the elevation tool.
    pub fn dispatch(
        self,
        command: PlsCommand,
        args: &str,
        yes: bool,
        su: bool,
        dry_run: bool,
        pager: Option<&str>,
    ) -> (r: ExecPlan)
        ensures
            ({
                let cmd = format_spec(profile_spec(self), command, args@, yes, pager_view(pager));
                &&& (cmd.len() == 0 <==> r is Unsupported)
                &&& (cmd.len() > 0 && dry_run) ==> (r matches ExecPlan::DryRun(c) && c@ == cmd)
                &&& (cmd.len() > 0 && !dry_run && !su) ==> (r matches ExecPlan::Shell(c) && c@
                    == cmd)
                &&& (cmd.len() > 0 && !dry_run && su) ==> (r matches ExecPlan::Elevated(parts)
                    && parts.deep_view() == split_on(cmd, ' '))
            }),
    {
        let data = self.data();
        let cmd = command.format(&data, args, yes, pager);
        if cmd.as_str().is_empty() {
            ExecPlan::Unsupported
        } else if dry_run {
            ExecPlan::DryRun(cmd)
        } else if su {
            ExecPlan::Elevated(split_all(cmd.as_str(), ' '))
        } else {
            ExecPlan::Shell(cmd)
        }
    }
}

/// The first vendor whose availability flag is set, walking both sequences in
/// step.
pub open spec fn selected(avail: Seq<bool>, vs: Seq<Vendor>) -> Option<Vendor>
    decreases vs.len(),
{
    if vs.len() == 0 || avail.len() == 0 {
        None
    } else if avail[0] {
        Some(vs[0])
    } else {
        selected(avail.skip(1), vs.skip(1))
    }
}

/// A selected vendor is one of the candidates.
proof fn lemma_selected_is_candidate(avail: Seq<bool>, vs: Seq<Vendor>)
    ensures
        selected(avail, vs) matches Some(v) ==> vs.contains(v),
    decreases vs.len(),
{
    if vs.len() > 0 && avail.len() > 0 {
        if avail[0] {
            assert(vs.contains(vs[0]));
        } else {
            lemma_selected_is_candidate(avail.skip(1), vs.skip(1));
            if selected(avail.skip(1), vs.skip(1)) is Some {
                let w = selected(avail.skip(1), vs.skip(1)).unwrap();
                let j = choose|j: int| 0 <= j < vs.skip(1).len() && vs.skip(1)[j] == w;
                assert(vs[j + 1] == w);
            }
        }
    }
}

/// The display names of all candidates, in probe order.
pub open spec fn candidate_names() -> Seq<Seq<char>> {
    vendor_order().map_values(|v: Vendor| vendor_name(v))
}

/// The message reported when no vendor is installed: it names every candidate.
pub open spec fn no_vendor_message() -> Seq<char> {
    "no vendor installed, candidates are: "@ + joined(candidate_names(), ", "@)
}

/// Relies on which::which: it searches the host's `PATH` for an executable of
/// the given name. Whether one is found depends on the host alone, so nothing
/// is promised of the answer.
#[verifier::external_body]
fn executable_on_path(name: &str) -> bool {
    which::which(name).is_ok()
}

/// Builds the no-vendor message, naming every candidate in probe order.
pub fn no_vendor_report() -> (r: String)
    ensures
        r@ == no_vendor_message(),
{
    let order = Vendor::all();
    let mut names: Vec<String> = Vec::new();
    let mut i: usize = 0;
    proof {
        assert(names.deep_view() =~= candidate_names().take(0));
    }
    while i < order.len()
        invariant
            order@ == vendor_order(),
            i <= order@.len(),
            names@.len() == i,
            names.deep_view() == candidate_names().take(i as int),
        decreases order@.len() - i,
    {
        let ghost prev_vec = names@;
        let entry = String::from_str(order[i].name());
        names.push(entry);
        proof {
            assert(names@ == prev_vec.push(entry));
            assert forall|k: int| 0 <= k < i + 1 implies names.deep_view()[k]
                == candidate_names().take(i + 1)[k] by {
                assert(candidate_names().take(i + 1)[k] == candidate_names()[k]);
                if k < i {
                    assert(names@[k] == prev_vec[k]);
                    assert(names.deep_view()[k] == prev_vec[k]@);
                } else {
                    assert(names@[k] == entry);
                }
            }
            assert(names.deep_view() =~= candidate_names().take(i + 1));
        }
        i = i + 1;
    }
    proof {
        assert(candidate_names().take(vendor_order().len() as int) =~= candidate_names());
    }
    let list = join_all(&names, ", ");
    let mut msg = String::from_str("no vendor installed, candidates are: ");
    msg.append(list.as_str());
    msg
}

impl Vendor {
    /// True when the vendor's executable is on the host's `PATH`.
    pub fn is_available(&self) -> bool {
        executable_on_path(self.data().executable)
    }

    /// Picks the first candidate, in probe order, whose availability flag is
    /// set.
    pub fn select_available(avail: &Vec<bool>) -> (r: Option<Vendor>)
        requires
            avail@.len() == vendor_order().len(),
        ensures
            r == selected(avail@, vendor_order()),
    {
        let order = Vendor::all();
        let mut i: usize = 0;
        proof {
            assert(avail@.skip(0) =~= avail@);
            assert(vendor_order().skip(0) =~= vendor_order());
        }
        while i < order.len()
            invariant
                order@ == vendor_order(),
                avail@.len() == vendor_order().len(),
                i <= order@.len(),
                selected(avail@, vendor_order()) == selected(
                    avail@.skip(i as int),
                    vendor_order().skip(i as int),
                ),
            decreases order@.len() - i,
        {
            if avail[i] {
                proof {
                    assert(avail@.skip(i as int)[0] == avail@[i as int]);
                    assert(vendor_order().skip(i as int)[0] == vendor_order()[i as int]);
                }
                return Some(order[i]);
            }
            proof {
                assert(avail@.skip(i as int)[0] == avail@[i as int]);
                assert(avail@.skip(i as int).skip(1) =~= avail@.skip(i + 1));
                assert(vendor_order().skip(i as int).skip(1) =~= vendor_order().skip(i + 1));
            }
            i = i + 1;
        }
        None
    }

    /// Probes the catalog in resolution order and returns the first vendor
    /// whose executable is on the `PATH`; when none is, fails with a message
    /// that names every candidate.
    pub fn new() -> (r: Result<Vendor, PlsError>)
        ensures
            r matches Ok(v) ==> vendor_order().contains(v),
            r matches Err(e) ==> (e matches PlsError::NoVendorAvailable(m) && m@
                == no_vendor_message()),
    {
        let order = Vendor::all();
        let mut avail: Vec<bool> = Vec::new();
        let mut i: usize = 0;
        while i < order.len()
            invariant
                order@ == vendor_order(),
                avail@.len() == i,
                i <= order@.len(),
            decreases order@.len() - i,
        {
            avail.push(order[i].is_available());
            i = i + 1;
        }
        match Vendor::select_available(&avail) {
            Some(v) => {
                proof {
                    lemma_selected_is_candidate(avail@, vendor_order());
                }
                Ok(v)
            },
            None => Err(PlsError::NoVendorAvailable(no_vendor_report())),
        }
    }
}

/// True when `s` names the vendor `v`, up to ASCII case.
pub open spec fn name_matches(s: Seq<char>, v: Vendor) -> bool {
    lowered(vendor_name(v)) == lowered(s)
}

/// The first vendor of `vs` that `s` names, up to ASCII case.
pub open spec fn resolved_name_from(s: Seq<char>, vs: Seq<Vendor>) -> Option<Vendor>
    decreases vs.len(),
{
    if vs.len() == 0 {
        None
    } else if name_matches(s, vs[0]) {
        Some(vs[0])
    } else {
        resolved_name_from(s, vs.skip(1))
    }
}

/// The vendor that `s` names, up to ASCII case, if any.
pub open spec fn resolved_name(s: Seq<char>) -> Option<Vendor> {
    resolved_name_from(s, vendor_order())
}

impl Vendor {
    /// Looks a vendor up by its display name, case-insensitively; an unknown
    /// name is rejected, never silently defaulted.
    pub fn from_name(s: &str) -> (r: Result<Vendor, PlsError>)
        ensures
            resolved_name(s@) matches Some(v) ==> r == Ok::<Vendor, PlsError>(v),
            resolved_name(s@) is None ==> (r matches Err(e) && e matches PlsError::UnknownVendorName(
                m,
            ) && m@ == "invalid vendor name "@ + lowered(s@)),
    {
        let order = Vendor::all();
        let mut i: usize = 0;
        proof {
            assert(vendor_order().skip(0) =~= vendor_order());
        }
        while i < order.len()
            invariant
                order@ == vendor_order(),
                i <= order@.len(),
                resolved_name(s@) == resolved_name_from(s@, vendor_order().skip(i as int)),
            decreases order@.len() - i,
        {
            let v = order[i];
            proof {
                assert(vendor_order().skip(i as int)[0] == vendor_order()[i as int]);
            }
            if eq_ignore_ascii_case(s, v.name()) {
                return Ok(v);
            }
            proof {
                assert(vendor_order().skip(i as int).skip(1) =~= vendor_order().skip(i + 1));
            }
            i = i + 1;
        }
        let mut msg = String::from_str("invalid vendor name ");
        let folded = lower_all(s);
        msg.append(folded.as_str());
        Err(PlsError::UnknownVendorName(msg))
    }
}

/// The formatter reaches every extraneous `$args` occurrence: against a
/// template built of dollar-free pieces around two `$args` slots, the
/// argument text lands in both places, verbatim, with the pieces unchanged
/// and no partial substitution.
pub proof fn lemma_format_fills_every_args_slot(
    p: ProfileSpec,
    c: PlsCommand,
    a: Seq<char>,
    b: Seq<char>,
    d: Seq<char>,
    args: Seq<char>,
    yes: bool,
)
    requires
        template_spec(p, c) == a + "$args"@ + b + "$args"@ + d,
        free_of(a, '$'),
        free_of(b, '$'),
        free_of(d, '$'),
    ensures
        format_spec(p, c, args, yes, None) == a + args + b + args + d,
{
    reveal_strlit("$yes");
    reveal_strlit("$args");
    let pa = "$args"@;
    let py = "$yes"@;
    let y = if yes {
        p.yes_flag
    } else {
        Seq::<char>::empty()
    };
    let t = template_spec(p, c);
    assert(pa[0] == '$');
    assert(py[0] == '$');
    assert forall|i: int| 0 <= i < pa.skip(1).len() implies pa.skip(1)[i] != '$' by {
        assert(pa.skip(1)[i] == pa[i + 1]);
        assert(pa[1] == 'a');
        assert(pa[2] == 'r');
        assert(pa[3] == 'g');
        assert(pa[4] == 's');
    }
    assert(pa.take(py.len() as int)[1] == pa[1]);
    assert(pa.take(py.len() as int) != py);
    assert(t =~= a + (pa + (b + (pa + d))));
    lemma_replaced_skips_clean(a, pa + (b + (pa + d)), py, y);
    lemma_replaced_steps_over(pa, b + (pa + d), py, y);
    lemma_replaced_skips_clean(b, pa + d, py, y);
    lemma_replaced_steps_over(pa, d, py, y);
    lemma_replaced_clean(d, py, y);
    assert(replaced(t, py, y) == a + (pa + (b + (pa + d))));
    lemma_replaced_two_occurrences(a, b, d, pa, args);
}

/// One piece of a command template: literal text, an `$args` slot, or a
/// `$yes` slot.
pub ghost enum TemplatePiece {
    Text(Seq<char>),
    ArgsSlot,
    YesSlot,
}

/// The text a piece contributes to the template before substitution.
pub open spec fn piece_text(p: TemplatePiece) -> Seq<char> {
    match p {
        TemplatePiece::Text(t) => t,
        TemplatePiece::ArgsSlot => "$args"@,
        TemplatePiece::YesSlot => "$yes"@,
    }
}

/// The template the pieces assemble into.
pub open spec fn assembled(ps: Seq<TemplatePiece>) -> Seq<char>
    decreases ps.len(),
{
    if ps.len() == 0 {
        Seq::empty()
    } else {
        piece_text(ps[0]) + assembled(ps.skip(1))
    }
}

/// The pieces with only the `$yes` slots substituted: what stands after the
/// formatter's first pass.
pub open spec fn yes_substituted(ps: Seq<TemplatePiece>, yes_text: Seq<char>) -> Seq<char>
    decreases ps.len(),
{
    if ps.len() == 0 {
        Seq::empty()
    } else {
        (match ps[0] {
            TemplatePiece::YesSlot => yes_text,
            other => piece_text(other),
        }) + yes_substituted(ps.skip(1), yes_text)
    }
}

/// The pieces with both placeholders substituted: the argument text in every
/// `$args` slot, the yes text in every `$yes` slot, the literal pieces
/// unchanged.
pub open spec fn substituted(ps: Seq<TemplatePiece>, args: Seq<char>, yes_text: Seq<char>) -> Seq<
    char,
>
    decreases ps.len(),
{
    if ps.len() == 0 {
        Seq::empty()
    } else {
        (match ps[0] {
            TemplatePiece::Text(t) => t,
            TemplatePiece::ArgsSlot => args,
            TemplatePiece::YesSlot => yes_text,
        }) + substituted(ps.skip(1), args, yes_text)
    }
}

/// True when every literal piece is free of `$`: the placeholder slots are
/// then the only places a placeholder can stand.
pub open spec fn clean_pieces(ps: Seq<TemplatePiece>) -> bool {
    forall|i: int|
        0 <= i < ps.len() ==> (#[trigger] ps[i] matches TemplatePiece::Text(t) ==> free_of(
            t,
            '$',
        ))
}

/// Ground facts about the two placeholder tokens that the pass lemmas lean
/// on: both start with `$`, and neither matches inside the other.
proof fn lemma_placeholder_tokens()
    ensures
        "$yes"@.len() == 4,
        "$args"@.len() == 5,
        "$yes"@[0] == '$',
        "$args"@[0] == '$',
        free_of("$args"@.skip(1), '$'),
        "$args"@.take(4) != "$yes"@,
{
    reveal_strlit("$yes");
    reveal_strlit("$args");
    let pa = "$args"@;
    let py = "$yes"@;
    assert forall|i: int| 0 <= i < pa.skip(1).len() implies pa.skip(1)[i] != '$' by {
        assert(pa.skip(1)[i] == pa[i + 1]);
        assert(pa[1] == 'a');
        assert(pa[2] == 'r');
        assert(pa[3] == 'g');
        assert(pa[4] == 's');
    }
    assert(pa.take(4)[1] == pa[1]);
    assert(pa.take(4) != py);
}

/// The formatter's first pass: on a template assembled from clean pieces, the
/// `$yes` replacement fills exactly the `$yes` slots.
proof fn lemma_yes_pass(ps: Seq<TemplatePiece>, yes_text: Seq<char>)
    requires
        clean_pieces(ps),
    ensures
        replaced(assembled(ps), "$yes"@, yes_text) == yes_substituted(ps, yes_text),
    decreases ps.len(),
{
    lemma_placeholder_tokens();
    let py = "$yes"@;
    if ps.len() == 0 {
        assert(replaced(Seq::<char>::empty(), py, yes_text) == Seq::<char>::empty());
    } else {
        let rest = assembled(ps.skip(1));
        assert(clean_pieces(ps.skip(1)));
        lemma_yes_pass(ps.skip(1), yes_text);
        match ps[0] {
            TemplatePiece::Text(t) => {
                assert(free_of(t, py[0]));
                lemma_replaced_skips_clean(t, rest, py, yes_text);
            },
            TemplatePiece::ArgsSlot => {
                lemma_replaced_steps_over("$args"@, rest, py, yes_text);
            },
            TemplatePiece::YesSlot => {
                lemma_replaced_at_match(rest, py, yes_text);
            },
        }
    }
}

/// The formatter's second pass: on the first pass's result, the `$args`
/// replacement fills exactly the `$args` slots, provided the substituted yes
/// text is itself free of `$`.
proof fn lemma_args_pass(ps: Seq<TemplatePiece>, args: Seq<char>, yes_text: Seq<char>)
    requires
        clean_pieces(ps),
        free_of(yes_text, '$'),
    ensures
        replaced(yes_substituted(ps, yes_text), "$args"@, args) == substituted(
            ps,
            args,
            yes_text,
        ),
    decreases ps.len(),
{
    lemma_placeholder_tokens();
    let pa = "$args"@;
    if ps.len() == 0 {
        assert(replaced(Seq::<char>::empty(), pa, args) == Seq::<char>::empty());
    } else {
        let rest = yes_substituted(ps.skip(1), yes_text);
        assert(clean_pieces(ps.skip(1)));
        lemma_args_pass(ps.skip(1), args, yes_text);
        match ps[0] {
            TemplatePiece::Text(t) => {
                assert(free_of(t, pa[0]));
                lemma_replaced_skips_clean(t, rest, pa, args);
            },
            TemplatePiece::ArgsSlot => {
                lemma_replaced_at_match(rest, pa, args);
            },
            TemplatePiece::YesSlot => {
                assert(free_of(yes_text, pa[0]));
                lemma_replaced_skips_clean(yes_text, rest, pa, args);
            },
        }
    }
}

/// The formatter substitutes every placeholder, however many there are and in
/// whatever order: against a paged template assembled from dollar-free
/// literal pieces and any number of `$args` and `$yes` slots, the argument
/// text lands in every `$args` slot and the yes text in every `$yes` slot,
/// verbatim, with the literal pieces unchanged and no occurrence left
/// half-substituted. The yes text must be free of `$` itself, else its copies
/// would feed the second pass.
pub proof fn lemma_format_substitutes_every_slot(
    p: ProfileSpec,
    c: PlsCommand,
    pager: Option<Seq<char>>,
    ps: Seq<TemplatePiece>,
    args: Seq<char>,
    yes: bool,
)
    requires
        paged_template_spec(p, c, pager) == assembled(ps),
        clean_pieces(ps),
        free_of(
            if yes {
                p.yes_flag
            } else {
                Seq::<char>::empty()
            },
            '$',
        ),
    ensures
        format_spec(p, c, args, yes, pager) == substituted(
            ps,
            args,
            if yes {
                p.yes_flag
            } else {
                Seq::<char>::empty()
            },
        ),
{
    let yes_text = if yes {
        p.yes_flag
    } else {
        Seq::<char>::empty()
    };
    lemma_yes_pass(ps, yes_text);
    lemma_args_pass(ps, args, yes_text);
}

/// With assume-yes off, the output carries no trace of the profile's yes-flag
/// text: whatever that text is, the formatted command is the same.
pub proof fn lemma_yes_off_ignores_flag(
    p: ProfileSpec,
    flag: Seq<char>,
    c: PlsCommand,
    args: Seq<char>,
    pager: Option<Seq<char>>,
)
    ensures
        format_spec(p, c, args, false, pager) == format_spec(
            ProfileSpec { yes_flag: flag, ..p },
            c,
            args,
            false,
            pager,
        ),
{
}

/// Assume-yes against a vendor whose yes-flag text is empty behaves exactly
/// like no assume-yes.
pub proof fn lemma_empty_flag_yes_is_no(
    p: ProfileSpec,
    c: PlsCommand,
    args: Seq<char>,
    pager: Option<Seq<char>>,
)
    requires
        p.yes_flag.len() == 0,
    ensures
        format_spec(p, c, args, true, pager) == format_spec(p, c, args, false, pager),
{
    assert(p.yes_flag =~= Seq::<char>::empty());
}

/// All availability flags cleared: no vendor is selected.
proof fn lemma_selected_none(avail: Seq<bool>, vs: Seq<Vendor>)
    requires
        forall|i: int| 0 <= i < avail.len() ==> !avail[i],
    ensures
        selected(avail, vs) is None,
    decreases vs.len(),
{
    if vs.len() > 0 && avail.len() > 0 {
        lemma_selected_none(avail.skip(1), vs.skip(1));
    }
}

/// When every probe failed, resolution selects no vendor, and the failure
/// message names every candidate of the platform, none omitted.
pub proof fn lemma_resolution_failure_reports_all(avail: Seq<bool>, k: int)
    requires
        forall|i: int| 0 <= i < avail.len() ==> !avail[i],
        0 <= k < vendor_order().len(),
    ensures
        selected(avail, vendor_order()) is None,
        has_substring(no_vendor_message(), vendor_name(vendor_order()[k])),
{
    lemma_selected_none(avail, vendor_order());
    lemma_joined_has_parts(candidate_names(), ", "@, k);
    assert(candidate_names()[k] == vendor_name(vendor_order()[k]));
    lemma_has_substring_extend_left(
        "no vendor installed, candidates are: "@,
        joined(candidate_names(), ", "@),
        vendor_name(vendor_order()[k]),
    );
}

/// The length and first three characters of a vendor's case-folded name:
/// enough to tell every vendor apart.
spec fn name_key(v: Vendor) -> (int, char, char, char) {
    let n = lowered(vendor_name(v));
    (n.len() as int, n[0], n[1], n[2])
}

/// Distinct vendors have distinct display names, even up to ASCII case.
proof fn lemma_names_distinct(u: Vendor, v: Vendor)
    requires
        u != v,
    ensures
        lowered(vendor_name(u)) != lowered(vendor_name(v)),
{
    reveal_strlit("Apt");
    reveal_strlit("Yay");
    reveal_strlit("Yum");
    reveal_strlit("Pacman");
    reveal_strlit("Apk");
    reveal_strlit("Emerge");
    reveal_strlit("Guix");
    reveal_strlit("NixEnv");
    reveal_strlit("Slackpkg");
    reveal_strlit("Cards");
    reveal_strlit("Dnf");
    reveal_strlit("Eopkg");
    reveal_strlit("Opkg");
    reveal_strlit("Urpm");
    reveal_strlit("Xbps");
    reveal_strlit("Zypper");
    reveal_strlit("Flatpak");
    reveal_strlit("Snap");
    assert(name_key(Vendor::Apt) == (3int, 'a', 'p', 't'));
    assert(name_key(Vendor::Yay) == (3int, 'y', 'a', 'y'));
    assert(name_key(Vendor::Yum) == (3int, 'y', 'u', 'm'));
    assert(name_key(Vendor::Pacman) == (6int, 'p', 'a', 'c'));
    assert(name_key(Vendor::Apk) == (3int, 'a', 'p', 'k'));
    assert(name_key(Vendor::Emerge) == (6int, 'e', 'm', 'e'));
    assert(name_key(Vendor::Guix) == (4int, 'g', 'u', 'i'));
    assert(name_key(Vendor::NixEnv) == (6int, 'n', 'i', 'x'));
    assert(name_key(Vendor::Slackpkg) == (8int, 's', 'l', 'a'));
    assert(name_key(Vendor::Cards) == (5int, 'c', 'a', 'r'));
    assert(name_key(Vendor::Dnf) == (3int, 'd', 'n', 'f'));
    assert(name_key(Vendor::Eopkg) == (5int, 'e', 'o', 'p'));
    assert(name_key(Vendor::Opkg) == (4int, 'o', 'p', 'k'));
    assert(name_key(Vendor::Urpm) == (4int, 'u', 'r', 'p'));
    assert(name_key(Vendor::Xbps) == (4int, 'x', 'b', 'p'));
    assert(name_key(Vendor::Zypper) == (6int, 'z', 'y', 'p'));
    assert(name_key(Vendor::Flatpak) == (7int, 'f', 'l', 'a'));
    assert(name_key(Vendor::Snap) == (4int, 's', 'n', 'a'));
    if lowered(vendor_name(u)) == lowered(vendor_name(v)) {
        assert(name_key(u) == name_key(v));
        assert(false);
    }
}

/// Round trip: every vendor's display name, lower-cased, resolves back to
/// that same vendor through explicit-name lookup.
pub proof fn lemma_name_round_trip(v: Vendor)
    ensures
        resolved_name(lowered(vendor_name(v))) == Some(v),
{
    reveal_with_fuel(resolved_name_from, 19);
    let s = lowered(vendor_name(v));
    lemma_lowered_idempotent(vendor_name(v));
    assert(name_matches(s, v));
    let order = vendor_order();
    assert forall|j: int| 0 <= j < order.len() && order[j] != v implies !name_matches(
        s,
        order[j],
    ) by {
        lemma_names_distinct(order[j], v);
    }
    assert(resolved_name_from(s, order) == Some(v));
}

} // verus!
