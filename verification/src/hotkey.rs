//! Binding the PrintScreen key to this program. GNOME and XFCE are
//! scriptable: for them the installer is a plan of commands, run in order by
//! the caller; other desktops get exact instructions. The commands, the
//! keybinding list written to GNOME and the messages are fixed here.

use vstd::prelude::*;

use crate::command::{invocation, owned, seq_views, Invocation};
use crate::gsettings::{
    add_entry, format_string_array, format_string_array_spec, lemma_parse_format_round_trip,
    parse_string_array, parse_string_array_spec, plain_entry, with_entry_spec,
};
use crate::text::{contains, contains_spec, to_ascii_upper, to_upper_spec};

verus! {

/// The gsettings schema that holds custom keybindings.
pub const GNOME_MEDIA_KEYS: &'static str = "org.gnome.settings-daemon.plugins.media-keys";

/// The settings path of this program's own keybinding.
pub const GNOME_KB_PATH: &'static str =
    "/org/gnome/settings-daemon/plugins/media-keys/custom-keybindings/screenshit/";

proof fn lemma_kb_path_plain()
    ensures
        plain_entry(GNOME_KB_PATH@),
{
    reveal_strlit("/org/gnome/settings-daemon/plugins/media-keys/custom-keybindings/screenshit/");
    let p = GNOME_KB_PATH@;
    assert(!p.contains(','));
}

/// One step of an installation: an invocation, and the one to try instead
/// when it fails.
pub struct Step {
    pub run: Invocation,
    pub fallback: Option<Invocation>,
}

impl View for Step {
    type V = ((Seq<char>, Seq<Seq<char>>), Option<(Seq<char>, Seq<Seq<char>>)>);

    open spec fn view(&self) -> Self::V {
        (
            self.run@,
            match self.fallback {
                Some(f) => Some(f@),
                None => None,
            },
        )
    }
}

/// What an installer does: run the steps in order, stopping at the first
/// step whose invocation (and fallback) fails with that failure, and report
/// `success` when all of them succeed.
pub struct InstallPlan {
    pub steps: Vec<Step>,
    pub success: String,
}

impl View for InstallPlan {
    type V = (Seq<((Seq<char>, Seq<Seq<char>>), Option<(Seq<char>, Seq<Seq<char>>)>)>, Seq<char>);

    open spec fn view(&self) -> Self::V {
        (self.steps@.map_values(|st: Step| st@), self.success@)
    }
}

/// `gsettings set <schema> <key> <value>`.
pub open spec fn gsettings_set_spec(schema: Seq<char>, key: Seq<char>, value: Seq<char>) -> (
    Seq<char>,
    Seq<Seq<char>>,
) {
    ("gsettings"@, seq!["set"@, schema, key, value])
}

/// The keybinding list that the GNOME installer writes, given the list that
/// gsettings printed: the old entries, with this program's path added.
pub open spec fn gnome_list_spec(current: Seq<char>) -> Seq<char> {
    format_string_array_spec(with_entry_spec(parse_string_array_spec(current), GNOME_KB_PATH@))
}

/// The relocatable schema of this program's keybinding.
pub open spec fn gnome_schema_spec() -> Seq<char> {
    GNOME_MEDIA_KEYS@ + ".custom-keybinding:"@ + GNOME_KB_PATH@
}

pub open spec fn gnome_success_spec(command: Seq<char>) -> Seq<char> {
    "PrintScreen now launches: "@ + command
        + "\n(GNOME's built-in screenshot UI was unbound from Print; restore it with\ngsettings reset org.gnome.shell.keybindings show-screenshot-ui\nand remove ours with\ngsettings reset "@
        + GNOME_MEDIA_KEYS@ + " custom-keybindings)"@
}

pub open spec fn gnome_plan_spec(command: Seq<char>, current: Seq<char>) -> (
    Seq<((Seq<char>, Seq<Seq<char>>), Option<(Seq<char>, Seq<Seq<char>>)>)>,
    Seq<char>,
) {
    let schema = gnome_schema_spec();
    (
        seq![
            (gsettings_set_spec(GNOME_MEDIA_KEYS@, "custom-keybindings"@, gnome_list_spec(current)), None),
            (gsettings_set_spec(schema, "name"@, "screenshit"@), None),
            (gsettings_set_spec(schema, "command"@, command), None),
            (gsettings_set_spec(schema, "binding"@, "Print"@), None),
            (gsettings_set_spec("org.gnome.shell.keybindings"@, "show-screenshot-ui"@, "[]"@), None),
        ],
        gnome_success_spec(command),
    )
}

/// The xconf property of the PrintScreen shortcut.
pub const XFCE_PRINT_PROP: &'static str = "/commands/custom/Print";

pub open spec fn xfce_plan_spec(command: Seq<char>) -> (
    Seq<((Seq<char>, Seq<Seq<char>>), Option<(Seq<char>, Seq<Seq<char>>)>)>,
    Seq<char>,
) {
    let create = (
        "xfconf-query"@,
        seq![
            "-c"@, "xfce4-keyboard-shortcuts"@, "-p"@, XFCE_PRINT_PROP@, "-n"@, "-t"@, "string"@,
            "-s"@, command,
        ],
    );
    let update = (
        "xfconf-query"@,
        seq!["-c"@, "xfce4-keyboard-shortcuts"@, "-p"@, XFCE_PRINT_PROP@, "-s"@, command],
    );
    (
        seq![(create, Some(update))],
        "PrintScreen now launches: "@ + command
            + "\n(remove it with: xfconf-query -c xfce4-keyboard-shortcuts -p "@ + XFCE_PRINT_PROP@
            + " -r)"@,
    )
}

fn gsettings_set(schema: &str, key: &str, value: &str) -> (inv: Invocation)
    ensures
        inv@ == gsettings_set_spec(schema@, key@, value@),
{
    let mut args: Vec<String> = Vec::new();
    args.push(owned("set"));
    args.push(owned(schema));
    args.push(owned(key));
    args.push(owned(value));
    assert(seq_views(args@) =~= seq!["set"@, schema@, key@, value@]);
    invocation("gsettings", args)
}

fn plain_step(run: Invocation) -> (st: Step)
    ensures
        st@ == (run@, None::<(Seq<char>, Seq<Seq<char>>)>),
{
    Step { run, fallback: None }
}

/// The command that gsettings prints the current keybinding list with.
pub fn gnome_list_query() -> (inv: Invocation)
    ensures
        inv@ == ("gsettings"@, seq!["get"@, GNOME_MEDIA_KEYS@, "custom-keybindings"@]),
{
    let mut args: Vec<String> = Vec::new();
    args.push(owned("get"));
    args.push(owned(GNOME_MEDIA_KEYS));
    args.push(owned("custom-keybindings"));
    assert(seq_views(args@) =~= seq!["get"@, GNOME_MEDIA_KEYS@, "custom-keybindings"@]);
    invocation("gsettings", args)
}

/// The GNOME installation: `current` is what `gnome_list_query` printed.
/// Registers this program's path in the custom-keybindings list (keeping the
/// entries already there), binds it to Print and frees Print from GNOME's
/// own screenshot UI.
pub fn install_gnome(command: &str, current: &str) -> (plan: InstallPlan)
    ensures
        plan@ == gnome_plan_spec(command@, current@),
{
    let mut entries = parse_string_array(current);
    add_entry(&mut entries, GNOME_KB_PATH);
    let list = format_string_array(&entries);

    let mut schema = owned(GNOME_MEDIA_KEYS);
    schema.append(".custom-keybinding:");
    schema.append(GNOME_KB_PATH);

    let mut steps: Vec<Step> = Vec::new();
    steps.push(plain_step(gsettings_set(GNOME_MEDIA_KEYS, "custom-keybindings", list.as_str())));
    steps.push(plain_step(gsettings_set(schema.as_str(), "name", "screenshit")));
    steps.push(plain_step(gsettings_set(schema.as_str(), "command", command)));
    steps.push(plain_step(gsettings_set(schema.as_str(), "binding", "Print")));
    steps.push(
        plain_step(gsettings_set("org.gnome.shell.keybindings", "show-screenshot-ui", "[]")),
    );

    let mut success = owned("PrintScreen now launches: ");
    success.append(command);
    success.append(
        "\n(GNOME's built-in screenshot UI was unbound from Print; restore it with\ngsettings reset org.gnome.shell.keybindings show-screenshot-ui\nand remove ours with\ngsettings reset ",
    );
    success.append(GNOME_MEDIA_KEYS);
    success.append(" custom-keybindings)");

    let plan = InstallPlan { steps, success };
    assert(plan@.0 =~= gnome_plan_spec(command@, current@).0);
    plan
}

/// The XFCE installation: create the PrintScreen shortcut property, or
/// update it when it already exists.
pub fn install_xfce(command: &str) -> (plan: InstallPlan)
    ensures
        plan@ == xfce_plan_spec(command@),
{
    let mut create: Vec<String> = Vec::new();
    create.push(owned("-c"));
    create.push(owned("xfce4-keyboard-shortcuts"));
    create.push(owned("-p"));
    create.push(owned(XFCE_PRINT_PROP));
    create.push(owned("-n"));
    create.push(owned("-t"));
    create.push(owned("string"));
    create.push(owned("-s"));
    create.push(owned(command));
    let mut update: Vec<String> = Vec::new();
    update.push(owned("-c"));
    update.push(owned("xfce4-keyboard-shortcuts"));
    update.push(owned("-p"));
    update.push(owned(XFCE_PRINT_PROP));
    update.push(owned("-s"));
    update.push(owned(command));
    assert(seq_views(create@) =~= seq![
        "-c"@, "xfce4-keyboard-shortcuts"@, "-p"@, XFCE_PRINT_PROP@, "-n"@, "-t"@, "string"@,
        "-s"@, command@,
    ]);
    assert(seq_views(update@) =~= seq![
        "-c"@, "xfce4-keyboard-shortcuts"@, "-p"@, XFCE_PRINT_PROP@, "-s"@, command@,
    ]);
    let step = Step {
        run: invocation("xfconf-query", create),
        fallback: Some(invocation("xfconf-query", update)),
    };
    let mut steps: Vec<Step> = Vec::new();
    steps.push(step);

    let mut success = owned("PrintScreen now launches: ");
    success.append(command);
    success.append("\n(remove it with: xfconf-query -c xfce4-keyboard-shortcuts -p ");
    success.append(XFCE_PRINT_PROP);
    success.append(" -r)");

    let plan = InstallPlan { steps, success };
    assert(plan@.0 =~= xfce_plan_spec(command@).0);
    plan
}

/// Every entry of `es` survives a trip through the array notation.
pub open spec fn all_plain(es: Seq<Seq<char>>) -> bool {
    forall|i: int| 0 <= i < es.len() ==> plain_entry(#[trigger] es[i])
}

proof fn lemma_with_entry_plain(es: Seq<Seq<char>>, p: Seq<char>)
    requires
        all_plain(es),
        plain_entry(p),
    ensures
        all_plain(with_entry_spec(es, p)),
        with_entry_spec(es, p).contains(p),
{
    let w = with_entry_spec(es, p);
    if !es.contains(p) {
        assert forall|i: int| 0 <= i < w.len() implies plain_entry(#[trigger] w[i]) by {
            if i < es.len() {
                assert(w[i] == es[i]);
            }
        }
        assert(w[es.len() as int] == p);
    }
}

/// The list that the GNOME installer writes reads back as the list it read,
/// every old entry kept and in its place, with this program's path
/// registered: the installer loses no one else's keybinding.
pub proof fn lemma_install_keeps_bindings(current: Seq<char>)
    requires
        all_plain(parse_string_array_spec(current)),
    ensures
        parse_string_array_spec(gnome_list_spec(current)) == with_entry_spec(
            parse_string_array_spec(current),
            GNOME_KB_PATH@,
        ),
        parse_string_array_spec(gnome_list_spec(current)).contains(GNOME_KB_PATH@),
        parse_string_array_spec(current).is_prefix_of(
            parse_string_array_spec(gnome_list_spec(current)),
        ),
{
    let es = parse_string_array_spec(current);
    lemma_kb_path_plain();
    lemma_with_entry_plain(es, GNOME_KB_PATH@);
    lemma_parse_format_round_trip(with_entry_spec(es, GNOME_KB_PATH@));
    let w = with_entry_spec(es, GNOME_KB_PATH@);
    assert(es.is_prefix_of(w)) by {
        assert(w.subrange(0, es.len() as int) =~= es);
    }
}

/// Installing again writes the same keybinding list: the path is
/// registered once, however often the installer runs.
pub proof fn lemma_reinstall_writes_same_list(current: Seq<char>)
    requires
        all_plain(parse_string_array_spec(current)),
    ensures
        gnome_list_spec(gnome_list_spec(current)) == gnome_list_spec(current),
{
    lemma_install_keeps_bindings(current);
}

/// The text shown when the desktop has no automatic installer.
pub open spec fn manual_instructions_spec(command: Seq<char>, desktop: Seq<char>) -> Seq<char> {
    let d = if desktop.len() == 0 {
        "unknown"@
    } else {
        desktop
    };
    "Automatic hotkey setup is not supported for your desktop ("@ + d
        + ").\nBind the Print key to this command yourself:\n\n    "@ + command
        + "\n\n- KDE Plasma: System Settings -> Shortcuts -> Add Command\n- sway/i3:    bindsym Print exec "@
        + command + "\n- Hyprland:   bind = , Print, exec, "@ + command
}

/// Instructions for binding the Print key by hand on `desktop`.
pub fn manual_instructions(command: &str, desktop: &str) -> (text: String)
    ensures
        text@ == manual_instructions_spec(command@, desktop@),
{
    let d = if desktop.is_empty() {
        "unknown"
    } else {
        desktop
    };
    let mut t = owned("Automatic hotkey setup is not supported for your desktop (");
    t.append(d);
    t.append(").\nBind the Print key to this command yourself:\n\n    ");
    t.append(command);
    t.append(
        "\n\n- KDE Plasma: System Settings -> Shortcuts -> Add Command\n- sway/i3:    bindsym Print exec ",
    );
    t.append(command);
    t.append("\n- Hyprland:   bind = , Print, exec, ");
    t.append(command);
    t
}

/// The desktops with an automatic installer.
#[derive(Clone, Copy, PartialEq, Eq, Structural, Debug)]
pub enum Desktop {
    Gnome,
    Xfce,
    Other,
}

/// Which installer serves the desktop named `label` (upper case): GNOME
/// first, then XFCE.
pub open spec fn desktop_spec(label: Seq<char>) -> Desktop {
    if contains_spec(label, "GNOME"@) {
        Desktop::Gnome
    } else if contains_spec(label, "XFCE"@) {
        Desktop::Xfce
    } else {
        Desktop::Other
    }
}

/// The desktop name as the installer compares it: `XDG_CURRENT_DESKTOP` in
/// ASCII upper case.
pub fn desktop_label(raw: &str) -> (label: String)
    ensures
        label@ == to_upper_spec(raw@),
{
    to_ascii_upper(raw)
}

pub fn choose_desktop(label: &str) -> (d: Desktop)
    ensures
        d == desktop_spec(label@),
{
    if contains(label, "GNOME") {
        Desktop::Gnome
    } else if contains(label, "XFCE") {
        Desktop::Xfce
    } else {
        Desktop::Other
    }
}

/// The command the hotkey runs: this executable, with `--region` when asked.
pub fn hotkey_command(exe: &str, region: bool) -> (command: String)
    ensures
        command@ == (if region {
            exe@ + " --region"@
        } else {
            exe@
        }),
{
    let mut c = owned(exe);
    if region {
        c.append(" --region");
    }
    c
}

/// Where the run of an installation plan stands.
pub enum Progress {
    /// Run step `step`: its fallback invocation when `fallback`, else its own.
    Running { step: usize, fallback: bool },
    /// The installation is over, with this outcome.
    Finished(Result<String, String>),
}

pub enum ProgressView {
    Running { step: usize, fallback: bool },
    Finished(Result<Seq<char>, Seq<char>>),
}

impl View for Progress {
    type V = ProgressView;

    open spec fn view(&self) -> ProgressView {
        match self {
            Progress::Running { step, fallback } => ProgressView::Running {
                step: *step,
                fallback: *fallback,
            },
            Progress::Finished(r) => ProgressView::Finished(
                match r {
                    Ok(m) => Ok(m@),
                    Err(e) => Err(e@),
                },
            ),
        }
    }
}

/// A running position that names an existing step (and an existing
/// fallback).
pub open spec fn valid_position(plan: InstallPlan, p: ProgressView) -> bool {
    p matches ProgressView::Running { step, fallback } ==> step < plan.steps@.len() && (fallback
        ==> plan.steps@[step as int].fallback is Some)
}

pub open spec fn start_spec(plan: InstallPlan) -> ProgressView {
    if plan.steps@.len() == 0 {
        ProgressView::Finished(Ok(plan.success@))
    } else {
        ProgressView::Running { step: 0, fallback: false }
    }
}

/// The next position after running step `step` (its fallback when
/// `fallback`) gave `outcome`: on success the next step, or the success
/// message after the last; on failure the step's fallback if it has one not
/// tried yet, else that failure.
pub open spec fn advance_spec(
    plan: InstallPlan,
    step: usize,
    fallback: bool,
    outcome: Result<(), Seq<char>>,
) -> ProgressView {
    match outcome {
        Ok(_) => if step + 1 < plan.steps@.len() {
            ProgressView::Running { step: (step + 1) as usize, fallback: false }
        } else {
            ProgressView::Finished(Ok(plan.success@))
        },
        Err(e) => if !fallback && plan.steps@[step as int].fallback is Some {
            ProgressView::Running { step, fallback: true }
        } else {
            ProgressView::Finished(Err(e))
        },
    }
}

/// Where a run of `plan` begins.
pub fn start(plan: &InstallPlan) -> (p: Progress)
    ensures
        p@ == start_spec(*plan),
        valid_position(*plan, p@),
{
    if plan.steps.len() == 0 {
        Progress::Finished(Ok(plan.success.clone()))
    } else {
        Progress::Running { step: 0, fallback: false }
    }
}

/// The invocation to run at a running position.
pub fn invocation_at(plan: &InstallPlan, step: usize, fallback: bool) -> (inv: &Invocation)
    requires
        valid_position(*plan, ProgressView::Running { step, fallback }),
    ensures
        *inv == (if fallback {
            plan.steps@[step as int].fallback->0
        } else {
            plan.steps@[step as int].run
        }),
{
    let st = &plan.steps[step];
    if fallback {
        match &st.fallback {
            Some(f) => f,
            None => &st.run,
        }
    } else {
        &st.run
    }
}

/// Advance a run of `plan` after the invocation at (`step`, `fallback`)
/// ended with `outcome`.
pub fn advance(plan: &InstallPlan, step: usize, fallback: bool, outcome: Result<(), String>) -> (p: Progress)
    requires
        valid_position(*plan, ProgressView::Running { step, fallback }),
    ensures
        p@ == advance_spec(
            *plan,
            step,
            fallback,
            match outcome {
                Ok(u) => Ok(u),
                Err(e) => Err(e@),
            },
        ),
        valid_position(*plan, p@),
{
    match outcome {
        Ok(_) => if step < plan.steps.len() - 1 {
            Progress::Running { step: step + 1, fallback: false }
        } else {
            Progress::Finished(Ok(plan.success.clone()))
        },
        Err(e) => if !fallback && plan.steps[step].fallback.is_some() {
            Progress::Running { step, fallback: true }
        } else {
            Progress::Finished(Err(e))
        },
    }
}

/// Where a run of `plan` stands after the runs at `pos` and on gave
/// `outcomes`, one after another (outcomes after the end are ignored).
pub open spec fn drive_spec(
    plan: InstallPlan,
    pos: ProgressView,
    outcomes: Seq<Result<(), Seq<char>>>,
) -> ProgressView
    decreases outcomes.len(),
{
    if outcomes.len() == 0 {
        pos
    } else {
        match pos {
            ProgressView::Running { step, fallback } => drive_spec(
                plan,
                advance_spec(plan, step, fallback, outcomes[0]),
                outcomes.drop_first(),
            ),
            ProgressView::Finished(_) => pos,
        }
    }
}

/// `m` successful runs.
pub open spec fn successes(m: nat) -> Seq<Result<(), Seq<char>>> {
    Seq::new(m, |i: int| Ok(()))
}

proof fn lemma_successes_to_end(plan: InstallPlan, k: usize)
    requires
        k < plan.steps@.len() <= usize::MAX,
    ensures
        drive_spec(
            plan,
            ProgressView::Running { step: k, fallback: false },
            successes((plan.steps@.len() - k) as nat),
        ) == ProgressView::Finished(Ok::<Seq<char>, Seq<char>>(plan.success@)),
    decreases plan.steps@.len() - k,
{
    let n = plan.steps@.len();
    let os = successes((n - k) as nat);
    assert(os[0] == Ok::<(), Seq<char>>(()));
    assert(os.drop_first() =~= successes((n - k - 1) as nat));
    let next = advance_spec(plan, k, false, os[0]);
    if k + 1 < n {
        assert(next == ProgressView::Running { step: (k + 1) as usize, fallback: false });
        lemma_successes_to_end(plan, (k + 1) as usize);
    } else {
        assert(next == ProgressView::Finished(Ok::<Seq<char>, Seq<char>>(plan.success@)));
        assert(os.drop_first().len() == 0);
    }
}

proof fn lemma_successes_then_failure(plan: InstallPlan, k: usize, m: nat, e: Seq<char>)
    requires
        k + m < plan.steps@.len() <= usize::MAX,
        plan.steps@[k + m].fallback is None,
    ensures
        drive_spec(
            plan,
            ProgressView::Running { step: k, fallback: false },
            successes(m).push(Err(e)),
        ) == ProgressView::Finished(Err::<Seq<char>, Seq<char>>(e)),
    decreases m,
{
    let os = successes(m).push(Err(e));
    if m == 0 {
        assert(os =~= seq![Err::<(), Seq<char>>(e)]);
        assert(os.drop_first().len() == 0);
        let done = ProgressView::Finished(Err::<Seq<char>, Seq<char>>(e));
        assert(advance_spec(plan, k, false, os[0]) == done);
        assert(drive_spec(plan, done, os.drop_first()) == done);
    } else {
        assert(os[0] == Ok::<(), Seq<char>>(()));
        assert(os.drop_first() =~= successes((m - 1) as nat).push(Err(e)));
        assert(advance_spec(plan, k, false, os[0]) == ProgressView::Running {
            step: (k + 1) as usize,
            fallback: false,
        });
        lemma_successes_then_failure(plan, (k + 1) as usize, (m - 1) as nat, e);
    }
}

/// A run of an installation plan reports its success message when every
/// command succeeded.
pub proof fn lemma_all_steps_succeed(plan: InstallPlan)
    requires
        plan.steps@.len() <= usize::MAX,
    ensures
        drive_spec(plan, start_spec(plan), successes(plan.steps@.len())) == ProgressView::Finished(
            Ok::<Seq<char>, Seq<char>>(plan.success@),
        ),
{
    if plan.steps@.len() > 0 {
        lemma_successes_to_end(plan, 0);
    } else {
        assert(successes(0).len() == 0);
    }
}

/// When a command without a fallback fails, the run stops there and
/// reports that failure: no later command runs.
pub proof fn lemma_first_failure_stops(plan: InstallPlan, m: nat, e: Seq<char>)
    requires
        m < plan.steps@.len() <= usize::MAX,
        plan.steps@[m as int].fallback is None,
    ensures
        drive_spec(plan, start_spec(plan), successes(m).push(Err(e))) == ProgressView::Finished(
            Err::<Seq<char>, Seq<char>>(e),
        ),
{
    lemma_successes_then_failure(plan, 0, m, e);
}

/// The GNOME installer is chosen exactly when the desktop name contains
/// `GNOME`, the XFCE one when it contains `XFCE` but not `GNOME`, and any
/// other desktop gets the manual instructions.
pub proof fn lemma_desktop_choice(label: Seq<char>)
    ensures
        desktop_spec(label) == Desktop::Gnome <==> contains_spec(label, "GNOME"@),
        desktop_spec(label) == Desktop::Xfce <==> (contains_spec(label, "XFCE"@)
            && !contains_spec(label, "GNOME"@)),
        desktop_spec(label) == Desktop::Other <==> (!contains_spec(label, "GNOME"@)
            && !contains_spec(label, "XFCE"@)),
{
}

/// The manual instructions name the desktop right after their opening
/// words (`unknown` when the name is empty), and end with the command to
/// bind.
pub proof fn lemma_manual_names_desktop_and_command(command: Seq<char>, desktop: Seq<char>)
    ensures
        ({
            let t = manual_instructions_spec(command, desktop);
            let p = "Automatic hotkey setup is not supported for your desktop ("@;
            let d = if desktop.len() > 0 {
                desktop
            } else {
                "unknown"@
            };
            &&& t.subrange(p.len() as int, (p.len() + d.len()) as int) == d
            &&& t.subrange(t.len() - command.len(), t.len() as int) == command
        }),
{
    let t = manual_instructions_spec(command, desktop);
    let p = "Automatic hotkey setup is not supported for your desktop ("@;
    let d = if desktop.len() > 0 {
        desktop
    } else {
        "unknown"@
    };
    assert(t.subrange(p.len() as int, (p.len() + d.len()) as int) =~= d);
    assert(t.subrange(t.len() - command.len(), t.len() as int) =~= command);
}
} // verus!
