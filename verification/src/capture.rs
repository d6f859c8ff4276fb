//! Screen capture on Linux, where no single API works across X11 and every
//! Wayland compositor: the native screenshot tools to try, most
//! desktop-integrated first, and the message when none of them works.
//! Running the tools and reading the file they write is left to the caller.

use vstd::prelude::*;

use crate::command::{invocation, owned, seq_views, Invocation};

verus! {

/// The tools that write a full-screen capture to `path`, in the order to
/// try them: GNOME's and KDE's first, then `grim` on Wayland, or `maim`,
/// `scrot` and ImageMagick's `import` on X11.
pub open spec fn screenshot_tools_spec(path: Seq<char>, wayland: bool) -> Seq<(Seq<char>, Seq<Seq<char>>)> {
    seq![("gnome-screenshot"@, seq!["-f"@, path]), ("spectacle"@, seq!["-b"@, "-n"@, "-o"@, path])] + if wayland {
        seq![("grim"@, seq![path])]
    } else {
        seq![
            ("maim"@, seq![path]),
            ("scrot"@, seq!["-o"@, path]),
            ("import"@, seq!["-window"@, "root"@, path]),
        ]
    }
}

/// The program names of `tools`, separated by `, `.
pub open spec fn names_spec(tools: Seq<(Seq<char>, Seq<Seq<char>>)>) -> Seq<char>
    decreases tools.len(),
{
    if tools.len() == 0 {
        Seq::empty()
    } else if tools.len() == 1 {
        tools[0].0
    } else {
        names_spec(tools.drop_last()) + ", "@ + tools.last().0
    }
}

pub open spec fn no_tool_message_spec(tools: Seq<(Seq<char>, Seq<Seq<char>>)>) -> Seq<char> {
    "no working screenshot tool found (tried: "@ + names_spec(tools)
        + ").\nInstall one of them, or pass an image path:  screenshit <image>"@
}

pub open spec fn invocation_views(v: Seq<Invocation>) -> Seq<(Seq<char>, Seq<Seq<char>>)> {
    v.map_values(|i: Invocation| i@)
}

fn args1(a: &str) -> (v: Vec<String>)
    ensures
        seq_views(v@) == seq![a@],
{
    let mut v: Vec<String> = Vec::new();
    v.push(owned(a));
    assert(seq_views(v@) =~= seq![a@]);
    v
}

fn args2(a: &str, b: &str) -> (v: Vec<String>)
    ensures
        seq_views(v@) == seq![a@, b@],
{
    let mut v: Vec<String> = Vec::new();
    v.push(owned(a));
    v.push(owned(b));
    assert(seq_views(v@) =~= seq![a@, b@]);
    v
}

fn args3(a: &str, b: &str, c: &str) -> (v: Vec<String>)
    ensures
        seq_views(v@) == seq![a@, b@, c@],
{
    let mut v: Vec<String> = Vec::new();
    v.push(owned(a));
    v.push(owned(b));
    v.push(owned(c));
    assert(seq_views(v@) =~= seq![a@, b@, c@]);
    v
}

/// The screenshot tools to try for a capture written to `path`.
pub fn screenshot_tools(path: &str, wayland: bool) -> (tools: Vec<Invocation>)
    ensures
        invocation_views(tools@) == screenshot_tools_spec(path@, wayland),
{
    let gnome = invocation("gnome-screenshot", args2("-f", path));
    let mut spectacle_args = args3("-b", "-n", "-o");
    let ghost before = spectacle_args@;
    spectacle_args.push(owned(path));
    assert(seq_views(spectacle_args@) =~= seq_views(before).push(path@));
    let spectacle = invocation("spectacle", spectacle_args);
    let ghost g = gnome@;
    let ghost sp = spectacle@;
    let mut tools: Vec<Invocation> = Vec::new();
    tools.push(gnome);
    tools.push(spectacle);
    if wayland {
        let grim = invocation("grim", args1(path));
        let ghost gr = grim@;
        tools.push(grim);
        assert(invocation_views(tools@) =~= seq![g, sp, gr]);
        assert(g == ("gnome-screenshot"@, seq!["-f"@, path@]));
        assert(sp == ("spectacle"@, seq!["-b"@, "-n"@, "-o"@, path@]));
        assert(gr == ("grim"@, seq![path@]));
        assert(screenshot_tools_spec(path@, wayland) =~= seq![g, sp, gr]);
    } else {
        let maim = invocation("maim", args1(path));
        let scrot = invocation("scrot", args2("-o", path));
        let import = invocation("import", args3("-window", "root", path));
        let ghost (m, sc, im) = (maim@, scrot@, import@);
        tools.push(maim);
        tools.push(scrot);
        tools.push(import);
        assert(invocation_views(tools@) =~= seq![g, sp, m, sc, im]);
        assert(g == ("gnome-screenshot"@, seq!["-f"@, path@]));
        assert(sp == ("spectacle"@, seq!["-b"@, "-n"@, "-o"@, path@]));
        assert(m == ("maim"@, seq![path@]));
        assert(sc == ("scrot"@, seq!["-o"@, path@]));
        assert(im == ("import"@, seq!["-window"@, "root"@, path@]));
        assert(screenshot_tools_spec(path@, wayland) =~= seq![g, sp, m, sc, im]);
    }
    assert(invocation_views(tools@) =~= screenshot_tools_spec(path@, wayland));
    tools
}

/// The error when every tool in `tools` failed.
pub fn no_tool_message(tools: &Vec<Invocation>) -> (msg: String)
    ensures
        msg@ == no_tool_message_spec(invocation_views(tools@)),
{
    let ghost ts = invocation_views(tools@);
    let mut msg = owned("no working screenshot tool found (tried: ");
    let ghost head = msg@;
    let mut i: usize = 0;
    assert(ts.take(0) =~= Seq::<(Seq<char>, Seq<Seq<char>>)>::empty());
    assert(msg@ =~= head + names_spec(ts.take(0)));
    while i < tools.len()
        invariant
            i <= tools.len(),
            ts == invocation_views(tools@),
            msg@ == head + names_spec(ts.take(i as int)),
        decreases tools.len() - i,
    {
        if i > 0 {
            msg.append(", ");
        }
        msg.append(tools[i].program.as_str());
        proof {
            assert(ts.take(i + 1).drop_last() =~= ts.take(i as int));
            if i == 0 {
                assert(msg@ =~= head + names_spec(ts.take(1)));
            } else {
                assert(msg@ =~= head + names_spec(ts.take(i + 1)));
            }
        }
        i += 1;
    }
    msg.append(").\nInstall one of them, or pass an image path:  screenshit <image>");
    assert(ts.take(tools.len() as int) =~= ts);
    msg
}


/// What to do next in a capture.
pub enum CaptureStep {
    /// Run tool `i`.
    Try(usize),
    /// Tool `i` succeeded and wrote the file: load it.
    Load(usize),
    /// No tool worked: fail with this message.
    GiveUp(String),
}

pub enum CaptureStepView {
    Try(usize),
    Load(usize),
    GiveUp(Seq<char>),
}

impl View for CaptureStep {
    type V = CaptureStepView;

    open spec fn view(&self) -> CaptureStepView {
        match self {
            CaptureStep::Try(i) => CaptureStepView::Try(*i),
            CaptureStep::Load(i) => CaptureStepView::Load(*i),
            CaptureStep::GiveUp(m) => CaptureStepView::GiveUp(m@),
        }
    }
}

/// The first step of a capture: try the first tool.
pub fn capture_start(tools: &Vec<Invocation>) -> (s: CaptureStep)
    ensures
        s@ == (if tools@.len() == 0 {
            CaptureStepView::GiveUp(no_tool_message_spec(invocation_views(tools@)))
        } else {
            CaptureStepView::Try(0)
        }),
{
    if tools.len() == 0 {
        CaptureStep::GiveUp(no_tool_message(tools))
    } else {
        CaptureStep::Try(0)
    }
}

/// The step after running tool `i` of `tools`.
pub open spec fn capture_after_spec(
    tools: Seq<(Seq<char>, Seq<Seq<char>>)>,
    i: usize,
    produced: bool,
) -> CaptureStepView {
    if produced {
        CaptureStepView::Load(i)
    } else if i + 1 < tools.len() {
        CaptureStepView::Try((i + 1) as usize)
    } else {
        CaptureStepView::GiveUp(no_tool_message_spec(tools))
    }
}

/// The step after running tool `i`: `produced` tells whether it exited
/// successfully and the file exists. The first tool that produces the file
/// wins; when the last one fails too, the capture fails with the list of
/// every tool tried.
pub fn capture_after(tools: &Vec<Invocation>, i: usize, produced: bool) -> (s: CaptureStep)
    requires
        i < tools@.len(),
    ensures
        s@ == capture_after_spec(invocation_views(tools@), i, produced),
{
    if produced {
        CaptureStep::Load(i)
    } else if i < tools.len() - 1 {
        CaptureStep::Try(i + 1)
    } else {
        CaptureStep::GiveUp(no_tool_message(tools))
    }
}

/// Every screenshot tool writes to the given path (it is each tool's last
/// argument); Wayland gets three tools, X11 five, and the first two are
/// always GNOME's and KDE's.
pub proof fn lemma_tools_write_path(path: Seq<char>, wayland: bool)
    ensures
        forall|i: int|
            0 <= i < screenshot_tools_spec(path, wayland).len() ==> (#[trigger] screenshot_tools_spec(
                path,
                wayland,
            )[i]).1.last() == path,
        screenshot_tools_spec(path, wayland).len() == (if wayland {
            3int
        } else {
            5int
        }),
        screenshot_tools_spec(path, wayland)[0].0 == "gnome-screenshot"@,
        screenshot_tools_spec(path, wayland)[1].0 == "spectacle"@,
{
}

/// Where a capture stands after the tools from `pos` on reported `results`
/// (whether each produced the file), one after another.
pub open spec fn capture_drive_spec(
    tools: Seq<(Seq<char>, Seq<Seq<char>>)>,
    pos: CaptureStepView,
    results: Seq<bool>,
) -> CaptureStepView
    decreases results.len(),
{
    if results.len() == 0 {
        pos
    } else {
        match pos {
            CaptureStepView::Try(i) => capture_drive_spec(
                tools,
                capture_after_spec(tools, i, results[0]),
                results.drop_first(),
            ),
            _ => pos,
        }
    }
}

/// `m` tools that failed.
pub open spec fn failures(m: nat) -> Seq<bool> {
    Seq::new(m, |i: int| false)
}

proof fn lemma_fail_then_produce(tools: Seq<(Seq<char>, Seq<Seq<char>>)>, i: usize, m: nat)
    requires
        i + m < tools.len() <= usize::MAX,
    ensures
        capture_drive_spec(tools, CaptureStepView::Try(i), failures(m).push(true))
            == CaptureStepView::Load((i + m) as usize),
    decreases m,
{
    let rs = failures(m).push(true);
    if m == 0 {
        assert(rs =~= seq![true]);
        let done = CaptureStepView::Load(i);
        assert(capture_after_spec(tools, i, rs[0]) == done);
        assert(rs.drop_first().len() == 0);
        assert(capture_drive_spec(tools, done, rs.drop_first()) == done);
    } else {
        assert(rs[0] == false);
        assert(rs.drop_first() =~= failures((m - 1) as nat).push(true));
        assert(capture_after_spec(tools, i, rs[0]) == CaptureStepView::Try((i + 1) as usize));
        lemma_fail_then_produce(tools, (i + 1) as usize, (m - 1) as nat);
    }
}

proof fn lemma_all_fail_from(tools: Seq<(Seq<char>, Seq<Seq<char>>)>, i: usize)
    requires
        i < tools.len() <= usize::MAX,
    ensures
        capture_drive_spec(tools, CaptureStepView::Try(i), failures((tools.len() - i) as nat))
            == CaptureStepView::GiveUp(no_tool_message_spec(tools)),
    decreases tools.len() - i,
{
    let rs = failures((tools.len() - i) as nat);
    assert(rs[0] == false);
    assert(rs.drop_first() =~= failures((tools.len() - i - 1) as nat));
    if i + 1 < tools.len() {
        assert(capture_after_spec(tools, i, rs[0]) == CaptureStepView::Try((i + 1) as usize));
        lemma_all_fail_from(tools, (i + 1) as usize);
    } else {
        let done = CaptureStepView::GiveUp(no_tool_message_spec(tools));
        assert(capture_after_spec(tools, i, rs[0]) == done);
        assert(rs.drop_first().len() == 0);
        assert(capture_drive_spec(tools, done, rs.drop_first()) == done);
    }
}

/// The first tool that produces the file is the one whose capture is
/// loaded: after `m` failures, a success loads tool `m`.
pub proof fn lemma_first_working_tool_wins(tools: Seq<(Seq<char>, Seq<Seq<char>>)>, m: nat)
    requires
        m < tools.len() <= usize::MAX,
    ensures
        capture_drive_spec(tools, CaptureStepView::Try(0), failures(m).push(true))
            == CaptureStepView::Load(m as usize),
{
    lemma_fail_then_produce(tools, 0, m);
}

/// When every tool fails, the capture fails with the message that lists
/// all of them.
pub proof fn lemma_all_tools_fail(tools: Seq<(Seq<char>, Seq<Seq<char>>)>)
    requires
        0 < tools.len() <= usize::MAX,
    ensures
        capture_drive_spec(tools, CaptureStepView::Try(0), failures(tools.len()))
            == CaptureStepView::GiveUp(no_tool_message_spec(tools)),
{
    lemma_all_fail_from(tools, 0);
}
} // verus!
