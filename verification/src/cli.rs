//! Command line and file names: the help switch, the window title, and the
//! name and format the edited image is saved under.

use vstd::prelude::*;

use crate::command::owned;
use crate::text::{to_ascii_upper, to_upper_spec};

verus! {

pub const USAGE: &'static str = "screenshit - screenshot & annotation tool

Usage:
  screenshit             Capture the screen and open the editor
  screenshit <image>     Open an existing image in the editor

Editor shortcuts:
  Ctrl+Z          undo        Ctrl+Shift+Z / Ctrl+Y   redo
  Ctrl+C          copy result to clipboard
  Ctrl+S          save result (file dialog)
  Enter / Esc     apply / cancel crop selection";

/// Some argument asks for help.
pub open spec fn wants_help_spec(args: Seq<Seq<char>>) -> bool {
    exists|i: int| 0 <= i < args.len() && (#[trigger] args[i] == "-h"@ || args[i] == "--help"@)
}

/// Whether the arguments (after the program name) ask for the usage text.
pub fn wants_help(args: &Vec<String>) -> (b: bool)
    ensures
        b == wants_help_spec(args@.map_values(|s: String| s@)),
{
    let ghost views = args@.map_values(|s: String| s@);
    let short = owned("-h");
    let long = owned("--help");
    let mut i: usize = 0;
    while i < args.len()
        invariant
            i <= args.len(),
            views == args@.map_values(|s: String| s@),
            short@ == "-h"@,
            long@ == "--help"@,
            forall|k: int| 0 <= k < i ==> views[k] != "-h"@ && views[k] != "--help"@,
        decreases args.len() - i,
    {
        if args[i] == short || args[i] == long {
            assert(views[i as int] == args@[i as int]@);
            return true;
        }
        i += 1;
    }
    false
}

/// The window title: the name of the opened file, or that the picture is a
/// screenshot (`None`).
pub fn window_title(file_name: Option<&str>) -> (title: String)
    ensures
        title@ == (match file_name {
            Some(n) => "screenshit — "@ + n@,
            None => "screenshit — screenshot"@,
        }),
{
    match file_name {
        Some(n) => {
            let mut t = owned("screenshit — ");
            t.append(n);
            t
        },
        None => owned("screenshit — screenshot"),
    }
}


/// The file name the save dialog proposes. `source` is `None` for a fresh
/// screenshot; for an opened file it holds the file's stem, if it has one.
pub open spec fn default_save_name_spec(source: Option<Option<Seq<char>>>) -> Seq<char> {
    match source {
        Some(stem) => match stem {
            Some(s) => s + "-edited.png"@,
            None => "image"@ + "-edited.png"@,
        },
        None => "screenshot.png"@,
    }
}

pub fn default_save_name(source: Option<Option<&str>>) -> (name: String)
    ensures
        name@ == default_save_name_spec(match source {
            Some(stem) => Some(match stem {
                Some(s) => Some(s@),
                None => None,
            }),
            None => None,
        }),
{
    match source {
        Some(stem) => {
            let mut n = match stem {
                Some(s) => owned(s),
                None => owned("image"),
            };
            n.append("-edited.png");
            n
        },
        None => owned("screenshot.png"),
    }
}

/// A file extension that means JPEG, in any ASCII case.
pub open spec fn is_jpeg_spec(ext: Option<Seq<char>>) -> bool {
    match ext {
        Some(e) => to_upper_spec(e) == "JPG"@ || to_upper_spec(e) == "JPEG"@,
        None => false,
    }
}

/// Whether a file with extension `ext` is saved as JPEG (which has no alpha
/// channel, so the image is converted to RGB first).
pub fn is_jpeg_extension(ext: Option<&str>) -> (b: bool)
    ensures
        b == is_jpeg_spec(match ext {
            Some(e) => Some(e@),
            None => None,
        }),
{
    match ext {
        Some(e) => {
            let u = to_ascii_upper(e);
            u == owned("JPG") || u == owned("JPEG")
        },
        None => false,
    }
}


proof fn lemma_upper_idempotent(e: Seq<char>)
    ensures
        to_upper_spec(to_upper_spec(e)) == to_upper_spec(e),
{
    assert forall|i: int| 0 <= i < e.len() implies crate::text::upper_char(
        crate::text::upper_char(#[trigger] e[i]),
    ) == crate::text::upper_char(e[i]) by {
        let c = e[i];
        if 'a' <= c && c <= 'z' {
            let u = ((c as int) - 32) as char;
            assert(u as int == (c as int) - 32);
            assert(!('a' <= u && u <= 'z'));
        }
    }
    assert(to_upper_spec(to_upper_spec(e)) =~= to_upper_spec(e));
}

/// The JPEG decision ignores ASCII case: an extension and its upper-case
/// form get the same answer. `jpg` and `jpeg` are JPEG in lower and upper
/// case, and a missing extension is not.
pub proof fn lemma_jpeg_ignores_case(e: Seq<char>)
    ensures
        is_jpeg_spec(Some(e)) == is_jpeg_spec(Some(to_upper_spec(e))),
        is_jpeg_spec(Some("jpg"@)),
        is_jpeg_spec(Some("JPG"@)),
        is_jpeg_spec(Some("jpeg"@)),
        is_jpeg_spec(Some("JPEG"@)),
        !is_jpeg_spec(None),
        !is_jpeg_spec(Some("png"@)),
{
    lemma_upper_idempotent(e);
    reveal_strlit("jpg");
    reveal_strlit("JPG");
    reveal_strlit("jpeg");
    reveal_strlit("JPEG");
    reveal_strlit("png");
    assert(to_upper_spec("jpg"@) =~= "JPG"@);
    assert(to_upper_spec("JPG"@) =~= "JPG"@);
    assert(to_upper_spec("jpeg"@) =~= "JPEG"@);
    assert(to_upper_spec("JPEG"@) =~= "JPEG"@);
    assert(to_upper_spec("png"@).len() == 3);
    assert(to_upper_spec("png"@)[0] == 'P');
    assert(to_upper_spec("png"@) != "JPG"@);
}

/// The help switch is found wherever it stands among the arguments: adding
/// arguments never hides it, and a single argument asks for help exactly
/// when it is `-h` or `--help`.
pub proof fn lemma_help_anywhere(args: Seq<Seq<char>>, more: Seq<Seq<char>>, s: Seq<char>)
    ensures
        wants_help_spec(args) ==> wants_help_spec(args + more),
        wants_help_spec(more) ==> wants_help_spec(args + more),
        wants_help_spec(seq![s]) <==> (s == "-h"@ || s == "--help"@),
        !wants_help_spec(Seq::<Seq<char>>::empty()),
{
    let all = args + more;
    if wants_help_spec(args) {
        let i = choose|i: int| 0 <= i < args.len() && (#[trigger] args[i] == "-h"@ || args[i] == "--help"@);
        assert(all[i] == args[i]);
    }
    if wants_help_spec(more) {
        let i = choose|i: int| 0 <= i < more.len() && (#[trigger] more[i] == "-h"@ || more[i] == "--help"@);
        assert(all[args.len() + i] == more[i]);
    }
    if s == "-h"@ || s == "--help"@ {
        assert(seq![s][0] == s);
    }
}

/// The proposed file name is a PNG: an opened file keeps its stem with
/// `-edited` added, a file without a stem is named like `image`, and a
/// screenshot gets its own name.
pub proof fn lemma_save_name(stem: Seq<char>)
    ensures
        default_save_name_spec(Some(Some(stem))).subrange(0, stem.len() as int) == stem,
        default_save_name_spec(Some(Some(stem))).len() == stem.len() + 11,
        default_save_name_spec(Some(None)) == default_save_name_spec(Some(Some("image"@))),
{
    reveal_strlit("-edited.png");
    let n = default_save_name_spec(Some(Some(stem)));
    assert(n.subrange(0, stem.len() as int) =~= stem);
}
} // verus!
