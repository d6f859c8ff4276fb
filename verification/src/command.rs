//! External commands as plain values: a program and its arguments.

use vstd::prelude::*;

use crate::text::{trim, trim_spec, CharClass};

verus! {

/// The views of a sequence of strings.
pub open spec fn seq_views(v: Seq<String>) -> Seq<Seq<char>> {
    v.map_values(|s: String| s@)
}

/// A program to run with its arguments.
pub struct Invocation {
    pub program: String,
    pub args: Vec<String>,
}

impl View for Invocation {
    type V = (Seq<char>, Seq<Seq<char>>);

    open spec fn view(&self) -> (Seq<char>, Seq<Seq<char>>) {
        (self.program@, seq_views(self.args@))
    }
}

pub fn owned(s: &str) -> (r: String)
    ensures
        r@ == s@,
{
    s.to_owned()
}

pub fn invocation(program: &str, args: Vec<String>) -> (inv: Invocation)
    ensures
        inv@ == (program@, seq_views(args@)),
{
    Invocation { program: owned(program), args }
}

/// The arguments separated by single spaces.
pub open spec fn spaced_spec(args: Seq<Seq<char>>) -> Seq<char>
    decreases args.len(),
{
    if args.len() == 0 {
        Seq::empty()
    } else if args.len() == 1 {
        args[0]
    } else {
        spaced_spec(args.drop_last()) + " "@ + args.last()
    }
}

pub open spec fn failure_message_spec(inv: (Seq<char>, Seq<Seq<char>>), stderr: Seq<char>) -> Seq<char> {
    inv.0 + " "@ + spaced_spec(inv.1) + " failed: "@ + trim_spec(stderr, CharClass::Whitespace)
}

/// The error for a run of `inv` that exited unsuccessfully after printing
/// `stderr`: the command line, then the trimmed error output.
pub fn failure_message(inv: &Invocation, stderr: &str) -> (msg: String)
    ensures
        msg@ == failure_message_spec(inv@, stderr@),
{
    let ghost args = seq_views(inv.args@);
    let mut msg = owned(inv.program.as_str());
    msg.append(" ");
    let ghost head = msg@;
    let mut i: usize = 0;
    assert(args.take(0) =~= Seq::<Seq<char>>::empty());
    assert(msg@ =~= head + spaced_spec(args.take(0)));
    while i < inv.args.len()
        invariant
            i <= inv.args.len(),
            args == seq_views(inv.args@),
            msg@ == head + spaced_spec(args.take(i as int)),
        decreases inv.args.len() - i,
    {
        if i > 0 {
            msg.append(" ");
        }
        msg.append(inv.args[i].as_str());
        proof {
            assert(args.take(i + 1).drop_last() =~= args.take(i as int));
            if i == 0 {
                assert(msg@ =~= head + spaced_spec(args.take(1)));
            } else {
                assert(msg@ =~= head + spaced_spec(args.take(i + 1)));
            }
        }
        i += 1;
    }
    assert(args.take(inv.args.len() as int) =~= args);
    msg.append(" failed: ");
    let t = trim(stderr);
    msg.append(t.as_str());
    msg
}
} // verus!
