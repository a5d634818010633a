//! Vector path descriptions: move and line commands, and their exact
//! string form.

use vstd::prelude::*;
use vstd::string::StringExecFns;
use crate::decimal::dec_int;
use crate::decimal::i32_dec_str;

verus! {

/// One command of a vector path.
#[derive(Clone, Copy, Debug, PartialEq, Eq, Structural)]
pub enum PathCmd {
    /// Start a new subpath at a pixel position
    Move(i32, i32),
    /// Draw a line to a pixel position
    Line(i32, i32),
}

/// The text of one path command: a move starts with `M`, a line is a bare
/// coordinate pair continuing the current subpath.
pub open spec fn cmd_chars(c: PathCmd) -> Seq<char> {
    match c {
        PathCmd::Move(x, y) => "M"@ + dec_int(x as int) + " "@ + dec_int(y as int),
        PathCmd::Line(x, y) => " "@ + dec_int(x as int) + " "@ + dec_int(y as int),
    }
}

/// The text of a whole path: its commands' texts in order.
pub open spec fn path_chars(s: Seq<PathCmd>) -> Seq<char>
    decreases s.len(),
{
    if s.len() == 0 {
        Seq::empty()
    } else {
        path_chars(s.drop_last()) + cmd_chars(s.last())
    }
}

/// Number of move commands in a path.
pub open spec fn move_count(s: Seq<PathCmd>) -> int {
    s.filter(|c: PathCmd| c is Move).len() as int
}

/// Number of line commands in a path.
pub open spec fn line_count(s: Seq<PathCmd>) -> int {
    s.filter(|c: PathCmd| c is Line).len() as int
}

/// Render a path as its exact text.
pub fn path_d(cmds: &Vec<PathCmd>) -> (r: String)
    ensures
        r@ == path_chars(cmds@),
{
    proof {
        reveal_strlit("");
        assert(cmds@.subrange(0, 0) =~= Seq::<PathCmd>::empty());
    }
    let mut s = "".to_owned();
    let mut i: usize = 0;
    while i < cmds.len()
        invariant
            i <= cmds@.len(),
            s@ == path_chars(cmds@.subrange(0, i as int)),
        decreases cmds@.len() - i,
    {
        let (m, x, y) = match cmds[i] {
            PathCmd::Move(x, y) => (true, x, y),
            PathCmd::Line(x, y) => (false, x, y),
        };
        if m {
            s.append("M");
        } else {
            s.append(" ");
        }
        let xs = i32_dec_str(x);
        s.append(xs.as_str());
        s.append(" ");
        let ys = i32_dec_str(y);
        s.append(ys.as_str());
        proof {
            assert(cmds@.subrange(0, i as int + 1).drop_last() =~= cmds@.subrange(0, i as int));
            assert(cmds@.subrange(0, i as int + 1).last() == cmds@[i as int]);
            assert(s@ =~= path_chars(cmds@.subrange(0, i as int + 1)));
        }
        i = i + 1;
    }
    proof {
        assert(cmds@.subrange(0, cmds@.len() as int) =~= cmds@);
    }
    s
}

} // verus!
