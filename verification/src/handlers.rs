//! The decision side of each command handler: argument-count checks,
//! existence pre-checks, the `rm` flag policy and the pieces of output
//! that only depend on plain values. The filesystem calls themselves are
//! performed by the surrounding program on the strength of these results.

use vstd::prelude::*;
use vstd::string::StringExecFns;
use crate::error::ShellError;
use crate::text::str_eq;
use crate::text::joined_with_spaces;
use crate::text::join_spaces;

verus! {

/// The target that `cd` resolves to: the first argument when one is given
/// and non-empty, otherwise the home directory; with neither available the
/// command fails with `InvalidArgument`.
pub fn cd_target(args: &Vec<String>, home: &Option<String>) -> (r: Result<String, ShellError>)
    ensures
        ({
            let dv = args.deep_view();
            let wants_home = dv.len() == 0 || dv[0].len() == 0;
            &&& (wants_home && home is None) ==> (r matches Err(e) && e matches
                ShellError::InvalidArgument(m) && m@ == "Home directory not found"@)
            &&& home matches Some(h) ==> (wants_home ==> (r matches Ok(t) && t@ == h@))
            &&& !wants_home ==> (r matches Ok(t) && t@ == dv[0])
        }),
{
    if args.len() == 0 || args[0].as_str().is_empty() {
        match home {
            Some(h) => Ok(h.clone()),
            None => Err(ShellError::InvalidArgument("Home directory not found".to_owned())),
        }
    } else {
        Ok(args[0].clone())
    }
}

/// Turns the result of an existence pre-check into the handler's answer:
/// a missing path is reported as `FileNotFound` carrying that path, and
/// nothing else is reported here.
pub fn require_exists(path: &String, exists: bool) -> (r: Result<(), ShellError>)
    ensures
        exists ==> r is Ok,
        !exists ==> (r matches Err(e) && e matches ShellError::FileNotFound(p) && p@ == path@),
{
    if exists {
        Ok(())
    } else {
        Err(ShellError::FileNotFound(path.clone()))
    }
}

/// `cat` requires at least one file argument.
pub fn cat_check(args: &Vec<String>) -> (r: Result<(), ShellError>)
    ensures
        args.deep_view().len() == 0 ==> (r matches Err(e) && e matches
            ShellError::MissingArguments(m) && m@ == "file"@),
        args.deep_view().len() > 0 ==> r is Ok,
{
    if args.len() == 0 {
        Err(ShellError::MissingArguments("file".to_owned()))
    } else {
        Ok(())
    }
}

/// `cat` refuses a path that is a directory before reading anything from
/// it, so no partial content is ever printed for such a path.
pub fn cat_entry_check(path: &String, is_dir: bool) -> (r: Result<(), ShellError>)
    ensures
        is_dir ==> (r matches Err(e) && e matches ShellError::IsDirectory(p) && p@ == path@),
        !is_dir ==> r is Ok,
{
    if is_dir {
        Err(ShellError::IsDirectory(path.clone()))
    } else {
        Ok(())
    }
}

/// `mkdir` requires at least one directory name.
pub fn mkdir_check(args: &Vec<String>) -> (r: Result<(), ShellError>)
    ensures
        args.deep_view().len() == 0 ==> (r matches Err(e) && e matches
            ShellError::MissingArguments(m) && m@ == "directory name"@),
        args.deep_view().len() > 0 ==> r is Ok,
{
    if args.len() == 0 {
        Err(ShellError::MissingArguments("directory name".to_owned()))
    } else {
        Ok(())
    }
}

/// `touch` requires at least one file name.
pub fn touch_check(args: &Vec<String>) -> (r: Result<(), ShellError>)
    ensures
        args.deep_view().len() == 0 ==> (r matches Err(e) && e matches
            ShellError::MissingArguments(m) && m@ == "file name"@),
        args.deep_view().len() > 0 ==> r is Ok,
{
    if args.len() == 0 {
        Err(ShellError::MissingArguments("file name".to_owned()))
    } else {
        Ok(())
    }
}

/// The arguments of `rm` that name targets: every argument except the
/// literal `-r` flag, in their original order.
pub open spec fn non_flag_args(args: Seq<Seq<char>>) -> Seq<Seq<char>>
    decreases args.len(),
{
    if args.len() == 0 {
        Seq::empty()
    } else if args.last() == "-r"@ {
        non_flag_args(args.drop_last())
    } else {
        non_flag_args(args.drop_last()).push(args.last())
    }
}

/// What `rm` decided to do: which paths to delete, and whether directories
/// among them may be removed recursively.
pub struct RmPlan {
    /// The paths to delete, in argument order; never contains `-r`.
    pub targets: Vec<String>,
    /// Whether `-r` stood anywhere among the arguments.
    pub recursive: bool,
}

/// Reads the argument list of `rm`: `-r` anywhere among the arguments is
/// the recursive flag and never a target path; all other arguments are the
/// targets, in order. With no target at all the command fails with
/// `MissingArguments`.
pub fn rm_plan(args: &Vec<String>) -> (r: Result<RmPlan, ShellError>)
    ensures
        ({
            let dv = args.deep_view();
            &&& non_flag_args(dv).len() == 0 ==> (r matches Err(e) && e matches
                ShellError::MissingArguments(m) && m@ == "file or directory"@)
            &&& non_flag_args(dv).len() > 0 ==> (r matches Ok(p) && p.targets.deep_view()
                == non_flag_args(dv) && p.recursive == dv.contains("-r"@))
        }),
{
    let ghost dv = args.deep_view();
    let mut targets: Vec<String> = Vec::new();
    let mut recursive = false;
    let mut k: usize = 0;
    proof {
        assert(dv.take(0) =~= Seq::<Seq<char>>::empty());
        assert(targets.deep_view() =~= Seq::<Seq<char>>::empty());
    }
    while k < args.len()
        invariant
            k <= args.len(),
            dv == args.deep_view(),
            dv.len() == args.len(),
            forall|t: int| 0 <= t < args.len() ==> dv[t] == args@[t]@,
            targets.deep_view() == non_flag_args(dv.take(k as int)),
            recursive == dv.take(k as int).contains("-r"@),
        decreases args.len() - k,
    {
        let ghost pre = targets.deep_view();
        if str_eq(args[k].as_str(), "-r") {
            recursive = true;
            proof {
                assert(dv.take(k + 1).drop_last() =~= dv.take(k as int));
                assert(dv.take(k + 1)[k as int] == "-r"@);
            }
        } else {
            targets.push(args[k].clone());
            proof {
                assert(dv.take(k + 1).drop_last() =~= dv.take(k as int));
                assert(targets.deep_view() =~= pre.push(dv[k as int]));
                if dv.take(k + 1).contains("-r"@) {
                    let w = choose|w: int|
                        0 <= w < k + 1 && #[trigger] dv.take(k + 1)[w] == "-r"@;
                    assert(dv.take(k as int)[w] == "-r"@);
                } else {
                    assert(!dv.take(k as int).contains("-r"@)) by {
                        if dv.take(k as int).contains("-r"@) {
                            let w = choose|w: int|
                                0 <= w < k && #[trigger] dv.take(k as int)[w] == "-r"@;
                            assert(dv.take(k + 1)[w] == "-r"@);
                        }
                    }
                }
            }
        }
        k += 1;
    }
    proof {
        assert(dv.take(args.len() as int) =~= dv);
    }
    if targets.len() == 0 {
        Err(ShellError::MissingArguments("file or directory".to_owned()))
    } else {
        Ok(RmPlan { targets, recursive })
    }
}

/// The single deletion call that `rm` makes for one target.
#[derive(Clone, Copy, Debug, PartialEq, Eq, Structural)]
pub enum RmAction {
    /// Delete a regular file.
    RemoveFile,
    /// Delete a directory without descending; fails on a non-empty one.
    RemoveDir,
    /// Delete a directory and everything below it.
    RemoveDirAll,
}

/// Picks the deletion call for one existing target: files are removed
/// directly; a directory is removed recursively only when `-r` was given,
/// and otherwise by a non-recursive removal that the filesystem refuses
/// when the directory is not empty.
pub fn rm_action(is_dir: bool, recursive: bool) -> (a: RmAction)
    ensures
        !is_dir ==> a == RmAction::RemoveFile,
        is_dir && recursive ==> a == RmAction::RemoveDirAll,
        is_dir && !recursive ==> a == RmAction::RemoveDir,
{
    if !is_dir {
        RmAction::RemoveFile
    } else if recursive {
        RmAction::RemoveDirAll
    } else {
        RmAction::RemoveDir
    }
}

/// Reads the two required arguments of a command that takes exactly two;
/// with fewer the command fails with `MissingArguments` carrying the given
/// description of what was expected.
fn first_two(args: &Vec<String>, expected: &str) -> (r: Result<(String, String), ShellError>)
    ensures
        args.deep_view().len() < 2 ==> (r matches Err(e) && e matches
            ShellError::MissingArguments(m) && m@ == expected@),
        args.deep_view().len() >= 2 ==> (r matches Ok(p) && p.0@ == args.deep_view()[0] && p.1@
            == args.deep_view()[1]),
{
    if args.len() < 2 {
        Err(ShellError::MissingArguments(expected.to_owned()))
    } else {
        Ok((args[0].clone(), args[1].clone()))
    }
}

/// `cp` requires a source and a destination, in that order.
pub fn cp_args(args: &Vec<String>) -> (r: Result<(String, String), ShellError>)
    ensures
        args.deep_view().len() < 2 ==> (r matches Err(e) && e matches
            ShellError::MissingArguments(m) && m@ == "source and destination"@),
        args.deep_view().len() >= 2 ==> (r matches Ok(p) && p.0@ == args.deep_view()[0] && p.1@
            == args.deep_view()[1]),
{
    first_two(args, "source and destination")
}

/// `mv` requires a source and a destination, in that order.
pub fn mv_args(args: &Vec<String>) -> (r: Result<(String, String), ShellError>)
    ensures
        args.deep_view().len() < 2 ==> (r matches Err(e) && e matches
            ShellError::MissingArguments(m) && m@ == "source and destination"@),
        args.deep_view().len() >= 2 ==> (r matches Ok(p) && p.0@ == args.deep_view()[0] && p.1@
            == args.deep_view()[1]),
{
    first_two(args, "source and destination")
}

/// `grep` requires a pattern and a file, in that order.
pub fn grep_args(args: &Vec<String>) -> (r: Result<(String, String), ShellError>)
    ensures
        args.deep_view().len() < 2 ==> (r matches Err(e) && e matches
            ShellError::MissingArguments(m) && m@ == "pattern and file"@),
        args.deep_view().len() >= 2 ==> (r matches Ok(p) && p.0@ == args.deep_view()[0] && p.1@
            == args.deep_view()[1]),
{
    first_two(args, "pattern and file")
}

/// The path that `ls` lists: its first argument, or the current directory.
pub fn ls_target(args: &Vec<String>) -> (r: String)
    ensures
        args.deep_view().len() > 0 ==> r@ == args.deep_view()[0],
        args.deep_view().len() == 0 ==> r@ == "."@,
{
    if args.len() > 0 {
        args[0].clone()
    } else {
        ".".to_owned()
    }
}

/// The row that `ls` prints: each entry name followed by two spaces.
pub open spec fn entry_row(names: Seq<Seq<char>>) -> Seq<char>
    decreases names.len(),
{
    if names.len() == 0 {
        Seq::empty()
    } else {
        entry_row(names.drop_last()) + names.last() + "  "@
    }
}

/// Renders the entry names of a directory the way `ls` prints them.
pub fn ls_row(names: &Vec<String>) -> (r: String)
    ensures
        r@ == entry_row(names.deep_view()),
{
    let mut r = String::new();
    let ghost dv = names.deep_view();
    let mut k: usize = 0;
    proof {
        assert(dv.take(0) =~= Seq::<Seq<char>>::empty());
    }
    while k < names.len()
        invariant
            k <= names.len(),
            dv == names.deep_view(),
            dv.len() == names.len(),
            forall|t: int| 0 <= t < names.len() ==> dv[t] == names@[t]@,
            r@ == entry_row(dv.take(k as int)),
        decreases names.len() - k,
    {
        r.append(names[k].as_str());
        r.append("  ");
        proof {
            assert(dv.take(k + 1).drop_last() =~= dv.take(k as int));
            assert(r@ =~= entry_row(dv.take(k + 1)));
        }
        k += 1;
    }
    proof {
        assert(dv.take(names.len() as int) =~= dv);
    }
    r
}

/// The line that `echo` prints: its arguments joined by single spaces.
pub fn echo_line(args: &Vec<String>) -> (r: String)
    ensures
        r@ == joined_with_spaces(args.deep_view()),
{
    join_spaces(args)
}

} // verus!
