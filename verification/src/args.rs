//! Removing the tool's own flags from an argument list before it is handed
//! to the build tool, which does not know them.

use vstd::prelude::*;
use crate::error::Error;
use crate::text::texts;

verus! {

/// The flag that names the product id.
pub open spec fn pid_flag() -> Seq<char> {
    "--pid"@
}

/// The flag that names the vendor id.
pub open spec fn vid_flag() -> Seq<char> {
    "--vid"@
}

/// Whether `arg` is one of the tool's own flags. Each takes exactly one
/// value, the argument that follows it.
pub open spec fn is_tool_flag(arg: Seq<char>) -> bool {
    arg == pid_flag() || arg == vid_flag()
}

/// The arguments that are handed on: `args` without each tool flag and the
/// value after it, everything else in its place. `None` where a tool flag is
/// the last argument and so has no value.
pub open spec fn forwarded(args: Seq<Seq<char>>) -> Option<Seq<Seq<char>>>
    decreases args.len(),
{
    if args.len() == 0 {
        Some(Seq::empty())
    } else if is_tool_flag(args[0]) {
        if args.len() < 2 {
            None
        } else {
            forwarded(args.skip(2))
        }
    } else {
        match forwarded(args.skip(1)) {
            Some(rest) => Some(seq![args[0]] + rest),
            None => None,
        }
    }
}

/// Whether no argument of `args` is a tool flag.
pub open spec fn flag_free(args: Seq<Seq<char>>) -> bool {
    forall|i: int| 0 <= i < args.len() ==> !is_tool_flag(#[trigger] args[i])
}

/// What is handed on holds no tool flag.
pub proof fn lemma_forwarded_flag_free(args: Seq<Seq<char>>)
    requires
        forwarded(args) is Some,
    ensures
        flag_free(forwarded(args).unwrap()),
    decreases args.len(),
{
    if args.len() == 0 {
    } else if is_tool_flag(args[0]) {
        lemma_forwarded_flag_free(args.skip(2));
    } else {
        lemma_forwarded_flag_free(args.skip(1));
    }
}

/// A list without tool flags is handed on as it is.
pub proof fn lemma_flag_free_unchanged(args: Seq<Seq<char>>)
    requires
        flag_free(args),
    ensures
        forwarded(args) == Some(args),
    decreases args.len(),
{
    if args.len() > 0 {
        let rest = args.skip(1);
        assert forall|i: int| 0 <= i < rest.len() implies !is_tool_flag(#[trigger] rest[i]) by {
            assert(rest[i] == args[i + 1]);
        }
        lemma_flag_free_unchanged(rest);
        assert(seq![args[0]] + rest =~= args);
    }
}

/// Filtering is idempotent: filtering what was handed on changes nothing.
pub proof fn lemma_forwarded_idempotent(args: Seq<Seq<char>>)
    requires
        forwarded(args) is Some,
    ensures
        forwarded(forwarded(args).unwrap()) == forwarded(args),
{
    lemma_forwarded_flag_free(args);
    lemma_flag_free_unchanged(forwarded(args).unwrap());
}

/// Decides [`is_tool_flag`].
pub fn tool_flag(arg: &str) -> (yes: bool)
    ensures
        yes == is_tool_flag(arg@),
{
    let n: usize = arg.unicode_len();
    proof {
        reveal_strlit("--pid");
        reveal_strlit("--vid");
    }
    if n != 5 {
        return false;
    }
    let c0 = arg.get_char(0);
    let c1 = arg.get_char(1);
    let c2 = arg.get_char(2);
    let c3 = arg.get_char(3);
    let c4 = arg.get_char(4);
    let tail = c0 == '-' && c1 == '-' && c3 == 'i' && c4 == 'd';
    let yes = tail && (c2 == 'p' || c2 == 'v');
    proof {
        if yes {
            if c2 == 'p' {
                assert(arg@ =~= pid_flag());
            } else {
                assert(arg@ =~= vid_flag());
            }
        }
    }
    yes
}

/// Strips the tool's own flags, each with its value, from `args`, and keeps
/// every other argument in its place. A tool flag that is the last argument
/// has no value: the list is refused with [`Error::MalformedArguments`].
pub fn filter_args(args: &Vec<String>) -> (kept: Result<Vec<String>, Error>)
    ensures
        match kept {
            Ok(list) => forwarded(texts(args@)) == Some(texts(list@)),
            Err(e) => e == Error::MalformedArguments && forwarded(texts(args@)) is None,
        },
{
    let ghost all = texts(args@);
    let mut kept: Vec<String> = Vec::new();
    let mut i: usize = 0;
    assert(all.skip(0) =~= all);
    assert(texts(kept@) + forwarded(all).unwrap() =~= forwarded(all).unwrap());
    while i < args.len()
        invariant
            i <= args.len(),
            all == texts(args@),
            forwarded(all) == match forwarded(all.skip(i as int)) {
                Some(rest) => Some(texts(kept@) + rest),
                None => None,
            },
        decreases args.len() - i,
    {
        let ghost here = all.skip(i as int);
        assert(here[0] == args[i as int]@);
        if tool_flag(args[i].as_str()) {
            if args.len() - i < 2 {
                return Err(Error::MalformedArguments);
            }
            assert(here.skip(2) =~= all.skip(i + 2));
            i = i + 2;
        } else {
            let ghost before = texts(kept@);
            kept.push(args[i].clone());
            assert(texts(kept@) =~= before.push(args[i as int]@));
            assert(here.skip(1) =~= all.skip(i + 1));
            assert forall|rest: Seq<Seq<char>>|
                before + (seq![here[0]] + rest) =~= #[trigger] (texts(kept@) + rest) by {}
            i = i + 1;
        }
    }
    assert(all.skip(i as int).len() == 0);
    assert(texts(kept@) + Seq::<Seq<char>>::empty() =~= texts(kept@));
    Ok(kept)
}

} // verus!
