use vstd::prelude::*;

use crate::error::FuzzError;
use crate::executor::string_views;

verus! {

/// Copies of `args[from..]`.
fn tail_from(args: &Vec<String>, from: usize) -> (rest: Vec<String>)
    requires
        from <= args@.len(),
    ensures
        string_views(rest@) == string_views(args@.subrange(from as int, args@.len() as int)),
{
    let mut rest: Vec<String> = Vec::new();
    let mut i: usize = from;
    while i < args.len()
        invariant
            from <= i <= args@.len(),
            string_views(rest@) == string_views(args@.subrange(from as int, i as int)),
        decreases args@.len() - i,
    {
        let ghost before = rest@;
        let arg = args[i].clone();
        assert(arg@ == args@[i as int]@);
        rest.push(arg);
        assert(string_views(rest@) =~= string_views(before).push(arg@));
        assert(string_views(args@.subrange(from as int, i + 1)) =~= string_views(
            args@.subrange(from as int, i as int),
        ).push(arg@));
        i = i + 1;
    }
    rest
}

/// Splits a command line `fuzzer <target> [args...]` into the target and
/// its arguments; with no arguments the target reads its input file, `@@`.
pub fn get_args(args: &Vec<String>) -> (r: Result<(String, Vec<String>), FuzzError>)
    ensures
        args@.len() < 2 <==> r == Err::<(String, Vec<String>), FuzzError>(FuzzError::MissingTarget),
        r matches Ok((target, rest)) ==> target@ == args@[1]@ && string_views(rest@) == if args@.len() == 2 {
            seq!["@@"@]
        } else {
            string_views(args@.subrange(2, args@.len() as int))
        },
{
    if args.len() < 2 {
        return Err(FuzzError::MissingTarget);
    }
    let target = args[1].clone();
    let mut rest = tail_from(args, 2);
    if rest.len() == 0 {
        rest.push("@@".to_owned());
        assert(string_views(rest@) =~= seq!["@@"@]);
    }
    Ok((target, rest))
}

/// Splits a command line `showmap <target> <args...>` into the target and
/// its arguments; `None` unless at least one argument follows the target.
pub fn parse_args(args: &Vec<String>) -> (r: Option<(String, Vec<String>)>)
    ensures
        args@.len() < 3 <==> r is None,
        r matches Some((target, rest)) ==> target@ == args@[1]@ && string_views(rest@) == string_views(
            args@.subrange(2, args@.len() as int),
        ),
{
    if args.len() < 3 {
        return None;
    }
    Some((args[1].clone(), tail_from(args, 2)))
}

} // verus!
