//! Reading the game manager's command line.
use vstd::prelude::*;

use crate::text::string_views;

verus! {

/// The value after the first occurrence of the flag `name` among `args`, when
/// the flag occurs and is not the last argument.
pub open spec fn flag_value(args: Seq<Seq<char>>, name: Seq<char>) -> Option<Seq<char>> {
    match args.index_of_first(name) {
        Some(i) => if i + 1 < args.len() {
            Some(args[i + 1])
        } else {
            None
        },
        None => None,
    }
}

/// Parse a named argument: `--flag value`.
pub fn cli_arg(args: &Vec<String>, name: &str) -> (r: Option<String>)
    ensures
        crate::text::opt_str(r) == flag_value(string_views(args@), name@),
{
    let ghost a = string_views(args@);
    let target = crate::text::owned(name);
    let mut i: usize = 0;
    while i < args.len()
        invariant
            i <= args@.len(),
            a == string_views(args@),
            target@ == name@,
            forall|k: int| 0 <= k < i ==> a[k] != name@,
        decreases args@.len() - i,
    {
        if args[i] == target {
            proof {
                assert(a[i as int] == name@);
                a.index_of_first_ensures(name@);
                let j = a.index_of_first(name@).unwrap();
                assert(j == i) by {
                    if j < i {
                        assert(a[j] != name@);
                    }
                    if j > i {
                        assert(a[i as int] != name@);
                    }
                }
            }
            if i + 1 < args.len() {
                return Some(args[i + 1].clone());
            } else {
                return None;
            }
        }
        i = i + 1;
    }
    proof {
        a.index_of_first_ensures(name@);
        if a.contains(name@) {
            let k = choose|k: int| 0 <= k < a.len() && a[k] == name@;
            assert(a[k] == name@);
        }
    }
    None
}

/// Whether the flag `name` occurs among `args`.
pub fn has_flag(args: &Vec<String>, name: &str) -> (r: bool)
    ensures
        r == string_views(args@).contains(name@),
{
    let ghost a = string_views(args@);
    let target = crate::text::owned(name);
    for i in 0..args.len()
        invariant
            a == string_views(args@),
            target@ == name@,
            forall|k: int| 0 <= k < i ==> a[k] != name@,
    {
        if args[i] == target {
            assert(a[i as int] == name@);
            return true;
        }
    }
    proof {
        if a.contains(name@) {
            let k = choose|k: int| 0 <= k < a.len() && a[k] == name@;
            assert(a[k] == name@);
        }
    }
    false
}

} // verus!
