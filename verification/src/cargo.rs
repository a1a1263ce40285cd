use vstd::prelude::*;

use crate::process::opt_text;
use crate::text::{contains_substring, is_substring, views_of};

verus! {

/// True iff at least one line of the package manager's list of installed
/// crates holds the crate's name as a substring; the listing format is
/// fuzzy, so this is deliberately not an exact match.
pub fn is_cargo_crate_installed(crate_name: &str, installed_list: &Vec<String>) -> (r: bool)
    ensures
        r == exists|i: int|
            0 <= i < installed_list@.len() && is_substring(
                crate_name@,
                #[trigger] installed_list@[i]@,
            ),
{
    let mut i: usize = 0;
    while i < installed_list.len()
        invariant
            i <= installed_list@.len(),
            forall|k: int|
                0 <= k < i ==> !is_substring(crate_name@, #[trigger] installed_list@[k]@),
        decreases installed_list@.len() - i,
    {
        if contains_substring(installed_list[i].as_str(), crate_name) {
            return true;
        }
        i += 1;
    }
    false
}

/// The argument list of an install command: the crate's name, the lock flag
/// when asked for, the feature list when one is given and non-empty, and
/// the version pin when one is given.
pub open spec fn install_args(
    name: Seq<char>,
    features: Option<Seq<char>>,
    version: Option<Seq<char>>,
    locked: bool,
) -> Seq<Seq<char>> {
    seq!["install"@, name] + (if locked {
        seq!["--locked"@]
    } else {
        Seq::empty()
    }) + (match features {
        Some(f) => if f.len() > 0 {
            seq!["--features"@, f]
        } else {
            Seq::empty()
        },
        None => Seq::empty(),
    }) + (match version {
        Some(v) => seq!["--version"@, v],
        None => Seq::empty(),
    })
}

/// When the crate is not installed yet, the argument list of the install
/// command to run; nothing when it is installed already.
pub fn ensure_cargo_crate_is_installed(
    crate_name: &str,
    features: Option<&str>,
    version: Option<&str>,
    locked: bool,
    installed: bool,
) -> (r: Option<Vec<String>>)
    ensures
        installed ==> r is None,
        !installed ==> (r matches Some(a) && views_of(a@) == install_args(
            crate_name@,
            opt_text(features),
            opt_text(version),
            locked,
        )),
{
    if installed {
        return None;
    }
    let mut args: Vec<String> = Vec::new();
    args.push(String::from_str("install"));
    args.push(crate_name.to_owned());
    if locked {
        args.push(String::from_str("--locked"));
    }
    if let Some(f) = features {
        if !f.is_empty() {
            args.push(String::from_str("--features"));
            args.push(f.to_owned());
        }
    }
    if let Some(v) = version {
        args.push(String::from_str("--version"));
        args.push(v.to_owned());
    }
    proof {
        assert(views_of(args@) =~= install_args(
            crate_name@,
            opt_text(features),
            opt_text(version),
            locked,
        ));
    }
    Some(args)
}

} // verus!
