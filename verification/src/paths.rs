//! Where the server's files are looked for.

use vstd::prelude::*;

verus! {

/// The name of the directory, below the application's resource directory,
/// that holds the bundled server files. The shell runs in production mode
/// exactly when this directory exists.
pub const SERVER_DIR_NAME: &'static str = "server";

/// The name of the server's entry script.
pub const ENTRY_SCRIPT_NAME: &'static str = "cli.js";

/// The name of the directory, below the bundled server directory, from which
/// the server resolves its modules.
pub const MODULES_DIR_NAME: &'static str = "node_modules";

/// The number of places probed for the entry script in a development checkout.
pub const DEV_CLI_PROBES: usize = 3;

/// The text of the path that `std::path::Path::join` forms by adjoining
/// `name` to `base`. It follows the path rules of the platform the library is
/// built for (which separator, how prefixes are treated), and on any one
/// platform it is a function of the two texts alone.
pub uninterp spec fn joined_path(base: Seq<char>, name: Seq<char>) -> Seq<char>;

/// `std::path::Path::join`, on text: the path that adjoins `name` to `base`.
/// Nothing is claimed of the result beyond its name.
#[verifier::external_body]
pub(crate) fn join_path(base: &str, name: &str) -> (joined: String)
    ensures
        joined@ == joined_path(base@, name@),
{
    std::path::Path::new(base).join(name).to_string_lossy().into_owned()
}

/// The paths probed for the entry script in a development checkout, in the
/// order in which they are tried: the parent directory, the grandparent
/// directory, then the working directory itself.
pub open spec fn dev_cli_candidates() -> Seq<Seq<char>> {
    seq!["../cli.js"@, "../../cli.js"@, "cli.js"@]
}

/// The entry script path used when none of the probed paths exists.
pub open spec fn dev_cli_default() -> Seq<char> {
    "../cli.js"@
}

/// True when `i` is the first probed path that exists.
pub open spec fn is_first_existing(exists: Seq<bool>, i: int) -> bool {
    &&& 0 <= i < exists.len()
    &&& exists[i]
    &&& forall|j: int| 0 <= j < i ==> !exists[j]
}

/// The entry script path chosen from the outcome of the three probes.
pub open spec fn dev_cli_choice(exists: Seq<bool>) -> Seq<char>
    recommends
        exists.len() == DEV_CLI_PROBES,
{
    if exists[0] {
        dev_cli_candidates()[0]
    } else if exists[1] {
        dev_cli_candidates()[1]
    } else if exists[2] {
        dev_cli_candidates()[2]
    } else {
        dev_cli_default()
    }
}

/// The choice is the first probed path that exists, and the default path
/// when none exists.
pub proof fn lemma_choice_is_first_existing(exists: Seq<bool>)
    requires
        exists.len() == DEV_CLI_PROBES,
    ensures
        forall|i: int|
            is_first_existing(exists, i) ==> dev_cli_choice(exists) == dev_cli_candidates()[i],
        (forall|i: int| 0 <= i < exists.len() ==> !exists[i]) ==> dev_cli_choice(exists)
            == dev_cli_default(),
{
    assert forall|i: int| is_first_existing(exists, i) implies dev_cli_choice(exists)
        == dev_cli_candidates()[i] by {
        if i == 1 {
            assert(!exists[0]);
        } else if i == 2 {
            assert(!exists[0]);
            assert(!exists[1]);
        }
    }
}

/// The paths to probe for the entry script in a development checkout, in the
/// order in which they are tried.
pub fn dev_cli_probe_paths() -> (paths: [&'static str; 3])
    ensures
        paths.deep_view() == dev_cli_candidates(),
{
    let paths = ["../cli.js", "../../cli.js", "cli.js"];
    assert(paths.deep_view() =~= dev_cli_candidates());
    paths
}

/// Chooses the entry script of a development checkout. `exists[i]` tells
/// whether the `i`-th probed path exists; the first one that does is chosen,
/// and the default path when none does.
pub fn find_dev_cli_path(exists: &[bool; 3]) -> (path: String)
    ensures
        path@ == dev_cli_choice(exists@),
        forall|i: int| is_first_existing(exists@, i) ==> path@ == dev_cli_candidates()[i],
        (forall|i: int| 0 <= i < exists@.len() ==> !exists@[i]) ==> path@ == dev_cli_default(),
{
    proof {
        lemma_choice_is_first_existing(exists@);
    }
    let paths = dev_cli_probe_paths();
    let mut i: usize = 0;
    while i < DEV_CLI_PROBES
        invariant
            i <= DEV_CLI_PROBES,
            paths.deep_view() == dev_cli_candidates(),
            forall|j: int| 0 <= j < i ==> !exists@[j],
        decreases DEV_CLI_PROBES - i,
    {
        if exists[i] {
            assert(is_first_existing(exists@, i as int));
            assert(paths[i as int]@ == paths.deep_view()[i as int]);
            return paths[i].to_owned();
        }
        i += 1;
    }
    "../cli.js".to_owned()
}

} // verus!
