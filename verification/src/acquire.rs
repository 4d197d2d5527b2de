//! The source acquirer: resolving a versioned library source tree.
//!
//! A local override is used as given, with no validation and no fetch. With
//! no override, an expected tree already extracted under the working
//! directory is reused as is (idempotent: repeated builds are cheap and
//! offline-capable). Only when it is absent is the archive fetched from its
//! fixed, versioned URL and extracted; if the expected tree is still absent
//! afterwards, the source is unavailable and the build aborts.

use vstd::prelude::*;
use crate::config::Platform;
use crate::errors::BuildError;
use crate::pathname::{join, spec_join};

verus! {

/// How a source tree was obtained.
#[derive(Clone, Copy, Debug, PartialEq, Eq, Structural)]
pub enum SourceOrigin {
    /// Pre-existing, supplied by the caller; not owned by the build.
    LocalOverride,
    /// Extracted under the working directory by the acquirer.
    Fetched,
}

/// What the acquirer decides the host must do.
pub enum AcquirePlan {
    /// A local override was supplied: use this tree as it stands.
    UseLocal(String),
    /// The expected tree already exists under the working directory: use it,
    /// touching no network.
    UseExisting(String),
    /// Fetch the archive from the fixed URL, extract it into the working
    /// directory, and expect the tree to appear at the expected path.
    FetchAndExtract { url: String, expected_path: String },
}

/// The view of an optional override path.
pub open spec fn opt_view(o: Option<String>) -> Option<Seq<char>> {
    match o {
        Some(s) => Some(s@),
        None => None,
    }
}

/// The one situation in which the acquirer touches the network: no override
/// was supplied and the expected tree is absent.
pub open spec fn spec_needs_fetch(override_path: Option<Seq<char>>, tree_exists: bool) -> bool {
    override_path is None && !tree_exists
}

/// Decide how the source tree named `expected_dir_name` is obtained.
/// `tree_exists` is whether the expected path already exists under
/// `workdir`, as observed by the host.
pub fn plan_acquire(
    override_path: Option<String>,
    workdir: &str,
    url: &str,
    expected_dir_name: &str,
    tree_exists: bool,
    platform: Platform,
) -> (r: AcquirePlan)
    ensures
        (r is FetchAndExtract) == spec_needs_fetch(opt_view(override_path), tree_exists),
        override_path matches Some(p) ==> (r matches AcquirePlan::UseLocal(q) && q == p),
        override_path is None && tree_exists ==> (r matches AcquirePlan::UseExisting(q) && q@
            == spec_join(platform, workdir@, expected_dir_name@)),
        override_path is None && !tree_exists ==> (r matches AcquirePlan::FetchAndExtract {
            url: u,
            expected_path: q,
        } && u@ == url@ && q@ == spec_join(platform, workdir@, expected_dir_name@)),
{
    match override_path {
        Some(p) => AcquirePlan::UseLocal(p),
        None => {
            let expected = join(platform, workdir, expected_dir_name);
            if tree_exists {
                AcquirePlan::UseExisting(expected)
            } else {
                AcquirePlan::FetchAndExtract {
                    url: String::from_str(url),
                    expected_path: expected,
                }
            }
        },
    }
}

/// Judge an extraction: the expected tree must exist afterwards, else the
/// source is unavailable (a URL/version mismatch or a changed archive
/// layout). `tree_exists_after` is the host's post-extraction observation.
pub fn finish_acquire(expected_path: String, tree_exists_after: bool) -> (r: Result<
    String,
    BuildError,
>)
    ensures
        (r is Ok) == tree_exists_after,
        r matches Ok(p) ==> p == expected_path,
        r matches Err(e) ==> e == BuildError::SourceUnavailable,
{
    if tree_exists_after {
        Ok(expected_path)
    } else {
        Err(BuildError::SourceUnavailable)
    }
}

/// Idempotence of acquisition: on no input with the source tree already
/// present at the expected path does the acquirer plan a network fetch.
pub proof fn lemma_present_tree_never_fetched(override_path: Option<Seq<char>>, tree_exists: bool)
    ensures
        tree_exists ==> !spec_needs_fetch(override_path, tree_exists),
{
}

} // verus!
