//! Build-dependent naming, as a value built once at startup and passed
//! explicitly to whatever needs it.

use vstd::prelude::*;

verus! {

/// How the running binary was built.
pub struct BuildConfig {
    /// Whether this is a debug build.
    pub debug: bool,
    /// The release tag the binary was built for, if any.
    pub release_tag: Option<String>,
    /// The version of the package itself.
    pub package_version: String,
}

/// The prefix that marks a nightly release tag.
pub open spec fn nightly_prefix() -> Seq<char> {
    seq!['n', 'i', 'g', 'h', 't', 'l', 'y']
}

/// Whether `tag` begins with the nightly prefix.
pub open spec fn is_nightly(tag: Seq<char>) -> bool {
    tag.len() >= nightly_prefix().len() && tag.subrange(0, nightly_prefix().len() as int)
        == nightly_prefix()
}

/// Whether the configuration describes a nightly release build.
pub open spec fn is_nightly_build(config: BuildConfig) -> bool {
    !config.debug && match config.release_tag {
        Some(tag) => is_nightly(tag@),
        None => false,
    }
}

/// The application name that a configuration selects.
pub open spec fn spec_application_name(config: BuildConfig) -> Seq<char> {
    if config.debug {
        "Lapce-Debug"@
    } else if is_nightly_build(config) {
        "Lapce-Nightly"@
    } else {
        "Lapce-Stable"@
    }
}

/// The version string that a configuration selects.
pub open spec fn spec_version(config: BuildConfig) -> Seq<char> {
    if config.debug {
        "debug"@
    } else if is_nightly_build(config) {
        config.release_tag.unwrap()@
    } else {
        config.package_version@
    }
}

fn starts_with_nightly(tag: &str) -> (r: bool)
    ensures
        r == is_nightly(tag@),
{
    let prefix = "nightly";
    proof {
        reveal_strlit("nightly");
    }
    assert(prefix@ =~= nightly_prefix());
    let n: usize = tag.unicode_len();
    if n < 7 {
        return false;
    }
    let mut i: usize = 0;
    while i < 7
        invariant
            i <= 7 <= n,
            n == tag@.len(),
            prefix@ == nightly_prefix(),
            forall|j: int| 0 <= j < i ==> tag@[j] == nightly_prefix()[j],
        decreases 7 - i,
    {
        if tag.get_char(i) != prefix.get_char(i) {
            assert(tag@.subrange(0, 7)[i as int] != nightly_prefix()[i as int]);
            return false;
        }
        i = i + 1;
    }
    assert(tag@.subrange(0, 7) =~= nightly_prefix());
    true
}

/// Whether the configuration describes a nightly release build.
pub fn nightly_build(config: &BuildConfig) -> (r: bool)
    ensures
        r == is_nightly_build(*config),
{
    if config.debug {
        return false;
    }
    match &config.release_tag {
        Some(tag) => starts_with_nightly(tag.as_str()),
        None => false,
    }
}

/// The application name: a debug build, a nightly build and a stable build
/// each have their own.
pub fn application_name(config: &BuildConfig) -> (r: &'static str)
    ensures
        r@ == spec_application_name(*config),
{
    if config.debug {
        "Lapce-Debug"
    } else if nightly_build(config) {
        "Lapce-Nightly"
    } else {
        "Lapce-Stable"
    }
}

/// The version: `debug` for a debug build, the release tag itself for a
/// nightly build, and the package version otherwise.
pub fn version(config: &BuildConfig) -> (r: &str)
    ensures
        r@ == spec_version(*config),
{
    if config.debug {
        "debug"
    } else if nightly_build(config) {
        match &config.release_tag {
            Some(tag) => tag.as_str(),
            None => config.package_version.as_str(),
        }
    } else {
        config.package_version.as_str()
    }
}

} // verus!
