//! Version information of the application build.

use vstd::prelude::*;
use crate::text::push_text;

verus! {

/// Values recorded when the application was built.
pub struct BuildInfo {
    /// Package version.
    pub pkg_version: String,
    /// Version control revision, when known.
    pub git_version: Option<String>,
    /// Target triple.
    pub target: String,
    /// Compiler version.
    pub rustc_version: String,
    /// Build profile.
    pub profile: String,
    /// Enabled features, comma separated.
    pub features: String,
}

/// First information line: version, revision, target and compiler.
pub open spec fn version_line(info: BuildInfo) -> Seq<char> {
    "This is Grim version "@ + info.pkg_version@ + match info.git_version {
        Some(v) => " (git "@ + v@ + ")"@,
        None => Seq::empty(),
    } + ", built for "@ + info.target@ + " by "@ + info.rustc_version@ + "."@
}

/// Second information line: build profile and features.
pub open spec fn build_line(info: BuildInfo) -> Seq<char> {
    "Built with profile \""@ + info.profile@ + "\", features \""@ + info.features@ + "\"."@
}

/// Information strings about the build: version line and profile line.
pub fn info_strings(info: &BuildInfo) -> (r: (String, String))
    ensures
        r.0@ == version_line(*info),
        r.1@ == build_line(*info),
{
    let mut first = String::new();
    push_text(&mut first, "This is Grim version ");
    push_text(&mut first, info.pkg_version.as_str());
    match &info.git_version {
        Some(v) => {
            push_text(&mut first, " (git ");
            push_text(&mut first, v.as_str());
            push_text(&mut first, ")");
        },
        None => {},
    }
    push_text(&mut first, ", built for ");
    push_text(&mut first, info.target.as_str());
    push_text(&mut first, " by ");
    push_text(&mut first, info.rustc_version.as_str());
    push_text(&mut first, ".");
    let mut second = String::new();
    push_text(&mut second, "Built with profile \"");
    push_text(&mut second, info.profile.as_str());
    push_text(&mut second, "\", features \"");
    push_text(&mut second, info.features.as_str());
    push_text(&mut second, "\".");
    (first, second)
}

} // verus!
