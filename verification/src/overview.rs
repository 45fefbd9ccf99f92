use vstd::prelude::*;
use crate::text::owned;

verus! {

/// The platforms the overview offers release archives for, in order.
pub fn redistributable_platforms() -> (r: Vec<&'static str>)
    ensures
        r@.len() == 3,
        r@[0]@ == "windows-x64"@,
        r@[1]@ == "linux-gnu-amd64"@,
        r@[2]@ == "macos-arm64"@,
{
    let mut v: Vec<&'static str> = Vec::new();
    v.push("windows-x64");
    v.push("linux-gnu-amd64");
    v.push("macos-arm64");
    v
}

/// The file name of a release archive: `kaspa-ng-<version>-<platform>.zip`.
pub open spec fn archive_name(version: Seq<char>, platform: Seq<char>) -> Seq<char> {
    "kaspa-ng-"@ + version + "-"@ + platform + ".zip"@
}

/// The label of a release archive link: a bullet and the archive's name.
pub fn download_label(version: &str, platform: &str) -> (r: String)
    ensures
        r@ == "• "@ + archive_name(version@, platform@),
{
    let mut s = owned("• ");
    s.append("kaspa-ng-");
    s.append(version);
    s.append("-");
    s.append(platform);
    s.append(".zip");
    assert(s@ =~= "• "@ + archive_name(version@, platform@));
    s
}

/// The download address of a release archive on GitHub.
pub fn download_link(version: &str, platform: &str) -> (r: String)
    ensures
        r@ == "https://github.com/aspectron/kaspa-ng/releases/download/"@ + version@ + "/"@ + archive_name(version@, platform@),
{
    let mut s = owned("https://github.com/aspectron/kaspa-ng/releases/download/");
    s.append(version);
    s.append("/");
    s.append("kaspa-ng-");
    s.append(version);
    s.append("-");
    s.append(platform);
    s.append(".zip");
    assert(s@ =~= "https://github.com/aspectron/kaspa-ng/releases/download/"@ + version@ + "/"@ + archive_name(version@, platform@));
    s
}

/// The first `n` characters of a text (all of it when shorter), as the
/// build information shortens the compiler's commit hash.
pub fn first_chars(s: &str, n: usize) -> (r: String)
    ensures
        r@ == if s@.len() <= n { s@ } else { s@.subrange(0, n as int) },
{
    let len = s.unicode_len();
    let end = if len <= n { len } else { n };
    let r = s.substring_char(0, end).to_owned();
    proof {
        if len <= n {
            assert(s@.subrange(0, len as int) =~= s@);
        }
    }
    r
}

} // verus!
