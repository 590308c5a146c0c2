//! What installing rclone without root computes: the release to fetch for the machine, and
//! the version that `rclone --version` reports.
use vstd::prelude::*;
use crate::text::{append_str, chars_of, lines, lines_exec, seq_eq, string_of, trim, trim_exec};

verus! {

/// The tag of the official rclone release for an architecture name (as Rust names it):
/// `x86_64`, `aarch64`, `arm` and `x86` have their own; any other falls back to `x86_64`'s.
pub open spec fn arch_tag_of(arch: Seq<char>) -> Seq<char> {
    if arch == "x86_64"@ {
        "linux-amd64"@
    } else if arch == "aarch64"@ {
        "linux-arm64"@
    } else if arch == "arm"@ {
        "linux-arm-v7"@
    } else if arch == "x86"@ {
        "linux-386"@
    } else {
        "linux-amd64"@
    }
}

/// The release tag for the architecture `arch` (see `arch_tag_of`).
pub fn get_arch_tag(arch: &str) -> (r: &'static str)
    ensures
        r@ == arch_tag_of(arch@),
{
    let a = chars_of(arch);
    if seq_eq(&a, &chars_of("x86_64")) {
        "linux-amd64"
    } else if seq_eq(&a, &chars_of("aarch64")) {
        "linux-arm64"
    } else if seq_eq(&a, &chars_of("arm")) {
        "linux-arm-v7"
    } else if seq_eq(&a, &chars_of("x86")) {
        "linux-386"
    } else {
        "linux-amd64"
    }
}

/// Every release tag is a Linux one.
pub proof fn law_arch_tag_is_linux(arch: Seq<char>)
    ensures
        arch_tag_of(arch).take(6) == "linux-"@,
{
    reveal_strlit("linux-");
    reveal_strlit("linux-amd64");
    reveal_strlit("linux-arm64");
    reveal_strlit("linux-arm-v7");
    reveal_strlit("linux-386");
    assert("linux-amd64"@.take(6) =~= "linux-"@);
    assert("linux-arm64"@.take(6) =~= "linux-"@);
    assert("linux-arm-v7"@.take(6) =~= "linux-"@);
    assert("linux-386"@.take(6) =~= "linux-"@);
}

/// Address of the current rclone release for a tag.
pub open spec fn download_url_of(tag: Seq<char>) -> Seq<char> {
    "https://downloads.rclone.org/rclone-current-"@ + tag + ".zip"@
}

/// The address of the current rclone release for `tag` (see `download_url_of`).
pub fn rclone_download_url(tag: &str) -> (r: String)
    ensures
        r@ == download_url_of(tag@),
{
    let mut v: Vec<char> = Vec::new();
    append_str(&mut v, "https://downloads.rclone.org/rclone-current-");
    append_str(&mut v, tag);
    append_str(&mut v, ".zip");
    string_of(&v)
}

/// The version `rclone --version` reports: its first output line, trimmed; none when the
/// output has no line.
pub open spec fn version_line_of(out: Seq<char>) -> Option<Seq<char>> {
    if lines(out).len() > 0 {
        Some(trim(lines(out)[0]))
    } else {
        None
    }
}

/// The version reported in the output of `rclone --version` (see `version_line_of`).
pub fn version_line(out: &str) -> (r: Option<String>)
    ensures
        match r {
            Some(s) => version_line_of(out@) == Some(s@),
            None => version_line_of(out@) is None,
        },
{
    let ls = lines_exec(&chars_of(out));
    proof {
        assert(ls@.map_values(|l: Vec<char>| l@).len() == ls@.len());
    }
    if ls.len() > 0 {
        proof {
            assert(ls@.map_values(|l: Vec<char>| l@)[0] == ls@[0]@);
        }
        let t = trim_exec(&ls[0]);
        Some(string_of(&t))
    } else {
        None
    }
}

} // verus!
