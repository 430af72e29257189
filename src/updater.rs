//! Decisions of the self-update check: which release asset fits this
//! platform, and whether a release is newer than the running version.
use crate::text::{chars_of, same_text, string_of_range};
use vstd::prelude::*;

verus! {

/// The release asset of a platform and the executable inside it.
#[derive(Debug, Clone, Copy)]
pub struct PlatformPackage {
    pub asset_name: &'static str,
    pub binary_name: &'static str,
}

/// The asset for an operating system, architecture and C library
/// environment, as Rust names them; `None` for unsupported platforms.
pub open spec fn package_asset(os: Seq<char>, arch: Seq<char>, env: Seq<char>) -> Option<Seq<char>> {
    if os == "linux"@ && arch == "x86_64"@ && env == "gnu"@ {
        Some("fuckyou-spam-rust-linux-x86_64.tar.gz"@)
    } else if os == "linux"@ && arch == "x86_64"@ && env == "musl"@ {
        Some("fuckyou-spam-rust-linux-x86_64-musl.tar.gz"@)
    } else if os == "linux"@ && arch == "aarch64"@ {
        Some("fuckyou-spam-rust-linux-aarch64.tar.gz"@)
    } else if os == "macos"@ && arch == "x86_64"@ {
        Some("fuckyou-spam-rust-macos-x86_64.tar.gz"@)
    } else if os == "macos"@ && arch == "aarch64"@ {
        Some("fuckyou-spam-rust-macos-aarch64.tar.gz"@)
    } else {
        None
    }
}

/// Name of the executable inside every release asset.
pub const BINARY_NAME: &'static str = "fuckyou-spam-rust";

fn package(asset_name: &'static str) -> (r: PlatformPackage)
    ensures
        r.asset_name@ == asset_name@,
        r.binary_name@ == BINARY_NAME@,
{
    PlatformPackage { asset_name, binary_name: BINARY_NAME }
}

pub fn platform_package(os: &str, arch: &str, env: &str) -> (r: Option<PlatformPackage>)
    ensures
        match r {
            Some(p) => package_asset(os@, arch@, env@) == Some(p.asset_name@) && p.binary_name@
                == BINARY_NAME@,
            None => package_asset(os@, arch@, env@) is None,
        },
{
    let linux = same_text(os, "linux");
    let macos = same_text(os, "macos");
    let x86 = same_text(arch, "x86_64");
    let arm = same_text(arch, "aarch64");
    if linux && x86 && same_text(env, "gnu") {
        Some(package("fuckyou-spam-rust-linux-x86_64.tar.gz"))
    } else if linux && x86 && same_text(env, "musl") {
        Some(package("fuckyou-spam-rust-linux-x86_64-musl.tar.gz"))
    } else if linux && arm {
        Some(package("fuckyou-spam-rust-linux-aarch64.tar.gz"))
    } else if macos && x86 {
        Some(package("fuckyou-spam-rust-macos-x86_64.tar.gz"))
    } else if macos && arm {
        Some(package("fuckyou-spam-rust-macos-aarch64.tar.gz"))
    } else {
        None
    }
}

/// `s` without its leading `v` characters.
pub open spec fn strip_v(s: Seq<char>) -> Seq<char>
    decreases s.len(),
{
    if s.len() > 0 && s[0] == 'v' {
        strip_v(s.drop_first())
    } else {
        s
    }
}

/// The version written by a release tag such as `v1.2.3`.
pub fn tag_version(tag: &str) -> (r: String)
    ensures
        r@ == strip_v(tag@),
{
    let v = chars_of(tag);
    let mut b: usize = 0;
    assert(v@.skip(0) =~= v@);
    while b < v.len() && v[b] == 'v'
        invariant
            b <= v@.len(),
            v@ == tag@,
            strip_v(tag@) == strip_v(v@.skip(b as int)),
        decreases v@.len() - b,
    {
        assert(v@.skip(b as int).drop_first() =~= v@.skip(b + 1));
        b = b + 1;
    }
    assert(v@.skip(b as int) =~= v@.subrange(b as int, v@.len() as int));
    string_of_range(&v, b, v.len())
}

/// How two semantic versions compare by precedence: negative, zero or
/// positive; `None` when either is not a valid semantic version.
pub uninterp spec fn semver_order(a: Seq<char>, b: Seq<char>) -> Option<int>;

/// Relies on `semver::Version::parse` and the `Ord` of `semver::Version`,
/// which orders versions by precedence.
#[verifier::external_body]
fn compare_versions(a: &str, b: &str) -> (r: Option<i8>)
    ensures
        match r {
            Some(o) => semver_order(a@, b@) == Some(o as int),
            None => semver_order(a@, b@) is None,
        },
{
    let x = semver::Version::parse(a).ok()?;
    let y = semver::Version::parse(b).ok()?;
    Some(match x.cmp(&y) {
        std::cmp::Ordering::Less => -1,
        std::cmp::Ordering::Equal => 0,
        std::cmp::Ordering::Greater => 1,
    })
}

/// Whether the release tagged `tag` is newer than version `current`;
/// `None` when either does not parse.
pub open spec fn newer_release(tag: Seq<char>, current: Seq<char>) -> Option<bool> {
    match semver_order(strip_v(tag), current) {
        Some(o) => Some(o > 0),
        None => None,
    }
}

pub fn is_newer_release(tag: &str, current: &str) -> (r: Option<bool>)
    ensures
        r == newer_release(tag@, current@),
{
    let latest = tag_version(tag);
    match compare_versions(latest.as_str(), current) {
        Some(o) => Some(o > 0),
        None => None,
    }
}

} // verus!
