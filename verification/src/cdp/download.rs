//! The managed `chrome-headless-shell`: which build a platform downloads
//! and where the cache keeps it.

use vstd::prelude::*;
use crate::cdp::error::CdpError;
use crate::cdp::launch::{BrowserKind, DiscoveredBrowser};
use crate::paths::{join, join_path, PathStyle};
use crate::text::{chars_of, chars_eq, string_of, trim, trim_chars};

verus! {

/// The platforms the managed shell is published for.
pub enum Platform {
    Win64,
    Linux64,
    Unsupported,
}

/// The platform's name in the download index.
pub open spec fn platform_name(p: Platform) -> Seq<char> {
    match p {
        Platform::Win64 => "win64"@,
        Platform::Linux64 => "linux64"@,
        Platform::Unsupported => "unsupported"@,
    }
}

/// The shell executable's file name on the platform.
pub open spec fn shell_exe(p: Platform) -> Seq<char> {
    match p {
        Platform::Win64 => "chrome-headless-shell.exe"@,
        _ => "chrome-headless-shell"@,
    }
}

/// The platform's path conventions.
pub open spec fn path_style(p: Platform) -> PathStyle {
    match p {
        Platform::Win64 => PathStyle::Windows,
        _ => PathStyle::Unix,
    }
}

impl Platform {
    /// The platform's name in the download index.
    pub fn name(&self) -> (r: &'static str)
        ensures
            r@ == platform_name(*self),
    {
        match self {
            Platform::Win64 => "win64",
            Platform::Linux64 => "linux64",
            Platform::Unsupported => "unsupported",
        }
    }

    /// The shell executable's file name on the platform.
    pub fn exe(&self) -> (r: &'static str)
        ensures
            r@ == shell_exe(*self),
    {
        match self {
            Platform::Win64 => "chrome-headless-shell.exe",
            _ => "chrome-headless-shell",
        }
    }

    /// The platform's path conventions.
    pub fn style(&self) -> (r: PathStyle)
        ensures
            r == path_style(*self),
    {
        match self {
            Platform::Win64 => PathStyle::Windows,
            _ => PathStyle::Unix,
        }
    }
}

/// Where the Chrome for Testing versions index is fetched from.
pub const VERSIONS_ENDPOINT: &'static str = "https://googlechromelabs.github.io/chrome-for-testing/last-known-good-versions-with-downloads.json";

/// The part of the versions index that is read (other fields are ignored).
pub struct KnownGoodVersions {
    pub channels: Channels,
}

/// The release channels; only stable is used.
pub struct Channels {
    pub stable: Channel,
}

/// One channel's version and downloads.
pub struct Channel {
    pub version: String,
    pub downloads: Downloads,
}

/// A channel's downloads; only the headless shell's are read (none when
/// absent).
pub struct Downloads {
    pub chrome_headless_shell: Vec<DownloadEntry>,
}

/// One published download of the shell.
pub struct DownloadEntry {
    pub platform: String,
    pub url: String,
}

/// `<base>/aib/browsers`, where shell versions are cached.
pub open spec fn spec_browsers_dir(base: Seq<char>, p: Platform) -> Seq<char> {
    join(join(base, "aib"@, path_style(p)), "browsers"@, path_style(p))
}

/// The cache directory for shell versions under the per-user data
/// directory `base`.
pub fn browsers_dir(base: &str, platform: &Platform) -> (r: String)
    ensures
        r@ == spec_browsers_dir(base@, *platform),
{
    let style = platform.style();
    let aib = join_path(base, "aib", &style);
    join_path(aib.as_str(), "browsers", &style)
}

/// `<version_dir>/chrome-headless-shell-<platform>/<exe>`.
pub open spec fn spec_shell_path(version_dir: Seq<char>, p: Platform) -> Seq<char> {
    join(join(version_dir, "chrome-headless-shell-"@ + platform_name(p), path_style(p)), shell_exe(p), path_style(p))
}

/// Where a shell version's executable sits inside its cache directory.
pub fn shell_path_for(version_dir: &str, platform: &Platform) -> (r: String)
    ensures
        r@ == spec_shell_path(version_dir@, *platform),
{
    let style = platform.style();
    let mut dir_name = "chrome-headless-shell-".to_owned();
    dir_name.append(platform.name());
    let dir = join_path(version_dir, dir_name.as_str(), &style);
    join_path(dir.as_str(), platform.exe(), &style)
}

/// Where the cached shell named by the `latest.txt` marker would be: the
/// marker's trimmed text is the version directory under `browsers`.
pub fn cached_shell_path(browsers: &str, marker: &str, platform: &Platform) -> (r: String)
    ensures
        r@ == spec_shell_path(join(browsers@, trim(marker@), path_style(*platform)), *platform),
{
    let mv = chars_of(marker);
    let tv = trim_chars(&mv);
    let version = string_of(&tv, 0, tv.len());
    assert(tv@.subrange(0, tv@.len() as int) =~= tv@);
    let style = platform.style();
    let dir = join_path(browsers, version.as_str(), &style);
    shell_path_for(dir.as_str(), platform)
}

/// The URL of the first download published for `platform`, or the error
/// naming the platform when there is none.
pub fn select_download(entries: &Vec<DownloadEntry>, platform: &Platform) -> (r: Result<String, CdpError>)
    ensures
        match r {
            Ok(url) => exists|i: int| 0 <= i < entries.len()
                && (#[trigger] entries@[i]).platform@ == platform_name(*platform)
                && url@ == entries@[i].url@
                && forall|j: int| 0 <= j < i ==> (#[trigger] entries@[j]).platform@ != platform_name(*platform),
            Err(CdpError::Other(m)) => m@ == "no chrome-headless-shell download for "@ + platform_name(*platform)
                && forall|j: int| 0 <= j < entries.len() ==> (#[trigger] entries@[j]).platform@ != platform_name(*platform),
            Err(_) => false,
        },
{
    let want = chars_of(platform.name());
    let mut i: usize = 0;
    while i < entries.len()
        invariant
            i <= entries.len(),
            want@ == platform_name(*platform),
            forall|j: int| 0 <= j < i ==> (#[trigger] entries@[j]).platform@ != platform_name(*platform),
        decreases entries.len() - i,
    {
        let have = chars_of(entries[i].platform.as_str());
        if chars_eq(&have, &want) {
            return Ok(entries[i].url.clone());
        }
        i += 1;
    }
    let mut m = "no chrome-headless-shell download for ".to_owned();
    m.append(platform.name());
    Err(CdpError::Other(m))
}

/// The managed shell at `path`, as a discovered browser.
pub fn managed_shell(path: String) -> (r: DiscoveredBrowser)
    ensures
        r.kind is Chrome,
        r.path@ == path@,
        r.is_headless_shell,
{
    DiscoveredBrowser { kind: BrowserKind::Chrome, path, is_headless_shell: true }
}

/// After extracting a downloaded archive: the shell when its executable is
/// now there, else the error naming the missing path.
pub fn extracted_shell(shell_path: String, exists: bool) -> (r: Result<DiscoveredBrowser, CdpError>)
    ensures
        exists ==> (r matches Ok(b) && b.kind is Chrome && b.path@ == shell_path@ && b.is_headless_shell),
        !exists ==> (r matches Err(CdpError::Other(m))
            && m@ == "shell archive extracted but "@ + shell_path@ + " is missing"@),
{
    if exists {
        Ok(managed_shell(shell_path))
    } else {
        let mut m = "shell archive extracted but ".to_owned();
        m.append(shell_path.as_str());
        m.append(" is missing");
        Err(CdpError::Other(m))
    }
}

/// The error for a platform that has no published shell.
pub fn unsupported_platform_error() -> (r: CdpError)
    ensures
        r matches CdpError::Other(m) && m@ == "chrome-headless-shell downloads are only supported on Windows and Linux"@,
{
    CdpError::Other("chrome-headless-shell downloads are only supported on Windows and Linux".to_owned())
}

} // verus!
