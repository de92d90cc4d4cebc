//! What the npm registry and GitHub Releases report about new versions, and which download
//! addresses are trusted.
use vstd::prelude::*;
use vstd::string::StringExecFns;
use crate::text::{
    chars_of, decimal, decimal_chars, eq_ignore_case, equal_ignore_case, has_prefix, slice_of,
    starts_with, string_of, trim, trim_chars, trim_str,
};

verus! {

/// The file name of the launcher in a release.
pub const LAUNCHER_ASSET_NAME: &'static str = "deepseek-harness-launcher.exe";

/// Where launcher downloads must come from.
pub const GITHUB_RELEASE_ASSET_PREFIX: &'static str =
    "https://github.com/LiarCoder/DeepSeekHarnessLauncher/releases/download/";

/// The request path under `github.com` that launcher downloads must have.
pub const GITHUB_RELEASE_DOWNLOAD_PATH: &'static str =
    "/LiarCoder/DeepSeekHarnessLauncher/releases/download/";

/// The npm registry's description of the latest `dsh` package.
#[derive(Clone, Debug)]
pub struct LatestPackage {
    pub version: String,
}

/// A file attached to a GitHub release.
#[derive(Clone, Debug)]
pub struct ReleaseAsset {
    pub name: String,
    pub browser_download_url: String,
}

/// GitHub's description of the latest launcher release; `assets` is empty when the response
/// lists none.
#[derive(Clone, Debug)]
pub struct LatestRelease {
    pub tag_name: String,
    pub html_url: String,
    pub assets: Vec<ReleaseAsset>,
}

/// A launcher release that can be installed.
#[derive(Clone, Debug, PartialEq, Eq)]
pub struct LauncherRelease {
    pub version: String,
    pub page_url: String,
    pub asset_url: String,
}

/// The abstract form of a `LauncherRelease`.
pub struct LauncherReleaseView {
    pub version: Seq<char>,
    pub page_url: Seq<char>,
    pub asset_url: Seq<char>,
}

impl View for LauncherRelease {
    type V = LauncherReleaseView;

    open spec fn view(&self) -> LauncherReleaseView {
        LauncherReleaseView {
            version: self.version@,
            page_url: self.page_url@,
            asset_url: self.asset_url@,
        }
    }
}

/// The version the registry reported, trimmed, unless it is blank.
pub open spec fn spec_latest_version(package: LatestPackage) -> Result<Seq<char>, Seq<char>> {
    if trim(package.version@).len() == 0 {
        Err("npm registry 未返回 dsh 版本号"@)
    } else {
        Ok(trim(package.version@))
    }
}

/// An asset is the launcher executable.
pub open spec fn is_launcher_asset(asset: ReleaseAsset) -> bool {
    eq_ignore_case(trim(asset.name@), LAUNCHER_ASSET_NAME@)
}

/// The first launcher executable among the assets.
pub open spec fn first_launcher_asset(assets: Seq<ReleaseAsset>) -> Option<ReleaseAsset>
    decreases assets.len(),
{
    if assets.len() == 0 {
        None
    } else if is_launcher_asset(assets[0]) {
        Some(assets[0])
    } else {
        first_launcher_asset(assets.drop_first())
    }
}

/// The installable release that a GitHub response describes, or why it is unusable.
pub open spec fn spec_launcher_release(release: LatestRelease) -> Result<LauncherReleaseView, Seq<char>> {
    let version = trim(release.tag_name@);
    let page_url = trim(release.html_url@);
    if version.len() == 0 {
        Err("GitHub Release 未返回 Launcher 版本号"@)
    } else if page_url.len() == 0 {
        Err("GitHub Release 未返回发布页地址"@)
    } else {
        match first_launcher_asset(release.assets@) {
            None => Err("GitHub Release 未找到 Launcher Windows 安装包"@),
            Some(asset) => {
                let asset_url = trim(asset.browser_download_url@);
                if asset_url.len() == 0 {
                    Err("GitHub Release 未返回 Launcher 安装包地址"@)
                } else if !has_prefix(asset_url, GITHUB_RELEASE_ASSET_PREFIX@) {
                    Err("GitHub Release Launcher 安装包地址无效"@)
                } else {
                    Ok(LauncherReleaseView { version, page_url, asset_url })
                }
            },
        }
    }
}

/// Index of the first occurrence of `c` in `s`, or -1.
pub open spec fn first_index_of(s: Seq<char>, c: char) -> int
    decreases s.len(),
{
    if s.len() == 0 {
        -1
    } else if s[0] == c {
        0
    } else {
        let k = first_index_of(s.drop_first(), c);
        if k < 0 {
            -1
        } else {
            k + 1
        }
    }
}

/// The host and request path of an `https://` address.
pub open spec fn spec_split_https_url(url: Seq<char>) -> Result<(Seq<char>, Seq<char>), Seq<char>> {
    if !has_prefix(url, "https://"@) {
        Err("更新地址必须使用 HTTPS"@)
    } else {
        let remainder = url.subrange(8, url.len() as int);
        let k = first_index_of(remainder, '/');
        if k < 0 {
            Err("更新地址缺少请求路径"@)
        } else {
            let host = remainder.subrange(0, k);
            let path = remainder.subrange(k, remainder.len() as int);
            if host.len() == 0 || path.len() <= 1 {
                Err("更新地址无效"@)
            } else {
                Ok((host, path))
            }
        }
    }
}

/// The host and path from which a launcher asset is downloaded, when it is a release
/// download of the launcher's repository on `github.com`.
pub open spec fn spec_launcher_asset_location(url: Seq<char>) -> Result<
    (Seq<char>, Seq<char>),
    Seq<char>,
> {
    match spec_split_https_url(url) {
        Err(e) => Err(e),
        Ok((host, path)) => if !eq_ignore_case(host, "github.com"@) || !has_prefix(
            path,
            GITHUB_RELEASE_DOWNLOAD_PATH@,
        ) {
            Err("GitHub Release Launcher 安装包地址无效"@)
        } else {
            Ok((host, path))
        },
    }
}

/// Views of a result whose both sides are strings.
pub open spec fn result_view(r: Result<String, String>) -> Result<Seq<char>, Seq<char>> {
    match r {
        Ok(s) => Ok(s@),
        Err(e) => Err(e@),
    }
}

/// Views of a result carrying a pair of strings.
pub open spec fn pair_result_view(r: Result<(String, String), String>) -> Result<
    (Seq<char>, Seq<char>),
    Seq<char>,
> {
    match r {
        Ok((a, b)) => Ok((a@, b@)),
        Err(e) => Err(e@),
    }
}

/// The latest `dsh` version the registry reported.
pub fn latest_version(package: &LatestPackage) -> (r: Result<String, String>)
    ensures
        result_view(r) == spec_latest_version(*package),
{
    let version = trim_str(package.version.as_str());
    if version.as_str().is_empty() {
        return Err(String::from_str("npm registry 未返回 dsh 版本号"));
    }
    Ok(version)
}

fn is_launcher_asset_exec(asset: &ReleaseAsset) -> (r: bool)
    ensures
        r == is_launcher_asset(*asset),
{
    let name = chars_of(asset.name.as_str());
    let trimmed = trim_chars(name.as_slice());
    let expected = chars_of(LAUNCHER_ASSET_NAME);
    equal_ignore_case(trimmed.as_slice(), expected.as_slice())
}

/// The installable launcher release that GitHub's latest-release response describes.
pub fn latest_launcher_release(release: &LatestRelease) -> (r: Result<LauncherRelease, String>)
    ensures
        match (r, spec_launcher_release(*release)) {
            (Ok(a), Ok(b)) => a@ == b,
            (Err(a), Err(b)) => a@ == b,
            _ => false,
        },
{
    let version = trim_str(release.tag_name.as_str());
    if version.as_str().is_empty() {
        return Err(String::from_str("GitHub Release 未返回 Launcher 版本号"));
    }
    let page_url = trim_str(release.html_url.as_str());
    if page_url.as_str().is_empty() {
        return Err(String::from_str("GitHub Release 未返回发布页地址"));
    }
    let mut i: usize = 0;
    let ghost assets = release.assets@;
    assert(assets.subrange(0, assets.len() as int) =~= assets);
    while i < release.assets.len() && !is_launcher_asset_exec(&release.assets[i])
        invariant
            i <= release.assets.len(),
            assets == release.assets@,
            first_launcher_asset(assets) == first_launcher_asset(
                assets.subrange(i as int, assets.len() as int),
            ),
        decreases release.assets.len() - i,
    {
        let ghost rest = assets.subrange(i as int, assets.len() as int);
        assert(rest[0] == assets[i as int]);
        assert(rest.drop_first() =~= assets.subrange(i + 1, assets.len() as int));
        i = i + 1;
    }
    if i == release.assets.len() {
        assert(assets.subrange(i as int, assets.len() as int).len() == 0);
        return Err(String::from_str("GitHub Release 未找到 Launcher Windows 安装包"));
    }
    let asset = &release.assets[i];
    assert(assets.subrange(i as int, assets.len() as int)[0] == assets[i as int]);
    assert(first_launcher_asset(assets) == Some(assets[i as int]));
    let asset_url = trim_str(asset.browser_download_url.as_str());
    if asset_url.as_str().is_empty() {
        return Err(String::from_str("GitHub Release 未返回 Launcher 安装包地址"));
    }
    let url_chars = chars_of(asset_url.as_str());
    let prefix = chars_of(GITHUB_RELEASE_ASSET_PREFIX);
    if !starts_with(url_chars.as_slice(), prefix.as_slice()) {
        return Err(String::from_str("GitHub Release Launcher 安装包地址无效"));
    }
    Ok(LauncherRelease { version, page_url, asset_url })
}

fn first_index_of_char(s: &[char], c: char) -> (r: Option<usize>)
    ensures
        match r {
            Some(k) => k as int == first_index_of(s@, c) && k < s.len(),
            None => first_index_of(s@, c) == -1,
        },
{
    let mut i: usize = 0;
    assert(s@.subrange(0, s.len() as int) =~= s@);
    while i < s.len()
        invariant
            i <= s.len(),
            forall|j: int| 0 <= j < i ==> s@[j] != c,
            first_index_of(s@, c) == (if first_index_of(s@.subrange(i as int, s.len() as int), c)
                < 0 {
                -1
            } else {
                first_index_of(s@.subrange(i as int, s.len() as int), c) + i
            }),
        decreases s.len() - i,
    {
        let ghost rest = s@.subrange(i as int, s.len() as int);
        if s[i] == c {
            assert(rest[0] == c);
            return Some(i);
        }
        assert(rest.drop_first() =~= s@.subrange(i + 1, s.len() as int));
        i = i + 1;
    }
    None
}

/// The host and request path of an `https://` address.
pub fn split_https_url(url: &str) -> (r: Result<(String, String), String>)
    ensures
        pair_result_view(r) == spec_split_https_url(url@),
{
    let chars = chars_of(url);
    let scheme = chars_of("https://");
    if !starts_with(chars.as_slice(), scheme.as_slice()) {
        return Err(String::from_str("更新地址必须使用 HTTPS"));
    }
    proof {
        reveal_strlit("https://");
    }
    let remainder = slice_of(chars.as_slice(), 8, chars.len());
    let k = match first_index_of_char(remainder.as_slice(), '/') {
        Some(k) => k,
        None => {
            return Err(String::from_str("更新地址缺少请求路径"));
        },
    };
    let host = slice_of(remainder.as_slice(), 0, k);
    let path = slice_of(remainder.as_slice(), k, remainder.len());
    if host.len() == 0 || path.len() <= 1 {
        return Err(String::from_str("更新地址无效"));
    }
    Ok((string_of(host.as_slice()), string_of(path.as_slice())))
}

/// The host and path to download a launcher asset from, refusing any address that is not a
/// release download of the launcher's repository on `github.com`.
pub fn launcher_asset_location(asset_url: &str) -> (r: Result<(String, String), String>)
    ensures
        pair_result_view(r) == spec_launcher_asset_location(asset_url@),
{
    let (host, path) = match split_https_url(asset_url) {
        Ok(p) => p,
        Err(e) => {
            return Err(e);
        },
    };
    let host_chars = chars_of(host.as_str());
    let github = chars_of("github.com");
    let path_chars = chars_of(path.as_str());
    let expected = chars_of(GITHUB_RELEASE_DOWNLOAD_PATH);
    if !equal_ignore_case(host_chars.as_slice(), github.as_slice()) || !starts_with(
        path_chars.as_slice(),
        expected.as_slice(),
    ) {
        return Err(String::from_str("GitHub Release Launcher 安装包地址无效"));
    }
    Ok((host, path))
}

/// A downloaded launcher asset, refused when it is empty.
pub fn accept_launcher_asset(body: Vec<u8>) -> (r: Result<Vec<u8>, String>)
    ensures
        body@.len() == 0 ==> (r matches Err(e) && e@ == "GitHub Release Launcher 安装包为空"@),
        body@.len() > 0 ==> r == Ok::<Vec<u8>, String>(body),
{
    if body.len() == 0 {
        return Err(String::from_str("GitHub Release Launcher 安装包为空"));
    }
    Ok(body)
}

/// An HTTP status is accepted when it is in `200..300`.
pub fn check_status(status_code: u32) -> (r: Result<(), String>)
    ensures
        200 <= status_code < 300 ==> r is Ok,
        !(200 <= status_code < 300) ==> (r matches Err(e) && e@ == "更新服务返回 HTTP "@ + decimal(
            status_code as nat,
        )),
{
    if 200 <= status_code && status_code < 300 {
        return Ok(());
    }
    let digits = decimal_chars(status_code as u128);
    let mut message = String::from_str("更新服务返回 HTTP ");
    let d = string_of(digits.as_slice());
    message.append(d.as_str());
    Err(message)
}

/// The `User-Agent` of update requests.
pub fn user_agent(launcher_version: &str) -> (r: String)
    ensures
        r@ == "DeepSeekHarnessLauncher/"@ + launcher_version@,
{
    String::from_str("DeepSeekHarnessLauncher/").concat(launcher_version)
}

proof fn lemma_first_index_of(s: Seq<char>, c: char, i: int)
    requires
        0 <= i < s.len(),
        s[i] == c,
        forall|j: int| 0 <= j < i ==> s[j] != c,
    ensures
        first_index_of(s, c) == i,
    decreases i,
{
    if i > 0 {
        assert forall|j: int| 0 <= j < i - 1 implies s.drop_first()[j] != c by {
            assert(s.drop_first()[j] == s[j + 1]);
        }
        lemma_first_index_of(s.drop_first(), c, i - 1);
    }
}

/// Every release that `latest_launcher_release` accepts can be downloaded: its asset address
/// passes `launcher_asset_location`, which reads it as the host `github.com` and the path
/// that follows.
pub proof fn accepted_releases_can_be_downloaded(release: LatestRelease)
    ensures
        spec_launcher_release(release) matches Ok(v) ==> spec_launcher_asset_location(
            v.asset_url,
        ) == Ok::<(Seq<char>, Seq<char>), Seq<char>>(
            ("github.com"@, v.asset_url.subrange(18, v.asset_url.len() as int)),
        ),
{
    if let Ok(v) = spec_launcher_release(release) {
        let url = v.asset_url;
        reveal_strlit("https://github.com/LiarCoder/DeepSeekHarnessLauncher/releases/download/");
        reveal_strlit("/LiarCoder/DeepSeekHarnessLauncher/releases/download/");
        reveal_strlit("https://");
        reveal_strlit("github.com");
        let prefix = GITHUB_RELEASE_ASSET_PREFIX@;
        assert(has_prefix(url, prefix));
        assert(url.subrange(0, 71) == prefix);
        assert forall|j: int| 0 <= j < 71 implies url[j] == prefix[j] by {
            assert(url.subrange(0, 71)[j] == url[j]);
        }
        assert(url.subrange(0, 8) =~= "https://"@);
        let remainder = url.subrange(8, url.len() as int);
        assert(remainder[10] == '/');
        assert forall|j: int| 0 <= j < 10 implies remainder[j] != '/' by {
            assert(remainder[j] == url[j + 8]);
        }
        lemma_first_index_of(remainder, '/', 10);
        let host = remainder.subrange(0, 10);
        let path = remainder.subrange(10, remainder.len() as int);
        assert(host =~= "github.com"@);
        assert(path =~= url.subrange(18, url.len() as int));
        assert(path.subrange(0, 53) =~= GITHUB_RELEASE_DOWNLOAD_PATH@);
        assert(spec_split_https_url(url) == Ok::<(Seq<char>, Seq<char>), Seq<char>>((host, path)));
    }
}

} // verus!
