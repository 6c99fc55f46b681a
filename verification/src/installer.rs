//! Release-channel bookkeeping for fetching the engine: which channel is
//! wanted, where its version index lives, which archive fits this platform,
//! and which links to try for an asset.  Fetching itself — the network and
//! the archive on disk — stays outside; everything here computes from plain
//! values.

use vstd::prelude::*;

use crate::json::chars_to_string;
use crate::json::dec_digits;
use crate::json::push_str_chars;
use crate::json::write_digits;
use crate::task::str_eq;
use crate::task::strs_view;

verus! {

/// Why no asset could be named or found.
#[derive(Clone, Copy, Debug, PartialEq, Eq, Structural)]
pub enum InstallError {
    /// No asset of the wanted name is in the release.
    AssetNotFound,
    /// The operating system has no packaged engine.
    UnsupportedPlatform,
    /// The processor architecture has no packaged engine.
    UnsupportedArch,
}

/// A release channel of the engine.
#[derive(Clone, Copy, Debug, PartialEq, Eq, Structural)]
pub enum Channel {
    /// Tagged stable releases.
    Stable,
    /// Pre-release builds.
    Beta,
    /// Nightly builds.
    Alpha,
}

/// The channel's name as it appears in the version index.
pub open spec fn channel_text(c: Channel) -> Seq<char> {
    match c {
        Channel::Stable => "stable"@,
        Channel::Beta => "beta"@,
        Channel::Alpha => "alpha"@,
    }
}

impl Channel {
    /// The channel's name as it appears in the version index.
    pub fn name(&self) -> (r: &'static str)
        ensures
            r@ == channel_text(*self),
    {
        match self {
            Channel::Stable => "stable",
            Channel::Beta => "beta",
            Channel::Alpha => "alpha",
        }
    }
}

/// An engine version: three release numbers.
#[derive(Clone, Copy, Debug, PartialEq, Eq, Structural)]
pub struct Version {
    /// The major release number.
    pub major: u64,
    /// The minor release number.
    pub minor: u64,
    /// The patch release number.
    pub patch: u64,
}

/// The dotted text of a version.
pub open spec fn version_text(v: Version) -> Seq<char> {
    dec_digits(v.major as nat) + seq!['.'] + dec_digits(v.minor as nat) + seq!['.'] + dec_digits(
        v.patch as nat,
    )
}

impl Version {
    /// The dotted text of this version.
    pub fn to_text(&self) -> (r: String)
        ensures
            r@ == version_text(*self),
    {
        let mut out: Vec<char> = Vec::new();
        write_digits(&mut out, self.major);
        out.push('.');
        write_digits(&mut out, self.minor);
        out.push('.');
        write_digits(&mut out, self.patch);
        proof {
            assert(out@ =~= version_text(*self));
        }
        chars_to_string(out)
    }
}

/// One downloadable file of a release.
#[derive(Clone, Debug)]
pub struct Asset {
    /// The file name of the asset.
    pub name: String,
    /// The size of the asset, in bytes.
    pub size: u64,
    /// The canonical download link.
    pub browser_download_url: String,
    /// Alternative download links.
    pub mirrors: Vec<String>,
}

impl Asset {
    /// The file name of the asset.
    pub fn name(&self) -> (r: &str)
        ensures
            r@ == self.name@,
    {
        self.name.as_str()
    }

    /// The size of the asset, in bytes.
    pub fn size(&self) -> (r: u64)
        ensures
            r == self.size,
    {
        self.size
    }

    /// Every link worth trying, the canonical one first, then the mirrors
    /// in their listed order.
    pub fn download_links(&self) -> (r: Vec<String>)
        ensures
            strs_view(r@) == seq![self.browser_download_url@] + strs_view(self.mirrors@),
    {
        let mut links: Vec<String> = Vec::new();
        links.push(self.browser_download_url.clone());
        let mut i: usize = 0;
        while i < self.mirrors.len()
            invariant
                i <= self.mirrors@.len(),
                links@.len() == i + 1,
                links@[0]@ == self.browser_download_url@,
                forall|j: int| 0 <= j < i ==> links@[j + 1]@ == self.mirrors@[j]@,
            decreases self.mirrors@.len() - i,
        {
            links.push(self.mirrors[i].clone());
            i = i + 1;
        }
        proof {
            assert(strs_view(links@) =~= seq![self.browser_download_url@] + strs_view(
                self.mirrors@,
            ));
        }
        links
    }
}

/// The first asset of a release with the given name, if any.
pub open spec fn find_asset(assets: Seq<Asset>, name: Seq<char>) -> Option<int>
    decreases assets.len(),
{
    if assets.len() == 0 {
        Option::None
    } else if assets[0].name@ == name {
        Option::Some(0)
    } else {
        match find_asset(assets.skip(1), name) {
            Option::Some(i) => Option::Some(i + 1),
            Option::None => Option::None,
        }
    }
}

/// The downloadable files of one release.
#[derive(Clone, Debug)]
pub struct Details {
    /// The assets of the release.
    pub assets: Vec<Asset>,
}

impl Details {
    /// The first asset with the given name; `AssetNotFound` where none has
    /// it.
    pub fn asset(&self, name: &str) -> (r: Result<&Asset, InstallError>)
        ensures
            match find_asset(self.assets@, name@) {
                Option::Some(i) => r matches Result::Ok(a) && *a == self.assets@[i],
                Option::None => r == Result::<&Asset, InstallError>::Err(
                    InstallError::AssetNotFound,
                ),
            },
    {
        proof {
            assert(self.assets@.skip(0) =~= self.assets@);
        }
        let mut i: usize = 0;
        let n = self.assets.len();
        while i < n
            invariant
                n == self.assets@.len(),
                i <= n,
                find_asset(self.assets@.skip(i as int), name@) matches Option::Some(k) ==> (
                find_asset(self.assets@, name@) matches Option::Some(k2) && k2 == k + i),
                find_asset(self.assets@.skip(i as int), name@) is None ==> find_asset(
                    self.assets@,
                    name@,
                ) is None,
            decreases n - i,
        {
            proof {
                assert(self.assets@.skip(i as int)[0] == self.assets@[i as int]);
            }
            if str_eq(self.assets[i].name.as_str(), name) {
                return Result::Ok(&self.assets[i]);
            }
            proof {
                assert(self.assets@.skip(i as int).skip(1) =~= self.assets@.skip(i + 1));
            }
            i = i + 1;
        }
        proof {
            assert(self.assets@.skip(n as int).len() == 0);
        }
        Result::Err(InstallError::AssetNotFound)
    }
}

/// The address of the version index that is asked when no other is given.
pub open spec fn default_api_text() -> Seq<char> {
    "https://github.com/MaaAssistantArknights/MaaRelease/raw/main/MaaAssistantArknights/api/version/"@
}

/// Chooses a release channel and, possibly, a version index of its own.
pub struct Installer {
    /// The wanted release channel.
    pub channel: Channel,
    /// An overriding version index address, once given.
    pub api_url: Option<String>,
}

impl Installer {
    /// An installer following the stable channel.
    pub fn stable() -> (r: Installer)
        ensures
            r.channel == Channel::Stable,
            r.api_url is None,
    {
        Installer::new(Channel::Stable, Option::None)
    }

    /// An installer following the beta channel.
    pub fn beta() -> (r: Installer)
        ensures
            r.channel == Channel::Beta,
            r.api_url is None,
    {
        Installer::new(Channel::Beta, Option::None)
    }

    /// An installer following the alpha channel.
    pub fn alpha() -> (r: Installer)
        ensures
            r.channel == Channel::Alpha,
            r.api_url is None,
    {
        Installer::new(Channel::Alpha, Option::None)
    }

    /// An installer for the given channel and, possibly, an overriding
    /// version index address.
    pub fn new(channel: Channel, api_url: Option<String>) -> (r: Installer)
        ensures
            r.channel == channel,
            r.api_url == api_url,
    {
        Installer { channel, api_url }
    }

    /// The version index address in use: the overriding one where given,
    /// else the well-known one.
    pub fn api_url(&self) -> (r: String)
        ensures
            match self.api_url {
                Option::Some(u) => r@ == u@,
                Option::None => r@ == default_api_text(),
            },
    {
        match &self.api_url {
            Option::Some(u) => u.clone(),
            Option::None => {
                let mut out: Vec<char> = Vec::new();
                push_str_chars(
                    &mut out,
                    "https://github.com/MaaAssistantArknights/MaaRelease/raw/main/MaaAssistantArknights/api/version/",
                );
                proof {
                    assert(out@ =~= default_api_text());
                }
                chars_to_string(out)
            },
        }
    }

    /// The address of this channel's version index: the index address, the
    /// channel name, and the index suffix.
    pub fn version_json_url(&self) -> (r: String)
        ensures
            r@ == (match self.api_url {
                Option::Some(u) => u@,
                Option::None => default_api_text(),
            }) + seq!['/'] + channel_text(self.channel) + ".json"@,
    {
        let base = self.api_url();
        let mut out: Vec<char> = Vec::new();
        push_str_chars(&mut out, base.as_str());
        out.push('/');
        push_str_chars(&mut out, self.channel.name());
        push_str_chars(&mut out, ".json");
        proof {
            assert(out@ =~= (match self.api_url {
                Option::Some(u) => u@,
                Option::None => default_api_text(),
            }) + seq!['/'] + channel_text(self.channel) + ".json"@);
        }
        chars_to_string(out)
    }
}

/// The archive name of the engine release for a platform: fixed conventions
/// for the supported systems and architectures; any other system or
/// architecture has no packaged engine.
pub fn name(version: &Version, os: &str, arch: &str) -> (r: Result<String, InstallError>)
    ensures
        if os@ == "macos"@ {
            r matches Result::Ok(s) && s@ == "MAA-v"@ + version_text(*version)
                + "-macos-runtime-universal.zip"@
        } else if os@ == "linux"@ {
            if arch@ == "x86_64"@ {
                r matches Result::Ok(s) && s@ == "MAA-v"@ + version_text(*version)
                    + "-linux-x86_64.tar.gz"@
            } else if arch@ == "aarch64"@ {
                r matches Result::Ok(s) && s@ == "MAA-v"@ + version_text(*version)
                    + "-linux-aarch64.tar.gz"@
            } else {
                r == Result::<String, InstallError>::Err(InstallError::UnsupportedArch)
            }
        } else if os@ == "windows"@ {
            if arch@ == "x86_64"@ {
                r matches Result::Ok(s) && s@ == "MAA-v"@ + version_text(*version)
                    + "-win-x64.zip"@
            } else if arch@ == "aarch64"@ {
                r matches Result::Ok(s) && s@ == "MAA-v"@ + version_text(*version)
                    + "-win-arm64.zip"@
            } else {
                r == Result::<String, InstallError>::Err(InstallError::UnsupportedArch)
            }
        } else {
            r == Result::<String, InstallError>::Err(InstallError::UnsupportedPlatform)
        },
{
    let suffix: &str = if str_eq(os, "macos") {
        "-macos-runtime-universal.zip"
    } else if str_eq(os, "linux") {
        if str_eq(arch, "x86_64") {
            "-linux-x86_64.tar.gz"
        } else if str_eq(arch, "aarch64") {
            "-linux-aarch64.tar.gz"
        } else {
            return Result::Err(InstallError::UnsupportedArch);
        }
    } else if str_eq(os, "windows") {
        if str_eq(arch, "x86_64") {
            "-win-x64.zip"
        } else if str_eq(arch, "aarch64") {
            "-win-arm64.zip"
        } else {
            return Result::Err(InstallError::UnsupportedArch);
        }
    } else {
        return Result::Err(InstallError::UnsupportedPlatform);
    };
    let mut out: Vec<char> = Vec::new();
    push_str_chars(&mut out, "MAA-v");
    push_str_chars(&mut out, version.to_text().as_str());
    push_str_chars(&mut out, suffix);
    Result::Ok(chars_to_string(out))
}

} // verus!
