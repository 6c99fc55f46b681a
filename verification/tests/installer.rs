use maa_sys::installer::Asset;
use maa_sys::installer::Channel;
use maa_sys::installer::Details;
use maa_sys::installer::InstallError;
use maa_sys::installer::Installer;
use maa_sys::installer::Version;
use maa_sys::installer::name;

fn version() -> Version {
    Version { major: 5, minor: 22, patch: 3 }
}

#[test]
fn channels_pick_their_index() {
    assert_eq!(Installer::stable().channel, Channel::Stable);
    assert_eq!(Installer::beta().channel, Channel::Beta);
    assert_eq!(Installer::alpha().channel, Channel::Alpha);

    let custom = Installer::new(Channel::Beta, Some("https://mirror.test/api".to_string()));
    assert_eq!(custom.api_url(), "https://mirror.test/api");
    assert_eq!(
        custom.version_json_url(),
        "https://mirror.test/api/beta.json"
    );

    let plain = Installer::stable();
    assert!(plain.api_url().starts_with("https://github.com/"));
    assert!(plain.version_json_url().ends_with("/stable.json"));
}

#[test]
fn asset_names_follow_the_platform() {
    let v = version();
    assert_eq!(
        name(&v, "macos", "aarch64"),
        Ok("MAA-v5.22.3-macos-runtime-universal.zip".to_string())
    );
    assert_eq!(
        name(&v, "linux", "x86_64"),
        Ok("MAA-v5.22.3-linux-x86_64.tar.gz".to_string())
    );
    assert_eq!(
        name(&v, "linux", "aarch64"),
        Ok("MAA-v5.22.3-linux-aarch64.tar.gz".to_string())
    );
    assert_eq!(
        name(&v, "windows", "x86_64"),
        Ok("MAA-v5.22.3-win-x64.zip".to_string())
    );
    assert_eq!(
        name(&v, "windows", "aarch64"),
        Ok("MAA-v5.22.3-win-arm64.zip".to_string())
    );
    assert_eq!(name(&v, "linux", "riscv64"), Err(InstallError::UnsupportedArch));
    assert_eq!(name(&v, "freebsd", "x86_64"), Err(InstallError::UnsupportedPlatform));
}

#[test]
fn version_text_is_dotted() {
    assert_eq!(version().to_text(), "5.22.3");
    assert_eq!(Version { major: 0, minor: 0, patch: 0 }.to_text(), "0.0.0");
}

fn asset(n: &str) -> Asset {
    Asset {
        name: n.to_string(),
        size: 1000 + n.len() as u64,
        browser_download_url: format!("https://canonical.test/{}", n),
        mirrors: vec![
            format!("https://m1.test/{}", n),
            format!("https://m2.test/{}", n),
        ],
    }
}

#[test]
fn asset_lookup_finds_the_first_match() {
    let details = Details { assets: vec![asset("a.zip"), asset("b.zip")] };
    let found = details.asset("b.zip").unwrap();
    assert_eq!(found.name(), "b.zip");
    assert_eq!(found.size(), 1005);
    assert!(matches!(details.asset("c.zip"), Err(InstallError::AssetNotFound)));
}

#[test]
fn asset_lookup_reports_missing_assets() {
    let details = Details { assets: vec![asset("a.zip")] };
    assert!(matches!(details.asset("missing.zip"), Err(InstallError::AssetNotFound)));
}

#[test]
fn download_links_put_the_canonical_link_first() {
    let a = asset("a.zip");
    let links = a.download_links();
    assert_eq!(
        links,
        vec![
            "https://canonical.test/a.zip".to_string(),
            "https://m1.test/a.zip".to_string(),
            "https://m2.test/a.zip".to_string(),
        ]
    );
}
