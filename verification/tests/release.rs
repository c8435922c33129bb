use css_variables::release::{
    asset_name, binary_file_name, file_kind, plan_fetch, select_asset, Arch, Asset, AssetError,
    Download, FetchPlan, FileKind, Platform, ReleaseInfo,
};

fn asset(name: &str) -> Asset {
    Asset { name: name.to_string(), download_url: format!("https://example.test/{}", name) }
}

fn release(version: &str, names: &[&str]) -> ReleaseInfo {
    ReleaseInfo { version: version.to_string(), assets: names.iter().map(|n| asset(n)).collect() }
}

const ALL_ASSETS: [&str; 6] = [
    "css-variable-lsp-macos-aarch64.tar.gz",
    "css-variable-lsp-macos-x86_64.tar.gz",
    "css-variable-lsp-linux-aarch64.tar.gz",
    "css-variable-lsp-linux-x86_64.tar.gz",
    "css-variable-lsp-windows-aarch64.zip",
    "css-variable-lsp-windows-x86_64.zip",
];

#[test]
fn asset_names_of_the_six_supported_pairs() {
    let pairs = [
        (Platform::Mac, Arch::Aarch64),
        (Platform::Mac, Arch::X8664),
        (Platform::Linux, Arch::Aarch64),
        (Platform::Linux, Arch::X8664),
        (Platform::Windows, Arch::Aarch64),
        (Platform::Windows, Arch::X8664),
    ];
    for (i, (platform, arch)) in pairs.iter().enumerate() {
        assert_eq!(asset_name(*platform, *arch), Some(ALL_ASSETS[i].to_string()));
    }
}

#[test]
fn asset_name_of_an_unsupported_architecture() {
    assert_eq!(asset_name(Platform::Mac, Arch::X86), None);
    assert_eq!(asset_name(Platform::Linux, Arch::X86), None);
    assert_eq!(asset_name(Platform::Windows, Arch::X86), None);
}

#[test]
fn select_asset_takes_the_exact_name() {
    let r = release("v0.1.9", &ALL_ASSETS);
    assert_eq!(
        select_asset(&r, Platform::Linux, Arch::X8664),
        Ok(asset("css-variable-lsp-linux-x86_64.tar.gz"))
    );
    assert_eq!(
        select_asset(&r, Platform::Windows, Arch::Aarch64),
        Ok(asset("css-variable-lsp-windows-aarch64.zip"))
    );
}

#[test]
fn select_asset_takes_the_first_of_two() {
    let mut r = release("1.0.0", &["checksums.txt", "css-variable-lsp-macos-aarch64.tar.gz"]);
    r.assets.push(Asset {
        name: "css-variable-lsp-macos-aarch64.tar.gz".to_string(),
        download_url: "https://example.test/second".to_string(),
    });
    assert_eq!(
        select_asset(&r, Platform::Mac, Arch::Aarch64),
        Ok(asset("css-variable-lsp-macos-aarch64.tar.gz"))
    );
}

#[test]
fn select_asset_reports_the_missing_name() {
    let r = release(
        "1.0.0",
        &["css-variable-lsp-linux-x86_64.tar.gz.sha256", "CSS-VARIABLE-LSP-LINUX-X86_64.TAR.GZ"],
    );
    assert_eq!(
        select_asset(&r, Platform::Linux, Arch::X8664),
        Err(AssetError::Missing { name: "css-variable-lsp-linux-x86_64.tar.gz".to_string() })
    );
    assert_eq!(
        select_asset(&release("1.0.0", &[]), Platform::Mac, Arch::X8664),
        Err(AssetError::Missing { name: "css-variable-lsp-macos-x86_64.tar.gz".to_string() })
    );
}

#[test]
fn select_asset_rejects_an_unsupported_architecture() {
    let r = release("1.0.0", &ALL_ASSETS);
    assert_eq!(select_asset(&r, Platform::Linux, Arch::X86), Err(AssetError::Unsupported));
}

#[test]
fn file_kind_goes_by_the_extension() {
    assert_eq!(file_kind("css-variable-lsp-linux-x86_64.tar.gz"), FileKind::GzipTar);
    assert_eq!(file_kind("css-variable-lsp-windows-x86_64.zip"), FileKind::Zip);
    assert_eq!(file_kind("server.gz"), FileKind::Gzip);
    assert_eq!(file_kind("server"), FileKind::Uncompressed);
    assert_eq!(file_kind("server.exe"), FileKind::Uncompressed);
    assert_eq!(file_kind(".zip"), FileKind::Zip);
    assert_eq!(file_kind("zip"), FileKind::Uncompressed);
    assert_eq!(file_kind(""), FileKind::Uncompressed);
}

#[test]
fn binary_file_name_has_an_extension_on_windows_only() {
    assert_eq!(binary_file_name(Platform::Mac), "css-variable-lsp");
    assert_eq!(binary_file_name(Platform::Linux), "css-variable-lsp");
    assert_eq!(binary_file_name(Platform::Windows), "css-variable-lsp.exe");
}

#[test]
fn plan_fetch_unpacks_an_archive_into_the_destination() {
    let a = asset("css-variable-lsp-linux-x86_64.tar.gz");
    for exists in [false, true] {
        assert_eq!(
            plan_fetch(&a, "css-variable-lsp-0.1.9", Platform::Linux, exists),
            FetchPlan {
                download: Some(Download {
                    url: a.download_url.clone(),
                    path: "css-variable-lsp-0.1.9".to_string(),
                    kind: FileKind::GzipTar,
                }),
                binary_path: None,
                mark_executable: true,
            }
        );
    }
    let z = asset("css-variable-lsp-windows-x86_64.zip");
    assert_eq!(
        plan_fetch(&z, "cache", Platform::Windows, false),
        FetchPlan {
            download: Some(Download {
                url: z.download_url.clone(),
                path: "cache".to_string(),
                kind: FileKind::Zip,
            }),
            binary_path: None,
            mark_executable: false,
        }
    );
}

#[test]
fn plan_fetch_puts_a_single_file_at_the_binary_path() {
    let a = asset("css-variable-lsp.gz");
    assert_eq!(
        plan_fetch(&a, "cache", Platform::Mac, false),
        FetchPlan {
            download: Some(Download {
                url: a.download_url.clone(),
                path: "cache/css-variable-lsp".to_string(),
                kind: FileKind::Gzip,
            }),
            binary_path: Some("cache/css-variable-lsp".to_string()),
            mark_executable: true,
        }
    );
    let b = asset("css-variable-lsp.exe");
    assert_eq!(
        plan_fetch(&b, "cache", Platform::Windows, false),
        FetchPlan {
            download: Some(Download {
                url: b.download_url.clone(),
                path: "cache/css-variable-lsp.exe".to_string(),
                kind: FileKind::Uncompressed,
            }),
            binary_path: Some("cache/css-variable-lsp.exe".to_string()),
            mark_executable: false,
        }
    );
}

#[test]
fn plan_fetch_does_not_download_a_single_file_twice() {
    let a = asset("css-variable-lsp");
    assert_eq!(
        plan_fetch(&a, "cache", Platform::Linux, true),
        FetchPlan {
            download: None,
            binary_path: Some("cache/css-variable-lsp".to_string()),
            mark_executable: true,
        }
    );
}
