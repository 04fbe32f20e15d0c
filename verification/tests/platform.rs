use ngrok_api::client::Ngrok;
use ngrok_api::error::ClientError;
use ngrok_api::platform::{
    archive_url, Download, Platform, ARCHIVE_NAME, EXECUTABLE_MODE, NGROK_ARMLINUX,
    NGROK_ARMLINUX32, NGROK_FREEBSD, NGROK_FREEBSD32, NGROK_LINUX, NGROK_LINUX32, NGROK_MACOS,
    NGROK_WIN32, NGROK_WIN64, UNPACK_DIRECTORY,
};

fn client(arch: &str, os: &str, exe_suffix: &str) -> Ngrok {
    Ngrok::new(Platform::new(arch, os, exe_suffix))
}

#[test]
fn archive_url_knows_every_published_archive() {
    assert_eq!(archive_url("x86_64", "windows"), Some(NGROK_WIN64));
    assert_eq!(archive_url("x86", "windows"), Some(NGROK_WIN32));
    assert_eq!(archive_url("x86_64", "macos"), Some(NGROK_MACOS));
    assert_eq!(archive_url("x86_64", "linux"), Some(NGROK_LINUX));
    assert_eq!(archive_url("x86", "linux"), Some(NGROK_LINUX32));
    assert_eq!(archive_url("aarch64", "linux"), Some(NGROK_ARMLINUX));
    assert_eq!(archive_url("arm", "linux"), Some(NGROK_ARMLINUX32));
    assert_eq!(archive_url("x86_64", "freebsd"), Some(NGROK_FREEBSD));
    assert_eq!(archive_url("x86", "freebsd"), Some(NGROK_FREEBSD32));
}

#[test]
fn archive_url_spells_the_addresses_out() {
    assert_eq!(
        archive_url("x86_64", "linux"),
        Some("https://bin.equinox.io/c/4VmDzA7iaHb/ngrok-stable-linux-amd64.zip")
    );
    assert_eq!(
        archive_url("arm", "linux"),
        Some("https://bin.equinox.io/c/4VmDzA7iaHb/ngrok-stable-linux-arm.zip")
    );
    assert_eq!(
        archive_url("x86", "windows"),
        Some("https://bin.equinox.io/c/4VmDzA7iaHb/ngrok-stable-windows-386.zip")
    );
}

#[test]
fn archive_url_takes_any_architecture_on_macos() {
    assert_eq!(archive_url("aarch64", "macos"), Some(NGROK_MACOS));
    assert_eq!(archive_url("x86", "macos"), Some(NGROK_MACOS));
    assert_eq!(archive_url("", "macos"), Some(NGROK_MACOS));
}

#[test]
fn archive_url_has_nothing_for_other_machines() {
    assert_eq!(archive_url("aarch64", "windows"), None);
    assert_eq!(archive_url("aarch64", "freebsd"), None);
    assert_eq!(archive_url("riscv64", "linux"), None);
    assert_eq!(archive_url("x86_64", "netbsd"), None);
    assert_eq!(archive_url("x86_64", "Linux"), None);
    assert_eq!(archive_url("linux", "x86_64"), None);
    assert_eq!(archive_url("", ""), None);
}

#[test]
fn exe_name_appends_the_suffix() {
    assert_eq!(client("x86_64", "linux", "").exe_name(), "ngrok");
    assert_eq!(client("x86_64", "windows", ".exe").exe_name(), "ngrok.exe");
}

#[test]
fn download_plans_an_installation_on_linux() {
    let plan = client("x86_64", "linux", "").download();
    let expected = Download {
        url: NGROK_LINUX.to_string(),
        archive: "ngrok-local.zip".to_string(),
        directory: ".".to_string(),
        executable: "ngrok".to_string(),
        mode: Some(0o700),
    };
    match plan {
        Ok(plan) => assert_eq!(plan, expected),
        Err(e) => panic!("no plan for linux: {:?}", e),
    }
}

#[test]
fn download_sets_no_permission_bits_on_windows() {
    match client("x86", "windows", ".exe").download() {
        Ok(plan) => {
            assert_eq!(plan.url, NGROK_WIN32);
            assert_eq!(plan.archive, ARCHIVE_NAME);
            assert_eq!(plan.directory, UNPACK_DIRECTORY);
            assert_eq!(plan.executable, "ngrok.exe");
            assert_eq!(plan.mode, None);
        }
        Err(e) => panic!("no plan for windows: {:?}", e),
    }
}

#[test]
fn download_sets_permission_bits_on_every_unix_like_system() {
    for (arch, os) in [("aarch64", "macos"), ("arm", "linux"), ("x86", "freebsd")] {
        match client(arch, os, "").download() {
            Ok(plan) => assert_eq!(plan.mode, Some(EXECUTABLE_MODE), "on {}", os),
            Err(e) => panic!("no plan for {} {}: {:?}", arch, os, e),
        }
    }
    assert_eq!(EXECUTABLE_MODE, 448);
}

#[test]
fn download_has_no_plan_for_an_unsupported_machine() {
    for (arch, os) in [("aarch64", "windows"), ("riscv64", "linux"), ("x86_64", "solaris")] {
        match client(arch, os, "").download() {
            Err(ClientError::UnsupportedPlatform) => {}
            other => panic!("unexpected plan for {} {}: {:?}", arch, os, other),
        }
    }
}

#[test]
fn platform_keeps_the_names_it_was_given() {
    let platform = Platform::new("arm", "linux", "");
    assert_eq!(platform.arch, "arm");
    assert_eq!(platform.os, "linux");
    assert_eq!(platform.exe_suffix, "");
    let ngrok = Ngrok::new(platform);
    assert_eq!(ngrok.platform(), &Platform::new("arm", "linux", ""));
}
