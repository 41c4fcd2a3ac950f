use chromedriver_fetch::driver::{ChromeDriver, Driver};
use chromedriver_fetch::errors::FetchError;
use chromedriver_fetch::fetch::{download_url, parse_download_url};
use chromedriver_fetch::introspect::{extract_version_from_output, introspection_command, ChromeType};
use chromedriver_fetch::platform::{detect_platform, os_type, OSType, PlatformTag};
use chromedriver_fetch::registry::{interpret_registry_response, latest_release_url, trim};
use chromedriver_fetch::text::{find_char, split_spaces, str_eq};
use chromedriver_fetch::version::find_version;

const BASE: &str = "https://chromedriver.storage.googleapis.com/";

#[test]
fn os_names() {
    assert_eq!(OSType::Windows.to_string(), "win");
    assert_eq!(OSType::Mac.to_string(), "mac");
    assert_eq!(OSType::Linux.to_string(), "linux");
}

#[test]
fn detect_linux_64() {
    let p = detect_platform("linux", "x86_64");
    assert_eq!(p.os, OSType::Linux);
    assert!(p.wide);
    assert_eq!(os_type(&p), "linux64");
}

#[test]
fn detect_windows_forces_32() {
    let p = detect_platform("windows", "x86_64");
    assert_eq!(p.os, OSType::Windows);
    assert!(!p.wide);
    assert_eq!(os_type(&p), "win32");
}

#[test]
fn detect_mac_and_32bit() {
    assert_eq!(os_type(&detect_platform("macos", "aarch64")), "mac64");
    assert_eq!(os_type(&detect_platform("linux", "x86")), "linux32");
}

#[test]
fn detect_unknown_falls_back_to_linux() {
    let p = detect_platform("freebsd", "x86_64");
    assert_eq!(p.os, OSType::Linux);
    assert_eq!(os_type(&p), "linux64");
}

#[test]
fn detect_is_idempotent() {
    let a = detect_platform("windows", "aarch64");
    let b = detect_platform("windows", "aarch64");
    assert_eq!(a, b);
    assert_eq!(os_type(&a), os_type(&b));
}

#[test]
fn scan_takes_leftmost_version() {
    let out = "Google Chrome 93.0.4577.82 ";
    assert_eq!(find_version(out), Some("93.0.4577".to_string()));
}

#[test]
fn scan_skips_broken_starts() {
    assert_eq!(find_version("12a3.4.5"), Some("3.4.5".to_string()));
    assert_eq!(find_version("version 104.0.5112"), Some("104.0.5112".to_string()));
}

#[test]
fn scan_rejects_partial_versions() {
    assert_eq!(find_version("1.2 and 3.4"), None);
    assert_eq!(find_version("no digits here"), None);
    assert_eq!(find_version("7."), None);
    assert_eq!(find_version(""), None);
}

#[test]
fn extract_version_ok() {
    let cmd = "google-chrome --version";
    let r = extract_version_from_output(cmd, Some("Google Chrome 93.0.4577.82".to_string()));
    assert_eq!(r, Ok("93.0.4577".to_string()));
}

#[test]
fn missing_output_is_process_error() {
    let cmd = "google-chrome --version";
    let r = extract_version_from_output(cmd, None);
    assert!(matches!(r, Err(FetchError::Process(ref c)) if c == cmd));
    let r = extract_version_from_output(cmd, Some(String::new()));
    assert!(matches!(r, Err(FetchError::Process(ref c)) if c == cmd));
}

#[test]
fn patternless_output_is_introspection_error() {
    let cmd = "chromium --version";
    let r = extract_version_from_output(cmd, Some("command not found".to_string()));
    assert!(matches!(r, Err(FetchError::Introspection(ref c)) if c == cmd));
}

#[test]
fn edge_on_linux_is_unsupported() {
    let r = introspection_command(&ChromeType::MSEDGE, &OSType::Linux);
    assert!(matches!(r, Err(FetchError::UnsupportedPlatform)));
}

#[test]
fn every_other_pair_has_a_command() {
    let families = [ChromeType::GOOGLE, ChromeType::CHROMIUM, ChromeType::MSEDGE];
    let oses = [OSType::Windows, OSType::Mac, OSType::Linux];
    for family in families {
        for os in oses {
            let r = introspection_command(&family, &os);
            if matches!(family, ChromeType::MSEDGE) && matches!(os, OSType::Linux) {
                assert!(r.is_err());
            } else {
                assert!(r.is_ok());
            }
        }
    }
}

#[test]
fn command_strings_are_the_known_procedures() {
    let r = introspection_command(&ChromeType::GOOGLE, &OSType::Linux).unwrap();
    assert_eq!(
        r,
        "google-chrome --version 2>/dev/null || google-chrome-stable --version 2>/dev/null"
    );
    let r = introspection_command(&ChromeType::GOOGLE, &OSType::Windows).unwrap();
    assert_eq!(
        r,
        "reg query HKEY_CURRENT_USER\\Software\\Google\\Chrome\\BLBeacon /v version"
    );
}

#[test]
fn release_lookup_url() {
    let url = latest_release_url("93.0.4577");
    assert_eq!(url, format!("{}LATEST_RELEASE_93.0.4577", BASE));
}

#[test]
fn registry_answer_is_trimmed_body() {
    let url = format!("{}LATEST_RELEASE_93.0.4577", BASE);
    let r = interpret_registry_response(&url, 200, "93.0.4577.63\n");
    assert_eq!(r, Ok("93.0.4577.63".to_string()));
}

#[test]
fn registry_404_is_registry_error() {
    let url = format!("{}LATEST_RELEASE_93.0.4577", BASE);
    let r = interpret_registry_response(&url, 404, "NoSuchKey");
    assert!(matches!(r, Err(FetchError::Registry(ref u)) if u == &url));
}

#[test]
fn registry_empty_body_is_registry_error() {
    let url = format!("{}LATEST_RELEASE_93.0.4577", BASE);
    let r = interpret_registry_response(&url, 200, " \r\n");
    assert!(matches!(r, Err(FetchError::Registry(ref u)) if u == &url));
}

#[test]
fn download_url_for_resolved_release() {
    let p = detect_platform("linux", "x86_64");
    let url = download_url("93.0.4577.63", &p);
    assert_eq!(url, format!("{}93.0.4577.63/chromedriver_linux64.zip", BASE));
}

#[test]
fn download_url_round_trip() {
    let p = detect_platform("windows", "x86_64");
    let url = download_url("93.0.4577.63", &p);
    let parsed = parse_download_url(&url);
    assert_eq!(
        parsed,
        Some(("93.0.4577.63".to_string(), "win32".to_string()))
    );
}

#[test]
fn parse_rejects_foreign_urls() {
    assert_eq!(parse_download_url("https://example.com/x/chromedriver_win32.zip"), None);
    assert_eq!(parse_download_url(BASE), None);
    assert_eq!(parse_download_url(&format!("{}norelease.zip", BASE)), None);
}

#[test]
fn trim_strips_ascii_whitespace() {
    assert_eq!(trim("  93.0.4577.63\r\n"), "93.0.4577.63");
    assert_eq!(trim("a b"), "a b");
    assert_eq!(trim(" \t "), "");
}

#[test]
fn commands_split_into_argv() {
    let argv = split_spaces("reg query HKX /v version");
    assert_eq!(argv, vec!["reg", "query", "HKX", "/v", "version"]);
    assert_eq!(split_spaces("one"), vec!["one"]);
    assert_eq!(split_spaces("a  b"), vec!["a", "", "b"]);
}

#[test]
fn text_helpers() {
    assert!(str_eq("abc", "abc"));
    assert!(!str_eq("abc", "abd"));
    assert!(!str_eq("abc", "ab"));
    assert_eq!(find_char("ab/cd", '/'), Some(2));
    assert_eq!(find_char("abcd", '/'), None);
}

#[test]
fn driver_exposes_pipeline_outputs() {
    let d = ChromeDriver {
        name: "chromedriver".to_string(),
        url: format!("{}93.0.4577.63/chromedriver_linux64.zip", BASE),
        version: "93.0.4577".to_string(),
        latest_release_url: "93.0.4577.63".to_string(),
        chrome_type: ChromeType::GOOGLE,
        browser_version: "93.0.4577".to_string(),
    };
    assert_eq!(d.get_name(), "chromedriver");
    assert_eq!(d.get_version(), "93.0.4577");
    assert_eq!(d.get_latest_release_version(), "93.0.4577.63");
    assert!(d.get_url().ends_with("chromedriver_linux64.zip"));
}
