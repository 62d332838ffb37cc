use idm_rs::{idman, Mode, DEFAULT_IDM_PATH};

fn strings(v: &[&str]) -> Vec<String> {
    v.iter().map(|s| s.to_string()).collect()
}

#[test]
fn defaults_with_url_only() {
    let mut d = idman::new();
    d.set_download_file_url("https://example.com/f.exe");
    assert_eq!(d.process_args(), strings(&["/d", "https://example.com/f.exe"]));
}

#[test]
fn silent_with_all_fields() {
    let mut d = idman::new();
    d.set_mode(Mode::Silent);
    d.set_download_file_url("https://example.com/f.exe");
    d.set_download_file_path("/tmp");
    d.set_download_file_name("f.exe");
    assert_eq!(
        d.process_args(),
        strings(&["/n", "/d", "https://example.com/f.exe", "/p", "/tmp", "/f", "f.exe"])
    );
}

#[test]
fn fresh_request_has_default_tool_and_empty_url() {
    let d = idman::new();
    assert_eq!(d.idm_path(), DEFAULT_IDM_PATH);
    assert_eq!(
        d.idm_path(),
        "C:\\Program Files (x86)\\Internet Download Manager\\IDMan.exe"
    );
    assert_eq!(d.process_args(), strings(&["/d", ""]));
}

#[test]
fn tool_path_can_be_overridden() {
    let mut d = idman::new();
    d.set_idm_path("D:\\Tools\\IDMan.exe");
    assert_eq!(d.idm_path(), "D:\\Tools\\IDMan.exe");
    d.set_idm_path("/opt/idm/IDMan.exe");
    assert_eq!(d.idm_path(), "/opt/idm/IDMan.exe");
}

#[test]
fn asking_twice_gives_the_same_list() {
    let mut d = idman::new();
    d.set_mode(Mode::Silent);
    d.set_download_file_url("https://example.com/a.zip");
    d.set_download_file_name("a.zip");
    let first = d.process_args();
    let second = d.process_args();
    assert_eq!(first, second);
}

#[test]
fn silence_flag_follows_the_mode() {
    let mut d = idman::new();
    d.set_download_file_url("u");
    d.set_mode(Mode::Silent);
    assert_eq!(d.process_args(), strings(&["/n", "/d", "u"]));
    d.set_mode(Mode::Default);
    assert_eq!(d.process_args(), strings(&["/d", "u"]));
    assert!(!d.process_args().contains(&"/n".to_string()));
}

#[test]
fn source_pair_follows_the_silence_flag() {
    let mut d = idman::new();
    d.set_mode(Mode::Silent);
    d.set_download_file_url("https://example.com/x");
    let a = d.process_args();
    assert_eq!(a[1], "/d");
    assert_eq!(a[2], "https://example.com/x");
}

#[test]
fn name_without_directory() {
    let mut d = idman::new();
    d.set_download_file_url("u");
    d.set_download_file_name("file.bin");
    assert_eq!(d.process_args(), strings(&["/d", "u", "/f", "file.bin"]));
}

#[test]
fn directory_without_name() {
    let mut d = idman::new();
    d.set_download_file_url("u");
    d.set_download_file_path("C:\\Downloads");
    assert_eq!(d.process_args(), strings(&["/d", "u", "/p", "C:\\Downloads"]));
}

#[test]
fn setters_overwrite_earlier_values() {
    let mut d = idman::new();
    d.set_download_file_url("first");
    d.set_download_file_url("second");
    d.set_download_file_path("/a");
    d.set_download_file_path("/b");
    d.set_download_file_name("x.txt");
    d.set_download_file_name("y.txt");
    assert_eq!(
        d.process_args(),
        strings(&["/d", "second", "/p", "/b", "/f", "y.txt"])
    );
}
