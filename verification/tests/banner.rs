use whitebox_cli::banner::{
    exe_name, help_text, license_text, replace_all, version_text, HELP_TEMPLATE, LICENSE_TEXT,
    VERSION_HEAD, VERSION_TAIL,
};

#[test]
fn replace_all_agrees_with_the_standard_library() {
    let cases = [
        ("", "a", "b"),
        ("aaa", "a", "b"),
        ("aaa", "aa", "b"),
        ("aaaa", "aa", "a"),
        ("abcabc", "bc", ""),
        ("abcabc", "abcabc", "x"),
        ("abcabc", "abcabcd", "x"),
        ("--cd=\"*path*to*data*\"", "*", "/"),
        ("--cd=\"*path*to*data*\"", "*", "\\"),
        ("a*b", "*", "**"),
        ("é𝄞é", "𝄞", "--"),
        ("xEXE_NAMEEXE_NAME", "EXE_NAME", "whitebox-tools.exe"),
    ];
    for (s, pattern, with) in cases {
        assert_eq!(replace_all(s, pattern, with), s.replace(pattern, with), "{:?}", (s, pattern, with));
    }
}

#[test]
fn replace_all_with_an_empty_pattern_changes_nothing() {
    assert_eq!(replace_all("abc", "", "x"), "abc");
    assert_eq!(replace_all("", "", "x"), "");
}

#[test]
fn exe_name_by_platform() {
    assert_eq!(exe_name(false), "whitebox-tools");
    assert_eq!(exe_name(true), "whitebox-tools.exe");
}

#[test]
fn help_text_fills_in_separator_and_program_file() {
    let unix = help_text("/", false);
    assert_eq!(unix, HELP_TEMPLATE.replace("*", "/").replace("EXE_NAME", "whitebox-tools"));
    assert!(unix.starts_with("WhiteboxTools Help\n\nThe following commands are recognized:\n"));
    assert!(unix.ends_with(
        ">> ./whitebox-tools -r=lidar_info --cd=\"/path/to/data/\" -i=input.las --vlr --geokeys\n"
    ));
    let windows = help_text("\\", true);
    assert!(windows.ends_with(
        ">> .\\whitebox-tools.exe -r=lidar_info --cd=\"\\path\\to\\data\\\" -i=input.las --vlr --geokeys\n"
    ));
    assert!(!unix.contains('*'));
    assert!(!unix.contains("EXE_NAME"));
}

#[test]
fn license_text_is_the_license() {
    assert_eq!(license_text(), LICENSE_TEXT);
    assert!(license_text().starts_with("WhiteboxTools License\nCopyright 2017-2019 John Lindsay\n"));
}

#[test]
fn version_text_holds_the_version() {
    assert_eq!(version_text("0.16.0"), format!("{}0.16.0{}", VERSION_HEAD, VERSION_TAIL));
    assert!(version_text("0.16.0").starts_with("WhiteboxTools v0.16.0 by Dr. John B. Lindsay (c) 2017-2019\n"));
    assert!(version_text("unknown").ends_with("for more details."));
}
