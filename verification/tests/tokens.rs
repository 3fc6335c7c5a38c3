use whitebox_cli::token::{carries_omitted_mark, classify, Terminal, Token, OMITTED_VALUE_MARK};

const PROGRAM: &str = "whitebox_tools";

fn s(text: &str) -> String {
    text.to_string()
}

#[test]
fn help_flag_in_any_letter_case() {
    for flag in ["-h", "--h", "-help", "--help", "-H", "--H", "-HELP", "--Help", "--hElP"] {
        assert_eq!(classify(flag, PROGRAM), Token::Help, "{}", flag);
    }
}

#[test]
fn near_misses_of_the_help_flag() {
    assert_eq!(classify("---h", PROGRAM), Token::Forwarded { arg: s("---h") });
    assert_eq!(classify("-helpme", PROGRAM), Token::Forwarded { arg: s("-helpme") });
    assert_eq!(classify("--help ", PROGRAM), Token::Forwarded { arg: s("--help ") });
    assert_eq!(classify("help", PROGRAM), Token::Bare { word: s("help"), raw: s("help") });
}

#[test]
fn other_flags_are_case_sensitive() {
    assert_eq!(classify("--CD=/data", PROGRAM), Token::Forwarded { arg: s("--CD=/data") });
    assert_eq!(classify("--Run=Slope", PROGRAM), Token::Forwarded { arg: s("--Run=Slope") });
    assert_eq!(classify("-R", PROGRAM), Token::Forwarded { arg: s("-R") });
    assert_eq!(classify("--ListTools", PROGRAM), Token::Forwarded { arg: s("--ListTools") });
    assert_eq!(classify("--VERSION", PROGRAM), Token::Forwarded { arg: s("--VERSION") });
    assert_eq!(classify("-L", PROGRAM), Token::Forwarded { arg: s("-L") });
}

#[test]
fn working_dir_flag_with_and_without_value() {
    assert_eq!(classify("--cd=/data", PROGRAM), Token::WorkingDir { value: s("/data") });
    assert_eq!(classify("--wd=\"/my data/\"", PROGRAM), Token::WorkingDir { value: s("/my data/") });
    assert_eq!(classify("-cd='/data'", PROGRAM), Token::WorkingDir { value: s("/data") });
    assert_eq!(classify("-wd=C:\\data", PROGRAM), Token::WorkingDir { value: s("C:\\data") });
    assert_eq!(classify("--cd", PROGRAM), Token::WorkingDir { value: s("") });
    assert_eq!(classify("--wd=", PROGRAM), Token::WorkingDir { value: s("") });
    assert_eq!(classify("--cd=\"\"", PROGRAM), Token::WorkingDir { value: s("") });
    assert_eq!(classify("--cd/data", PROGRAM), Token::WorkingDir { value: s("/data") });
}

#[test]
fn alias_is_cut_from_the_front_only() {
    assert_eq!(
        classify("--wd=/home/me/my-wd/-cd", PROGRAM),
        Token::WorkingDir { value: s("/home/me/my-wd/-cd") }
    );
    assert_eq!(classify("-r=Slope-run", PROGRAM), Token::Run { name: s("Slope-run") });
}

#[test]
fn only_one_leading_equals_sign_is_cut() {
    assert_eq!(classify("--run==Slope", PROGRAM), Token::Run { name: s("=Slope") });
    assert_eq!(classify("--run=\"=Slope\"", PROGRAM), Token::Run { name: s("=Slope") });
    assert_eq!(classify("--run\"=Slope\"", PROGRAM), Token::Run { name: s("=Slope") });
    assert_eq!(classify("--run=a=b", PROGRAM), Token::Run { name: s("a=b") });
}

#[test]
fn run_flag_in_its_three_spellings() {
    assert_eq!(classify("--run=Slope", PROGRAM), Token::Run { name: s("Slope") });
    assert_eq!(classify("-run=Slope", PROGRAM), Token::Run { name: s("Slope") });
    assert_eq!(classify("-r=Slope", PROGRAM), Token::Run { name: s("Slope") });
    assert_eq!(classify("-r", PROGRAM), Token::Run { name: s("") });
    assert_eq!(classify("-r=\"LidarInfo\"", PROGRAM), Token::Run { name: s("LidarInfo") });
    assert_eq!(classify("-raster", PROGRAM), Token::Run { name: s("aster") });
    assert_eq!(classify("--runner", PROGRAM), Token::Run { name: s("ner") });
}

#[test]
fn flags_that_name_a_tool() {
    assert_eq!(classify("--toolhelp=Slope", PROGRAM), Token::ToolHelp { name: s("Slope") });
    assert_eq!(classify("-toolhelp=\"Slope\"", PROGRAM), Token::ToolHelp { name: s("Slope") });
    assert_eq!(
        classify("--toolparameters='LidarInfo'", PROGRAM),
        Token::ToolParameters { name: s("LidarInfo") }
    );
    assert_eq!(classify("-toolparameters", PROGRAM), Token::ToolParameters { name: s("") });
    assert_eq!(classify("--toolbox=Slope", PROGRAM), Token::Toolbox { name: s("Slope") });
    assert_eq!(classify("-toolbox=Slope", PROGRAM), Token::Toolbox { name: s("Slope") });
    assert_eq!(classify("--toolbox", PROGRAM), Token::Toolbox { name: s("") });
    assert_eq!(classify("--viewcode=Slope", PROGRAM), Token::ViewCode { name: s("Slope") });
    assert_eq!(classify("-viewcode=\"Slope\"", PROGRAM), Token::ViewCode { name: s("Slope") });
}

#[test]
fn list_tools_flag() {
    for flag in ["--listtools", "-listtools", "--list_tools", "-list_tools", "--listtools=x"] {
        assert_eq!(classify(flag, PROGRAM), Token::ListTools, "{}", flag);
    }
}

#[test]
fn license_flag() {
    for flag in ["-l", "-license", "-licence", "--license", "--licence", "-lidar"] {
        assert_eq!(classify(flag, PROGRAM), Token::License, "{}", flag);
    }
    assert_eq!(classify("--l", PROGRAM), Token::Forwarded { arg: s("--l") });
}

#[test]
fn version_flag() {
    for flag in ["-version", "--version", "-V", "--version=1"] {
        assert_eq!(classify(flag, PROGRAM), Token::Version, "{}", flag);
    }
    assert_eq!(classify("-Vv", PROGRAM), Token::Forwarded { arg: s("-Vv") });
}

#[test]
fn verbose_flag_is_exact_but_for_white_space() {
    assert_eq!(classify("-v", PROGRAM), Token::Verbose);
    assert_eq!(classify(" -v", PROGRAM), Token::Verbose);
    assert_eq!(classify("-v \t", PROGRAM), Token::Verbose);
    assert_eq!(classify("--v", PROGRAM), Token::Forwarded { arg: s("--v") });
    assert_eq!(classify("-verbose", PROGRAM), Token::Forwarded { arg: s("-verbose") });
    assert_eq!(classify("-vv", PROGRAM), Token::Forwarded { arg: s("-vv") });
}

#[test]
fn other_options_are_forwarded_as_written() {
    assert_eq!(classify("--data.tif", PROGRAM), Token::Forwarded { arg: s("--data.tif") });
    assert_eq!(
        classify("--input='DEM clipped.dep'", PROGRAM),
        Token::Forwarded { arg: s("--input='DEM clipped.dep'") }
    );
    assert_eq!(classify("-i=input.las ", PROGRAM), Token::Forwarded { arg: s("-i=input.las ") });
    assert_eq!(classify("-", PROGRAM), Token::Forwarded { arg: s("-") });
}

#[test]
fn option_with_the_omitted_mark_is_dropped() {
    assert_eq!(OMITTED_VALUE_MARK, "-17976931348623157");
    assert_eq!(classify("-17976931348623157", PROGRAM), Token::Omitted);
    assert_eq!(classify("--min_val=-17976931348623157.0", PROGRAM), Token::Omitted);
    assert_eq!(
        classify("--min_val=17976931348623157", PROGRAM),
        Token::Forwarded { arg: s("--min_val=17976931348623157") }
    );
}

#[test]
fn omitted_mark_predicate() {
    assert!(carries_omitted_mark("-17976931348623157"));
    assert!(carries_omitted_mark("--max=-1797693134862315700000"));
    assert!(!carries_omitted_mark("--max=-1797693134862315"));
    assert!(!carries_omitted_mark(""));
}

#[test]
fn program_name_is_recognised_by_equality() {
    assert_eq!(classify("whitebox_tools", PROGRAM), Token::ProgramName);
    assert_eq!(classify("./wbt", "./wbt"), Token::ProgramName);
    assert_eq!(
        classify("./whitebox_tools", PROGRAM),
        Token::Bare { word: s("./whitebox_tools"), raw: s("./whitebox_tools") }
    );
}

#[test]
fn bare_argument_keeps_its_raw_form_beside_the_word() {
    assert_eq!(classify("slope", PROGRAM), Token::Bare { word: s("slope"), raw: s("slope") });
    assert_eq!(
        classify(" \"my file.tif\" ", PROGRAM),
        Token::Bare { word: s("my file.tif"), raw: s(" \"my file.tif\" ") }
    );
    assert_eq!(classify("", PROGRAM), Token::Bare { word: s(""), raw: s("") });
    assert_eq!(
        classify("x-17976931348623157", PROGRAM),
        Token::Bare { word: s("x-17976931348623157"), raw: s("x-17976931348623157") }
    );
}

#[test]
fn terminal_flags() {
    assert_eq!(Token::Help.terminal(), Some(Terminal::Help));
    assert_eq!(Token::License.terminal(), Some(Terminal::License));
    assert_eq!(Token::Version.terminal(), Some(Terminal::Version));
    assert_eq!(Token::Verbose.terminal(), None);
    assert_eq!(Token::ListTools.terminal(), None);
    assert_eq!(Token::Run { name: s("Slope") }.terminal(), None);
}
