use pngquant::error::{SyntaxError, SyntaxErrorKind};
use pngquant::normalize::normalize;
use pngquant::options::{Dither, ParsedOptions};

fn tokens(raw: &[&str]) -> Vec<String> {
    raw.iter().map(|t| t.to_string()).collect()
}

fn parsed(raw: &[&str]) -> ParsedOptions {
    normalize(&tokens(raw)).unwrap()
}

fn refused(raw: &[&str]) -> SyntaxError {
    normalize(&tokens(raw)).unwrap_err()
}

fn texts(raw: &[&str]) -> Vec<String> {
    tokens(raw)
}

#[test]
fn count_before_a_file_is_consumed() {
    let options = parsed(&["256", "a.png"]);
    assert_eq!(options.colors, 256);
    assert_eq!(options.files, texts(&["a.png"]));
    assert!(!options.using_stdin);
    assert!(!options.using_stdout);
}

#[test]
fn count_is_consumed_whatever_its_value() {
    for count in ["0", "1", "7", "+16", "0064", "4294967295"] {
        let options = parsed(&[count, "image.png"]);
        assert_eq!(options.colors, count.parse::<u32>().unwrap());
        assert_eq!(options.files, texts(&["image.png"]));
    }
}

#[test]
fn count_alone_reads_standard_input() {
    let options = parsed(&["42"]);
    assert_eq!(options.colors, 42);
    assert!(options.using_stdin);
    assert!(options.using_stdout);
    assert_eq!(options.files, texts(&["-"]));
    assert!(!options.missing_arguments);
}

#[test]
fn only_the_first_token_can_be_the_count() {
    let options = parsed(&["a.png", "64"]);
    assert_eq!(options.colors, 0);
    assert_eq!(options.files, texts(&["a.png", "64"]));
    let options = parsed(&["64", "32", "a.png"]);
    assert_eq!(options.colors, 64);
    assert_eq!(options.files, texts(&["32", "a.png"]));
}

#[test]
fn count_too_large_is_a_file() {
    let options = parsed(&["4294967296", "a.png"]);
    assert_eq!(options.colors, 0);
    assert_eq!(options.files, texts(&["4294967296", "a.png"]));
}

#[test]
fn count_is_found_behind_options() {
    let options = parsed(&["--speed", "3", "128", "a.png"]);
    assert_eq!(options.speed, 3);
    assert_eq!(options.colors, 128);
    assert_eq!(options.files, texts(&["a.png"]));
}

#[test]
fn output_dash_writes_to_standard_output() {
    let options = parsed(&["--output", "-", "a.png"]);
    assert!(options.using_stdout);
    assert!(!options.using_stdin);
    assert_eq!(options.output_file_path, None);
    assert_eq!(options.files, texts(&["a.png"]));
}

#[test]
fn output_path_is_kept() {
    let options = parsed(&["-o", "out.png", "a.png"]);
    assert_eq!(options.output_file_path, Some("out.png".to_string()));
    assert!(!options.using_stdout);
    let options = parsed(&["--output=b.png", "a.png"]);
    assert_eq!(options.output_file_path, Some("b.png".to_string()));
}

#[test]
fn standard_input_goes_to_standard_output() {
    let options = parsed(&["-"]);
    assert!(options.using_stdin);
    assert!(options.using_stdout);
    assert_eq!(options.files, texts(&["-"]));
    assert_eq!(options.colors, 0);
}

#[test]
fn standard_output_follows_standard_input_beside_an_output_path() {
    let options = parsed(&["-o", "out.png", "-"]);
    assert!(options.using_stdin);
    assert!(options.using_stdout);
    assert_eq!(options.output_file_path, Some("out.png".to_string()));
}

#[test]
fn dash_among_files_is_a_file() {
    let options = parsed(&["-", "a.png"]);
    assert!(!options.using_stdin);
    assert!(!options.using_stdout);
    assert_eq!(options.files, texts(&["-", "a.png"]));
}

#[test]
fn nofs_overrides_an_explicit_level() {
    let options = parsed(&["--nofs", "--floyd=0.5", "a.png"]);
    assert_eq!(options.dither, Dither::Off);
    let options = parsed(&["--floyd=0.5", "--nofs", "a.png"]);
    assert_eq!(options.dither, Dither::Off);
}

#[test]
fn ordered_disables_dithering() {
    assert_eq!(parsed(&["--ordered", "a.png"]).dither, Dither::Off);
    assert_eq!(parsed(&["--floyd=1", "--ordered", "a.png"]).dither, Dither::Off);
}

#[test]
fn dithering_is_full_unless_a_level_is_given() {
    assert_eq!(parsed(&["a.png"]).dither, Dither::Full);
    assert_eq!(parsed(&["--floyd", "a.png"]).dither, Dither::Full);
    assert_eq!(parsed(&["--floyd=0.5", "a.png"]).dither, Dither::Level("0.5".to_string()));
    assert_eq!(parsed(&["--floyd=much", "a.png"]).dither, Dither::Level("much".to_string()));
}

#[test]
fn level_after_a_space_is_a_positional_token() {
    let options = parsed(&["--floyd", "0.5", "a.png"]);
    assert_eq!(options.dither, Dither::Full);
    assert_eq!(options.colors, 0);
    assert_eq!(options.files, texts(&["0.5", "a.png"]));
}

#[test]
fn unknown_flag_is_a_syntax_error() {
    let error = refused(&["--bogus-flag"]);
    assert_eq!(error.kind, SyntaxErrorKind::UnrecognizedOption);
    assert_eq!(error.option, "bogus-flag");
    let error = refused(&["-x", "a.png"]);
    assert_eq!(error.kind, SyntaxErrorKind::UnrecognizedOption);
    assert_eq!(error.option, "x");
}

#[test]
fn option_without_its_value_is_a_syntax_error() {
    let error = refused(&["a.png", "--speed"]);
    assert_eq!(error.kind, SyntaxErrorKind::ArgumentMissing);
    assert_eq!(error.option, "speed");
}

#[test]
fn flag_with_a_value_is_a_syntax_error() {
    let error = refused(&["--verbose=yes", "a.png"]);
    assert_eq!(error.kind, SyntaxErrorKind::UnexpectedArgument);
    assert_eq!(error.option, "verbose");
}

#[test]
fn option_given_twice_is_a_syntax_error() {
    let error = refused(&["-v", "--verbose", "a.png"]);
    assert_eq!(error.kind, SyntaxErrorKind::OptionDuplicated);
    assert_eq!(error.option, "verbose");
}

#[test]
fn two_files_without_a_count() {
    let options = parsed(&["a.png", "b.png"]);
    assert!(!options.using_stdin);
    assert!(!options.using_stdout);
    assert_eq!(options.colors, 0);
    assert_eq!(options.files, texts(&["a.png", "b.png"]));
}

#[test]
fn empty_command_line_misses_its_arguments() {
    let options = parsed(&[]);
    assert!(options.missing_arguments);
    assert!(options.files.is_empty());
    assert!(!options.using_stdin);
    assert_eq!(options.colors, 0);
    assert!(!parsed(&["a.png"]).missing_arguments);
    assert!(!parsed(&["-v"]).missing_arguments);
}

#[test]
fn numbers_that_do_not_parse_fall_back_to_zero() {
    let options = parsed(&["--speed", "fast", "--posterize", "-1", "a.png"]);
    assert_eq!(options.speed, 0);
    assert_eq!(options.posterize, 0);
    let options = parsed(&["-s", "11", "--posterize=4", "a.png"]);
    assert_eq!(options.speed, 11);
    assert_eq!(options.posterize, 4);
    let options = parsed(&["a.png"]);
    assert_eq!(options.speed, 0);
    assert_eq!(options.posterize, 0);
}

#[test]
fn texts_are_kept_as_given() {
    let options = parsed(&["-Q", "60-80", "--ext", ".q.png", "--map", "palette.png", "a.png"]);
    assert_eq!(options.quality, Some("60-80".to_string()));
    assert_eq!(options.extension, Some(".q.png".to_string()));
    assert_eq!(options.map_file, Some("palette.png".to_string()));
    let options = parsed(&["--ext=", "a.png"]);
    assert_eq!(options.extension, Some(String::new()));
    let options = parsed(&["a.png"]);
    assert_eq!(options.quality, None);
    assert_eq!(options.extension, None);
    assert_eq!(options.map_file, None);
    assert_eq!(options.output_file_path, None);
}

#[test]
fn text_with_a_nul_is_dropped() {
    let options = parsed(&["--ext", "a\0b", "--quality", "\0", "-o", "x\0", "a.png", "b\0.png"]);
    assert_eq!(options.extension, None);
    assert_eq!(options.quality, None);
    assert_eq!(options.output_file_path, None);
    assert!(!options.using_stdout);
    assert_eq!(options.files, texts(&["a.png"]));
}

#[test]
fn input_with_a_nul_still_counts_as_an_input() {
    let options = parsed(&["-", "b\0.png"]);
    assert!(!options.using_stdin);
    assert_eq!(options.files, texts(&["-"]));
}

#[test]
fn force_needs_the_flag_and_not_its_negation() {
    assert!(parsed(&["--force", "a.png"]).force);
    assert!(parsed(&["-f", "a.png"]).force);
    assert!(!parsed(&["a.png"]).force);
    assert!(!parsed(&["--force", "--no-force", "a.png"]).force);
    assert!(!parsed(&["--no-force", "-f", "a.png"]).force);
    assert!(!parsed(&["--no-force", "a.png"]).force);
}

#[test]
fn flags_are_read_one_by_one() {
    let options = parsed(&["--skip-if-larger", "a.png"]);
    assert!(options.skip_if_larger && !options.strip && !options.iebug);
    let options = parsed(&["--strip", "a.png"]);
    assert!(options.strip && !options.skip_if_larger);
    let options = parsed(&["--iebug", "a.png"]);
    assert!(options.iebug && !options.last_index_transparent);
    let options = parsed(&["--transbug", "a.png"]);
    assert!(options.last_index_transparent && !options.iebug);
    let options = parsed(&["-v", "a.png"]);
    assert!(options.verbose && !options.print_help && !options.print_version);
    let options = parsed(&["--help"]);
    assert!(options.print_help && !options.verbose);
    let options = parsed(&["-V"]);
    assert!(options.print_version && !options.print_help);
    let options = parsed(&["--quiet", "a.png"]);
    assert_eq!(options, parsed(&["a.png"]));
}

#[test]
fn short_flags_may_be_joined() {
    let options = parsed(&["-vf", "a.png"]);
    assert!(options.verbose && options.force);
    let options = parsed(&["-fs3", "a.png"]);
    assert!(options.force);
    assert_eq!(options.speed, 3);
}

#[test]
fn tokens_after_a_double_dash_are_files() {
    let options = parsed(&["--", "-v", "--nofs"]);
    assert!(!options.verbose);
    assert_eq!(options.dither, Dither::Full);
    assert_eq!(options.files, texts(&["-v", "--nofs"]));
    let options = parsed(&["16", "--", "-x.png"]);
    assert_eq!(options.colors, 16);
    assert_eq!(options.files, texts(&["-x.png"]));
}

#[test]
fn options_and_files_may_be_mixed() {
    let options = parsed(&["a.png", "--strip", "b.png", "-s", "1"]);
    assert!(options.strip);
    assert_eq!(options.speed, 1);
    assert_eq!(options.files, texts(&["a.png", "b.png"]));
}
