use pngquant::banner::{print_full_version, print_usage, print_version, BuildInfo, NO_INPUT, USAGE};
use pngquant::error::{SyntaxError, SyntaxErrorKind};

fn release(version: &str) -> BuildInfo {
    BuildInfo { version: version.to_string(), debug: false, sse: true, openmp: false }
}

fn same_as_getopts(kind: SyntaxErrorKind, fail: getopts::Fail, option: &str) {
    let error = SyntaxError { kind, option: option.to_string() };
    assert_eq!(error.message(), fail.to_string());
}

#[test]
fn messages_have_their_wording() {
    let at = |kind| SyntaxError { kind, option: "speed".to_string() }.message();
    assert_eq!(at(SyntaxErrorKind::ArgumentMissing), "Argument to option 'speed' missing");
    assert_eq!(at(SyntaxErrorKind::UnrecognizedOption), "Unrecognized option: 'speed'");
    assert_eq!(at(SyntaxErrorKind::OptionMissing), "Required option 'speed' missing");
    assert_eq!(at(SyntaxErrorKind::OptionDuplicated), "Option 'speed' given more than once");
    assert_eq!(at(SyntaxErrorKind::UnexpectedArgument), "Option 'speed' does not take an argument");
}

#[test]
fn messages_are_those_of_the_parser() {
    for option in ["", "x", "bogus-flag", "größe", "it's"] {
        let name = option.to_string();
        same_as_getopts(
            SyntaxErrorKind::ArgumentMissing,
            getopts::Fail::ArgumentMissing(name.clone()),
            option,
        );
        same_as_getopts(
            SyntaxErrorKind::UnrecognizedOption,
            getopts::Fail::UnrecognizedOption(name.clone()),
            option,
        );
        same_as_getopts(
            SyntaxErrorKind::OptionMissing,
            getopts::Fail::OptionMissing(name.clone()),
            option,
        );
        same_as_getopts(
            SyntaxErrorKind::OptionDuplicated,
            getopts::Fail::OptionDuplicated(name.clone()),
            option,
        );
        same_as_getopts(
            SyntaxErrorKind::UnexpectedArgument,
            getopts::Fail::UnexpectedArgument(name.clone()),
            option,
        );
    }
}

#[test]
fn version_line_holds_number_and_suffix() {
    let mut out = String::new();
    print_version(&mut out, &release("2.11.0"));
    assert_eq!(out, "2.11.0 (November 2017; Rust)\n");
}

#[test]
fn banner_of_a_plain_build() {
    let mut out = String::new();
    print_full_version(&mut out, &release("2.11.0"));
    assert_eq!(
        out,
        "pngquant, 2.11.0 (November 2017; Rust), by Kornel Lesinski, Greg Roelofs.\n\n"
    );
}

#[test]
fn banner_remarks_on_the_build() {
    let mut out = String::new();
    let build = BuildInfo { version: "1.0".to_string(), debug: true, sse: false, openmp: true };
    print_full_version(&mut out, &build);
    assert_eq!(
        out,
        "pngquant, 1.0 (November 2017; Rust), by Kornel Lesinski, Greg Roelofs.\n\
         \x20  WARNING: this is a DEBUG (slow) version.\n\
         \x20  SSE acceleration disabled.\n\
         \x20  Compiled with OpenMP (multicore support).\n\
         \n"
    );
    let mut out = String::new();
    let build = BuildInfo { version: "1.0".to_string(), debug: false, sse: false, openmp: false };
    print_full_version(&mut out, &build);
    assert_eq!(
        out,
        "pngquant, 1.0 (November 2017; Rust), by Kornel Lesinski, Greg Roelofs.\n\
         \x20  SSE acceleration disabled.\n\
         \n"
    );
}

#[test]
fn printing_appends() {
    let mut out = "before\n".to_string();
    print_usage(&mut out);
    assert_eq!(out, format!("before\n{}", USAGE));
    print_version(&mut out, &release("3"));
    assert_eq!(out, format!("before\n{}3 (November 2017; Rust)\n", USAGE));
    print_full_version(&mut out, &release("3"));
    assert!(out.starts_with("before\nusage:  pngquant [options] [ncolors] -- pngfile"));
    assert!(out.ends_with("3 (November 2017; Rust), by Kornel Lesinski, Greg Roelofs.\n\n"));
}

#[test]
fn usage_names_the_options() {
    let lines = [
        "usage:  pngquant [options] [ncolors] -- pngfile [pngfile ...]",
        "pngquant [options] [ncolors] - >stdout <stdin",
        "",
        "options:",
        "--force           overwrite existing output files (synonym: -f)",
        "--skip-if-larger  only save converted files if they're smaller than original",
        "--output file     destination file path to use instead of --ext (synonym: -o)",
        "--ext new.png     set custom suffix/extension for output filenames",
        "--quality min-max don't save below min, use fewer colors below max (0-100)",
        "--speed N         speed/quality trade-off. 1=slow, 3=default, 11=fast & rough",
        "--nofs            disable Floyd-Steinberg dithering",
        "--posterize N     output lower-precision color (e.g. for ARGB4444 output)",
        "--strip           remove optional metadata (default on Mac)",
        "--verbose         print status messages (synonym: -v)",
        "",
        "Quantizes one or more 32-bit RGBA PNGs to 8-bit (or smaller) RGBA-palette.",
        "The output filename is the same as the input name except that",
        "it ends in \"-fs8.png\", \"-or8.png\" or your custom extension (unless the",
        "input is stdin, in which case the quantized image will go to stdout).",
        "If you pass the special output path \"-\" and a single input file, that file",
        "will be processed and the quantized image will go to stdout.",
        "The default behavior if the output file exists is to skip the conversion;",
        "use --force to overwrite. See man page for full list of options.",
    ];
    let mut wanted = String::new();
    for line in lines {
        wanted.push_str(line);
        wanted.push('\n');
    }
    let mut out = String::new();
    print_usage(&mut out);
    assert_eq!(out, wanted);
    assert_eq!(USAGE, wanted);
    assert_eq!(NO_INPUT, "error: No input files specified\n\n");
}
