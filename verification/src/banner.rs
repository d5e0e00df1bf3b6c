//! The texts that the program prints about itself.

use vstd::prelude::*;

verus! {

/// When this line of the program was released, and in which language.
pub const VERSION_SUFFIX: &'static str = "(November 2017; Rust)";

/// How to call the program. Every line starts at the left margin.
pub const USAGE: &'static str = "\
usage:  pngquant [options] [ncolors] -- pngfile [pngfile ...]\n\
pngquant [options] [ncolors] - >stdout <stdin\n\n\
options:\n\
--force           overwrite existing output files (synonym: -f)\n\
--skip-if-larger  only save converted files if they're smaller than original\n\
--output file     destination file path to use instead of --ext (synonym: -o)\n\
--ext new.png     set custom suffix/extension for output filenames\n\
--quality min-max don't save below min, use fewer colors below max (0-100)\n\
--speed N         speed/quality trade-off. 1=slow, 3=default, 11=fast & rough\n\
--nofs            disable Floyd-Steinberg dithering\n\
--posterize N     output lower-precision color (e.g. for ARGB4444 output)\n\
--strip           remove optional metadata (default on Mac)\n\
--verbose         print status messages (synonym: -v)\n\
\n\
Quantizes one or more 32-bit RGBA PNGs to 8-bit (or smaller) RGBA-palette.\n\
The output filename is the same as the input name except that\n\
it ends in \"-fs8.png\", \"-or8.png\" or your custom extension (unless the\n\
input is stdin, in which case the quantized image will go to stdout).\n\
If you pass the special output path \"-\" and a single input file, that file\n\
will be processed and the quantized image will go to stdout.\n\
The default behavior if the output file exists is to skip the conversion;\n\
use --force to overwrite. See man page for full list of options.\n";

/// The complaint about a command line that names nothing to read.
pub const NO_INPUT: &'static str = "error: No input files specified\n\n";

/// What the program was built as: its version number, and the properties of
/// the build that the banner mentions.
#[derive(Clone, Debug, PartialEq, Eq)]
pub struct BuildInfo {
    pub version: String,
    /// A build for debugging, which is slow.
    pub debug: bool,
    /// A build that uses SSE.
    pub sse: bool,
    /// A build that uses OpenMP.
    pub openmp: bool,
}

/// A [`BuildInfo`] in specifications.
pub struct BuildInfoView {
    pub version: Seq<char>,
    pub debug: bool,
    pub sse: bool,
    pub openmp: bool,
}

impl View for BuildInfo {
    type V = BuildInfoView;

    open spec fn view(&self) -> BuildInfoView {
        BuildInfoView {
            version: self.version@,
            debug: self.debug,
            sse: self.sse,
            openmp: self.openmp,
        }
    }
}

/// `text` where `wanted` holds, else nothing.
pub open spec fn line_if(wanted: bool, text: Seq<char>) -> Seq<char> {
    if wanted {
        text
    } else {
        Seq::empty()
    }
}

/// The line that answers a request for the version.
pub open spec fn version_text(build: BuildInfoView) -> Seq<char> {
    build.version + " "@ + VERSION_SUFFIX@ + "\n"@
}

/// The banner: the program's name, version and authors, a line for each
/// property of the build that is worth a remark, and an empty line.
pub open spec fn full_version_text(build: BuildInfoView) -> Seq<char> {
    "pngquant, "@ + build.version + " "@ + VERSION_SUFFIX@
        + ", by Kornel Lesinski, Greg Roelofs.\n"@ + line_if(
        build.debug,
        "   WARNING: this is a DEBUG (slow) version.\n"@,
    ) + line_if(!build.sse, "   SSE acceleration disabled.\n"@) + line_if(
        build.openmp,
        "   Compiled with OpenMP (multicore support).\n"@,
    ) + "\n"@
}

/// Appends the line that answers a request for the version.
pub fn print_version(out: &mut String, build: &BuildInfo)
    ensures
        final(out)@ == old(out)@ + version_text(build@),
{
    out.append(build.version.as_str());
    out.append(" ");
    out.append(VERSION_SUFFIX);
    out.append("\n");
    assert(out@ =~= old(out)@ + version_text(build@));
}

/// Appends the banner.
pub fn print_full_version(out: &mut String, build: &BuildInfo)
    ensures
        final(out)@ == old(out)@ + full_version_text(build@),
{
    out.append("pngquant, ");
    out.append(build.version.as_str());
    out.append(" ");
    out.append(VERSION_SUFFIX);
    out.append(", by Kornel Lesinski, Greg Roelofs.\n");
    if build.debug {
        out.append("   WARNING: this is a DEBUG (slow) version.\n");
    }
    if !build.sse {
        out.append("   SSE acceleration disabled.\n");
    }
    if build.openmp {
        out.append("   Compiled with OpenMP (multicore support).\n");
    }
    out.append("\n");
    assert(out@ =~= old(out)@ + full_version_text(build@));
}

/// Appends the description of how to call the program.
pub fn print_usage(out: &mut String)
    ensures
        final(out)@ == old(out)@ + USAGE@,
{
    out.append(USAGE);
}

} // verus!
