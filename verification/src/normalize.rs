//! From the raw tokens of a command line to the resolved configuration.

use crate::error::{SyntaxError, SyntaxErrorView};
use crate::number::{is_digit, parse_u32_spec, unsigned_part};
use crate::options::{
    lemma_leading_count_is_consumed, only_positional, resolve, resolve_spec, well_formed, Floyd,
    FloydView, Matched, MatchedView, ParsedOptions, ParsedOptionsView,
};
use crate::parser::{
    all_positional, first_text, free_of, given, is_given, is_positional, knows, nothing_given,
    parse_outcome, parse_tokens, positional_tokens, value_of, Found,
};
use crate::table::{build_options, lemma_table_names, option_table};
use crate::text::{dash, has_nul};
use vstd::prelude::*;

verus! {

/// Whether the option `name` was given.
pub open spec fn present(found: Found, name: Seq<char>) -> bool {
    found.given[name].len() > 0
}

/// The value that the option `name` was given with.
pub open spec fn text_of(found: Found, name: Seq<char>) -> Option<Seq<char>> {
    first_text(found.given[name])
}

/// How the dithering option stood on the command line.
pub open spec fn floyd_of(found: Found) -> FloydView {
    match text_of(found, "floyd"@) {
        Some(text) => FloydView::Level(text),
        None => if present(found, "floyd"@) {
            FloydView::Bare
        } else {
            FloydView::Absent
        },
    }
}

/// What the parser found, option by option.
pub open spec fn matched_of(found: Found) -> MatchedView {
    MatchedView {
        verbose: present(found, "v"@),
        help: present(found, "h"@),
        version: present(found, "V"@),
        force: present(found, "force"@),
        no_force: present(found, "no-force"@),
        ordered: present(found, "ordered"@),
        nofs: present(found, "nofs"@),
        iebug: present(found, "iebug"@),
        transbug: present(found, "transbug"@),
        skip_if_larger: present(found, "skip-if-larger"@),
        strip: present(found, "strip"@),
        floyd: floyd_of(found),
        ext: text_of(found, "ext"@),
        output: text_of(found, "o"@),
        speed: text_of(found, "speed"@),
        quality: text_of(found, "quality"@),
        posterize: text_of(found, "posterize"@),
        map: text_of(found, "map"@),
        free: found.free,
    }
}

/// Every name under which [`matched_of`] looks an option up is one that the
/// table declares.
proof fn lemma_names_known(given: Map<Seq<char>, Seq<Option<Seq<char>>>>)
    requires
        knows(given, option_table()),
    ensures
        given.dom().contains("v"@),
        given.dom().contains("h"@),
        given.dom().contains("V"@),
        given.dom().contains("force"@),
        given.dom().contains("no-force"@),
        given.dom().contains("ordered"@),
        given.dom().contains("nofs"@),
        given.dom().contains("iebug"@),
        given.dom().contains("transbug"@),
        given.dom().contains("skip-if-larger"@),
        given.dom().contains("strip"@),
        given.dom().contains("floyd"@),
        given.dom().contains("ext"@),
        given.dom().contains("o"@),
        given.dom().contains("speed"@),
        given.dom().contains("quality"@),
        given.dom().contains("posterize"@),
        given.dom().contains("map"@),
{
    lemma_table_names();
    reveal_strlit("v");
    reveal_strlit("h");
    reveal_strlit("V");
    reveal_strlit("o");
    let table = option_table();
    assert(table[0].short == "v"@);
    assert(table[1].short == "h"@);
    assert(table[11].short == "V"@);
    assert(table[3].long == "force"@);
    assert(table[4].long == "no-force"@);
    assert(table[5].long == "ordered"@);
    assert(table[6].long == "nofs"@);
    assert(table[7].long == "iebug"@);
    assert(table[8].long == "transbug"@);
    assert(table[9].long == "skip-if-larger"@);
    assert(table[10].long == "strip"@);
    assert(table[12].long == "floyd"@);
    assert(table[13].long == "ext"@);
    assert(table[14].short == "o"@);
    assert(table[15].long == "speed"@);
    assert(table[16].long == "quality"@);
    assert(table[17].long == "posterize"@);
    assert(table[18].long == "map"@);
}

/// Where no option was given, [`matched_of`] finds the positional tokens alone.
proof fn lemma_nothing_matched(found: Found)
    requires
        knows(found.given, option_table()),
        nothing_given(found.given),
    ensures
        matched_of(found) == only_positional(found.free),
{
    lemma_names_known(found.given);
}

/// Reads every option out of what the parser found.
fn read_matches(matches: &getopts::Matches) -> (r: Matched)
    requires
        knows(given(*matches), option_table()),
    ensures
        r@ == matched_of(Found { given: given(*matches), free: free_of(*matches) }),
{
    proof {
        lemma_names_known(given(*matches));
    }
    let level = value_of(matches, "floyd");
    let floyd = match level {
        Some(text) => Floyd::Level(text),
        None => if is_given(matches, "floyd") {
            Floyd::Bare
        } else {
            Floyd::Absent
        },
    };
    Matched {
        verbose: is_given(matches, "v"),
        help: is_given(matches, "h"),
        version: is_given(matches, "V"),
        force: is_given(matches, "force"),
        no_force: is_given(matches, "no-force"),
        ordered: is_given(matches, "ordered"),
        nofs: is_given(matches, "nofs"),
        iebug: is_given(matches, "iebug"),
        transbug: is_given(matches, "transbug"),
        skip_if_larger: is_given(matches, "skip-if-larger"),
        strip: is_given(matches, "strip"),
        floyd,
        ext: value_of(matches, "ext"),
        output: value_of(matches, "o"),
        speed: value_of(matches, "speed"),
        quality: value_of(matches, "quality"),
        posterize: value_of(matches, "posterize"),
        map: value_of(matches, "map"),
        free: positional_tokens(matches),
    }
}

/// A number does not start with a dash: the parser takes it for positional.
pub proof fn lemma_number_is_positional(text: Seq<char>)
    requires
        parse_u32_spec(text) is Some,
    ensures
        is_positional(text),
{
    if text[0] != '+' {
        assert(unsigned_part(text) == text);
        assert(is_digit(text[0]));
    }
}

/// A colour count followed by one file, neither of which the parser can
/// take for an option: the command line is one of positional tokens alone,
/// the count becomes `colors`, and the file alone is left to read (no file
/// at all where its name cannot be carried by a C string). `-` in place of
/// the file stands for standard input.
pub proof fn lemma_count_then_file(count: Seq<char>, path: Seq<char>)
    requires
        parse_u32_spec(count) is Some,
        is_positional(path),
    ensures
        all_positional(seq![count, path]),
        ({
            let o = resolve_spec(only_positional(seq![count, path]), true);
            &&& o.colors == parse_u32_spec(count)->Some_0
            &&& o.files == if has_nul(path) {
                Seq::<Seq<char>>::empty()
            } else {
                seq![path]
            }
            &&& o.using_stdin == (path == dash())
            &&& !o.missing_arguments
        }),
{
    lemma_number_is_positional(count);
    lemma_leading_count_is_consumed(count, path, true);
}

/// The result of [`normalize`] in specifications.
pub open spec fn result_view(r: Result<ParsedOptions, SyntaxError>) -> Result<
    ParsedOptionsView,
    SyntaxErrorView,
> {
    match r {
        Ok(options) => Ok(options@),
        Err(e) => Err(e@),
    }
}

/// What [`normalize`] returns for `tokens`: the error of the parser where it
/// reports one, else the configuration resolved from what it found.
pub open spec fn normalize_spec(tokens: Seq<Seq<char>>) -> Result<
    ParsedOptionsView,
    SyntaxErrorView,
> {
    match parse_outcome(option_table(), tokens) {
        Ok(found) => Ok(resolve_spec(matched_of(found), tokens.len() > 0)),
        Err(e) => Err(e),
    }
}

/// Parses the tokens that follow the program name and resolves them into
/// the configuration.
///
/// Where no token is a dash followed by more, the command line holds no
/// option: parsing succeeds, and the configuration is resolved from the
/// tokens as positional ones.
pub fn normalize(tokens: &Vec<String>) -> (r: Result<ParsedOptions, SyntaxError>)
    ensures
        result_view(r) == normalize_spec(tokens.deep_view()),
        r matches Ok(options) ==> well_formed(options@),
        all_positional(tokens.deep_view()) ==> result_view(r) == Ok::<
            ParsedOptionsView,
            SyntaxErrorView,
        >(resolve_spec(only_positional(tokens.deep_view()), tokens.len() > 0)),
{
    let options = build_options();
    match parse_tokens(&options, tokens) {
        Ok(matches) => {
            let matched = read_matches(&matches);
            proof {
                if all_positional(tokens.deep_view()) {
                    lemma_nothing_matched(
                        Found { given: given(matches), free: free_of(matches) },
                    );
                }
            }
            Ok(resolve(matched, tokens.len() > 0))
        },
        Err(e) => Err(e),
    }
}

} // verus!
