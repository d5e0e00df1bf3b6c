//! The resolved configuration, and how it follows from what the parser found.

use crate::number::{parse_u32, parse_u32_spec};
use crate::text::{c_text, contains_nul, dash, has_nul, is_dash, keep_c_text};
use vstd::prelude::*;

verus! {

/// An option that may carry a value, as it stood on the command line.
#[derive(Clone, Debug, PartialEq, Eq)]
pub enum Floyd {
    /// The option was not given.
    Absent,
    /// The option was given without a value.
    Bare,
    /// The option was given with this value.
    Level(String),
}

/// A [`Floyd`] in specifications.
pub enum FloydView {
    Absent,
    Bare,
    Level(Seq<char>),
}

impl View for Floyd {
    type V = FloydView;

    open spec fn view(&self) -> FloydView {
        match self {
            Floyd::Absent => FloydView::Absent,
            Floyd::Bare => FloydView::Bare,
            Floyd::Level(text) => FloydView::Level(text@),
        }
    }
}

/// The strength of the dithering.
///
/// The level is a fraction between 0 and 1. This crate holds no fractions:
/// a level that the user wrote is kept as written, for the caller to read.
/// A text that is no number stands for full strength, as [`Dither::Full`] does.
#[derive(Clone, Debug, PartialEq, Eq)]
pub enum Dither {
    /// No dithering: level 0.
    Off,
    /// Full strength: level 1.
    Full,
    /// The level that the user asked for.
    Level(String),
}

/// A [`Dither`] in specifications.
pub enum DitherView {
    Off,
    Full,
    Level(Seq<char>),
}

impl View for Dither {
    type V = DitherView;

    open spec fn view(&self) -> DitherView {
        match self {
            Dither::Off => DitherView::Off,
            Dither::Full => DitherView::Full,
            Dither::Level(text) => DitherView::Level(text@),
        }
    }
}

/// What the parser found on a command line: for each flag whether it was
/// given, for each option its value, and the positional tokens.
#[derive(Clone, Debug, PartialEq, Eq)]
pub struct Matched {
    pub verbose: bool,
    pub help: bool,
    pub version: bool,
    pub force: bool,
    pub no_force: bool,
    pub ordered: bool,
    pub nofs: bool,
    pub iebug: bool,
    pub transbug: bool,
    pub skip_if_larger: bool,
    pub strip: bool,
    pub floyd: Floyd,
    pub ext: Option<String>,
    pub output: Option<String>,
    pub speed: Option<String>,
    pub quality: Option<String>,
    pub posterize: Option<String>,
    pub map: Option<String>,
    pub free: Vec<String>,
}

/// A [`Matched`] in specifications.
pub struct MatchedView {
    pub verbose: bool,
    pub help: bool,
    pub version: bool,
    pub force: bool,
    pub no_force: bool,
    pub ordered: bool,
    pub nofs: bool,
    pub iebug: bool,
    pub transbug: bool,
    pub skip_if_larger: bool,
    pub strip: bool,
    pub floyd: FloydView,
    pub ext: Option<Seq<char>>,
    pub output: Option<Seq<char>>,
    pub speed: Option<Seq<char>>,
    pub quality: Option<Seq<char>>,
    pub posterize: Option<Seq<char>>,
    pub map: Option<Seq<char>>,
    pub free: Seq<Seq<char>>,
}

impl View for Matched {
    type V = MatchedView;

    open spec fn view(&self) -> MatchedView {
        MatchedView {
            verbose: self.verbose,
            help: self.help,
            version: self.version,
            force: self.force,
            no_force: self.no_force,
            ordered: self.ordered,
            nofs: self.nofs,
            iebug: self.iebug,
            transbug: self.transbug,
            skip_if_larger: self.skip_if_larger,
            strip: self.strip,
            floyd: self.floyd@,
            ext: self.ext.deep_view(),
            output: self.output.deep_view(),
            speed: self.speed.deep_view(),
            quality: self.quality.deep_view(),
            posterize: self.posterize.deep_view(),
            map: self.map.deep_view(),
            free: self.free.deep_view(),
        }
    }
}

/// A command line of positional tokens alone: no flag, no option.
pub open spec fn only_positional(free: Seq<Seq<char>>) -> MatchedView {
    MatchedView {
        verbose: false,
        help: false,
        version: false,
        force: false,
        no_force: false,
        ordered: false,
        nofs: false,
        iebug: false,
        transbug: false,
        skip_if_larger: false,
        strip: false,
        floyd: FloydView::Absent,
        ext: None,
        output: None,
        speed: None,
        quality: None,
        posterize: None,
        map: None,
        free,
    }
}

impl Matched {
    /// A command line of positional tokens alone.
    pub fn positional(free: Vec<String>) -> (r: Matched)
        ensures
            r@ == only_positional(free.deep_view()),
    {
        Matched {
            verbose: false,
            help: false,
            version: false,
            force: false,
            no_force: false,
            ordered: false,
            nofs: false,
            iebug: false,
            transbug: false,
            skip_if_larger: false,
            strip: false,
            floyd: Floyd::Absent,
            ext: None,
            output: None,
            speed: None,
            quality: None,
            posterize: None,
            map: None,
            free,
        }
    }
}

/// The resolved configuration that the quantization engine works from.
#[derive(Clone, Debug, PartialEq, Eq)]
pub struct ParsedOptions {
    /// The size of the palette that was asked for; 0 where none was.
    pub colors: u32,
    /// The speed setting; 0 where none was given.
    pub speed: u32,
    /// The posterization level; 0 where none was given.
    pub posterize: u32,
    /// The strength of the dithering.
    pub dither: Dither,
    pub quality: Option<String>,
    pub extension: Option<String>,
    /// Where to write; `None` where no path was given and where `-` was.
    pub output_file_path: Option<String>,
    pub map_file: Option<String>,
    /// The files to read, in the order given.
    pub files: Vec<String>,
    pub using_stdin: bool,
    pub using_stdout: bool,
    pub force: bool,
    pub skip_if_larger: bool,
    pub strip: bool,
    pub iebug: bool,
    pub last_index_transparent: bool,
    pub verbose: bool,
    pub print_help: bool,
    pub print_version: bool,
    pub missing_arguments: bool,
}

/// A [`ParsedOptions`] in specifications.
pub struct ParsedOptionsView {
    pub colors: u32,
    pub speed: u32,
    pub posterize: u32,
    pub dither: DitherView,
    pub quality: Option<Seq<char>>,
    pub extension: Option<Seq<char>>,
    pub output_file_path: Option<Seq<char>>,
    pub map_file: Option<Seq<char>>,
    pub files: Seq<Seq<char>>,
    pub using_stdin: bool,
    pub using_stdout: bool,
    pub force: bool,
    pub skip_if_larger: bool,
    pub strip: bool,
    pub iebug: bool,
    pub last_index_transparent: bool,
    pub verbose: bool,
    pub print_help: bool,
    pub print_version: bool,
    pub missing_arguments: bool,
}

impl View for ParsedOptions {
    type V = ParsedOptionsView;

    open spec fn view(&self) -> ParsedOptionsView {
        ParsedOptionsView {
            colors: self.colors,
            speed: self.speed,
            posterize: self.posterize,
            dither: self.dither@,
            quality: self.quality.deep_view(),
            extension: self.extension.deep_view(),
            output_file_path: self.output_file_path.deep_view(),
            map_file: self.map_file.deep_view(),
            files: self.files.deep_view(),
            using_stdin: self.using_stdin,
            using_stdout: self.using_stdout,
            force: self.force,
            skip_if_larger: self.skip_if_larger,
            strip: self.strip,
            iebug: self.iebug,
            last_index_transparent: self.last_index_transparent,
            verbose: self.verbose,
            print_help: self.print_help,
            print_version: self.print_version,
            missing_arguments: self.missing_arguments,
        }
    }
}

/// The number that an option's value denotes; 0 where the option is absent
/// and where its value is no number.
pub open spec fn number_or_zero(text: Option<Seq<char>>) -> u32 {
    match text {
        Some(t) => match parse_u32_spec(t) {
            Some(n) => n,
            None => 0,
        },
        None => 0,
    }
}

/// The colour count that leads the positional tokens, if the first of them
/// is a number.
pub open spec fn leading_count(free: Seq<Seq<char>>) -> Option<u32> {
    if free.len() > 0 {
        parse_u32_spec(free[0])
    } else {
        None
    }
}

/// The inputs that the positional tokens name: the tokens after the colour
/// count, and standard input where the count stood alone.
pub open spec fn inputs(free: Seq<Seq<char>>) -> Seq<Seq<char>> {
    if leading_count(free) is Some {
        if free.len() == 1 {
            seq![dash()]
        } else {
            free.skip(1)
        }
    } else {
        free
    }
}

/// Tells the texts that a C string can carry from the others.
pub open spec fn carried() -> spec_fn(Seq<char>) -> bool {
    |t: Seq<char>| !has_nul(t)
}

/// The strength of the dithering: none where either flag that disables it
/// was given, else the level that was asked for, else full strength.
pub open spec fn resolve_dither(m: MatchedView) -> DitherView {
    if m.nofs || m.ordered {
        DitherView::Off
    } else {
        match m.floyd {
            FloydView::Level(text) => DitherView::Level(text),
            _ => DitherView::Full,
        }
    }
}

/// The configuration that follows from what the parser found. `had_tokens`
/// says whether the command line held any token at all.
pub open spec fn resolve_spec(m: MatchedView, had_tokens: bool) -> ParsedOptionsView {
    let using_stdin = inputs(m.free) == seq![dash()];
    let to_stdout = m.output == Some(dash());
    ParsedOptionsView {
        colors: match leading_count(m.free) {
            Some(c) => c,
            None => 0,
        },
        speed: number_or_zero(m.speed),
        posterize: number_or_zero(m.posterize),
        dither: resolve_dither(m),
        quality: c_text(m.quality),
        extension: c_text(m.ext),
        output_file_path: if to_stdout {
            None
        } else {
            c_text(m.output)
        },
        map_file: c_text(m.map),
        files: inputs(m.free).filter(carried()),
        using_stdin,
        using_stdout: using_stdin || to_stdout,
        force: m.force && !m.no_force,
        skip_if_larger: m.skip_if_larger,
        strip: m.strip,
        iebug: m.iebug,
        last_index_transparent: m.transbug,
        verbose: m.verbose,
        print_help: m.help,
        print_version: m.version,
        missing_arguments: !had_tokens,
    }
}

/// What holds of every configuration that [`resolve`] builds: each text
/// can be carried by a C string, `-` never stands as the output path, and
/// where standard input is read it is the one input and the result goes to
/// standard output.
pub open spec fn well_formed(o: ParsedOptionsView) -> bool {
    &&& c_text(o.quality) == o.quality
    &&& c_text(o.extension) == o.extension
    &&& c_text(o.output_file_path) == o.output_file_path
    &&& c_text(o.map_file) == o.map_file
    &&& forall|i: int| 0 <= i < o.files.len() ==> !has_nul(#[trigger] o.files[i])
    &&& o.output_file_path != Some(dash())
    &&& o.using_stdin ==> o.files == seq![dash()] && o.using_stdout
}

/// Filtering keeps a sequence whose every item passes.
proof fn lemma_filter_keeps_all(s: Seq<Seq<char>>)
    requires
        forall|i: int| 0 <= i < s.len() ==> !has_nul(#[trigger] s[i]),
    ensures
        s.filter(carried()) == s,
    decreases s.len(),
{
    reveal(Seq::filter);
    if s.len() > 0 {
        lemma_filter_keeps_all(s.drop_last());
        assert(s.drop_last().push(s.last()) =~= s);
    }
}

/// Filtering a single text keeps it or leaves nothing.
proof fn lemma_filter_one(text: Seq<char>)
    ensures
        seq![text].filter(carried()) == if has_nul(text) {
            Seq::<Seq<char>>::empty()
        } else {
            seq![text]
        },
{
    let none = Seq::<Seq<char>>::empty();
    assert(none.filter(carried()) =~= none) by {
        reveal(Seq::filter);
    }
    assert(none.push(text) =~= seq![text]);
    none.lemma_filter_push(text, carried());
}

/// The token `-` holds no NUL character, so it passes the filter.
proof fn lemma_dash_is_carried()
    ensures
        !has_nul(dash()),
        seq![dash()].filter(carried()) == seq![dash()],
{
    lemma_filter_one(dash());
}

/// Every resolved configuration is well formed.
pub proof fn lemma_resolved_is_well_formed(m: MatchedView, had_tokens: bool)
    ensures
        well_formed(resolve_spec(m, had_tokens)),
{
    let o = resolve_spec(m, had_tokens);
    lemma_dash_is_carried();
    assert forall|i: int| 0 <= i < o.files.len() implies !has_nul(#[trigger] o.files[i]) by {
        inputs(m.free).lemma_filter_pred(carried(), i);
    }
}

/// Standard input is read exactly where the one input is `-`, as long as
/// every input can be carried by a C string. (An input that cannot is left
/// out of the files, yet still counts as an input.)
pub proof fn lemma_stdin_is_the_single_dash(m: MatchedView, had_tokens: bool)
    requires
        forall|i: int| 0 <= i < inputs(m.free).len() ==> !has_nul(#[trigger] inputs(m.free)[i]),
    ensures
        resolve_spec(m, had_tokens).files == inputs(m.free),
        resolve_spec(m, had_tokens).using_stdin <==> resolve_spec(m, had_tokens).files == seq![
            dash(),
        ],
{
    lemma_filter_keeps_all(inputs(m.free));
}

/// Where the positional tokens are a colour count and one more, the count
/// becomes `colors` and the other token alone is left as a file to read.
/// `-` in its place stands for standard input.
pub proof fn lemma_leading_count_is_consumed(count: Seq<char>, path: Seq<char>, had_tokens: bool)
    requires
        parse_u32_spec(count) is Some,
    ensures
        ({
            let o = resolve_spec(only_positional(seq![count, path]), had_tokens);
            &&& o.colors == parse_u32_spec(count)->Some_0
            &&& o.files == if has_nul(path) {
                Seq::<Seq<char>>::empty()
            } else {
                seq![path]
            }
            &&& o.using_stdin == (path == dash())
        }),
{
    let free = seq![count, path];
    assert(free.skip(1) =~= seq![path]);
    assert(inputs(free) == seq![path]);
    lemma_filter_one(path);
    if path != dash() {
        assert(seq![path][0] != seq![dash()][0]);
    }
}

/// Either of the flags that disable dithering wins over a level that was
/// asked for.
pub proof fn lemma_disabling_flag_wins(m: MatchedView, had_tokens: bool)
    requires
        m.nofs || m.ordered,
    ensures
        resolve_spec(m, had_tokens).dither == DitherView::Off,
{
}

/// Reads an option's value as a number.
pub fn read_number(text: &Option<String>) -> (n: u32)
    ensures
        n == number_or_zero(text.deep_view()),
{
    match text {
        Some(t) => match parse_u32(t.as_str()) {
            Some(n) => n,
            None => 0,
        },
        None => 0,
    }
}

/// Copies the texts of `tokens[from..]` that a C string can carry.
fn carried_from(tokens: &Vec<String>, from: usize) -> (files: Vec<String>)
    requires
        from <= tokens.len(),
    ensures
        files.deep_view() == tokens.deep_view().skip(from as int).filter(carried()),
{
    let ghost rest = tokens.deep_view().skip(from as int);
    let mut files: Vec<String> = Vec::new();
    let mut i: usize = from;
    assert(rest.take(0).filter(carried()) =~= Seq::<Seq<char>>::empty()) by {
        reveal(Seq::filter);
    }
    assert(files.deep_view() =~= Seq::<Seq<char>>::empty());
    while i < tokens.len()
        invariant
            from <= i <= tokens.len(),
            rest == tokens.deep_view().skip(from as int),
            files.deep_view() == rest.take(i - from).filter(carried()),
        decreases tokens.len() - i,
    {
        let ghost k: int = i - from;
        let ghost before = files.deep_view();
        assert(rest[k] == tokens[i as int]@);
        assert(rest.take(k + 1) =~= rest.take(k).push(rest[k]));
        proof {
            rest.take(k).lemma_filter_push(rest[k], carried());
        }
        if !contains_nul(tokens[i].as_str()) {
            files.push(tokens[i].clone());
            assert(files.deep_view() =~= before.push(rest[k]));
        }
        i = i + 1;
    }
    assert(rest.take(i - from) =~= rest);
    files
}

/// The colour count, whether standard input is read, and the files to read,
/// as the positional tokens give them.
pub fn resolve_inputs(free: &Vec<String>) -> (r: (u32, bool, Vec<String>))
    ensures
        r.0 == match leading_count(free.deep_view()) {
            Some(c) => c,
            None => 0,
        },
        r.1 == (inputs(free.deep_view()) == seq![dash()]),
        r.2.deep_view() == inputs(free.deep_view()).filter(carried()),
{
    let ghost tokens = free.deep_view();
    let count: Option<u32> = if free.len() > 0 {
        assert(tokens[0] == free[0]@);
        parse_u32(free[0].as_str())
    } else {
        None
    };
    match count {
        Some(colors) => {
            if free.len() == 1 {
                let mut files: Vec<String> = Vec::new();
                files.push(String::from_str("-"));
                proof {
                    reveal_strlit("-");
                    assert(files[0]@ =~= dash());
                    assert(files.deep_view() =~= seq![dash()]);
                    lemma_dash_is_carried();
                }
                (colors, true, files)
            } else {
                let using_stdin = free.len() == 2 && is_dash(free[1].as_str());
                proof {
                    if free.len() == 2 {
                        assert(tokens.skip(1)[0] == free[1]@);
                        assert(using_stdin ==> tokens.skip(1) =~= seq![dash()]);
                        assert(!using_stdin ==> tokens.skip(1)[0] != seq![dash()][0]);
                    } else {
                        assert(tokens.skip(1).len() != 1);
                        assert(seq![dash()].len() == 1);
                    }
                }
                let files = carried_from(free, 1);
                (colors, using_stdin, files)
            }
        },
        None => {
            let using_stdin = free.len() == 1 && is_dash(free[0].as_str());
            proof {
                if free.len() == 1 {
                    assert(using_stdin ==> tokens =~= seq![dash()]);
                    assert(!using_stdin ==> tokens[0] != seq![dash()][0]);
                } else {
                    assert(seq![dash()].len() == 1);
                }
                assert(tokens.skip(0) =~= tokens);
            }
            let files = carried_from(free, 0);
            (0, using_stdin, files)
        },
    }
}

/// Resolves what the parser found into the configuration. `had_tokens` says
/// whether the command line held any token at all.
pub fn resolve(matched: Matched, had_tokens: bool) -> (r: ParsedOptions)
    ensures
        r@ == resolve_spec(matched@, had_tokens),
        well_formed(r@),
{
    proof {
        lemma_resolved_is_well_formed(matched@, had_tokens);
    }
    let speed = read_number(&matched.speed);
    let posterize = read_number(&matched.posterize);
    let (colors, using_stdin, files) = resolve_inputs(&matched.free);
    let to_stdout = match &matched.output {
        Some(path) => is_dash(path.as_str()),
        None => false,
    };
    let dither = if matched.nofs || matched.ordered {
        Dither::Off
    } else {
        match matched.floyd {
            Floyd::Level(text) => Dither::Level(text),
            _ => Dither::Full,
        }
    };
    let output_file_path = if to_stdout {
        None
    } else {
        keep_c_text(matched.output)
    };
    ParsedOptions {
        colors,
        speed,
        posterize,
        dither,
        quality: keep_c_text(matched.quality),
        extension: keep_c_text(matched.ext),
        output_file_path,
        map_file: keep_c_text(matched.map),
        files,
        using_stdin,
        using_stdout: using_stdin || to_stdout,
        force: matched.force && !matched.no_force,
        skip_if_larger: matched.skip_if_larger,
        strip: matched.strip,
        iebug: matched.iebug,
        last_index_transparent: matched.transbug,
        verbose: matched.verbose,
        print_help: matched.help,
        print_version: matched.version,
        missing_arguments: !had_tokens,
    }
}

} // verus!
