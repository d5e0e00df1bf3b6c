//! The options that the program knows.

use crate::parser::{
    all_named, declare_flag, declare_optional_value, declare_value, declared, lenient,
    new_options, valid_names, Declared, Takes,
};
use vstd::prelude::*;

verus! {

/// A flag with a short and a long name.
pub open spec fn flag(short: Seq<char>, long: Seq<char>) -> Declared {
    Declared { short, long, takes: Takes::Nothing }
}

/// An option that needs a value.
pub open spec fn value(short: Seq<char>, long: Seq<char>) -> Declared {
    Declared { short, long, takes: Takes::Value }
}

/// An option that may carry a value.
pub open spec fn optional_value(short: Seq<char>, long: Seq<char>) -> Declared {
    Declared { short, long, takes: Takes::OptionalValue }
}

/// Every option of the command line, in the order of declaration.
pub open spec fn option_table() -> Seq<Declared> {
    seq![
        flag("v"@, "verbose"@),
        flag("h"@, "help"@),
        flag("q"@, "quiet"@),
        flag("f"@, "force"@),
        flag(""@, "no-force"@),
        flag(""@, "ordered"@),
        flag(""@, "nofs"@),
        flag(""@, "iebug"@),
        flag(""@, "transbug"@),
        flag(""@, "skip-if-larger"@),
        flag(""@, "strip"@),
        flag("V"@, "version"@),
        optional_value(""@, "floyd"@),
        value(""@, "ext"@),
        value("o"@, "output"@),
        value("s"@, "speed"@),
        value("Q"@, "quality"@),
        value(""@, "posterize"@),
        value(""@, "map"@),
    ]
}

/// What is known of the names in the table: every option has a long name,
/// and all the names are valid.
pub proof fn lemma_table_names()
    ensures
        option_table().len() == 19,
        all_named(option_table()),
        forall|i: int| 0 <= i < 19 ==> (#[trigger] option_table()[i]).long.len() > 1,
        forall|i: int|
            0 <= i < 19 ==> valid_names(
                (#[trigger] option_table()[i]).short,
                option_table()[i].long,
            ),
{
    reveal_strlit("");
    reveal_strlit("v");
    reveal_strlit("h");
    reveal_strlit("q");
    reveal_strlit("f");
    reveal_strlit("V");
    reveal_strlit("o");
    reveal_strlit("s");
    reveal_strlit("Q");
    reveal_strlit("verbose");
    reveal_strlit("help");
    reveal_strlit("quiet");
    reveal_strlit("force");
    reveal_strlit("no-force");
    reveal_strlit("ordered");
    reveal_strlit("nofs");
    reveal_strlit("iebug");
    reveal_strlit("transbug");
    reveal_strlit("skip-if-larger");
    reveal_strlit("strip");
    reveal_strlit("version");
    reveal_strlit("floyd");
    reveal_strlit("ext");
    reveal_strlit("output");
    reveal_strlit("speed");
    reveal_strlit("quality");
    reveal_strlit("posterize");
    reveal_strlit("map");
}

/// Declares the options of [`option_table`] to a new parser.
pub(crate) fn build_options() -> (options: getopts::Options)
    ensures
        declared(options) == option_table(),
        lenient(options),
        all_named(declared(options)),
{
    proof {
        lemma_table_names();
    }
    let ghost table = option_table();
    let mut options = new_options();
    assert(valid_names(table[0].short, table[0].long));
    declare_flag(&mut options, "v", "verbose", "");
    assert(valid_names(table[1].short, table[1].long));
    declare_flag(&mut options, "h", "help", "");
    assert(valid_names(table[2].short, table[2].long));
    declare_flag(&mut options, "q", "quiet", "");
    assert(valid_names(table[3].short, table[3].long));
    declare_flag(&mut options, "f", "force", "");
    assert(valid_names(table[4].short, table[4].long));
    declare_flag(&mut options, "", "no-force", "");
    assert(valid_names(table[5].short, table[5].long));
    declare_flag(&mut options, "", "ordered", "");
    assert(valid_names(table[6].short, table[6].long));
    declare_flag(&mut options, "", "nofs", "");
    assert(valid_names(table[7].short, table[7].long));
    declare_flag(&mut options, "", "iebug", "");
    assert(valid_names(table[8].short, table[8].long));
    declare_flag(&mut options, "", "transbug", "");
    assert(valid_names(table[9].short, table[9].long));
    declare_flag(&mut options, "", "skip-if-larger", "");
    assert(valid_names(table[10].short, table[10].long));
    declare_flag(&mut options, "", "strip", "");
    assert(valid_names(table[11].short, table[11].long));
    declare_flag(&mut options, "V", "version", "");
    assert(valid_names(table[12].short, table[12].long));
    declare_optional_value(&mut options, "", "floyd", "0.0-1.0");
    assert(valid_names(table[13].short, table[13].long));
    declare_value(&mut options, "", "ext", "extension");
    assert(valid_names(table[14].short, table[14].long));
    declare_value(&mut options, "o", "output", "file");
    assert(valid_names(table[15].short, table[15].long));
    declare_value(&mut options, "s", "speed", "3");
    assert(valid_names(table[16].short, table[16].long));
    declare_value(&mut options, "Q", "quality", "0-100");
    assert(valid_names(table[17].short, table[17].long));
    declare_value(&mut options, "", "posterize", "0");
    assert(valid_names(table[18].short, table[18].long));
    declare_value(&mut options, "", "map", "png");
    assert(declared(options) =~= option_table());
    options
}

} // verus!
