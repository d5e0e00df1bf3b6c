//! Small questions about a text.

use vstd::prelude::*;
use vstd::std_specs::iter::IteratorSpec;

verus! {

/// The token `-`, which stands for standard input or standard output.
pub open spec fn dash() -> Seq<char> {
    seq!['-']
}

/// The text holds a NUL character, so no C string can carry it.
pub open spec fn has_nul(text: Seq<char>) -> bool {
    text.contains('\0')
}

/// Whether `text` is the token `-`.
pub fn is_dash(text: &str) -> (r: bool)
    ensures
        r == (text@ == dash()),
{
    if text.unicode_len() == 1 {
        let c = text.get_char(0);
        assert(c == '-' ==> text@ =~= dash());
        assert(c != '-' ==> text@[0] != dash()[0]);
        c == '-'
    } else {
        assert(dash().len() == 1);
        false
    }
}

/// Whether `text` holds a NUL character.
pub fn contains_nul(text: &str) -> (r: bool)
    ensures
        r == has_nul(text@),
{
    broadcast use {vstd::string::axiom_spec_iter, vstd::string::next_postcondition};

    let mut chars = text.chars();
    let ghost mut seen: int = 0;
    assert(text@.skip(0) =~= text@);
    loop
        invariant
            0 <= seen <= text@.len(),
            chars.remaining() == text@.skip(seen),
            forall|j: int| 0 <= j < seen ==> text@[j] != '\0',
        decreases text@.len() - seen,
    {
        match chars.next() {
            Some(c) => {
                assert(c == text@[seen]);
                if c == '\0' {
                    return true;
                }
                proof {
                    assert(text@.skip(seen).drop_first() =~= text@.skip(seen + 1));
                    seen = seen + 1;
                }
            },
            None => {
                return false;
            },
        }
    }
}

/// `text`, unless it holds a NUL character.
pub open spec fn c_text(text: Option<Seq<char>>) -> Option<Seq<char>> {
    match text {
        Some(t) => if has_nul(t) {
            None
        } else {
            Some(t)
        },
        None => None,
    }
}

/// Keeps a text that a C string can carry, and drops any other.
pub fn keep_c_text(text: Option<String>) -> (r: Option<String>)
    ensures
        r.deep_view() == c_text(text.deep_view()),
{
    match text {
        Some(t) => {
            if contains_nul(t.as_str()) {
                None
            } else {
                Some(t)
            }
        },
        None => None,
    }
}

} // verus!
