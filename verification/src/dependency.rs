//! Reading the name of a referenced table out of the text of a failure.

use crate::text::{
    chars_of, find_from, first_index, last_token, lemma_first_index, lemma_last_token,
    lemma_trim_end, string_of, trim_end, without,
};
use vstd::prelude::*;
use vstd::string::*;

verus! {

/// The name between the first `table "` of `error` and the first `".` after
/// it; `None` where `error` has no such pair.
pub open spec fn referenced_table(error: Seq<char>) -> Option<Seq<char>> {
    match first_index(error, "table \""@, 0) {
        None => None,
        Some(opening) => {
            let start = opening + "table \""@.len();
            match first_index(error, "\"."@, start) {
                None => None,
                Some(closing) => Some(error.subrange(start, closing)),
            }
        },
    }
}

/// Reads the table that a failed statement refers to out of the text of its
/// failure, such as `Key (document_id)=(55) is not present in table
/// "document".`: the name that stands between `table "` and the next `".`.
/// A text of another shape names no table.
pub fn extract_referenced_table_from_error(error: &str) -> (table: Option<String>)
    ensures
        crate::text::optional_text(table) == referenced_table(error@),
{
    let chars = chars_of(error);
    let opening_mark = chars_of("table \"");
    let closing_mark = chars_of("\".");
    let total: usize = chars.len();
    match find_from(&chars, &opening_mark, 0) {
        None => {
            proof {
                lemma_first_index(chars@, opening_mark@, 0, 0);
            }
            None
        },
        Some(opening) => {
            proof {
                lemma_first_index(chars@, opening_mark@, 0, opening as int);
                assert(crate::text::occurs_at(chars@, opening_mark@, opening as int));
                assert(opening + opening_mark@.len() <= total);
            }
            let start: usize = opening + opening_mark.len();
            match find_from(&chars, &closing_mark, start) {
                None => {
                    proof {
                        lemma_first_index(chars@, closing_mark@, start as int, 0);
                    }
                    None
                },
                Some(closing) => {
                    proof {
                        lemma_first_index(chars@, closing_mark@, start as int, closing as int);
                    }
                    Some(string_of(&chars, start, closing))
                },
            }
        },
    }
}

/// The table that the detail of a failure ends with: its last word, without
/// quotation marks and without the periods that close it.
pub open spec fn detail_table(detail: Seq<char>) -> Seq<char> {
    trim_end(without(last_token(detail), '"'), '.')
}

/// Reads the referenced table out of the detail of a failed statement: the
/// last of its words that spaces part, every quotation mark removed, and
/// then every trailing period.
pub fn referenced_table_of_detail(detail: &str) -> (table: String)
    ensures
        table@ == detail_table(detail@),
{
    let chars = chars_of(detail);
    let mut from: usize = chars.len();
    while from > 0 && chars[from - 1] != ' '
        invariant
            from <= chars.len(),
            forall|j: int| from <= j < chars.len() ==> chars@[j] != ' ',
        decreases from,
    {
        from -= 1;
    }
    proof {
        lemma_last_token(chars@, from as int, chars.len() as int);
        assert(chars@.take(chars.len() as int) == chars@);
    }
    let ghost token = chars@.subrange(from as int, chars.len() as int);
    let mut kept: Vec<char> = Vec::new();
    let mut i: usize = from;
    proof {
        reveal(Seq::filter);
        assert(token.take(0).filter(|x: char| x != '"') =~= kept@);
    }
    while i < chars.len()
        invariant
            from <= i <= chars.len(),
            token == chars@.subrange(from as int, chars.len() as int),
            kept@ == without(token.take(i - from), '"'),
        decreases chars.len() - i,
    {
        proof {
            reveal(Seq::filter);
            assert(token.take(i - from + 1).drop_last() == token.take(i - from));
            assert(token.take(i - from + 1).last() == chars@[i as int]);
        }
        if chars[i] != '"' {
            kept.push(chars[i]);
        }
        i += 1;
    }
    assert(token.take(chars.len() - from) == token);
    let mut keep: usize = kept.len();
    while keep > 0 && kept[keep - 1] == '.'
        invariant
            keep <= kept.len(),
            forall|j: int| keep <= j < kept.len() ==> kept@[j] == '.',
        decreases keep,
    {
        keep -= 1;
    }
    proof {
        lemma_trim_end(kept@, '.', keep as int);
    }
    string_of(&kept, 0, keep)
}

} // verus!
