//! Comparing what two databases hold of one table, row by row, by what the
//! rows show.

use crate::codec::{get_cells, shown_cells, CodecError};
use crate::collect::{collect, lemma_collect_error_stays, lemma_collect_next};
use crate::domain::row::{row_views, CellView, Row};
use crate::text::{str_eq, views};
use vstd::prelude::*;
use vstd::string::*;

verus! {

/// What the comparison of a table in two databases found.
#[derive(Debug, Clone, PartialEq, Eq)]
pub enum Comparison {
    /// The two sides hold different numbers of rows; no row was compared.
    DifferentRowCount { source: usize, target: usize },
    /// The two sides hold the same number of rows; `differing` are the
    /// places, in ascending order, at which the rows show different cells.
    SameRowCount { differing: Vec<usize> },
}

/// Whether two rows show different cells; the error of the first of the two
/// that cannot be shown.
pub open spec fn differ(source: Seq<CellView>, target: Seq<CellView>) -> Result<bool, CodecError> {
    match shown_cells(source) {
        Err(e) => Err(e),
        Ok(left) => match shown_cells(target) {
            Err(e) => Err(e),
            Ok(right) => Ok(left != right),
        },
    }
}

/// Whether the rows at one place differ.
pub open spec fn differ_at(source: Seq<Seq<CellView>>, target: Seq<Seq<CellView>>) -> spec_fn(
    int,
) -> Result<bool, CodecError> {
    |i: int| differ(source[i], target[i])
}

/// For each place of two lists of equal length, whether the rows there
/// differ; the error of the first row that cannot be shown.
pub open spec fn differences(source: Seq<Seq<CellView>>, target: Seq<Seq<CellView>>) -> Result<
    Seq<bool>,
    CodecError,
> {
    collect(Seq::new(source.len(), |i: int| i), differ_at(source, target))
}

/// Whether `places` are the places at which `flags` are set, in ascending
/// order.
pub open spec fn marks(places: Seq<usize>, flags: Seq<bool>) -> bool {
    &&& forall|a: int, b: int| 0 <= a < b < places.len() ==> places[a] < places[b]
    &&& forall|a: int| 0 <= a < places.len() ==> places[a] < flags.len() && flags[places[a] as int]
    &&& forall|i: int| 0 <= i < flags.len() && flags[i] ==> places.contains(i as usize)
}

/// Whether `found` is what the comparison of `source` and `target` gives.
pub open spec fn compares(
    found: Result<Comparison, CodecError>,
    source: Seq<Seq<CellView>>,
    target: Seq<Seq<CellView>>,
) -> bool {
    if source.len() != target.len() {
        found matches Ok(Comparison::DifferentRowCount { source: s, target: t }) && s
            == source.len() && t == target.len()
    } else {
        match differences(source, target) {
            Err(e) => found == Err::<Comparison, CodecError>(e),
            Ok(flags) => found matches Ok(Comparison::SameRowCount { differing }) && marks(
                differing@,
                flags,
            ),
        }
    }
}

/// Whether two lists hold the same texts.
pub fn same_texts(left: &Vec<String>, right: &Vec<String>) -> (same: bool)
    ensures
        same == (views(left@) == views(right@)),
{
    if left.len() != right.len() {
        assert(views(left@).len() != views(right@).len());
        return false;
    }
    let mut i: usize = 0;
    while i < left.len()
        invariant
            i <= left.len(),
            left.len() == right.len(),
            forall|j: int| 0 <= j < i ==> views(left@)[j] == views(right@)[j],
        decreases left.len() - i,
    {
        if !str_eq(left[i].as_str(), right[i].as_str()) {
            assert(views(left@)[i as int] != views(right@)[i as int]);
            return false;
        }
        i += 1;
    }
    assert(views(left@) =~= views(right@));
    true
}

/// Compares the rows of a table in the source with its rows in the target.
/// With different numbers of rows no row is looked at. Else the rows are
/// compared place by place, by what their cells show.
pub fn compare_rows(source_rows: &Vec<Row>, target_rows: &Vec<Row>) -> (found: Result<
    Comparison,
    CodecError,
>)
    ensures
        compares(found, row_views(source_rows@), row_views(target_rows@)),
{
    if source_rows.len() != target_rows.len() {
        return Ok(
            Comparison::DifferentRowCount { source: source_rows.len(), target: target_rows.len() },
        );
    }
    let ghost source = row_views(source_rows@);
    let ghost target = row_views(target_rows@);
    let ghost places = Seq::new(source.len(), |i: int| i);
    let ghost f = differ_at(source, target);
    let ghost mut flags: Seq<bool> = Seq::empty();
    let mut differing: Vec<usize> = Vec::new();
    let mut i: usize = 0;
    while i < source_rows.len()
        invariant
            i <= source_rows.len(),
            source_rows.len() == target_rows.len(),
            source == row_views(source_rows@),
            target == row_views(target_rows@),
            places == Seq::new(source.len(), |i: int| i),
            f == differ_at(source, target),
            collect(places.take(i as int), f) == Ok::<Seq<bool>, CodecError>(flags),
            flags.len() == i,
            marks(differing@, flags),
        decreases source_rows.len() - i,
    {
        proof {
            lemma_collect_next(places, f, i as int);
            assert(places[i as int] == i as int);
            assert(source[i as int] == source_rows@[i as int]@);
            assert(target[i as int] == target_rows@[i as int]@);
        }
        let left = match get_cells(&source_rows[i]) {
            Ok(left) => left,
            Err(e) => {
                proof {
                    lemma_collect_error_stays(places, f, i as int + 1);
                }
                return Err(e);
            },
        };
        let right = match get_cells(&target_rows[i]) {
            Ok(right) => right,
            Err(e) => {
                proof {
                    lemma_collect_error_stays(places, f, i as int + 1);
                }
                return Err(e);
            },
        };
        let same = same_texts(&left, &right);
        let ghost before = differing@;
        let ghost flags_before = flags;
        if !same {
            differing.push(i);
        }
        proof {
            flags = flags.push(!same);
            assert forall|p: int| 0 <= p < flags.len() && flags[p] implies differing@.contains(
                p as usize,
            ) by {
                if p < i {
                    assert(flags_before[p]);
                    assert(before.contains(p as usize));
                    let a = choose|a: int| 0 <= a < before.len() && before[a] == p as usize;
                    assert(differing@[a] == p as usize);
                } else {
                    assert(differing@[differing@.len() - 1] == i);
                }
            }
        }
        i += 1;
    }
    assert(places.take(source_rows.len() as int) == places);
    Ok(Comparison::SameRowCount { differing })
}

/// Does nothing: the row counts of two databases are compared by
/// [`compare_rows`].
pub fn different_row_count() {
}

} // verus!
