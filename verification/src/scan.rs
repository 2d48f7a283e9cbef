//! Locating the first hit of a linear or row-major search.
//!
//! The project-root locator walks ancestors closest-first and stops at the
//! first one holding the sentinel; the compiler search walks `PATH`
//! directories in order and, within each, candidates in order, stopping at
//! the first candidate present. Both searches are instances of the
//! first-hit scans defined here.

use vstd::prelude::*;

verus! {

/// Index of the first `true` in `row`, or `-1` if there is none.
pub open spec fn first_hit(row: Seq<bool>) -> int
    decreases row.len(),
{
    if row.len() == 0 {
        -1
    } else if row[0] {
        0
    } else {
        let t = first_hit(row.drop_first());
        if t < 0 {
            -1
        } else {
            1 + t
        }
    }
}

/// What `first_hit` promises: it names the first `true`, or reports that
/// the row holds none.
pub proof fn lemma_first_hit(row: Seq<bool>)
    ensures
        first_hit(row) == -1 ==> forall|j: int| 0 <= j < row.len() ==> !row[j],
        first_hit(row) >= 0 ==> 0 <= first_hit(row) < row.len() && row[first_hit(row)] && forall|
            j: int,
        | 0 <= j < first_hit(row) ==> !row[j],
    decreases row.len(),
{
    if row.len() > 0 && !row[0] {
        lemma_first_hit(row.drop_first());
        assert forall|j: int| 0 <= j < row.len() && first_hit(row) == -1 implies !row[j] by {
            if j > 0 {
                assert(row.drop_first()[j - 1] == row[j]);
            }
        }
        if first_hit(row) >= 0 {
            assert forall|j: int| 0 <= j < first_hit(row) implies !row[j] by {
                if j > 0 {
                    assert(row.drop_first()[j - 1] == row[j]);
                }
            }
        }
    }
}

/// A position that is `true` and preceded only by `false` is the first hit.
pub proof fn lemma_first_hit_at(row: Seq<bool>, i: int)
    requires
        0 <= i < row.len(),
        row[i],
        forall|j: int| 0 <= j < i ==> !row[j],
    ensures
        first_hit(row) == i,
    decreases row.len(),
{
    if i > 0 {
        assert forall|j: int| 0 <= j < i - 1 implies !row.drop_first()[j] by {
            assert(row.drop_first()[j] == row[j + 1]);
        }
        assert(row.drop_first()[i - 1] == row[i]);
        lemma_first_hit_at(row.drop_first(), i - 1);
    }
}

/// A row of only `false` has no first hit.
pub proof fn lemma_first_hit_none(row: Seq<bool>)
    requires
        forall|j: int| 0 <= j < row.len() ==> !row[j],
    ensures
        first_hit(row) == -1,
    decreases row.len(),
{
    if row.len() > 0 {
        assert forall|j: int| 0 <= j < row.drop_first().len() implies !row.drop_first()[j] by {
            assert(row.drop_first()[j] == row[j + 1]);
        }
        lemma_first_hit_none(row.drop_first());
    }
}

/// The first `true` cell of `grid` in row-major order: rows are searched in
/// order and, within a row, cells in order; the first hit wins.
pub open spec fn scan_hit(grid: Seq<Seq<bool>>) -> Option<(int, int)>
    decreases grid.len(),
{
    if grid.len() == 0 {
        None
    } else if first_hit(grid[0]) >= 0 {
        Some((0int, first_hit(grid[0])))
    } else {
        match scan_hit(grid.drop_first()) {
            None => None,
            Some(p) => Some((p.0 + 1, p.1)),
        }
    }
}

/// Row order dominates cell order: a hit `(i, j)` is a `true` cell, every
/// earlier row is all `false`, and every earlier cell of row `i` is
/// `false`; no hit means the whole grid is `false`.
pub proof fn lemma_scan_hit(grid: Seq<Seq<bool>>)
    ensures
        scan_hit(grid) is None ==> forall|i: int, j: int|
            0 <= i < grid.len() && 0 <= j < grid[i].len() ==> !grid[i][j],
        scan_hit(grid) matches Some(p) ==> {
            &&& 0 <= p.0 < grid.len()
            &&& 0 <= p.1 < grid[p.0].len()
            &&& grid[p.0][p.1]
            &&& forall|i: int, j: int| 0 <= i < p.0 && 0 <= j < grid[i].len() ==> !grid[i][j]
            &&& forall|j: int| 0 <= j < p.1 ==> !grid[p.0][j]
        },
    decreases grid.len(),
{
    if grid.len() > 0 {
        lemma_first_hit(grid[0]);
        if first_hit(grid[0]) < 0 {
            lemma_scan_hit(grid.drop_first());
            assert forall|i: int, j: int|
                0 <= i < grid.len() && 0 <= j < grid[i].len() && scan_hit(grid) is None implies !grid[i][j] by {
                if i > 0 {
                    assert(grid.drop_first()[i - 1] == grid[i]);
                }
            }
            match scan_hit(grid) {
                Some(p) => {
                    let q = scan_hit(grid.drop_first())->Some_0;
                    assert(grid.drop_first()[q.0] == grid[p.0]);
                    assert forall|i: int, j: int|
                        0 <= i < p.0 && 0 <= j < grid[i].len() implies !grid[i][j] by {
                        if i > 0 {
                            assert(grid.drop_first()[i - 1] == grid[i]);
                        }
                    }
                },
                None => {},
            }
        }
    }
}

/// A `true` cell preceded only by `false` rows and cells is the scan hit.
pub proof fn lemma_scan_hit_at(grid: Seq<Seq<bool>>, i: int, j: int)
    requires
        0 <= i < grid.len(),
        0 <= j < grid[i].len(),
        grid[i][j],
        forall|a: int, b: int| 0 <= a < i && 0 <= b < grid[a].len() ==> !grid[a][b],
        forall|b: int| 0 <= b < j ==> !grid[i][b],
    ensures
        scan_hit(grid) == Some((i, j)),
    decreases grid.len(),
{
    if i == 0 {
        lemma_first_hit_at(grid[0], j);
    } else {
        lemma_first_hit_none(grid[0]);
        assert(grid.drop_first()[i - 1] == grid[i]);
        assert forall|a: int, b: int|
            0 <= a < i - 1 && 0 <= b < grid.drop_first()[a].len() implies !grid.drop_first()[a][b] by {
            assert(grid.drop_first()[a] == grid[a + 1]);
        }
        lemma_scan_hit_at(grid.drop_first(), i - 1, j);
    }
}

/// A grid of only `false` has no scan hit.
pub proof fn lemma_scan_hit_none(grid: Seq<Seq<bool>>)
    requires
        forall|i: int, j: int| 0 <= i < grid.len() && 0 <= j < grid[i].len() ==> !grid[i][j],
    ensures
        scan_hit(grid) is None,
    decreases grid.len(),
{
    if grid.len() > 0 {
        lemma_first_hit_none(grid[0]);
        assert forall|i: int, j: int|
            0 <= i < grid.drop_first().len() && 0 <= j < grid.drop_first()[i].len() implies !grid.drop_first()[i][j] by {
            assert(grid.drop_first()[i] == grid[i + 1]);
        }
        lemma_scan_hit_none(grid.drop_first());
    }
}

} // verus!
