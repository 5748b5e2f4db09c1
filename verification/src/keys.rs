//! KeyCatalog: turning raw spreadsheet rows into typed restaurant-key
//! records and selecting the records of one branch.
//!
//! A row needs at least nine cells; its first three cells must read as
//! integers. A row that fails either test is skipped and counted, never
//! fatal to the batch.

use vstd::prelude::*;

use crate::text::{i64_string_val, is_i64_string, parse_i64};

verus! {

/// One parsed spreadsheet row: a branch/menu pairing on the platform.
#[derive(Clone, Debug)]
pub struct MigrosKeysRow {
    pub chain_id: i64,
    pub store_id: i64,
    pub menu_id: i64,
    pub brand_name: String,
    pub brand_name_platform: String,
    pub branch_name: String,
    pub branch_brand_name: String,
    pub branch_name_platform: String,
    pub restaurant_key: String,
}

/// Mathematical model of a key record: integers and character sequences.
pub struct KeysRowModel {
    pub chain_id: int,
    pub store_id: int,
    pub menu_id: int,
    pub brand_name: Seq<char>,
    pub brand_name_platform: Seq<char>,
    pub branch_name: Seq<char>,
    pub branch_brand_name: Seq<char>,
    pub branch_name_platform: Seq<char>,
    pub restaurant_key: Seq<char>,
}

impl View for MigrosKeysRow {
    type V = KeysRowModel;

    open spec fn view(&self) -> KeysRowModel {
        KeysRowModel {
            chain_id: self.chain_id as int,
            store_id: self.store_id as int,
            menu_id: self.menu_id as int,
            brand_name: self.brand_name@,
            brand_name_platform: self.brand_name_platform@,
            branch_name: self.branch_name@,
            branch_brand_name: self.branch_brand_name@,
            branch_name_platform: self.branch_name_platform@,
            restaurant_key: self.restaurant_key@,
        }
    }
}

impl DeepView for MigrosKeysRow {
    type V = KeysRowModel;

    open spec fn deep_view(&self) -> KeysRowModel {
        self.view()
    }
}

/// Why one spreadsheet row was skipped.
#[derive(Clone, Debug)]
pub enum RowParseError {
    /// The row holds fewer than the nine required cells.
    TooFewColumns { found: usize },
    /// A cell that must hold an integer does not read as one.
    BadInteger { column: usize, cell: String },
}

/// The character sequences held by a row of cells.
pub open spec fn cells_view(row: Seq<String>) -> Seq<Seq<char>> {
    Seq::new(row.len(), |i: int| row[i]@)
}

/// The character sequences held by each row of a raw table.
pub open spec fn table_view(table: Seq<Vec<String>>) -> Seq<Seq<Seq<char>>> {
    Seq::new(table.len(), |i: int| cells_view(table[i]@))
}

/// What one raw row parses to: a record when it has at least nine cells
/// and its first three cells read as integers, nothing otherwise.
pub open spec fn spec_parse_row(row: Seq<Seq<char>>) -> Option<KeysRowModel> {
    if row.len() >= 9 && is_i64_string(row[0]) && is_i64_string(row[1]) && is_i64_string(row[2]) {
        Some(
            KeysRowModel {
                chain_id: i64_string_val(row[0]),
                store_id: i64_string_val(row[1]),
                menu_id: i64_string_val(row[2]),
                brand_name: row[3],
                brand_name_platform: row[4],
                branch_name: row[5],
                branch_brand_name: row[6],
                branch_name_platform: row[7],
                restaurant_key: row[8],
            },
        )
    } else {
        None
    }
}

/// Parses one spreadsheet row into a key record.
///
/// Succeeds exactly when the row has at least nine cells and its first
/// three cells read as `i64` values; each field of the record carries the
/// corresponding cell unchanged. On failure the error says whether the
/// row was short or which of the three integer cells was malformed,
/// carrying that cell's text.
pub fn parse_migros_keys(row: &[String]) -> (r: Result<MigrosKeysRow, RowParseError>)
    ensures
        r is Ok <==> spec_parse_row(cells_view(row@)) is Some,
        r matches Ok(k) ==> k@ == spec_parse_row(cells_view(row@)).unwrap(),
        row@.len() < 9 ==> r == Err::<MigrosKeysRow, RowParseError>(
            RowParseError::TooFewColumns { found: row@.len() as usize },
        ),
        row@.len() >= 9 && !is_i64_string(row@[0]@) ==> r == Err::<MigrosKeysRow, RowParseError>(
            RowParseError::BadInteger { column: 0, cell: row@[0] },
        ),
        row@.len() >= 9 && is_i64_string(row@[0]@) && !is_i64_string(row@[1]@) ==> r == Err::<
            MigrosKeysRow,
            RowParseError,
        >(RowParseError::BadInteger { column: 1, cell: row@[1] }),
        row@.len() >= 9 && is_i64_string(row@[0]@) && is_i64_string(row@[1]@) && !is_i64_string(
            row@[2]@,
        ) ==> r == Err::<MigrosKeysRow, RowParseError>(
            RowParseError::BadInteger { column: 2, cell: row@[2] },
        ),
{
    if row.len() < 9 {
        return Err(RowParseError::TooFewColumns { found: row.len() });
    }
    let chain_id: i64 = match parse_i64(row[0].as_str()) {
        Some(v) => v,
        None => {
            return Err(RowParseError::BadInteger { column: 0, cell: row[0].clone() });
        },
    };
    let store_id: i64 = match parse_i64(row[1].as_str()) {
        Some(v) => v,
        None => {
            return Err(RowParseError::BadInteger { column: 1, cell: row[1].clone() });
        },
    };
    let menu_id: i64 = match parse_i64(row[2].as_str()) {
        Some(v) => v,
        None => {
            return Err(RowParseError::BadInteger { column: 2, cell: row[2].clone() });
        },
    };
    Ok(
        MigrosKeysRow {
            chain_id,
            store_id,
            menu_id,
            brand_name: row[3].clone(),
            brand_name_platform: row[4].clone(),
            branch_name: row[5].clone(),
            branch_brand_name: row[6].clone(),
            branch_name_platform: row[7].clone(),
            restaurant_key: row[8].clone(),
        },
    )
}

/// The records that parse out of a raw table, kept in row order.
pub open spec fn spec_parsed_keys(table: Seq<Seq<Seq<char>>>) -> Seq<KeysRowModel>
    decreases table.len(),
{
    if table.len() == 0 {
        Seq::empty()
    } else {
        spec_parsed_keys(table.drop_last()) + (match spec_parse_row(table.last()) {
            Some(k) => seq![k],
            None => Seq::empty(),
        })
    }
}

/// The reason one raw row is skipped; meaningful only for a row that
/// does not parse.
pub open spec fn spec_row_error(row: Seq<String>) -> RowParseError {
    if row.len() < 9 {
        RowParseError::TooFewColumns { found: row.len() as usize }
    } else if !is_i64_string(row[0]@) {
        RowParseError::BadInteger { column: 0, cell: row[0] }
    } else if !is_i64_string(row[1]@) {
        RowParseError::BadInteger { column: 1, cell: row[1] }
    } else {
        RowParseError::BadInteger { column: 2, cell: row[2] }
    }
}

/// The rows of a raw table that fail to parse: each row's index beside
/// its reason, in row order.
pub open spec fn spec_skipped_rows(table: Seq<Vec<String>>) -> Seq<(usize, RowParseError)>
    decreases table.len(),
{
    if table.len() == 0 {
        Seq::empty()
    } else {
        spec_skipped_rows(table.drop_last()) + (if spec_parse_row(
            cells_view(table.last()@),
        ) is Some {
            Seq::empty()
        } else {
            seq![(((table.len() - 1) as usize), spec_row_error(table.last()@))]
        })
    }
}

/// The records of one branch, in row order: the rows that parse and whose
/// `branch_name` equals the target.
pub open spec fn spec_filtered_keys(table: Seq<Seq<Seq<char>>>, branch: Seq<char>) -> Seq<
    KeysRowModel,
>
    decreases table.len(),
{
    if table.len() == 0 {
        Seq::empty()
    } else {
        spec_filtered_keys(table.drop_last(), branch) + (match spec_parse_row(table.last()) {
            Some(k) => if k.branch_name == branch {
                seq![k]
            } else {
                Seq::empty()
            },
            None => Seq::empty(),
        })
    }
}

/// Selects the key records of one branch out of a raw table.
///
/// Every row is parsed; a row that fails is skipped, never fatal, and
/// reported with its index and reason. Of the rows that parse, exactly
/// those whose `branch_name` equals the target are returned, in their
/// original order. Returns the selected records and the skipped rows
/// with their reasons.
pub fn filter_migros_keys_by_branch(values: &Vec<Vec<String>>, branch_name: &str) -> (r: (
    Vec<MigrosKeysRow>,
    Vec<(usize, RowParseError)>,
))
    ensures
        r.0.deep_view() == spec_filtered_keys(table_view(values@), branch_name@),
        r.1@ == spec_skipped_rows(values@),
{
    let ghost table = table_view(values@);
    let target: String = branch_name.to_owned();
    let mut selected: Vec<MigrosKeysRow> = Vec::new();
    let mut skipped: Vec<(usize, RowParseError)> = Vec::new();
    let mut i: usize = 0;
    while i < values.len()
        invariant
            i <= values.len(),
            table == table_view(values@),
            target@ == branch_name@,
            selected.deep_view() == spec_filtered_keys(table.take(i as int), target@),
            skipped@ == spec_skipped_rows(values@.take(i as int)),
        decreases values.len() - i,
    {
        proof {
            assert(table.take(i + 1).drop_last() =~= table.take(i as int));
            assert(table.take(i + 1).last() == table[i as int]);
            assert(table[i as int] == cells_view(values@[i as int]@));
            assert(values@.take(i + 1).drop_last() =~= values@.take(i as int));
            assert(values@.take(i + 1).last() == values@[i as int]);
        }
        match parse_migros_keys(values[i].as_slice()) {
            Ok(k) => {
                if k.branch_name.eq(&target) {
                    selected.push(k);
                }
            },
            Err(e) => {
                skipped.push((i, e));
            },
        }
        i = i + 1;
        proof {
            assert(selected.deep_view() =~= spec_filtered_keys(table.take(i as int), target@));
            assert(skipped@ =~= spec_skipped_rows(values@.take(i as int)));
        }
    }
    proof {
        assert(table.take(values@.len() as int) =~= table);
        assert(values@.take(values@.len() as int) =~= values@);
    }
    (selected, skipped)
}

/// True when `a` can be read out of `b` by deleting elements of `b`
/// without reordering the rest.
pub open spec fn subsequence_of<T>(a: Seq<T>, b: Seq<T>) -> bool
    decreases a.len() + b.len(),
{
    if a.len() == 0 {
        true
    } else if b.len() == 0 {
        false
    } else if a.last() == b.last() {
        subsequence_of(a.drop_last(), b.drop_last())
    } else {
        subsequence_of(a, b.drop_last())
    }
}

/// Shortening a subsequence keeps it a subsequence.
proof fn lemma_subsequence_shrink<T>(a: Seq<T>, b: Seq<T>)
    requires
        subsequence_of(a, b),
        a.len() > 0,
    ensures
        subsequence_of(a.drop_last(), b),
    decreases a.len() + b.len(),
{
    if b.len() > 0 {
        if a.last() == b.last() {
            lemma_subsequence_grow(a.drop_last(), b.drop_last(), b.last());
            assert(b.drop_last().push(b.last()) =~= b);
        } else {
            lemma_subsequence_shrink(a, b.drop_last());
            lemma_subsequence_grow(a.drop_last(), b.drop_last(), b.last());
            assert(b.drop_last().push(b.last()) =~= b);
        }
    }
}

/// Extending the surrounding sequence keeps a subsequence a subsequence.
proof fn lemma_subsequence_grow<T>(a: Seq<T>, b: Seq<T>, e: T)
    requires
        subsequence_of(a, b),
    ensures
        subsequence_of(a, b.push(e)),
    decreases a.len() + b.len() + 1,
{
    assert(b.push(e).drop_last() =~= b);
    assert(b.push(e).last() == e);
    if a.len() > 0 && a.last() == e {
        lemma_subsequence_shrink(a, b);
    }
}

/// Every element of a subsequence occurs in the surrounding sequence.
pub proof fn lemma_subsequence_contains<T>(a: Seq<T>, b: Seq<T>)
    requires
        subsequence_of(a, b),
    ensures
        forall|i: int| 0 <= i < a.len() ==> b.contains(#[trigger] a[i]),
    decreases a.len() + b.len(),
{
    if a.len() > 0 && b.len() > 0 {
        if a.last() == b.last() {
            lemma_subsequence_contains(a.drop_last(), b.drop_last());
            assert forall|i: int| 0 <= i < a.len() implies b.contains(#[trigger] a[i]) by {
                if i < a.len() - 1 {
                    assert(a.drop_last()[i] == a[i]);
                    let j = choose|j: int|
                        0 <= j < b.drop_last().len() && b.drop_last()[j] == a[i];
                    assert(b[j] == a[i]);
                } else {
                    assert(b[b.len() - 1] == a[i]);
                }
            }
        } else {
            lemma_subsequence_contains(a, b.drop_last());
            assert forall|i: int| 0 <= i < a.len() implies b.contains(#[trigger] a[i]) by {
                let j = choose|j: int| 0 <= j < b.drop_last().len() && b.drop_last()[j] == a[i];
                assert(b[j] == a[i]);
            }
        }
    }
}

/// Branch filtering is a pure selection: the records selected for a
/// branch are a subsequence of all parsed records — every selected record
/// occurs among the parsed ones, and their relative order is kept.
pub proof fn lemma_filtered_keys_subsequence_of_parsed(
    table: Seq<Seq<Seq<char>>>,
    branch: Seq<char>,
)
    ensures
        subsequence_of(spec_filtered_keys(table, branch), spec_parsed_keys(table)),
    decreases table.len(),
{
    if table.len() > 0 {
        lemma_filtered_keys_subsequence_of_parsed(table.drop_last(), branch);
        let f = spec_filtered_keys(table.drop_last(), branch);
        let p = spec_parsed_keys(table.drop_last());
        match spec_parse_row(table.last()) {
            Some(k) => {
                assert((p + seq![k]).drop_last() =~= p);
                assert((p + seq![k]).last() == k);
                if k.branch_name == branch {
                    assert((f + seq![k]).drop_last() =~= f);
                    assert((f + seq![k]).last() == k);
                    assert(spec_filtered_keys(table, branch) == f + seq![k]);
                    assert(spec_parsed_keys(table) == p + seq![k]);
                } else {
                    lemma_subsequence_grow(f, p, k);
                    assert(p.push(k) =~= p + seq![k]);
                    assert(spec_filtered_keys(table, branch) == f + Seq::<KeysRowModel>::empty());
                    assert(f + Seq::<KeysRowModel>::empty() =~= f);
                }
            },
            None => {
                assert(spec_filtered_keys(table, branch) == f + Seq::<KeysRowModel>::empty());
                assert(f + Seq::<KeysRowModel>::empty() =~= f);
                assert(spec_parsed_keys(table) == p + Seq::<KeysRowModel>::empty());
                assert(p + Seq::<KeysRowModel>::empty() =~= p);
            },
        }
    }
}

} // verus!
