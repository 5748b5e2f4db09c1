//! The SQL text the relational store receives: quoted identifiers,
//! numbered insert placeholders and the full statements, built exactly.
//! Executing the statements lives outside the library.

use vstd::prelude::*;

use crate::text::{dec_rep, u64_to_string};

verus! {

/// The parts joined with a separator between neighbours.
pub open spec fn spec_join(parts: Seq<Seq<char>>, sep: Seq<char>) -> Seq<char>
    decreases parts.len(),
{
    if parts.len() == 0 {
        Seq::empty()
    } else if parts.len() == 1 {
        parts[0]
    } else {
        spec_join(parts.drop_last(), sep) + sep + parts.last()
    }
}

/// An identifier between double quotes, as the statements embed it.
pub open spec fn spec_quoted(name: Seq<char>) -> Seq<char> {
    seq!['"'] + name + seq!['"']
}

/// Joins the given parts with a separator between neighbours.
fn join_strings(parts: &Vec<String>, sep: &str) -> (r: String)
    ensures
        r@ == spec_join(parts.deep_view(), sep@),
{
    let mut out = String::new();
    let mut i: usize = 0;
    while i < parts.len()
        invariant
            i <= parts.len(),
            out@ == spec_join(parts.deep_view().take(i as int), sep@),
        decreases parts.len() - i,
    {
        if i > 0 {
            out.append(sep);
        }
        out.append(parts[i].as_str());
        i = i + 1;
        proof {
            let dv = parts.deep_view();
            assert(dv.take(i as int).drop_last() =~= dv.take(i - 1));
            assert(dv.take(i as int).last() == dv[i - 1]);
            assert(dv[i - 1] == parts@[i - 1]@);
            if i == 1 {
                assert(out@ =~= spec_join(dv.take(1), sep@));
            } else {
                assert(out@ =~= spec_join(dv.take(i as int), sep@));
            }
        }
    }
    proof {
        assert(parts.deep_view().take(parts@.len() as int) =~= parts.deep_view());
    }
    out
}

/// Puts an identifier between double quotes.
fn quote_ident(name: &str) -> (r: String)
    ensures
        r@ == spec_quoted(name@),
{
    let mut out = String::from_str("\"");
    out.append(name);
    out.append("\"");
    proof {
        reveal_strlit("\"");
        assert(out@ =~= spec_quoted(name@));
    }
    out
}

/// The numbered placeholders of one inserted row: `$b+1` through
/// `$b+row_len`, where `b` is the row's base, joined with `, `.
pub open spec fn spec_placeholder_list(base: int, row_len: int) -> Seq<Seq<char>> {
    Seq::new(row_len as nat, |k: int| seq!['$'] + dec_rep(base + k + 1))
}

/// The placeholder group of one inserted row, parenthesized.
pub open spec fn spec_placeholder_group(base: int, row_len: int) -> Seq<char> {
    seq!['('] + spec_join(spec_placeholder_list(base, row_len), ", "@) + seq![')']
}

/// The placeholder groups of all inserted rows: each row's base is its
/// index times its own length, as the insert numbers its parameters.
pub open spec fn spec_values_clause(row_lens: Seq<usize>) -> Seq<char> {
    spec_join(
        Seq::new(
            row_lens.len(),
            |i: int| spec_placeholder_group(i * row_lens[i], row_lens[i] as int),
        ),
        ", "@,
    )
}

/// The full insert statement for one batch of rows: quoted schema and
/// table, the quoted column list, and one numbered placeholder group per
/// row.
pub open spec fn spec_insert_statement(
    schema: Seq<char>,
    table: Seq<char>,
    columns: Seq<Seq<char>>,
    row_lens: Seq<usize>,
) -> Seq<char> {
    "INSERT INTO "@ + spec_quoted(schema) + "."@ + spec_quoted(table) + " ("@ + spec_join(
        columns.map_values(|c: Seq<char>| spec_quoted(c)),
        ", "@,
    ) + ") VALUES "@ + spec_values_clause(row_lens)
}

/// One row's parenthesized placeholder group.
fn placeholder_group(row_index: usize, row_len: usize) -> (r: String)
    requires
        (row_index + 1) * row_len <= usize::MAX,
    ensures
        r@ == spec_placeholder_group(row_index as int * row_len as int, row_len as int),
{
    let ghost base = row_index as int * row_len as int;
    proof {
        assert(row_index * row_len + row_len == (row_index + 1) * row_len) by (nonlinear_arith);
        assert(row_index * row_len >= 0) by (nonlinear_arith);
    }
    let base_exec: usize = row_index * row_len;
    let mut parts: Vec<String> = Vec::new();
    let mut k: usize = 0;
    while k < row_len
        invariant
            k <= row_len,
            base == row_index as int * row_len as int,
            base_exec == base,
            base + row_len <= usize::MAX,
            parts.deep_view() == spec_placeholder_list(base, row_len as int).take(k as int),
        decreases row_len - k,
    {
        let mut p = String::from_str("$");
        let num = u64_to_string((base_exec + k + 1) as u64);
        p.append(num.as_str());
        proof {
            reveal_strlit("$");
            assert(p@ =~= seq!['$'] + dec_rep(base + k + 1));
        }
        let ghost dv = parts.deep_view();
        parts.push(p);
        k = k + 1;
        proof {
            assert(parts.deep_view() =~= dv.push(seq!['$'] + dec_rep(base + k)));
            assert(parts.deep_view() =~= spec_placeholder_list(base, row_len as int).take(
                k as int,
            ));
        }
    }
    proof {
        assert(spec_placeholder_list(base, row_len as int).take(row_len as int)
            =~= spec_placeholder_list(base, row_len as int));
    }
    let inner = join_strings(&parts, ", ");
    let mut out = String::from_str("(");
    out.append(inner.as_str());
    out.append(")");
    proof {
        reveal_strlit("(");
        reveal_strlit(")");
        assert(out@ =~= spec_placeholder_group(base, row_len as int));
    }
    out
}

/// Builds the insert statement for one batch: `INSERT INTO` the quoted
/// schema and table, the quoted columns in order, and for each row a
/// parenthesized group of numbered placeholders whose base is the row's
/// index times that row's length.
pub fn pg_insert_statement(
    schema: &str,
    table: &str,
    columns: &Vec<String>,
    row_lens: &Vec<usize>,
) -> (r: String)
    requires
        forall|i: int|
            0 <= i < row_lens@.len() ==> (i + 1) * (#[trigger] row_lens@[i]) <= usize::MAX,
    ensures
        r@ == spec_insert_statement(schema@, table@, columns.deep_view(), row_lens@),
{
    let mut quoted_cols: Vec<String> = Vec::new();
    let mut i: usize = 0;
    while i < columns.len()
        invariant
            i <= columns.len(),
            quoted_cols.deep_view() == columns.deep_view().take(i as int).map_values(
                |c: Seq<char>| spec_quoted(c),
            ),
        decreases columns.len() - i,
    {
        let ghost dv = quoted_cols.deep_view();
        quoted_cols.push(quote_ident(columns[i].as_str()));
        i = i + 1;
        proof {
            assert(quoted_cols.deep_view() =~= dv.push(spec_quoted(columns@[i - 1]@)));
            assert(quoted_cols.deep_view() =~= columns.deep_view().take(i as int).map_values(
                |c: Seq<char>| spec_quoted(c),
            ));
        }
    }
    proof {
        assert(columns.deep_view().take(columns@.len() as int) =~= columns.deep_view());
        assert(columns.deep_view().take(columns@.len() as int).map_values(
            |c: Seq<char>| spec_quoted(c),
        ) =~= columns.deep_view().map_values(|c: Seq<char>| spec_quoted(c)));
    }
    let column_list = join_strings(&quoted_cols, ", ");
    let mut groups: Vec<String> = Vec::new();
    let mut j: usize = 0;
    while j < row_lens.len()
        invariant
            j <= row_lens.len(),
            forall|t: int|
                0 <= t < row_lens@.len() ==> (t + 1) * (#[trigger] row_lens@[t]) <= usize::MAX,
            groups.deep_view() == Seq::new(
                j as nat,
                |t: int| spec_placeholder_group(t * row_lens@[t], row_lens@[t] as int),
            ),
        decreases row_lens.len() - j,
    {
        let ghost dv = groups.deep_view();
        groups.push(placeholder_group(j, row_lens[j]));
        j = j + 1;
        proof {
            assert(groups.deep_view() =~= dv.push(
                spec_placeholder_group((j - 1) * row_lens@[j - 1], row_lens@[j - 1] as int),
            ));
            assert(groups.deep_view() =~= Seq::new(
                j as nat,
                |t: int| spec_placeholder_group(t * row_lens@[t], row_lens@[t] as int),
            ));
        }
    }
    let values_clause = join_strings(&groups, ", ");
    proof {
        assert(values_clause@ == spec_values_clause(row_lens@));
    }
    let mut out = String::from_str("INSERT INTO ");
    let qs = quote_ident(schema);
    out.append(qs.as_str());
    out.append(".");
    let qt = quote_ident(table);
    out.append(qt.as_str());
    out.append(" (");
    out.append(column_list.as_str());
    out.append(") VALUES ");
    out.append(values_clause.as_str());
    proof {
        assert(out@ =~= spec_insert_statement(schema@, table@, columns.deep_view(), row_lens@));
    }
    out
}

/// The truncate statement for one table.
pub open spec fn spec_truncate_statement(schema: Seq<char>, table: Seq<char>) -> Seq<char> {
    "TRUNCATE TABLE "@ + spec_quoted(schema) + "."@ + spec_quoted(table) + " CASCADE"@
}

/// Builds the cascading truncate statement for one quoted table.
pub fn pg_truncate_statement(schema: &str, table: &str) -> (r: String)
    ensures
        r@ == spec_truncate_statement(schema@, table@),
{
    let mut out = String::from_str("TRUNCATE TABLE ");
    let qs = quote_ident(schema);
    out.append(qs.as_str());
    out.append(".");
    let qt = quote_ident(table);
    out.append(qt.as_str());
    out.append(" CASCADE");
    proof {
        assert(out@ =~= spec_truncate_statement(schema@, table@));
    }
    out
}

} // verus!
