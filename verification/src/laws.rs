//! Relations among the operations, stated and proved over the model.

use vstd::prelude::*;

use crate::model::count_char;
use crate::model::data_records;
use crate::model::join_fields;
use crate::model::join_fields_prefix;
use crate::model::join_records;
use crate::model::join_records_prefix;
use crate::model::spec_row_count;
use crate::model::spec_slice;
use crate::CzvError;

verus! {

/// Character counts distribute over concatenation.
proof fn lemma_count_char_add(a: Seq<char>, b: Seq<char>, c: char)
    ensures
        count_char(a + b, c) == count_char(a, c) + count_char(b, c),
    decreases b.len(),
{
    if b.len() == 0 {
        assert(a + b =~= a);
    } else {
        lemma_count_char_add(a, b.drop_last(), c);
        assert((a + b).drop_last() =~= a + b.drop_last());
    }
}

/// A record none of whose fields holds a newline serializes to a text with
/// none either.
proof fn lemma_join_fields_prefix_no_newline(rec: Seq<Seq<char>>, n: int)
    requires
        forall|j: int| 0 <= j < rec.len() ==> count_char(rec[j], '\n') == 0,
        n <= rec.len(),
    ensures
        count_char(join_fields_prefix(rec, n), '\n') == 0,
    decreases n,
{
    if n <= 1 {
        assert(count_char(Seq::<char>::empty(), '\n') == 0);
    } else {
        lemma_join_fields_prefix_no_newline(rec, n - 1);
        lemma_count_char_add(join_fields_prefix(rec, n - 1), seq![','], '\n');
        lemma_count_char_add(join_fields_prefix(rec, n - 1) + seq![','], rec[n - 1], '\n');
        assert(seq![','].drop_last() =~= Seq::<char>::empty());
        assert(count_char(Seq::<char>::empty(), '\n') == 0);
        assert(count_char(seq![','], '\n') == 0);
    }
}

/// Serializing records whose fields hold no newline puts exactly one newline
/// between consecutive records and none elsewhere.
proof fn lemma_join_records_prefix_newlines(rs: Seq<Seq<Seq<char>>>, n: int)
    requires
        forall|i: int, j: int|
            0 <= i < rs.len() && 0 <= j < rs[i].len() ==> count_char(rs[i][j], '\n') == 0,
        1 <= n <= rs.len(),
    ensures
        count_char(join_records_prefix(rs, n), '\n') == n - 1,
    decreases n,
{
    if n == 1 {
        lemma_join_fields_prefix_no_newline(rs[0], rs[0].len() as int);
    } else {
        lemma_join_records_prefix_newlines(rs, n - 1);
        lemma_count_char_add(join_records_prefix(rs, n - 1), seq!['\n'], '\n');
        lemma_count_char_add(join_records_prefix(rs, n - 1) + seq!['\n'], join_fields(rs[n - 1]), '\n');
        lemma_join_fields_prefix_no_newline(rs[n - 1], rs[n - 1].len() as int);
        assert(seq!['\n'].drop_last() =~= Seq::<char>::empty());
        assert(count_char(Seq::<char>::empty(), '\n') == 0);
        assert(count_char(seq!['\n'], '\n') == 1);
    }
}

/// Count/slice consistency: slicing from record zero up to the row count
/// returns every data record in one text blob, and — when no field holds a
/// newline — that text splits on the newline character into exactly
/// row-count lines.
pub proof fn lemma_count_slice_consistency(all: Seq<Seq<Seq<char>>>, include_header_row: bool)
    requires
        spec_row_count(all, include_header_row) >= 1,
        forall|i: int, j: int|
            0 <= i < data_records(all, include_header_row).len() && 0 <= j < data_records(
                all,
                include_header_row,
            )[i].len() ==> count_char(data_records(all, include_header_row)[i][j], '\n') == 0,
    ensures
        spec_slice(
            all,
            Some(0),
            Some(spec_row_count(all, include_header_row) as int),
            None,
            None,
            include_header_row,
        ) == Ok::<Seq<char>, CzvError>(join_records(data_records(all, include_header_row))),
        count_char(join_records(data_records(all, include_header_row)), '\n') + 1
            == spec_row_count(all, include_header_row),
{
    let data = data_records(all, include_header_row);
    let total = data.len() as int;
    assert(data.subrange(0, total) =~= data);
    lemma_join_records_prefix_newlines(data, total);
}

/// Header toggle: with at least one physical record, counting with the header
/// row included gives exactly one more than counting with it excluded.
pub proof fn lemma_header_toggle(all: Seq<Seq<Seq<char>>>)
    requires
        all.len() >= 1,
    ensures
        spec_row_count(all, true) == spec_row_count(all, false) + 1,
{
}

/// Negative-index equivalence: slicing at index -1 returns the same record
/// as slicing at the last record's non-negative index.
pub proof fn lemma_negative_index_equivalence(all: Seq<Seq<Seq<char>>>, include_header_row: bool)
    requires
        data_records(all, include_header_row).len() >= 1,
    ensures
        spec_slice(all, None, None, None, Some(-1), include_header_row) == spec_slice(
            all,
            None,
            None,
            None,
            Some(data_records(all, include_header_row).len() - 1),
            include_header_row,
        ),
{
}

/// Configuration guards: an index beside any range parameter, or an end
/// beside a length, is refused whatever the records and the other values.
pub proof fn lemma_configuration_guards(
    all: Seq<Seq<Seq<char>>>,
    start: Option<int>,
    end: Option<int>,
    length: Option<int>,
    index: Option<int>,
    include_header_row: bool,
)
    ensures
        index is Some && (start is Some || end is Some || length is Some) ==> spec_slice(
            all,
            start,
            end,
            length,
            index,
            include_header_row,
        ) == Err::<Seq<char>, CzvError>(CzvError::Configuration),
        end is Some && length is Some ==> spec_slice(
            all,
            start,
            end,
            length,
            index,
            include_header_row,
        ) == Err::<Seq<char>, CzvError>(CzvError::Configuration),
{
}

} // verus!

