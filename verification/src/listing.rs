//! Reading the answer to the select statement: the items that are rows, the
//! records they decode to, and the listing that shows them.

use vstd::prelude::*;
use vstd::string::StringExecFns;
use crate::error::{DbError, DbErrorView};
use crate::record::{
    decode_row, record_line, FetchedRow, FetchedRowView, UserRecord, UserRecordView,
};

verus! {

/// One item of the answer to a query: a row, or something else (a
/// description of the columns), which the client passes over.
#[derive(Debug, PartialEq, Eq)]
pub enum ResultItem {
    Row(FetchedRow),
    Metadata,
}

/// An item of an answer as a mathematical value.
pub enum ResultItemView {
    Row(FetchedRowView),
    Metadata,
}

impl View for ResultItem {
    type V = ResultItemView;

    open spec fn view(&self) -> ResultItemView {
        match self {
            ResultItem::Row(row) => ResultItemView::Row(row@),
            ResultItem::Metadata => ResultItemView::Metadata,
        }
    }
}

impl DeepView for ResultItem {
    type V = ResultItemView;

    open spec fn deep_view(&self) -> ResultItemView {
        self@
    }
}

/// The rows among `items`, in the order in which they came.
pub open spec fn rows_of(items: Seq<ResultItemView>) -> Seq<FetchedRowView>
    decreases items.len(),
{
    if items.len() == 0 {
        Seq::empty()
    } else {
        match items.last() {
            ResultItemView::Row(row) => rows_of(items.drop_last()).push(row),
            ResultItemView::Metadata => rows_of(items.drop_last()),
        }
    }
}

/// The number of rows at the start of `rows` that decode.
pub open spec fn readable_prefix(rows: Seq<FetchedRowView>) -> nat
    decreases rows.len(),
{
    if rows.len() > 0 && decode_row(rows[0]) is Ok {
        1 + readable_prefix(rows.drop_first())
    } else {
        0
    }
}

/// The first line of a listing.
pub open spec fn header_line() -> Seq<char> {
    "--- User List ---"@
}

/// The last line of a listing that was not cut short.
pub open spec fn footer_line() -> Seq<char> {
    "-----------------"@
}

/// The line that stands for an empty table.
pub open spec fn empty_line() -> Seq<char> {
    "No users found."@
}

/// What reading the table gave, as a mathematical value.
pub struct ListingView {
    pub records: Seq<UserRecordView>,
    pub lines: Seq<Seq<char>>,
    pub failure: Option<DbErrorView>,
}

/// What reading the table gave: the records that were decoded, the lines to
/// show for them, and the failure that cut the reading short, if one did.
#[derive(Debug, PartialEq, Eq)]
pub struct Listing {
    pub records: Vec<UserRecord>,
    pub lines: Vec<String>,
    pub failure: Option<DbError>,
}

impl View for Listing {
    type V = ListingView;

    open spec fn view(&self) -> ListingView {
        ListingView {
            records: self.records.deep_view(),
            lines: self.lines.deep_view(),
            failure: match self.failure {
                Some(e) => Some(e@),
                None => None,
            },
        }
    }
}

/// The listing of `rows`.
///
/// The records are those of the rows before the first that does not decode.
/// The lines are the header, one line for each of these records (or the line
/// for an empty table, where there is no row at all), and the footer. Where
/// a row does not decode, the listing ends before the footer and carries the
/// failure of that row.
pub open spec fn listing_of(rows: Seq<FetchedRowView>) -> ListingView {
    let n = readable_prefix(rows) as int;
    let records = Seq::new(n as nat, |i: int| decode_row(rows[i])->Ok_0);
    let shown = Seq::new(n as nat, |i: int| record_line(decode_row(rows[i])->Ok_0));
    if rows.len() == 0 {
        ListingView {
            records,
            lines: seq![header_line(), empty_line(), footer_line()],
            failure: None,
        }
    } else if n == rows.len() {
        ListingView {
            records,
            lines: seq![header_line()] + shown + seq![footer_line()],
            failure: None,
        }
    } else {
        ListingView {
            records,
            lines: seq![header_line()] + shown,
            failure: Some(decode_row(rows[n])->Err_0),
        }
    }
}

/// `readable_prefix` is the index of the first row that does not decode, or
/// the number of rows where all decode.
pub proof fn lemma_readable_prefix(rows: Seq<FetchedRowView>, k: int)
    requires
        0 <= k <= rows.len(),
        forall|i: int| 0 <= i < k ==> (#[trigger] decode_row(rows[i])) is Ok,
        k < rows.len() ==> decode_row(rows[k]) is Err,
    ensures
        readable_prefix(rows) == k,
    decreases k,
{
    if k > 0 {
        let rest = rows.drop_first();
        assert forall|i: int| 0 <= i < k - 1 implies (#[trigger] decode_row(rest[i])) is Ok by {
            assert(rest[i] == rows[i + 1]);
        }
        lemma_readable_prefix(rest, k - 1);
    }
}

/// The rows among `items`, in the order in which they came; every other
/// item is dropped.
pub fn collect_rows(items: Vec<ResultItem>) -> (rows: Vec<FetchedRow>)
    ensures
        rows.deep_view() == rows_of(items.deep_view()),
{
    let ghost all = items.deep_view();
    let mut rows: Vec<FetchedRow> = Vec::new();
    for item in it: items
        invariant
            it.seq().len() == all.len(),
            forall|i: int| 0 <= i < all.len() ==> (#[trigger] it.seq()[i])@ == all[i],
            rows.deep_view() =~= rows_of(all.take(it.index() as int)),
    {
        let ghost n = it.index() as int;
        assert(all.take(n + 1).drop_last() =~= all.take(n));
        match item {
            ResultItem::Row(row) => {
                rows.push(row);
            },
            ResultItem::Metadata => {},
        }
    }
    assert(all.take(all.len() as int) =~= all);
    rows
}

/// Decodes `rows` in order and lists them, up to the first row that does not
/// decode.
pub fn list_rows(rows: &Vec<FetchedRow>) -> (listing: Listing)
    ensures
        listing@ == listing_of(rows.deep_view()),
{
    let ghost all = rows.deep_view();
    let mut records: Vec<UserRecord> = Vec::new();
    let mut lines: Vec<String> = Vec::new();
    lines.push(String::from_str("--- User List ---"));
    if rows.len() == 0 {
        lines.push(String::from_str("No users found."));
        lines.push(String::from_str("-----------------"));
        let listing = Listing { records, lines, failure: None };
        proof {
            assert(listing@.records =~= listing_of(all).records);
            assert(listing@.lines =~= listing_of(all).lines);
        }
        return listing;
    }
    let mut i: usize = 0;
    while i < rows.len()
        invariant
            all == rows.deep_view(),
            0 <= i <= rows.len(),
            forall|j: int| 0 <= j < i ==> (#[trigger] decode_row(all[j])) is Ok,
            records.deep_view() =~= Seq::new(i as nat, |j: int| decode_row(all[j])->Ok_0),
            lines.deep_view() =~= seq![header_line()] + Seq::new(
                i as nat,
                |j: int| record_line(decode_row(all[j])->Ok_0),
            ),
        decreases rows.len() - i,
    {
        let ghost shown = lines.deep_view();
        let ghost decoded = records.deep_view();
        match rows[i].decode() {
            Ok(record) => {
                lines.push(record.line());
                records.push(record);
                proof {
                    assert(lines.deep_view() =~= shown.push(record_line(record@)));
                    assert(records.deep_view() =~= decoded.push(record@));
                }
            },
            Err(e) => {
                let listing = Listing { records, lines, failure: Some(e) };
                proof {
                    lemma_readable_prefix(all, i as int);
                }
                return listing;
            },
        }
        i += 1;
    }
    lines.push(String::from_str("-----------------"));
    let listing = Listing { records, lines, failure: None };
    proof {
        lemma_readable_prefix(all, all.len() as int);
        assert(listing@.lines =~= listing_of(all).lines);
    }
    listing
}

/// Reads the answer to the select statement: keeps the rows among `items`,
/// decodes them in order and lists them.
pub fn read_users(items: Vec<ResultItem>) -> (listing: Listing)
    ensures
        listing@ == listing_of(rows_of(items.deep_view())),
{
    let rows = collect_rows(items);
    list_rows(&rows)
}

} // verus!
