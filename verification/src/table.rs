//! A model of the `Users` table: what each statement does to the stored
//! records and what the server answers to it.
//!
//! The client keeps no records between operations; every read asks the
//! server again. This model states what the client expects of the server,
//! and it can stand in for one where there is none.

use vstd::prelude::*;
use vstd::string::StringExecFns;
use vstd::string::StrSliceExecFns;
use crate::error::{DbError, DbErrorView, ErrorKind};
use crate::listing::{
    empty_line, footer_line, header_line, lemma_readable_prefix, listing_of, rows_of, ListingView,
    ResultItem, ResultItemView,
};
use crate::record::{
    column_of, decode_row, record_line, FetchedRow, FetchedRowView, FetchedView, UserRecordView,
};
use crate::statement::{Reply, ReplyView, Statement, StatementView};

verus! {

/// The longest name that the table stores, in characters.
pub const NAME_LIMIT: usize = 100;

/// A stored user as a mathematical value.
pub struct UserView {
    pub id: i32,
    pub name: Seq<char>,
    pub age: Option<i32>,
}

/// The table as a mathematical value: the stored users in the order in which
/// a select returns them, and the number of identifiers assigned so far.
pub struct TableView {
    pub users: Seq<UserView>,
    pub issued: int,
}

/// Whether `t` is a state that the table can be in: every identifier is
/// positive and was assigned, no two users share one, and no name is longer
/// than the limit.
pub open spec fn valid_table(t: TableView) -> bool {
    &&& 0 <= t.issued <= i32::MAX
    &&& forall|i: int| 0 <= i < t.users.len() ==> 1 <= (#[trigger] t.users[i]).id <= t.issued
    &&& forall|i: int, j: int|
        0 <= i < j < t.users.len() ==> (#[trigger] t.users[i]).id != (#[trigger] t.users[j]).id
    &&& forall|i: int| 0 <= i < t.users.len() ==> (#[trigger] t.users[i]).name.len() <= NAME_LIMIT
}

/// The table without any user, before any identifier was assigned.
pub open spec fn empty_table() -> TableView {
    TableView { users: Seq::empty(), issued: 0 }
}

/// Whether a user with identifier `id` is stored.
pub open spec fn has_user(t: TableView, id: i32) -> bool {
    exists|i: int| 0 <= i < t.users.len() && (#[trigger] t.users[i]).id == id
}

/// The test `u.id == id` on a stored user.
pub open spec fn is_user(id: i32) -> spec_fn(UserView) -> bool {
    |u: UserView| u.id == id
}

/// The test `u.id != id` on a stored user.
pub open spec fn is_other(id: i32) -> spec_fn(UserView) -> bool {
    |u: UserView| u.id != id
}

/// How an update of user `id` changes a stored user: the age of that user
/// becomes `age`, every other user stays as it is.
pub open spec fn with_age(id: i32, age: i32) -> spec_fn(UserView) -> UserView {
    |u: UserView|
        if u.id == id {
            UserView { id: u.id, name: u.name, age: Some(age) }
        } else {
            u
        }
}

/// The number of stored users with identifier `id`.
pub open spec fn matching(t: TableView, id: i32) -> nat {
    t.users.filter(is_user(id)).len()
}

/// Whether the table accepts a new user of this name: the name fits, and an
/// identifier is left to assign.
pub open spec fn can_store(t: TableView, name: Seq<char>) -> bool {
    name.len() <= NAME_LIMIT && t.issued < i32::MAX
}

/// The table after a user was stored: the new user comes last and has the
/// next identifier.
pub open spec fn stored(t: TableView, name: Seq<char>, age: Option<i32>) -> TableView {
    TableView {
        users: t.users.push(UserView { id: (t.issued + 1) as i32, name, age }),
        issued: t.issued + 1,
    }
}

/// The table after the age of user `id` was set.
pub open spec fn updated(t: TableView, id: i32, age: i32) -> TableView {
    TableView { users: t.users.map_values(with_age(id, age)), issued: t.issued }
}

/// The table after user `id` was deleted.
pub open spec fn deleted(t: TableView, id: i32) -> TableView {
    TableView { users: t.users.filter(is_other(id)), issued: t.issued }
}

/// A stored user as the row that a select returns for it.
pub open spec fn row_of(u: UserView) -> FetchedRowView {
    FetchedRowView {
        id: FetchedView::Value(u.id),
        name: FetchedView::Value(u.name),
        age: column_of(u.age),
    }
}

/// The result stream of a select: the description of the columns, then one
/// row for each stored user.
pub open spec fn selected(t: TableView) -> Seq<ResultItemView> {
    seq![ResultItemView::Metadata] + t.users.map_values(
        |u: UserView| ResultItemView::Row(row_of(u)),
    )
}

/// The failure of an insert whose name does not fit.
pub open spec fn name_too_long() -> DbErrorView {
    DbErrorView {
        kind: ErrorKind::Statement,
        message: "String or binary data would be truncated."@,
    }
}

/// The failure of an insert for which no identifier is left.
pub open spec fn identifiers_exhausted() -> DbErrorView {
    DbErrorView {
        kind: ErrorKind::Statement,
        message: "Arithmetic overflow error converting IDENTITY to data type int."@,
    }
}

/// The failure of storing a user of this name, where the table does not
/// accept it.
pub open spec fn store_failure(t: TableView, name: Seq<char>) -> DbErrorView {
    if name.len() > NAME_LIMIT {
        name_too_long()
    } else {
        identifiers_exhausted()
    }
}

/// The table after statement `s`.
pub open spec fn state_after(t: TableView, s: StatementView) -> TableView {
    match s {
        StatementView::Insert { name, age } => if can_store(t, name) {
            stored(t, name, Some(age))
        } else {
            t
        },
        StatementView::Select => t,
        StatementView::Update { id, age } => updated(t, id, age),
        StatementView::Delete { id } => deleted(t, id),
    }
}

/// What the server answers to statement `s` on table `t`.
pub open spec fn answer_to(t: TableView, s: StatementView) -> Result<ReplyView, DbErrorView> {
    match s {
        StatementView::Insert { name, age } => if can_store(t, name) {
            Ok(ReplyView { counts: seq![1u64], items: Seq::empty() })
        } else {
            Err(store_failure(t, name))
        },
        StatementView::Select => Ok(ReplyView { counts: Seq::empty(), items: selected(t) }),
        StatementView::Update { id, age } => Ok(
            ReplyView { counts: seq![matching(t, id) as u64], items: Seq::empty() },
        ),
        StatementView::Delete { id } => Ok(
            ReplyView { counts: seq![matching(t, id) as u64], items: Seq::empty() },
        ),
    }
}

/// Splitting the users by an identifier: those that have it and those that
/// do not make up the whole, the users that remain are users of the table in
/// their old order, and none of them has the identifier.
proof fn lemma_filter_by_id(users: Seq<UserView>, id: i32)
    ensures
        users.filter(is_user(id)).len() + users.filter(is_other(id)).len() == users.len(),
        forall|j: int|
            0 <= j < users.filter(is_other(id)).len() ==> {
                &&& (#[trigger] users.filter(is_other(id))[j]).id != id
                &&& users.contains(users.filter(is_other(id))[j])
            },
        forall|i: int|
            0 <= i < users.len() && users[i].id != id ==> users.filter(is_other(id)).contains(
                #[trigger] users[i],
            ),
        (forall|i: int| 0 <= i < users.len() ==> (#[trigger] users[i]).id != id)
            ==> users.filter(is_other(id)) == users && users.filter(is_user(id)).len() == 0,
        (forall|i: int, j: int|
            0 <= i < j < users.len() ==> (#[trigger] users[i]).id != (#[trigger] users[j]).id) ==> {
            &&& users.filter(is_user(id)).len() <= 1
            &&& (users.filter(is_user(id)).len() == 1 <==> exists|i: int|
                0 <= i < users.len() && (#[trigger] users[i]).id == id)
            &&& forall|i: int, j: int|
                0 <= i < j < users.filter(is_other(id)).len() ==> (#[trigger] users.filter(
                    is_other(id),
                )[i]).id != (#[trigger] users.filter(is_other(id))[j]).id
        },
    decreases users.len(),
{
    broadcast use Seq::lemma_filter_push;

    let hit = users.filter(is_user(id));
    let kept = users.filter(is_other(id));
    if users.len() == 0 {
        reveal(Seq::filter);
    } else {
        let init = users.drop_last();
        let last = users.last();
        lemma_filter_by_id(init, id);
        assert(users =~= init.push(last));
        let init_hit = init.filter(is_user(id));
        let init_kept = init.filter(is_other(id));
        assert(is_user(id)(last) == (last.id == id));
        assert(is_other(id)(last) == (last.id != id));
        assert(hit == if last.id == id { init_hit.push(last) } else { init_hit });
        assert(kept == if last.id != id { init_kept.push(last) } else { init_kept });
        assert forall|j: int| 0 <= j < kept.len() implies {
            &&& (#[trigger] kept[j]).id != id
            &&& users.contains(kept[j])
        } by {
            if j < init_kept.len() {
                assert(init.contains(init_kept[j]));
                let k = choose|k: int| 0 <= k < init.len() && init[k] == init_kept[j];
                assert(users[k] == kept[j]);
            } else {
                assert(users[users.len() - 1] == kept[j]);
            }
        }
        assert forall|i: int| 0 <= i < users.len() && users[i].id != id implies kept.contains(
            #[trigger] users[i],
        ) by {
            if i < init.len() {
                assert(init[i] == users[i]);
                assert(init_kept.contains(init[i]));
                let k = choose|k: int| 0 <= k < init_kept.len() && init_kept[k] == init[i];
                assert(kept[k] == users[i]);
            } else {
                assert(kept[kept.len() - 1] == users[i]);
            }
        }
        if forall|i: int| 0 <= i < users.len() ==> (#[trigger] users[i]).id != id {
            assert forall|i: int| 0 <= i < init.len() implies (#[trigger] init[i]).id != id by {
                assert(init[i] == users[i]);
            }
            assert(users[users.len() - 1].id != id);
            assert(kept =~= users);
        }
        if forall|i: int, j: int|
            0 <= i < j < users.len() ==> (#[trigger] users[i]).id != (#[trigger] users[j]).id {
            assert forall|i: int, j: int| 0 <= i < j < init.len() implies (#[trigger] init[i]).id
                != (#[trigger] init[j]).id by {
                assert(init[i] == users[i] && init[j] == users[j]);
            }
            if last.id == id {
                // No earlier user has this identifier.
                assert forall|i: int| 0 <= i < init.len() implies (#[trigger] init[i]).id != id by {
                    assert(init[i] == users[i]);
                    assert(users[i].id != users[users.len() - 1].id);
                }
                assert(init_hit.len() == 0);
                assert(users[users.len() - 1].id == id);
            } else {
                if init_hit.len() == 1 {
                    let k = choose|k: int| 0 <= k < init.len() && (#[trigger] init[k]).id == id;
                    assert(users[k].id == id);
                }
                if exists|i: int| 0 <= i < users.len() && (#[trigger] users[i]).id == id {
                    let k = choose|k: int| 0 <= k < users.len() && (#[trigger] users[k]).id == id;
                    assert(k < init.len());
                    assert(init[k].id == id);
                }
            }
            assert forall|i: int, j: int| 0 <= i < j < kept.len() implies (#[trigger] kept[i]).id
                != (#[trigger] kept[j]).id by {
                if j < init_kept.len() {
                    assert(kept[i] == init_kept[i] && kept[j] == init_kept[j]);
                } else {
                    assert(kept[j] == last);
                    assert(kept[i] == init_kept[i]);
                    assert(init.contains(init_kept[i]));
                    let k = choose|k: int| 0 <= k < init.len() && init[k] == init_kept[i];
                    assert(users[k].id != users[users.len() - 1].id);
                }
            }
        }
    }
}

/// A valid table is still valid after any statement.
pub proof fn lemma_statement_keeps_valid(t: TableView, s: StatementView)
    requires
        valid_table(t),
    ensures
        valid_table(state_after(t, s)),
{
    match s {
        StatementView::Insert { name, age } => {},
        StatementView::Select => {},
        StatementView::Update { id, age } => {},
        StatementView::Delete { id } => {
            lemma_filter_by_id(t.users, id);
            let kept = t.users.filter(is_other(id));
            assert forall|j: int| 0 <= j < kept.len() implies {
                &&& 1 <= (#[trigger] kept[j]).id <= t.issued
                &&& kept[j].name.len() <= NAME_LIMIT
            } by {
                assert(t.users.contains(kept[j]));
                let k = choose|k: int| 0 <= k < t.users.len() && t.users[k] == kept[j];
                assert(1 <= t.users[k].id <= t.issued);
            }
        },
    }
}

/// A stored user as the record that the client decodes from its row.
pub open spec fn record_of(u: UserView) -> UserRecordView {
    UserRecordView { id: Some(u.id), name: Some(u.name), age: u.age }
}

/// What a read gives on table `t`: the listing of the rows in the result
/// stream of a select.
pub open spec fn read_of(t: TableView) -> ListingView {
    listing_of(rows_of(selected(t)))
}

/// The rows in the result stream of a select are the rows of the stored
/// users, in their order.
proof fn lemma_rows_of_selected(t: TableView)
    ensures
        rows_of(selected(t)) == t.users.map_values(|u: UserView| row_of(u)),
    decreases t.users.len(),
{
    let items = selected(t);
    if t.users.len() == 0 {
        assert(rows_of(items.drop_last()) =~= Seq::<FetchedRowView>::empty());
    } else {
        let shorter = TableView { users: t.users.drop_last(), issued: t.issued };
        lemma_rows_of_selected(shorter);
        assert(items.drop_last() =~= selected(shorter));
    }
}

/// Reading the table gives every stored user, none twice and no other: the
/// records are those of the stored users in the order of the select, no
/// column fails, and the listing has one line for each user between header
/// and footer, or the line for an empty table.
pub proof fn lemma_read_gives_stored_users(t: TableView)
    ensures
        read_of(t).failure is None,
        read_of(t).records == t.users.map_values(|u: UserView| record_of(u)),
        t.users.len() == 0 ==> read_of(t).lines == seq![
            header_line(),
            empty_line(),
            footer_line(),
        ],
        t.users.len() > 0 ==> read_of(t).lines == seq![header_line()] + t.users.map_values(
            |u: UserView| record_line(record_of(u)),
        ) + seq![footer_line()],
{
    lemma_rows_of_selected(t);
    let rows = rows_of(selected(t));
    assert forall|i: int| 0 <= i < rows.len() implies (#[trigger] decode_row(rows[i])) is Ok by {
    }
    lemma_readable_prefix(rows, rows.len() as int);
    assert forall|i: int| 0 <= i < rows.len() implies decode_row(rows[i])->Ok_0 == record_of(
        #[trigger] t.users[i],
    ) by {
    }
}

/// After an insert that the table accepts, a read contains the records that
/// it contained before and, after them, exactly one more: the new user, with
/// the name and age of the insert and an identifier above zero that no
/// stored user has. The insert reports one affected row.
pub proof fn lemma_insert_then_read(t: TableView, name: Seq<char>, age: i32)
    requires
        valid_table(t),
        can_store(t, name),
    ensures
        answer_to(t, StatementView::Insert { name, age }) == Ok::<ReplyView, DbErrorView>(
            ReplyView { counts: seq![1u64], items: Seq::empty() },
        ),
        read_of(state_after(t, StatementView::Insert { name, age })).records == read_of(
            t,
        ).records.push(
            UserRecordView { id: Some((t.issued + 1) as i32), name: Some(name), age: Some(age) },
        ),
        t.issued + 1 > 0,
        !has_user(t, (t.issued + 1) as i32),
        read_of(state_after(t, StatementView::Insert { name, age })).failure is None,
{
    lemma_read_gives_stored_users(t);
    lemma_read_gives_stored_users(state_after(t, StatementView::Insert { name, age }));
}

/// An update of an identifier that no stored user has reports no affected
/// row and leaves the table, and so every record, as it was.
pub proof fn lemma_update_of_missing_user(t: TableView, id: i32, age: i32)
    requires
        !has_user(t, id),
    ensures
        matching(t, id) == 0,
        answer_to(t, StatementView::Update { id, age }) == Ok::<ReplyView, DbErrorView>(
            ReplyView { counts: seq![0u64], items: Seq::empty() },
        ),
        state_after(t, StatementView::Update { id, age }) == t,
{
    lemma_filter_by_id(t.users, id);
    assert(t.users.map_values(with_age(id, age)) =~= t.users);
}

/// An update of a stored user reports one affected row, gives that user the
/// new age, and changes neither its name nor any other user.
pub proof fn lemma_update_of_stored_user(t: TableView, id: i32, age: i32)
    requires
        valid_table(t),
        has_user(t, id),
    ensures
        matching(t, id) == 1,
        answer_to(t, StatementView::Update { id, age }) == Ok::<ReplyView, DbErrorView>(
            ReplyView { counts: seq![1u64], items: Seq::empty() },
        ),
        updated(t, id, age).users.len() == t.users.len(),
        forall|i: int|
            0 <= i < t.users.len() ==> (#[trigger] updated(t, id, age).users[i]) == if t.users[i].id
                == id {
                UserView { id, name: t.users[i].name, age: Some(age) }
            } else {
                t.users[i]
            },
{
    lemma_filter_by_id(t.users, id);
}

/// A delete of a stored user reports one affected row and removes exactly
/// that user: the table, and what a read gives, is shorter by one, no user
/// with that identifier remains, and every other user is still stored.
pub proof fn lemma_delete_of_stored_user(t: TableView, id: i32)
    requires
        valid_table(t),
        has_user(t, id),
    ensures
        matching(t, id) == 1,
        answer_to(t, StatementView::Delete { id }) == Ok::<ReplyView, DbErrorView>(
            ReplyView { counts: seq![1u64], items: Seq::empty() },
        ),
        deleted(t, id).users.len() == t.users.len() - 1,
        read_of(deleted(t, id)).records.len() == read_of(t).records.len() - 1,
        !has_user(deleted(t, id), id),
        forall|i: int|
            0 <= i < t.users.len() && t.users[i].id != id ==> deleted(t, id).users.contains(
                #[trigger] t.users[i],
            ),
        forall|j: int|
            0 <= j < deleted(t, id).users.len() ==> t.users.contains(
                #[trigger] deleted(t, id).users[j],
            ),
{
    lemma_filter_by_id(t.users, id);
    lemma_read_gives_stored_users(t);
    lemma_read_gives_stored_users(deleted(t, id));
}

/// A delete of an identifier that no stored user has reports no affected
/// row and leaves the table as it was.
pub proof fn lemma_delete_of_missing_user(t: TableView, id: i32)
    requires
        !has_user(t, id),
    ensures
        matching(t, id) == 0,
        answer_to(t, StatementView::Delete { id }) == Ok::<ReplyView, DbErrorView>(
            ReplyView { counts: seq![0u64], items: Seq::empty() },
        ),
        state_after(t, StatementView::Delete { id }) == t,
{
    lemma_filter_by_id(t.users, id);
}

/// Deleting the same identifier twice: the first delete reports one
/// affected row where the user is stored and none where it is not; the
/// second reports none and changes nothing.
pub proof fn lemma_delete_twice(t: TableView, id: i32)
    requires
        valid_table(t),
    ensures
        matching(t, id) == (if has_user(t, id) { 1nat } else { 0nat }),
        matching(deleted(t, id), id) == 0,
        answer_to(deleted(t, id), StatementView::Delete { id }) == Ok::<ReplyView, DbErrorView>(
            ReplyView { counts: seq![0u64], items: Seq::empty() },
        ),
        deleted(deleted(t, id), id) == deleted(t, id),
{
    lemma_filter_by_id(t.users, id);
    lemma_filter_by_id(deleted(t, id).users, id);
}

/// A user as stored in the table.
#[derive(Clone, Debug, PartialEq, Eq)]
pub struct StoredUser {
    pub id: i32,
    pub name: String,
    pub age: Option<i32>,
}

impl View for StoredUser {
    type V = UserView;

    open spec fn view(&self) -> UserView {
        UserView { id: self.id, name: self.name@, age: self.age }
    }
}

impl DeepView for StoredUser {
    type V = UserView;

    open spec fn deep_view(&self) -> UserView {
        self@
    }
}

/// The table, held in memory.
#[derive(Debug)]
pub struct UserTable {
    users: Vec<StoredUser>,
    issued: i32,
}

impl View for UserTable {
    type V = TableView;

    closed spec fn view(&self) -> TableView {
        TableView { users: self.users.deep_view(), issued: self.issued as int }
    }
}

impl UserTable {
    /// Whether the table is in a state that it can be in.
    pub open spec fn wf(&self) -> bool {
        valid_table(self@)
    }

    /// An empty table that has assigned no identifier yet.
    pub fn new() -> (table: UserTable)
        ensures
            table.wf(),
            table@ == empty_table(),
    {
        let table = UserTable { users: Vec::new(), issued: 0 };
        assert(table@.users =~= Seq::<UserView>::empty());
        table
    }

    /// An empty table that has assigned `issued` identifiers before: the
    /// state after that many users were stored and all of them deleted.
    /// There is no such table for a negative number.
    pub fn emptied(issued: i32) -> (r: Option<UserTable>)
        ensures
            match r {
                Some(table) => {
                    &&& issued >= 0
                    &&& table.wf()
                    &&& table@ == (TableView { users: Seq::empty(), issued: issued as int })
                },
                None => issued < 0,
            },
    {
        if issued < 0 {
            return None;
        }
        let table = UserTable { users: Vec::new(), issued };
        assert(table@.users =~= Seq::<UserView>::empty());
        Some(table)
    }

    /// Stores a user with the next identifier and returns that identifier.
    /// The age may be null. Fails, and leaves the table as it was, where the
    /// name is longer than the limit or no identifier is left.
    pub fn store(&mut self, name: &str, age: Option<i32>) -> (r: Result<i32, DbError>)
        requires
            old(self).wf(),
        ensures
            final(self).wf(),
            match r {
                Ok(id) => {
                    &&& can_store(old(self)@, name@)
                    &&& final(self)@ == stored(old(self)@, name@, age)
                    &&& id == old(self)@.issued + 1
                },
                Err(e) => {
                    &&& !can_store(old(self)@, name@)
                    &&& final(self)@ == old(self)@
                    &&& e@ == store_failure(old(self)@, name@)
                },
            },
    {
        if name.unicode_len() > NAME_LIMIT {
            return Err(
                DbError::statement(String::from_str("String or binary data would be truncated.")),
            );
        }
        if self.issued == i32::MAX {
            return Err(
                DbError::statement(
                    String::from_str(
                        "Arithmetic overflow error converting IDENTITY to data type int.",
                    ),
                ),
            );
        }
        let ghost before = self.users.deep_view();
        let id = self.issued + 1;
        let user = StoredUser { id, name: String::from_str(name), age };
        self.issued = id;
        self.users.push(user);
        proof {
            assert(self.users.deep_view() =~= before.push(user@));
        }
        Ok(id)
    }

    /// Sets the age of the user `id` and returns the number of users
    /// changed: 0 where no such user is stored.
    pub fn update(&mut self, id: i32, age: i32) -> (count: u64)
        requires
            old(self).wf(),
        ensures
            final(self).wf(),
            final(self)@ == updated(old(self)@, id, age),
            count == matching(old(self)@, id),
    {
        let ghost all = self.users.deep_view();
        let mut count: u64 = 0;
        let mut i: usize = 0;
        proof {
            reveal(Seq::filter);
        }
        while i < self.users.len()
            invariant
                0 <= i <= all.len(),
                self.users.len() == all.len(),
                self.issued == old(self).issued,
                count == all.take(i as int).filter(is_user(id)).len(),
                count <= i,
                self.users.deep_view() =~= all.take(i as int).map_values(with_age(id, age))
                    + all.skip(i as int),
            decreases all.len() - i,
        {
            let ghost current = self.users.deep_view();
            proof {
                assert(self.users[i as int]@ == current[i as int]);
                assert(all.take(i + 1) =~= all.take(i as int).push(all[i as int]));
                all.take(i as int).lemma_filter_push(all[i as int], is_user(id));
            }
            if self.users[i].id == id {
                let name = self.users[i].name.clone();
                let changed = StoredUser { id, name, age: Some(age) };
                self.users.set(i, changed);
                count += 1;
                proof {
                    assert(self.users.deep_view() =~= current.update(i as int, changed@));
                }
            }
            i += 1;
        }
        proof {
            lemma_statement_keeps_valid(old(self)@, StatementView::Update { id, age });
        }
        count
    }

    /// Deletes the user `id` and returns the number of users deleted: 0
    /// where no such user is stored.
    pub fn delete(&mut self, id: i32) -> (count: u64)
        requires
            old(self).wf(),
        ensures
            final(self).wf(),
            final(self)@ == deleted(old(self)@, id),
            count == matching(old(self)@, id),
    {
        let ghost all = self.users.deep_view();
        let mut kept: Vec<StoredUser> = Vec::new();
        let mut count: u64 = 0;
        let mut i: usize = 0;
        proof {
            reveal(Seq::filter);
        }
        while i < self.users.len()
            invariant
                0 <= i <= all.len(),
                self.users.deep_view() == all,
                self.users.len() == all.len(),
                count == all.take(i as int).filter(is_user(id)).len(),
                count <= i,
                kept.deep_view() =~= all.take(i as int).filter(is_other(id)),
            decreases all.len() - i,
        {
            proof {
                assert(all.take(i + 1) =~= all.take(i as int).push(all[i as int]));
                all.take(i as int).lemma_filter_push(all[i as int], is_user(id));
                all.take(i as int).lemma_filter_push(all[i as int], is_other(id));
            }
            if self.users[i].id == id {
                count += 1;
            } else {
                let user = StoredUser {
                    id: self.users[i].id,
                    name: self.users[i].name.clone(),
                    age: self.users[i].age,
                };
                kept.push(user);
            }
            i += 1;
        }
        self.users = kept;
        proof {
            assert(all.take(all.len() as int) =~= all);
            lemma_statement_keeps_valid(old(self)@, StatementView::Delete { id });
        }
        count
    }

    /// The result stream of a select on the table.
    pub fn select(&self) -> (items: Vec<ResultItem>)
        ensures
            items.deep_view() == selected(self@),
    {
        let ghost all = self.users.deep_view();
        let mut items: Vec<ResultItem> = Vec::new();
        items.push(ResultItem::Metadata);
        let mut i: usize = 0;
        while i < self.users.len()
            invariant
                0 <= i <= all.len(),
                self.users.deep_view() == all,
                self.users.len() == all.len(),
                items.deep_view() =~= selected(
                    TableView { users: all.take(i as int), issued: 0 },
                ),
            decreases all.len() - i,
        {
            let ghost done = items.deep_view();
            let user = &self.users[i];
            let row = FetchedRow::complete(Some(user.id), Some(user.name.clone()), user.age);
            items.push(ResultItem::Row(row));
            proof {
                assert(items.deep_view() =~= done.push(ResultItemView::Row(row@)));
            }
            i += 1;
        }
        items
    }

    /// Carries out `statement` and answers as the server would.
    pub fn execute(&mut self, statement: &Statement) -> (answer: Result<Reply, DbError>)
        requires
            old(self).wf(),
        ensures
            final(self).wf(),
            final(self)@ == state_after(old(self)@, statement@),
            match answer {
                Ok(reply) => answer_to(old(self)@, statement@) == Ok::<ReplyView, DbErrorView>(
                    reply@,
                ),
                Err(e) => answer_to(old(self)@, statement@) == Err::<ReplyView, DbErrorView>(e@),
            },
    {
        let mut counts: Vec<u64> = Vec::new();
        let mut items: Vec<ResultItem> = Vec::new();
        match statement {
            Statement::Insert { name, age } => {
                match self.store(name.as_str(), Some(*age)) {
                    Ok(_) => {
                        counts.push(1);
                    },
                    Err(e) => {
                        return Err(e);
                    },
                }
            },
            Statement::Select => {
                items = self.select();
            },
            Statement::Update { id, age } => {
                let n = self.update(*id, *age);
                counts.push(n);
            },
            Statement::Delete { id } => {
                let n = self.delete(*id);
                counts.push(n);
            },
        }
        let reply = Reply { counts, items };
        proof {
            match answer_to(old(self)@, statement@) {
                Ok(expected) => {
                    assert(reply@.items =~= expected.items);
                },
                Err(_) => {},
            }
        }
        Ok(reply)
    }
}

} // verus!
