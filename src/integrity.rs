use vstd::prelude::*;

use crate::schema::{
    declared_unique_columns, foreign_key_rules, foreign_keys, table_spec, ForeignKeyView, OnDelete,
    TableId,
};

verus! {

/// The key columns of a stored row: its table, its `id` (for a table with a
/// composite primary key, a handle unique within the table), the value of
/// each of the table's foreign key columns in declaration order, and the
/// text that the table's unique key covers (empty where it covers none).
pub struct Row {
    pub table: TableId,
    pub id: u64,
    pub refs: Vec<Option<u64>>,
    pub name: String,
}

/// The mathematical value of a [`Row`].
pub ghost struct RowView {
    pub table: TableId,
    pub id: u64,
    pub refs: Seq<Option<u64>>,
    pub name: Seq<char>,
}

impl View for Row {
    type V = RowView;

    open spec fn view(&self) -> RowView {
        RowView { table: self.table, id: self.id, refs: self.refs@, name: self.name@ }
    }
}

/// A unique key: the row's text (when `with_name`) together with its first
/// `ref_count` foreign key columns.
#[derive(Clone, Copy, Debug, PartialEq, Eq, Structural)]
pub struct UniqueKey {
    pub with_name: bool,
    pub ref_count: usize,
}

/// The unique key of each table: a unique index or a composite primary key.
pub open spec fn unique_key(t: TableId) -> Option<UniqueKey> {
    match t {
        TableId::AuthProvider => Some(UniqueKey { with_name: true, ref_count: 1 }),
        TableId::UserSuspension => Some(UniqueKey { with_name: false, ref_count: 1 }),
        TableId::CommonTag => Some(UniqueKey { with_name: true, ref_count: 0 }),
        TableId::RelatedTechnology => Some(UniqueKey { with_name: false, ref_count: 2 }),
        TableId::ProjectTechnology => Some(UniqueKey { with_name: false, ref_count: 2 }),
        TableId::BlogPostTechnology => Some(UniqueKey { with_name: false, ref_count: 2 }),
        TableId::BlogSeriesPost => Some(UniqueKey { with_name: false, ref_count: 2 }),
        TableId::BlogSeriesTechnology => Some(UniqueKey { with_name: false, ref_count: 2 }),
        TableId::BlogPostReaction => Some(UniqueKey { with_name: false, ref_count: 2 }),
        TableId::BlogPostCommentReaction => Some(UniqueKey { with_name: false, ref_count: 2 }),
        _ => None,
    }
}

/// The unique key of a table, if it has one.
pub fn unique_key_of(t: TableId) -> (r: Option<UniqueKey>)
    ensures
        r == unique_key(t),
{
    match t {
        TableId::AuthProvider => Some(UniqueKey { with_name: true, ref_count: 1 }),
        TableId::UserSuspension => Some(UniqueKey { with_name: false, ref_count: 1 }),
        TableId::CommonTag => Some(UniqueKey { with_name: true, ref_count: 0 }),
        TableId::RelatedTechnology => Some(UniqueKey { with_name: false, ref_count: 2 }),
        TableId::ProjectTechnology => Some(UniqueKey { with_name: false, ref_count: 2 }),
        TableId::BlogPostTechnology => Some(UniqueKey { with_name: false, ref_count: 2 }),
        TableId::BlogSeriesPost => Some(UniqueKey { with_name: false, ref_count: 2 }),
        TableId::BlogSeriesTechnology => Some(UniqueKey { with_name: false, ref_count: 2 }),
        TableId::BlogPostReaction => Some(UniqueKey { with_name: false, ref_count: 2 }),
        TableId::BlogPostCommentReaction => Some(UniqueKey { with_name: false, ref_count: 2 }),
        _ => None,
    }
}

/// Why a change was refused.
#[derive(Clone, Copy, Debug, PartialEq, Eq, Structural)]
pub enum IntegrityError {
    /// The row has not one value for each foreign key of its table.
    WrongShape,
    /// A not-null foreign key column is null.
    NullReference,
    /// The table already holds a row with this id.
    DuplicateId,
    /// A foreign key points at a row that does not exist.
    MissingReference,
    /// Another row of the table has the same unique key.
    DuplicateKey,
    /// There is no row with this table and id.
    NotFound,
}

/// The row has one value for each foreign key of its table, and only
/// nullable ones are null.
pub open spec fn shaped(r: RowView) -> bool {
    &&& r.refs.len() == foreign_keys(r.table).len()
    &&& forall|k: int|
        0 <= k < r.refs.len() && (#[trigger] r.refs[k]) is None ==> foreign_keys(r.table)[k].nullable()
}

/// Foreign key `k` of `r` points at `target`.
pub open spec fn points_to(r: RowView, k: int, target: RowView) -> bool {
    &&& 0 <= k < r.refs.len()
    &&& k < foreign_keys(r.table).len()
    &&& r.refs[k] == Some(target.id)
    &&& foreign_keys(r.table)[k].target == target.table
}

/// Foreign key `k` of `r` is null or points at a row of `rows`.
pub open spec fn resolves(rows: Seq<RowView>, r: RowView, k: int) -> bool {
    r.refs[k] is Some ==> exists|j: int| 0 <= j < rows.len() && #[trigger] points_to(r, k, rows[j])
}

/// Two rows of one table with the same id.
pub open spec fn same_id(a: RowView, b: RowView) -> bool {
    a.table == b.table && a.id == b.id
}

/// Two rows of one table whose unique key columns are equal and not null.
pub open spec fn key_conflict(a: RowView, b: RowView) -> bool {
    &&& a.table == b.table
    &&& unique_key(a.table) is Some
    &&& (unique_key(a.table)->0.with_name ==> a.name == b.name)
    &&& forall|k: int|
        0 <= k < unique_key(a.table)->0.ref_count ==> (#[trigger] a.refs[k]) is Some && a.refs[k]
            == b.refs[k]
}

/// The rows satisfy every rule of the schema.
pub open spec fn wf(rows: Seq<RowView>) -> bool {
    &&& forall|i: int| 0 <= i < rows.len() ==> shaped(#[trigger] rows[i])
    &&& forall|i: int, k: int|
        0 <= i < rows.len() && 0 <= k < rows[i].refs.len() ==> #[trigger] resolves(
            rows,
            rows[i],
            k,
        )
    &&& forall|i: int, j: int|
        0 <= i < rows.len() && 0 <= j < rows.len() && i != j ==> !same_id(
            #[trigger] rows[i],
            #[trigger] rows[j],
        )
    &&& forall|i: int, j: int|
        0 <= i < rows.len() && 0 <= j < rows.len() && i != j ==> !key_conflict(
            #[trigger] rows[i],
            #[trigger] rows[j],
        )
}

/// What inserting `r` into `rows` gives: the first rule it breaks, if any.
pub open spec fn insert_outcome(rows: Seq<RowView>, r: RowView) -> Result<(), IntegrityError> {
    if r.refs.len() != foreign_keys(r.table).len() {
        Err(IntegrityError::WrongShape)
    } else if !shaped(r) {
        Err(IntegrityError::NullReference)
    } else if exists|i: int| 0 <= i < rows.len() && same_id(#[trigger] rows[i], r) {
        Err(IntegrityError::DuplicateId)
    } else if exists|k: int| 0 <= k < r.refs.len() && !#[trigger] resolves(rows, r, k) {
        Err(IntegrityError::MissingReference)
    } else if exists|i: int| 0 <= i < rows.len() && key_conflict(#[trigger] rows[i], r) {
        Err(IntegrityError::DuplicateKey)
    } else {
        Ok(())
    }
}

/// The columns that a table's unique key covers: `name` when the key holds
/// the row's text, then the columns of its first foreign keys.
pub open spec fn unique_key_columns(t: TableId) -> Option<Seq<Seq<char>>> {
    match unique_key(t) {
        Some(k) => Some(
            (if k.with_name {
                seq!["name"@]
            } else {
                Seq::empty()
            }) + table_spec(t).foreign_keys.take(k.ref_count as int).map_values(
                |f: ForeignKeyView| f.column,
            ),
        ),
        None => None,
    }
}

/// The unique keys that the rows obey are exactly the unique constraints
/// that the migrations declare.
pub proof fn lemma_unique_keys_declared(t: TableId)
    ensures
        unique_key_columns(t) == declared_unique_columns(t),
{
    match t {
        TableId::AuthProvider => {
            assert(unique_key_columns(t)->0 =~= declared_unique_columns(t)->0);
        },
        TableId::UserSuspension => {
            assert(unique_key_columns(t)->0 =~= declared_unique_columns(t)->0);
        },
        TableId::RelatedTechnology => {
            assert(unique_key_columns(t)->0 =~= declared_unique_columns(t)->0);
        },
        TableId::ProjectTechnology => {
            assert(unique_key_columns(t)->0 =~= declared_unique_columns(t)->0);
        },
        TableId::CommonTag => {
            assert(unique_key_columns(t)->0 =~= declared_unique_columns(t)->0);
        },
        TableId::BlogPostTechnology => {
            assert(unique_key_columns(t)->0 =~= declared_unique_columns(t)->0);
        },
        TableId::BlogSeriesPost => {
            assert(unique_key_columns(t)->0 =~= declared_unique_columns(t)->0);
        },
        TableId::BlogSeriesTechnology => {
            assert(unique_key_columns(t)->0 =~= declared_unique_columns(t)->0);
        },
        TableId::BlogPostReaction => {
            assert(unique_key_columns(t)->0 =~= declared_unique_columns(t)->0);
        },
        TableId::BlogPostCommentReaction => {
            assert(unique_key_columns(t)->0 =~= declared_unique_columns(t)->0);
        },
        _ => {},
    }
}

/// A unique key covers only foreign key columns that the table has.
pub proof fn lemma_unique_key_within_foreign_keys(t: TableId)
    ensures
        unique_key(t) matches Some(key) ==> key.ref_count <= foreign_keys(t).len(),
{
}

/// Inserting a row that breaks no rule keeps the rows consistent.
pub proof fn lemma_insert_wf(rows: Seq<RowView>, r: RowView)
    requires
        wf(rows),
        insert_outcome(rows, r) is Ok,
    ensures
        wf(rows.push(r)),
{
    let rows2 = rows.push(r);
    assert forall|i: int, k: int|
        0 <= i < rows2.len() && 0 <= k < rows2[i].refs.len() implies #[trigger] resolves(
        rows2,
        rows2[i],
        k,
    ) by {
        if i < rows.len() {
            assert(resolves(rows, rows[i], k));
            if rows[i].refs[k] is Some {
                let j = choose|j: int| 0 <= j < rows.len() && #[trigger] points_to(rows[i], k, rows[j]);
                assert(points_to(rows2[i], k, rows2[j]));
            }
        } else {
            assert(resolves(rows, r, k));
            if r.refs[k] is Some {
                let j = choose|j: int| 0 <= j < rows.len() && #[trigger] points_to(r, k, rows[j]);
                assert(points_to(rows2[i], k, rows2[j]));
            }
        }
    }
    assert forall|i: int, j: int|
        0 <= i < rows2.len() && 0 <= j < rows2.len() && i != j implies !same_id(
        #[trigger] rows2[i],
        #[trigger] rows2[j],
    ) by {
        if i == rows.len() {
            assert(!same_id(rows[j], r));
        } else if j == rows.len() {
            assert(!same_id(rows[i], r));
        }
    }
    assert forall|i: int, j: int|
        0 <= i < rows2.len() && 0 <= j < rows2.len() && i != j implies !key_conflict(
        #[trigger] rows2[i],
        #[trigger] rows2[j],
    ) by {
        if i == rows.len() {
            assert(!key_conflict(rows[j], r));
            lemma_key_conflict_symmetric(r, rows[j]);
        } else if j == rows.len() {
            assert(!key_conflict(rows[i], r));
        }
    }
}

/// A key conflict does not depend on the order of the two rows.
pub proof fn lemma_key_conflict_symmetric(a: RowView, b: RowView)
    ensures
        key_conflict(a, b) ==> key_conflict(b, a),
{
    if key_conflict(a, b) {
        assert forall|k: int| 0 <= k < unique_key(b.table)->0.ref_count implies (
        #[trigger] b.refs[k]) is Some && b.refs[k] == a.refs[k] by {
            assert(a.refs[k] is Some);
        }
    }
}

/// Row `i` has a cascading foreign key that points at row `j`.
pub open spec fn cascades_into(rows: Seq<RowView>, i: int, j: int) -> bool {
    exists|k: int|
        foreign_keys(rows[i].table)[k].on_delete == OnDelete::Cascade && #[trigger] points_to(
            rows[i],
            k,
            rows[j],
        )
}

/// Every row with a cascading foreign key into a row of `d` is in `d`.
pub open spec fn closed(rows: Seq<RowView>, d: Set<int>) -> bool {
    forall|i: int, j: int|
        0 <= i < rows.len() && 0 <= j < rows.len() && d.contains(j) && #[trigger] cascades_into(
            rows,
            i,
            j,
        ) ==> d.contains(i)
}

/// The rows that deleting row `root` removes: the least set that holds
/// `root` and every row with a cascading foreign key into it.
pub open spec fn cascade_set(rows: Seq<RowView>, root: int) -> Set<int> {
    Set::new(
        |i: int|
            0 <= i < rows.len() && forall|d: Set<int>|
                closed(rows, d) && d.contains(root) ==> #[trigger] d.contains(i),
    )
}

/// Foreign key `k` of `r` points at a row of `rows` that `d` holds.
pub open spec fn points_into(rows: Seq<RowView>, d: Set<int>, r: RowView, k: int) -> bool {
    exists|j: int| 0 <= j < rows.len() && d.contains(j) && #[trigger] points_to(r, k, rows[j])
}

/// `r` with each set-null foreign key that points into `d` set to null.
pub open spec fn nulled(rows: Seq<RowView>, d: Set<int>, r: RowView) -> RowView {
    RowView {
        refs: Seq::new(
            r.refs.len(),
            |k: int|
                if foreign_keys(r.table)[k].on_delete == OnDelete::SetNull && points_into(
                    rows,
                    d,
                    r,
                    k,
                ) {
                    None
                } else {
                    r.refs[k]
                },
        ),
        ..r
    }
}

/// The first `n` rows without those in `d`, in order, each nulled.
pub open spec fn survivors(rows: Seq<RowView>, d: Set<int>, n: int) -> Seq<RowView>
    decreases n,
{
    if n <= 0 {
        Seq::empty()
    } else if d.contains(n - 1) {
        survivors(rows, d, n - 1)
    } else {
        survivors(rows, d, n - 1).push(nulled(rows, d, rows[n - 1]))
    }
}

/// The rows after deleting row `root`.
pub open spec fn after_delete(rows: Seq<RowView>, root: int) -> Seq<RowView> {
    survivors(rows, cascade_set(rows, root), rows.len() as int)
}

/// The position of the row of `table` with this `id`, if there is one.
pub open spec fn find_row(rows: Seq<RowView>, table: TableId, id: u64) -> Option<int> {
    if exists|i: int| 0 <= i < rows.len() && #[trigger] rows[i].table == table && rows[i].id == id {
        Some(choose|i: int| 0 <= i < rows.len() && #[trigger] rows[i].table == table && rows[i].id == id)
    } else {
        None
    }
}

/// The cascade set holds `root` and is closed.
pub proof fn lemma_cascade_set(rows: Seq<RowView>, root: int)
    requires
        0 <= root < rows.len(),
    ensures
        cascade_set(rows, root).contains(root),
        closed(rows, cascade_set(rows, root)),
{
    let c = cascade_set(rows, root);
    assert forall|i: int, j: int|
        0 <= i < rows.len() && 0 <= j < rows.len() && c.contains(j) && #[trigger] cascades_into(
            rows,
            i,
            j,
        ) implies c.contains(i) by {
        assert forall|d: Set<int>| closed(rows, d) && d.contains(root) implies #[trigger] d.contains(
            i,
        ) by {
            assert(d.contains(j));
        }
    }
}

/// The count of unset marks.
pub open spec fn unmarked(s: Seq<bool>) -> nat
    decreases s.len(),
{
    if s.len() == 0 {
        0
    } else {
        unmarked(s.drop_last()) + if s.last() {
            0nat
        } else {
            1nat
        }
    }
}

/// Setting an unset mark lowers the count by one.
pub proof fn lemma_unmarked_set(s: Seq<bool>, i: int)
    requires
        0 <= i < s.len(),
        !s[i],
    ensures
        unmarked(s.update(i, true)) + 1 == unmarked(s),
    decreases s.len(),
{
    let t = s.update(i, true);
    if i == s.len() - 1 {
        assert(t.drop_last() =~= s.drop_last());
    } else {
        assert(t.drop_last() =~= s.drop_last().update(i, true));
        lemma_unmarked_set(s.drop_last(), i);
    }
}

/// The positions that `marks` sets.
pub open spec fn marked_set(marks: Seq<bool>) -> Set<int> {
    Set::new(|j: int| 0 <= j < marks.len() && marks[j])
}

/// Every row of `survivors` is a nulled row of `rows` outside `d`.
pub proof fn lemma_survivor_origin(rows: Seq<RowView>, d: Set<int>, n: int, m: int)
    requires
        0 <= n <= rows.len(),
        0 <= m < survivors(rows, d, n).len(),
    ensures
        exists|i: int|
            0 <= i < n && !d.contains(i) && survivors(rows, d, n)[m] == nulled(rows, d, #[trigger] rows[i]),
    decreases n,
{
    if n > 0 {
        if d.contains(n - 1) {
            lemma_survivor_origin(rows, d, n - 1, m);
        } else if m < survivors(rows, d, n - 1).len() {
            lemma_survivor_origin(rows, d, n - 1, m);
        } else {
            assert(survivors(rows, d, n)[m] == nulled(rows, d, rows[n - 1]));
        }
    }
}

/// Every row of `rows` outside `d` is kept, nulled, in `survivors`.
pub proof fn lemma_survivor_kept(rows: Seq<RowView>, d: Set<int>, n: int, i: int)
    requires
        0 <= i < n <= rows.len(),
        !d.contains(i),
    ensures
        exists|m: int|
            0 <= m < survivors(rows, d, n).len() && #[trigger] survivors(rows, d, n)[m] == nulled(
                rows,
                d,
                rows[i],
            ),
    decreases n,
{
    if i == n - 1 {
        let m = survivors(rows, d, n - 1).len() as int;
        assert(survivors(rows, d, n)[m] == nulled(rows, d, rows[i]));
    } else {
        lemma_survivor_kept(rows, d, n - 1, i);
        let m = choose|m: int|
            0 <= m < survivors(rows, d, n - 1).len() && #[trigger] survivors(rows, d, n - 1)[m]
                == nulled(rows, d, rows[i]);
        assert(survivors(rows, d, n)[m] == nulled(rows, d, rows[i]));
    }
}

/// Nulling keeps a row's table, id, text and the number of its references.
pub proof fn lemma_nulled_conflict(rows: Seq<RowView>, d: Set<int>, a: RowView, b: RowView)
    requires
        shaped(a),
        shaped(b),
        key_conflict(nulled(rows, d, a), nulled(rows, d, b)),
    ensures
        key_conflict(a, b),
{
    lemma_unique_key_within_foreign_keys(a.table);
    let na = nulled(rows, d, a);
    let nb = nulled(rows, d, b);
    assert forall|k: int| 0 <= k < unique_key(a.table)->0.ref_count implies (
    #[trigger] a.refs[k]) is Some && a.refs[k] == b.refs[k] by {
        assert(na.refs[k] is Some && na.refs[k] == nb.refs[k]);
    }
}

/// The survivors of consistent rows have distinct ids and unique keys.
pub proof fn lemma_survivors_distinct(rows: Seq<RowView>, d: Set<int>, n: int)
    requires
        wf(rows),
        0 <= n <= rows.len(),
    ensures
        forall|a: int, b: int|
            0 <= a < survivors(rows, d, n).len() && 0 <= b < survivors(rows, d, n).len() && a != b
                ==> !same_id(#[trigger] survivors(rows, d, n)[a], #[trigger] survivors(rows, d, n)[b])
                && !key_conflict(survivors(rows, d, n)[a], survivors(rows, d, n)[b]),
    decreases n,
{
    if n > 0 {
        lemma_survivors_distinct(rows, d, n - 1);
        if !d.contains(n - 1) {
            let prev = survivors(rows, d, n - 1);
            let x = nulled(rows, d, rows[n - 1]);
            let cur = survivors(rows, d, n);
            assert(cur == prev.push(x));
            assert forall|a: int, b: int|
                0 <= a < cur.len() && 0 <= b < cur.len() && a != b implies !same_id(
                #[trigger] cur[a],
                #[trigger] cur[b],
            ) && !key_conflict(cur[a], cur[b]) by {
                if a == prev.len() || b == prev.len() {
                    let m = if a == prev.len() {
                        b
                    } else {
                        a
                    };
                    lemma_survivor_origin(rows, d, n - 1, m);
                    let i = choose|i: int|
                        0 <= i < n - 1 && !d.contains(i) && prev[m] == nulled(rows, d, #[trigger] rows[i]);
                    assert(!same_id(rows[i], rows[n - 1]));
                    assert(!key_conflict(rows[i], rows[n - 1]));
                    assert(!key_conflict(rows[n - 1], rows[i]));
                    if key_conflict(cur[a], cur[b]) {
                        if a == prev.len() {
                            lemma_nulled_conflict(rows, d, rows[n - 1], rows[i]);
                        } else {
                            lemma_nulled_conflict(rows, d, rows[i], rows[n - 1]);
                        }
                    }
                }
            }
        }
    }
}

/// Deleting a row of consistent rows, with its cascade, leaves them consistent.
pub proof fn lemma_delete_wf(rows: Seq<RowView>, root: int)
    requires
        wf(rows),
        0 <= root < rows.len(),
    ensures
        wf(after_delete(rows, root)),
{
    let c = cascade_set(rows, root);
    let n = rows.len() as int;
    let out = after_delete(rows, root);
    lemma_cascade_set(rows, root);
    lemma_survivors_distinct(rows, c, n);
    assert forall|m: int| 0 <= m < out.len() implies shaped(#[trigger] out[m]) by {
        lemma_survivor_origin(rows, c, n, m);
        let i = choose|i: int| 0 <= i < n && !c.contains(i) && out[m] == nulled(rows, c, #[trigger] rows[i]);
        assert(shaped(rows[i]));
        assert forall|k: int| 0 <= k < out[m].refs.len() && (#[trigger] out[m].refs[k]) is None implies foreign_keys(
            out[m].table,
        )[k].nullable() by {
            if rows[i].refs[k] is Some {
                assert(foreign_keys(rows[i].table)[k].on_delete == OnDelete::SetNull);
            }
        }
    }
    assert forall|m: int, k: int|
        0 <= m < out.len() && 0 <= k < out[m].refs.len() implies #[trigger] resolves(
        out,
        out[m],
        k,
    ) by {
        lemma_survivor_origin(rows, c, n, m);
        let i = choose|i: int| 0 <= i < n && !c.contains(i) && out[m] == nulled(rows, c, #[trigger] rows[i]);
        if out[m].refs[k] is Some {
            assert(rows[i].refs[k] == out[m].refs[k]);
            assert(resolves(rows, rows[i], k));
            let j = choose|j: int| 0 <= j < rows.len() && #[trigger] points_to(rows[i], k, rows[j]);
            if c.contains(j) {
                if foreign_keys(rows[i].table)[k].on_delete == OnDelete::Cascade {
                    assert(cascades_into(rows, i, j));
                } else {
                    assert(points_into(rows, c, rows[i], k));
                }
            }
            lemma_survivor_kept(rows, c, n, j);
            let m2 = choose|m2: int|
                0 <= m2 < out.len() && #[trigger] survivors(rows, c, n)[m2] == nulled(rows, c, rows[j]);
            assert(points_to(out[m], k, out[m2]));
        }
    }
}

/// Every foreign key into table `t` cascades on delete.
pub open spec fn only_cascades_into(t: TableId) -> bool {
    forall|u: TableId, k: int|
        0 <= k < foreign_keys(u).len() && (#[trigger] foreign_keys(u)[k]).target == t
            ==> foreign_keys(u)[k].on_delete == OnDelete::Cascade
}

/// No foreign key into table `t` cascades on delete.
pub open spec fn never_cascades_into(t: TableId) -> bool {
    forall|u: TableId, k: int|
        0 <= k < foreign_keys(u).len() && (#[trigger] foreign_keys(u)[k]).target == t
            ==> foreign_keys(u)[k].on_delete == OnDelete::SetNull
}

/// Which tables the foreign keys into users, posts, tags and comments come
/// from, and how they act on delete.
pub proof fn lemma_delete_actions()
    ensures
        only_cascades_into(TableId::User),
        only_cascades_into(TableId::BlogPost),
        never_cascades_into(TableId::CommonTag),
        forall|u: TableId, k: int|
            0 <= k < foreign_keys(u).len() && (#[trigger] foreign_keys(u)[k]).target
                == TableId::BlogPostComment && foreign_keys(u)[k].on_delete == OnDelete::Cascade
                ==> u == TableId::BlogPostCommentReaction,
        forall|u: TableId, k: int|
            0 <= k < foreign_keys(u).len() ==> (#[trigger] foreign_keys(u)[k]).target
                != TableId::BlogPostCommentReaction,
{
    assert forall|u: TableId, k: int| 0 <= k < foreign_keys(u).len() implies {
        let f = #[trigger] foreign_keys(u)[k];
        &&& f.target == TableId::User ==> f.on_delete == OnDelete::Cascade
        &&& f.target == TableId::BlogPost ==> f.on_delete == OnDelete::Cascade
        &&& f.target == TableId::CommonTag ==> f.on_delete == OnDelete::SetNull
        &&& f.target == TableId::BlogPostComment && f.on_delete == OnDelete::Cascade
            ==> u == TableId::BlogPostCommentReaction
        &&& f.target != TableId::BlogPostCommentReaction
    } by {
        match u {
            TableId::BlogPostTag => {
                assert(k == 0 || k == 1 || k == 2);
            },
            TableId::BlogPostComment => {
                assert(k == 0 || k == 1 || k == 2);
            },
            _ => {},
        }
    }
}

/// In consistent rows no two rows share a unique key: an auth provider's
/// (name, user), a common tag's name, a suspension's user, a post reaction's
/// (post, user) and a comment reaction's (comment, user).
pub proof fn lemma_unique_keys_hold(rows: Seq<RowView>, i: int, j: int)
    requires
        wf(rows),
        0 <= i < rows.len(),
        0 <= j < rows.len(),
        i != j,
    ensures
        rows[i].table == TableId::AuthProvider && rows[j].table == TableId::AuthProvider ==> !(
        rows[i].name == rows[j].name && rows[i].refs[0] == rows[j].refs[0]),
        rows[i].table == TableId::CommonTag && rows[j].table == TableId::CommonTag ==> rows[i].name
            != rows[j].name,
        rows[i].table == TableId::UserSuspension && rows[j].table == TableId::UserSuspension
            ==> rows[i].refs[0] != rows[j].refs[0],
        rows[i].table == TableId::BlogPostReaction && rows[j].table == TableId::BlogPostReaction
            ==> !(rows[i].refs[0] == rows[j].refs[0] && rows[i].refs[1] == rows[j].refs[1]),
        rows[i].table == TableId::BlogPostCommentReaction && rows[j].table
            == TableId::BlogPostCommentReaction ==> !(rows[i].refs[0] == rows[j].refs[0]
            && rows[i].refs[1] == rows[j].refs[1]),
{
    let a = rows[i];
    let b = rows[j];
    assert(shaped(a));
    assert(!key_conflict(a, b));
    if a.refs.len() > 0 && a.refs[0] is None {
        assert(foreign_keys(a.table)[0].nullable());
    }
    if a.refs.len() > 1 && a.refs[1] is None {
        assert(foreign_keys(a.table)[1].nullable());
    }
}

/// Deleting a row removes every row that depends on it through cascading
/// foreign keys, transitively, and leaves no row pointing at a removed row.
pub proof fn lemma_delete_removes_dependents(rows: Seq<RowView>, root: int)
    requires
        wf(rows),
        0 <= root < rows.len(),
    ensures
        cascade_set(rows, root).contains(root),
        closed(rows, cascade_set(rows, root)),
        forall|m: int, k: int, j: int|
            0 <= m < after_delete(rows, root).len() && 0 <= j < rows.len() && cascade_set(
                rows,
                root,
            ).contains(j) ==> !#[trigger] points_to(after_delete(rows, root)[m], k, rows[j]),
{
    let c = cascade_set(rows, root);
    let n = rows.len() as int;
    let out = after_delete(rows, root);
    lemma_cascade_set(rows, root);
    assert forall|m: int, k: int, j: int|
        0 <= m < out.len() && 0 <= j < rows.len() && c.contains(j) implies !#[trigger] points_to(
        out[m],
        k,
        rows[j],
    ) by {
        if points_to(out[m], k, rows[j]) {
            lemma_survivor_origin(rows, c, n, m);
            let i = choose|i: int| 0 <= i < n && !c.contains(i) && out[m] == nulled(rows, c, #[trigger] rows[i]);
            assert(points_to(rows[i], k, rows[j]));
            if foreign_keys(rows[i].table)[k].on_delete == OnDelete::Cascade {
                assert(cascades_into(rows, i, j));
            } else {
                assert(points_into(rows, c, rows[i], k));
            }
        }
    }
}

/// Deleting a row of a table whose every incoming foreign key cascades
/// removes every row that points at it.
pub proof fn lemma_delete_removes_referrers(rows: Seq<RowView>, root: int)
    requires
        wf(rows),
        0 <= root < rows.len(),
        only_cascades_into(rows[root].table),
    ensures
        forall|i: int, k: int|
            0 <= i < rows.len() && #[trigger] points_to(rows[i], k, rows[root]) ==> cascade_set(
                rows,
                root,
            ).contains(i),
{
    lemma_cascade_set(rows, root);
    assert forall|i: int, k: int|
        0 <= i < rows.len() && #[trigger] points_to(rows[i], k, rows[root]) implies cascade_set(
        rows,
        root,
    ).contains(i) by {
        assert(foreign_keys(rows[i].table)[k].target == rows[root].table);
        assert(cascades_into(rows, i, root));
    }
}

/// Deleting a user removes every row that points at the user: providers,
/// suspensions and every row the user created.
pub proof fn lemma_delete_user_removes_owned_rows(rows: Seq<RowView>, root: int)
    requires
        wf(rows),
        0 <= root < rows.len(),
        rows[root].table == TableId::User,
    ensures
        forall|i: int, k: int|
            0 <= i < rows.len() && #[trigger] points_to(rows[i], k, rows[root]) ==> cascade_set(
                rows,
                root,
            ).contains(i),
{
    lemma_delete_actions();
    lemma_delete_removes_referrers(rows, root);
}

/// Deleting a blog post removes its tags, images, comments, reactions and
/// its links to technologies and series.
pub proof fn lemma_delete_post_removes_its_rows(rows: Seq<RowView>, root: int)
    requires
        wf(rows),
        0 <= root < rows.len(),
        rows[root].table == TableId::BlogPost,
    ensures
        forall|i: int, k: int|
            0 <= i < rows.len() && #[trigger] points_to(rows[i], k, rows[root]) ==> cascade_set(
                rows,
                root,
            ).contains(i),
{
    lemma_delete_actions();
    lemma_delete_removes_referrers(rows, root);
}

/// Deleting a common tag removes only that row; every other row stays, and
/// a blog post tag that pointed at it keeps its place with a null link.
pub proof fn lemma_delete_common_tag_nulls_links(rows: Seq<RowView>, root: int, i: int)
    requires
        wf(rows),
        0 <= root < rows.len(),
        rows[root].table == TableId::CommonTag,
        0 <= i < rows.len(),
        i != root,
    ensures
        cascade_set(rows, root) == set![root],
        exists|m: int|
            0 <= m < after_delete(rows, root).len() && #[trigger] after_delete(rows, root)[m]
                == nulled(rows, set![root], rows[i]),
        rows[i].table == TableId::BlogPostTag ==> nulled(rows, set![root], rows[i]).refs[1] == if rows[i].refs[1]
            == Some(rows[root].id) {
            None
        } else {
            rows[i].refs[1]
        },
{
    let c = cascade_set(rows, root);
    lemma_delete_actions();
    lemma_cascade_set(rows, root);
    let x = set![root];
    assert(closed(rows, x)) by {
        assert forall|a: int, b: int|
            0 <= a < rows.len() && 0 <= b < rows.len() && x.contains(b) && #[trigger] cascades_into(
                rows,
                a,
                b,
            ) implies x.contains(a) by {
            let k = choose|k: int|
                foreign_keys(rows[a].table)[k].on_delete == OnDelete::Cascade && #[trigger] points_to(
                    rows[a],
                    k,
                    rows[b],
                );
            assert(foreign_keys(rows[a].table)[k].target == TableId::CommonTag);
        }
    }
    assert(c =~= x);
    lemma_survivor_kept(rows, c, rows.len() as int, i);
    let m = choose|m: int|
        0 <= m < survivors(rows, c, rows.len() as int).len() && #[trigger] survivors(
            rows,
            c,
            rows.len() as int,
        )[m] == nulled(rows, c, rows[i]);
    assert(after_delete(rows, root)[m] == nulled(rows, set![root], rows[i]));
    if rows[i].table == TableId::BlogPostTag {
        assert(shaped(rows[i]));
        if rows[i].refs[1] == Some(rows[root].id) {
            assert(points_to(rows[i], 1, rows[root]));
            assert(points_into(rows, x, rows[i], 1));
        }
    }
}

/// Deleting a comment keeps every other comment; a reply to it keeps its
/// place with a null parent.
pub proof fn lemma_delete_comment_orphans_replies(rows: Seq<RowView>, root: int, i: int)
    requires
        wf(rows),
        0 <= root < rows.len(),
        rows[root].table == TableId::BlogPostComment,
        0 <= i < rows.len(),
        i != root,
        rows[i].table == TableId::BlogPostComment,
    ensures
        !cascade_set(rows, root).contains(i),
        exists|m: int|
            0 <= m < after_delete(rows, root).len() && #[trigger] after_delete(rows, root)[m]
                == nulled(rows, cascade_set(rows, root), rows[i]),
        nulled(rows, cascade_set(rows, root), rows[i]).refs[2] == if rows[i].refs[2] == Some(
            rows[root].id,
        ) {
            None
        } else {
            rows[i].refs[2]
        },
{
    let c = cascade_set(rows, root);
    lemma_delete_actions();
    lemma_cascade_set(rows, root);
    let x = Set::new(
        |j: int| j == root || (0 <= j < rows.len() && rows[j].table == TableId::BlogPostCommentReaction),
    );
    assert(closed(rows, x)) by {
        assert forall|a: int, b: int|
            0 <= a < rows.len() && 0 <= b < rows.len() && x.contains(b) && #[trigger] cascades_into(
                rows,
                a,
                b,
            ) implies x.contains(a) by {
            let k = choose|k: int|
                foreign_keys(rows[a].table)[k].on_delete == OnDelete::Cascade && #[trigger] points_to(
                    rows[a],
                    k,
                    rows[b],
                );
            assert(foreign_keys(rows[a].table)[k].target == rows[b].table);
        }
    }
    if c.contains(i) {
        assert(x.contains(root));
        assert(x.contains(i));
    }
    lemma_survivor_kept(rows, c, rows.len() as int, i);
    let m = choose|m: int|
        0 <= m < survivors(rows, c, rows.len() as int).len() && #[trigger] survivors(
            rows,
            c,
            rows.len() as int,
        )[m] == nulled(rows, c, rows[i]);
    assert(after_delete(rows, root)[m] == nulled(rows, c, rows[i]));
    assert(shaped(rows[i]));
    if rows[i].refs[2] == Some(rows[root].id) {
        assert(points_to(rows[i], 2, rows[root]));
        assert(points_into(rows, c, rows[i], 2));
    } else if points_into(rows, c, rows[i], 2) {
        let j = choose|j: int| 0 <= j < rows.len() && c.contains(j) && #[trigger] points_to(rows[i], 2, rows[j]);
        assert(x.contains(j));
        assert(same_id(rows[j], rows[root]));
    }
}

/// Rows held under the schema's keys, foreign keys and unique keys.
pub struct Database {
    rows: Vec<Row>,
}

impl View for Database {
    type V = Seq<RowView>;

    closed spec fn view(&self) -> Seq<RowView> {
        self.rows@.map_values(|r: Row| r@)
    }
}

impl Database {
    /// The rows are consistent with the schema.
    pub open spec fn wf(&self) -> bool {
        wf(self@)
    }

    /// A database without rows.
    pub fn new() -> (r: Database)
        ensures
            r@ == Seq::<RowView>::empty(),
            r.wf(),
    {
        let r = Database { rows: Vec::new() };
        assert(r@ =~= Seq::<RowView>::empty());
        r
    }

    /// How many rows the database holds.
    pub fn len(&self) -> (r: usize)
        ensures
            r == self@.len(),
    {
        self.rows.len()
    }

    /// The row at `i`, as stored.
    pub fn row(&self, i: usize) -> (r: &Row)
        requires
            i < self@.len(),
        ensures
            r@ == self@[i as int],
    {
        &self.rows[i]
    }

    /// Adds `row` unless it breaks a rule of the schema; the error names the
    /// first rule it breaks, and the rows stay unchanged then.
    pub fn insert(&mut self, row: Row) -> (r: Result<(), IntegrityError>)
        requires
            old(self).wf(),
        ensures
            r == insert_outcome(old(self)@, row@),
            r is Ok ==> final(self)@ == old(self)@.push(row@),
            r is Err ==> final(self)@ == old(self)@,
            final(self).wf(),
    {
        let rules = foreign_key_rules(row.table);
        if row.refs.len() != rules.len() {
            return Err(IntegrityError::WrongShape);
        }
        let mut k: usize = 0;
        while k < row.refs.len()
            invariant
                k <= row.refs.len(),
                self@ == old(self)@,
                wf(self@),
                rules@ == foreign_keys(row.table),
                row.refs@.len() == rules@.len(),
                forall|j: int|
                    0 <= j < k && (#[trigger] row.refs@[j]) is None ==> foreign_keys(
                        row.table,
                    )[j].nullable(),
            decreases row.refs.len() - k,
        {
            if row.refs[k].is_none() && rules[k].on_delete != OnDelete::SetNull {
                assert(!shaped(row@));
                return Err(IntegrityError::NullReference);
            }
            k += 1;
        }
        assert(shaped(row@));
        let mut i: usize = 0;
        while i < self.rows.len()
            invariant
                i <= self.rows.len(),
                self@ == old(self)@,
                wf(self@),
                shaped(row@),
                forall|j: int| 0 <= j < i ==> !same_id(#[trigger] self@[j], row@),
            decreases self.rows.len() - i,
        {
            proof {
                self.lemma_view_index(i as int);
            }
            if self.rows[i].table == row.table && self.rows[i].id == row.id {
                assert(same_id(self@[i as int], row@));
                return Err(IntegrityError::DuplicateId);
            }
            i += 1;
        }
        let mut k: usize = 0;
        while k < row.refs.len()
            invariant
                k <= row.refs.len(),
                self@ == old(self)@,
                wf(self@),
                shaped(row@),
                !exists|i: int| 0 <= i < self@.len() && same_id(#[trigger] self@[i], row@),
                rules@ == foreign_keys(row.table),
                row.refs@.len() == rules@.len(),
                forall|j: int| 0 <= j < k ==> #[trigger] resolves(self@, row@, j),
            decreases row.refs.len() - k,
        {
            if let Some(v) = row.refs[k] {
                if !self.holds_target(rules[k].target, v) {
                    assert(!resolves(self@, row@, k as int)) by {
                        if exists|j: int| 0 <= j < self@.len() && #[trigger] points_to(row@, k as int, self@[j]) {
                            let j = choose|j: int| 0 <= j < self@.len() && #[trigger] points_to(row@, k as int, self@[j]);
                            assert(self@[j].table == rules@[k as int].target && self@[j].id == v);
                        }
                    }
                    return Err(IntegrityError::MissingReference);
                }
                let ghost j = choose|j: int| 0 <= j < self@.len() && self@[j].table == rules@[k as int].target && self@[j].id == v;
                assert(points_to(row@, k as int, self@[j]));
            }
            k += 1;
        }
        let mut i: usize = 0;
        while i < self.rows.len()
            invariant
                i <= self.rows.len(),
                self@ == old(self)@,
                shaped(row@),
                wf(self@),
                !exists|i: int| 0 <= i < self@.len() && same_id(#[trigger] self@[i], row@),
                forall|k: int| 0 <= k < row@.refs.len() ==> #[trigger] resolves(self@, row@, k),
                forall|j: int| 0 <= j < i ==> !key_conflict(#[trigger] self@[j], row@),
            decreases self.rows.len() - i,
        {
            proof {
                self.lemma_view_index(i as int);
            }
            if conflicts(&self.rows[i], &row) {
                assert(key_conflict(self@[i as int], row@));
                return Err(IntegrityError::DuplicateKey);
            }
            i += 1;
        }
        proof {
            lemma_insert_wf(self@, row@);
        }
        self.rows.push(row);
        assert(self@ =~= old(self)@.push(row@));
        Ok(())
    }

    /// Removes the row of `table` with this `id`, every row that depends on
    /// it through cascading foreign keys, transitively, and nulls the set-null
    /// foreign keys that pointed at a removed row.
    pub fn delete(&mut self, table: TableId, id: u64) -> (r: Result<(), IntegrityError>)
        requires
            old(self).wf(),
        ensures
            match find_row(old(self)@, table, id) {
                None => r == Err::<(), IntegrityError>(IntegrityError::NotFound) && final(self)@
                    == old(self)@,
                Some(root) => r is Ok && final(self)@ == after_delete(old(self)@, root),
            },
            final(self).wf(),
    {
        let root = match self.position(table, id) {
            Some(i) => i,
            None => return Err(IntegrityError::NotFound),
        };
        proof {
            let i = choose|i: int|
                0 <= i < self@.len() && #[trigger] self@[i].table == table && self@[i].id == id;
            assert(!same_id(self@[i], self@[root as int]) || i == root);
            assert(find_row(self@, table, id) == Some(root as int));
            lemma_delete_wf(self@, root as int);
        }
        let marks = self.cascade_marks(root);
        let ghost c = cascade_set(self@, root as int);
        assert(marked_set(marks@) =~= c);
        let mut kept: Vec<Row> = Vec::new();
        let mut i: usize = 0;
        while i < self.rows.len()
            invariant
                i <= self.rows.len(),
                self@ == old(self)@,
                wf(self@),
                marks@.len() == self@.len(),
                marked_set(marks@) == c,
                kept@.map_values(|r: Row| r@) == survivors(self@, c, i as int),
            decreases self.rows.len() - i,
        {
            proof {
                self.lemma_view_index(i as int);
            }
            if !marks[i] {
                let row = self.nulled_row(i, &marks);
                kept.push(row);
                assert(kept@.map_values(|r: Row| r@) =~= survivors(self@, c, i as int + 1));
            } else {
                assert(c.contains(i as int));
            }
            i += 1;
        }
        self.rows = kept;
        Ok(())
    }

    /// Marks the rows that deleting row `root` removes.
    fn cascade_marks(&self, root: usize) -> (marks: Vec<bool>)
        requires
            wf(self@),
            root < self@.len(),
        ensures
            marks@.len() == self@.len(),
            forall|j: int| 0 <= j < self@.len() ==> (marks@[j] <==> cascade_set(self@, root as int).contains(j)),
    {
        let ghost c = cascade_set(self@, root as int);
        proof {
            lemma_cascade_set(self@, root as int);
        }
        let mut marks: Vec<bool> = Vec::new();
        let mut i: usize = 0;
        while i < self.rows.len()
            invariant
                i <= self.rows.len(),
                self@.len() == self.rows@.len(),
                marks@.len() == i,
                forall|j: int| 0 <= j < i ==> !marks@[j],
            decreases self.rows.len() - i,
        {
            marks.push(false);
            i += 1;
        }
        proof {
            lemma_unmarked_set(marks@, root as int);
        }
        marks.set(root, true);
        let mut changed = true;
        while changed
            invariant
                wf(self@),
                self@.len() == self.rows@.len(),
                marks@.len() == self@.len(),
                root < self@.len(),
                c == cascade_set(self@, root as int),
                c.contains(root as int),
                closed(self@, c),
                marks@[root as int],
                forall|j: int| 0 <= j < marks@.len() && #[trigger] marks@[j] ==> c.contains(j),
                !changed ==> closed(self@, marked_set(marks@)),
            decreases unmarked(marks@) + if changed {
                1nat
            } else {
                0nat
            },
        {
            changed = false;
            let ghost start = marks@;
            let mut i: usize = 0;
            while i < self.rows.len()
                invariant
                    i <= self.rows.len(),
                    wf(self@),
                    self@.len() == self.rows@.len(),
                    marks@.len() == self@.len(),
                    root < self@.len(),
                    c.contains(root as int),
                    closed(self@, c),
                    marks@[root as int],
                    forall|j: int| 0 <= j < marks@.len() && #[trigger] marks@[j] ==> c.contains(j),
                    changed ==> unmarked(marks@) < unmarked(start),
                    !changed ==> marks@ == start,
                    !changed ==> forall|a: int, b: int|
                        0 <= a < i && 0 <= b < marks@.len() && marks@[b] && #[trigger] cascades_into(
                            self@,
                            a,
                            b,
                        ) ==> marks@[a],
                decreases self.rows.len() - i,
            {
                if !marks[i] && self.cascades_into_marked(i, &marks) {
                    proof {
                        let j = choose|j: int|
                            0 <= j < marks@.len() && marks@[j] && #[trigger] cascades_into(self@, i as int, j);
                        assert(c.contains(j));
                        lemma_unmarked_set(marks@, i as int);
                    }
                    marks.set(i, true);
                    changed = true;
                }
                i += 1;
            }
        }
        proof {
            assert forall|j: int| 0 <= j < self@.len() && c.contains(j) implies marks@[j] by {
                assert(closed(self@, marked_set(marks@)) && marked_set(marks@).contains(root as int)
                    ==> marked_set(marks@).contains(j));
            }
        }
        marks
    }

    /// Whether a marked row of `table` has this `id`.
    fn marked_target(&self, table: TableId, id: u64, marks: &Vec<bool>) -> (r: bool)
        requires
            marks@.len() == self@.len(),
        ensures
            r == exists|j: int|
                0 <= j < self@.len() && marks@[j] && #[trigger] self@[j].table == table && self@[j].id
                    == id,
    {
        let mut j: usize = 0;
        while j < self.rows.len()
            invariant
                j <= self.rows.len(),
                self@.len() == self.rows@.len(),
                marks@.len() == self@.len(),
                forall|b: int|
                    0 <= b < j ==> !(marks@[b] && #[trigger] self@[b].table == table && self@[b].id == id),
            decreases self.rows.len() - j,
        {
            proof {
                self.lemma_view_index(j as int);
            }
            if marks[j] && self.rows[j].table == table && self.rows[j].id == id {
                assert(marks@[j as int] && self@[j as int].table == table && self@[j as int].id == id);
                return true;
            }
            j += 1;
        }
        false
    }

    /// Whether row `i` has a cascading foreign key into a marked row.
    fn cascades_into_marked(&self, i: usize, marks: &Vec<bool>) -> (r: bool)
        requires
            wf(self@),
            i < self@.len(),
            marks@.len() == self@.len(),
        ensures
            r == exists|j: int| 0 <= j < marks@.len() && marks@[j] && #[trigger] cascades_into(self@, i as int, j),
    {
        proof {
            self.lemma_view_index(i as int);
        }
        let row = &self.rows[i];
        let rules = foreign_key_rules(row.table);
        let mut k: usize = 0;
        while k < row.refs.len()
            invariant
                k <= row.refs.len(),
                row@ == self@[i as int],
                rules@ == foreign_keys(row.table),
                shaped(row@),
                marks@.len() == self@.len(),
                forall|kk: int, j: int|
                    0 <= kk < k && 0 <= j < self@.len() && marks@[j] && foreign_keys(row.table)[kk].on_delete
                        == OnDelete::Cascade ==> !#[trigger] points_to(row@, kk, self@[j]),
            decreases row.refs.len() - k,
        {
            if rules[k].on_delete == OnDelete::Cascade {
                if let Some(v) = row.refs[k] {
                    if self.marked_target(rules[k].target, v, marks) {
                        proof {
                            let j = choose|j: int|
                                0 <= j < self@.len() && marks@[j] && #[trigger] self@[j].table
                                    == rules@[k as int].target && self@[j].id == v;
                            assert(points_to(row@, k as int, self@[j]));
                            assert(cascades_into(self@, i as int, j));
                        }
                        return true;
                    }
                }
            }
            k += 1;
        }
        false
    }

    /// Row `i` with each set-null foreign key into a marked row set to null.
    fn nulled_row(&self, i: usize, marks: &Vec<bool>) -> (r: Row)
        requires
            wf(self@),
            i < self@.len(),
            marks@.len() == self@.len(),
        ensures
            r@ == nulled(self@, marked_set(marks@), self@[i as int]),
    {
        proof {
            self.lemma_view_index(i as int);
        }
        let row = &self.rows[i];
        let rules = foreign_key_rules(row.table);
        let ghost d = marked_set(marks@);
        let mut refs: Vec<Option<u64>> = Vec::new();
        let mut k: usize = 0;
        while k < row.refs.len()
            invariant
                k <= row.refs.len(),
                row@ == self@[i as int],
                rules@ == foreign_keys(row.table),
                shaped(row@),
                marks@.len() == self@.len(),
                d == marked_set(marks@),
                refs@ == nulled(self@, d, row@).refs.take(k as int),
            decreases row.refs.len() - k,
        {
            let mut value = row.refs[k];
            if rules[k].on_delete == OnDelete::SetNull {
                if let Some(v) = row.refs[k] {
                    if self.marked_target(rules[k].target, v, marks) {
                        proof {
                            let j = choose|j: int|
                                0 <= j < self@.len() && marks@[j] && #[trigger] self@[j].table
                                    == rules@[k as int].target && self@[j].id == v;
                            assert(points_to(row@, k as int, self@[j]));
                            assert(points_into(self@, d, row@, k as int));
                        }
                        value = None;
                    } else {
                        assert(!points_into(self@, d, row@, k as int)) by {
                            if points_into(self@, d, row@, k as int) {
                                let j = choose|j: int|
                                    0 <= j < self@.len() && d.contains(j) && #[trigger] points_to(row@, k as int, self@[j]);
                                assert(marks@[j] && self@[j].table == rules@[k as int].target && self@[j].id == v);
                            }
                        }
                    }
                }
            }
            refs.push(value);
            assert(refs@ =~= nulled(self@, d, row@).refs.take(k as int + 1));
            k += 1;
        }
        assert(refs@ =~= nulled(self@, d, row@).refs);
        Row { table: row.table, id: row.id, refs, name: row.name.clone() }
    }

    proof fn lemma_view_index(&self, i: int)
        requires
            0 <= i < self.rows@.len(),
        ensures
            self@.len() == self.rows@.len(),
            self@[i] == self.rows@[i]@,
    {
    }

    /// Whether some row of `table` has this `id`.
    fn holds_target(&self, table: TableId, id: u64) -> (r: bool)
        ensures
            r == exists|j: int| 0 <= j < self@.len() && self@[j].table == table && self@[j].id == id,
    {
        match self.position(table, id) {
            Some(i) => true,
            None => false,
        }
    }

    /// The position of the row of `table` with this `id`, if there is one.
    pub fn position(&self, table: TableId, id: u64) -> (r: Option<usize>)
        ensures
            match r {
                Some(i) => i < self@.len() && self@[i as int].table == table && self@[i as int].id
                    == id,
                None => forall|i: int|
                    0 <= i < self@.len() ==> !(#[trigger] self@[i].table == table && self@[i].id
                        == id),
            },
    {
        let mut i: usize = 0;
        while i < self.rows.len()
            invariant
                i <= self@.len(),
                self@.len() == self.rows@.len(),
                forall|j: int| 0 <= j < self.rows@.len() ==> #[trigger] self@[j] == self.rows@[j]@,
                forall|j: int| 0 <= j < i ==> !(#[trigger] self@[j].table == table && self@[j].id == id),
            decreases self.rows.len() - i,
        {
            if self.rows[i].table == table && self.rows[i].id == id {
                return Some(i);
            }
            i += 1;
        }
        None
    }
}

/// Whether the unique keys of two shaped rows conflict.
fn conflicts(a: &Row, b: &Row) -> (r: bool)
    requires
        shaped(a@),
        shaped(b@),
    ensures
        r == key_conflict(a@, b@),
{
    if a.table != b.table {
        return false;
    }
    let key = match unique_key_of(a.table) {
        Some(key) => key,
        None => return false,
    };
    proof {
        lemma_unique_key_within_foreign_keys(a.table);
    }
    if key.with_name && a.name != b.name {
        return false;
    }
    let mut k: usize = 0;
    while k < key.ref_count
        invariant
            k <= key.ref_count,
            a.table == b.table,
            unique_key(a.table) == Some(key),
            key.with_name ==> a@.name == b@.name,
            key.ref_count <= a.refs@.len(),
            a.refs@.len() == b.refs@.len(),
            forall|j: int| 0 <= j < k ==> (#[trigger] a.refs@[j]) is Some && a.refs@[j] == b.refs@[j],
        decreases key.ref_count - k,
    {
        if a.refs[k].is_none() || a.refs[k] != b.refs[k] {
            assert(!((a@.refs[k as int]) is Some && a@.refs[k as int] == b@.refs[k as int]));
            return false;
        }
        k += 1;
    }
    true
}

} // verus!
