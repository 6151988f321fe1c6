use vstd::prelude::*;

use crate::schema::{
    enum_type_of, foreign_keys, index_table, lemma_references_foreign_keys, references, EnumType,
    IndexId, TableId,
};

verus! {

broadcast use vstd::seq_lib::lemma_seq_contains_after_push;

/// One schema statement of a migration.
#[derive(Clone, Copy, Debug, PartialEq, Eq, Structural)]
pub enum SchemaOp {
    CreateType { ty: EnumType, if_not_exists: bool },
    CreateTable { table: TableId, if_not_exists: bool },
    CreateIndex { index: IndexId, if_not_exists: bool },
    DropTable { table: TableId, if_exists: bool },
    DropType { ty: EnumType, if_exists: bool },
}

/// Why a schema statement was refused.
#[derive(Clone, Copy, Debug, PartialEq, Eq, Structural)]
pub enum SchemaError {
    /// The object to create exists already.
    AlreadyExists,
    /// The object to drop, or the table to index, does not exist.
    NotFound,
    /// A table to create references a table or type that does not exist.
    MissingDependency,
    /// The object to drop is still referenced by a table.
    StillReferenced,
}

/// The objects that exist in a database schema.
pub ghost struct SchemaView {
    pub tables: Set<TableId>,
    pub types: Set<EnumType>,
    pub indexes: Set<IndexId>,
}

impl SchemaView {
    /// The schema of an empty database.
    pub open spec fn empty() -> SchemaView {
        SchemaView { tables: Set::empty(), types: Set::empty(), indexes: Set::empty() }
    }

    /// Every reference of an existing object is to an existing object.
    pub open spec fn wf(self) -> bool {
        &&& forall|t: TableId, u: TableId|
            self.tables.contains(t) && #[trigger] references(t, u) ==> self.tables.contains(u)
        &&& forall|t: TableId|
            self.tables.contains(t) && (#[trigger] enum_type_of(t)) is Some
                ==> self.types.contains(enum_type_of(t)->0)
        &&& forall|i: IndexId| #[trigger]
            self.indexes.contains(i) ==> self.tables.contains(index_table(i))
    }
}

/// A table that a new table `t` references and that is missing from `s`.
pub open spec fn missing_reference(s: SchemaView, t: TableId) -> bool {
    exists|u: TableId| #[trigger] references(t, u) && u != t && !s.tables.contains(u)
}

/// Another table of `s` that references `t`.
pub open spec fn referenced_by_other(s: SchemaView, t: TableId) -> bool {
    exists|u: TableId| s.tables.contains(u) && u != t && #[trigger] references(u, t)
}

/// A table of `s` whose columns use `e`.
pub open spec fn type_in_use(s: SchemaView, e: EnumType) -> bool {
    exists|u: TableId| s.tables.contains(u) && #[trigger] enum_type_of(u) == Some(e)
}

/// The effect of one statement, as the database engine applies it.
pub open spec fn step(s: SchemaView, op: SchemaOp) -> Result<SchemaView, SchemaError> {
    match op {
        SchemaOp::CreateType { ty, if_not_exists } => {
            if s.types.contains(ty) {
                if if_not_exists {
                    Ok(s)
                } else {
                    Err(SchemaError::AlreadyExists)
                }
            } else {
                Ok(SchemaView { types: s.types.insert(ty), ..s })
            }
        },
        SchemaOp::CreateTable { table, if_not_exists } => {
            if s.tables.contains(table) {
                if if_not_exists {
                    Ok(s)
                } else {
                    Err(SchemaError::AlreadyExists)
                }
            } else if missing_reference(s, table) {
                Err(SchemaError::MissingDependency)
            } else if enum_type_of(table) is Some && !s.types.contains(enum_type_of(table)->0) {
                Err(SchemaError::MissingDependency)
            } else {
                Ok(SchemaView { tables: s.tables.insert(table), ..s })
            }
        },
        SchemaOp::CreateIndex { index, if_not_exists } => {
            if !s.tables.contains(index_table(index)) {
                Err(SchemaError::NotFound)
            } else if s.indexes.contains(index) {
                if if_not_exists {
                    Ok(s)
                } else {
                    Err(SchemaError::AlreadyExists)
                }
            } else {
                Ok(SchemaView { indexes: s.indexes.insert(index), ..s })
            }
        },
        SchemaOp::DropTable { table, if_exists } => {
            if !s.tables.contains(table) {
                if if_exists {
                    Ok(s)
                } else {
                    Err(SchemaError::NotFound)
                }
            } else if referenced_by_other(s, table) {
                Err(SchemaError::StillReferenced)
            } else {
                Ok(
                    SchemaView {
                        tables: s.tables.remove(table),
                        indexes: s.indexes.filter(|i: IndexId| index_table(i) != table),
                        ..s
                    },
                )
            }
        },
        SchemaOp::DropType { ty, if_exists } => {
            if !s.types.contains(ty) {
                if if_exists {
                    Ok(s)
                } else {
                    Err(SchemaError::NotFound)
                }
            } else if type_in_use(s, ty) {
                Err(SchemaError::StillReferenced)
            } else {
                Ok(SchemaView { types: s.types.remove(ty), ..s })
            }
        },
    }
}

/// The effect of a script of statements, stopping at the first refusal.
pub open spec fn run(s: SchemaView, ops: Seq<SchemaOp>) -> Result<SchemaView, SchemaError>
    decreases ops.len(),
{
    if ops.len() == 0 {
        Ok(s)
    } else {
        match run(s, ops.drop_last()) {
            Ok(s1) => step(s1, ops.last()),
            Err(e) => Err(e),
        }
    }
}

/// Running a script with one more statement runs that statement on the result.
pub broadcast proof fn lemma_run_push(s: SchemaView, ops: Seq<SchemaOp>, op: SchemaOp)
    ensures
        #[trigger] run(s, ops.push(op)) == match run(s, ops) {
            Ok(s1) => step(s1, op),
            Err(e) => Err(e),
        },
{
    assert(ops.push(op).drop_last() =~= ops);
}

/// Every statement keeps a consistent schema consistent.
pub proof fn lemma_step_wf(s: SchemaView, op: SchemaOp)
    requires
        s.wf(),
    ensures
        step(s, op) matches Ok(s1) ==> s1.wf(),
{
    if let Ok(s1) = step(s, op) {
        match op {
            SchemaOp::CreateTable { table, if_not_exists } => {
                assert forall|t: TableId, u: TableId|
                    s1.tables.contains(t) && #[trigger] references(t, u) implies s1.tables.contains(
                    u,
                ) by {
                    if t == table && u != t && !s.tables.contains(u) {
                        assert(missing_reference(s, table));
                    }
                }
            },
            SchemaOp::DropTable { table, if_exists } => {
                assert forall|t: TableId, u: TableId|
                    s1.tables.contains(t) && #[trigger] references(t, u) implies s1.tables.contains(
                    u,
                ) by {
                    if u == table && s.tables.contains(table) {
                        assert(referenced_by_other(s, table));
                    }
                }
            },
            SchemaOp::DropType { ty, if_exists } => {
                assert forall|t: TableId|
                    s1.tables.contains(t) && (#[trigger] enum_type_of(t)) is Some implies s1.types.contains(
                    enum_type_of(t)->0,
                ) by {
                    if enum_type_of(t)->0 == ty && s.types.contains(ty) {
                        assert(type_in_use(s, ty));
                    }
                }
            },
            _ => {},
        }
    }
}

/// The objects of a database schema, as a migration sees them.
pub struct SchemaState {
    tables: Vec<TableId>,
    types: Vec<EnumType>,
    indexes: Vec<IndexId>,
}

impl View for SchemaState {
    type V = SchemaView;

    closed spec fn view(&self) -> SchemaView {
        SchemaView {
            tables: Set::new(|t: TableId| self.tables@.contains(t)),
            types: Set::new(|e: EnumType| self.types@.contains(e)),
            indexes: Set::new(|i: IndexId| self.indexes@.contains(i)),
        }
    }
}

impl SchemaState {
    /// The schema of an empty database.
    pub fn new() -> (r: SchemaState)
        ensures
            r@ == SchemaView::empty(),
    {
        let r = SchemaState { tables: Vec::new(), types: Vec::new(), indexes: Vec::new() };
        assert(r@.tables =~= Set::empty());
        assert(r@.types =~= Set::empty());
        assert(r@.indexes =~= Set::empty());
        r
    }

    /// Whether the table exists.
    pub fn has_table(&self, t: TableId) -> (r: bool)
        ensures
            r == self@.tables.contains(t),
    {
        let mut k: usize = 0;
        while k < self.tables.len()
            invariant
                k <= self.tables.len(),
                forall|j: int| 0 <= j < k ==> self.tables@[j] != t,
            decreases self.tables.len() - k,
        {
            if self.tables[k] == t {
                return true;
            }
            k += 1;
        }
        false
    }

    /// Whether the enumerated type exists.
    pub fn has_type(&self, e: EnumType) -> (r: bool)
        ensures
            r == self@.types.contains(e),
    {
        let mut k: usize = 0;
        while k < self.types.len()
            invariant
                k <= self.types.len(),
                forall|j: int| 0 <= j < k ==> self.types@[j] != e,
            decreases self.types.len() - k,
        {
            if self.types[k] == e {
                return true;
            }
            k += 1;
        }
        false
    }

    /// Whether the index exists.
    pub fn has_index(&self, i: IndexId) -> (r: bool)
        ensures
            r == self@.indexes.contains(i),
    {
        let mut k: usize = 0;
        while k < self.indexes.len()
            invariant
                k <= self.indexes.len(),
                forall|j: int| 0 <= j < k ==> self.indexes@[j] != i,
            decreases self.indexes.len() - k,
        {
            if self.indexes[k] == i {
                return true;
            }
            k += 1;
        }
        false
    }

    fn lacks_reference_of(&self, t: TableId) -> (r: bool)
        ensures
            r == missing_reference(self@, t),
    {
        let rules = crate::schema::foreign_key_rules(t);
        let mut k: usize = 0;
        while k < rules.len()
            invariant
                k <= rules.len(),
                rules@ == foreign_keys(t),
                forall|j: int|
                    0 <= j < k ==> rules@[j].target == t || self@.tables.contains(rules@[j].target),
            decreases rules.len() - k,
        {
            let u = rules[k].target;
            if u != t && !self.has_table(u) {
                proof {
                    assert(foreign_keys(t)[k as int].target == u);
                    lemma_references_foreign_keys(t, u);
                }
                return true;
            }
            k += 1;
        }
        assert forall|u: TableId| !(#[trigger] references(t, u) && u != t && !self@.tables.contains(
            u,
        )) by {
            lemma_references_foreign_keys(t, u);
        }
        false
    }

    fn referenced_by_other(&self, t: TableId) -> (r: bool)
        ensures
            r == referenced_by_other(self@, t),
    {
        let mut k: usize = 0;
        while k < self.tables.len()
            invariant
                k <= self.tables.len(),
                forall|j: int|
                    0 <= j < k ==> !(self.tables@[j] != t && references(self.tables@[j], t)),
            decreases self.tables.len() - k,
        {
            let u = self.tables[k];
            if u != t && u.references(t) {
                assert(self@.tables.contains(u));
                return true;
            }
            k += 1;
        }
        false
    }

    fn type_in_use(&self, e: EnumType) -> (r: bool)
        ensures
            r == type_in_use(self@, e),
    {
        let mut k: usize = 0;
        while k < self.tables.len()
            invariant
                k <= self.tables.len(),
                forall|j: int| 0 <= j < k ==> enum_type_of(self.tables@[j]) != Some(e),
            decreases self.tables.len() - k,
        {
            let u = self.tables[k];
            if u.enum_type() == Some(e) {
                assert(self@.tables.contains(u));
                return true;
            }
            k += 1;
        }
        false
    }

    /// Applies one statement; on a refusal the schema is unchanged.
    pub fn apply(&mut self, op: SchemaOp) -> (r: Result<(), SchemaError>)
        ensures
            match step(old(self)@, op) {
                Ok(s1) => r is Ok && final(self)@ == s1,
                Err(e) => r == Err::<(), SchemaError>(e) && final(self)@ == old(self)@,
            },
    {
        match op {
            SchemaOp::CreateType { ty, if_not_exists } => {
                if self.has_type(ty) {
                    if if_not_exists {
                        return Ok(());
                    }
                    return Err(SchemaError::AlreadyExists);
                }
                self.types.push(ty);
                assert(self@.types =~= old(self)@.types.insert(ty));
            },
            SchemaOp::CreateTable { table, if_not_exists } => {
                if self.has_table(table) {
                    if if_not_exists {
                        return Ok(());
                    }
                    return Err(SchemaError::AlreadyExists);
                }
                if self.lacks_reference_of(table) {
                    return Err(SchemaError::MissingDependency);
                }
                if let Some(e) = table.enum_type() {
                    if !self.has_type(e) {
                        return Err(SchemaError::MissingDependency);
                    }
                }
                self.tables.push(table);
                assert(self@.tables =~= old(self)@.tables.insert(table));
            },
            SchemaOp::CreateIndex { index, if_not_exists } => {
                if !self.has_table(crate::schema::index_table_of(index)) {
                    return Err(SchemaError::NotFound);
                }
                if self.has_index(index) {
                    if if_not_exists {
                        return Ok(());
                    }
                    return Err(SchemaError::AlreadyExists);
                }
                self.indexes.push(index);
                assert(self@.indexes =~= old(self)@.indexes.insert(index));
            },
            SchemaOp::DropTable { table, if_exists } => {
                if !self.has_table(table) {
                    if if_exists {
                        return Ok(());
                    }
                    return Err(SchemaError::NotFound);
                }
                if self.referenced_by_other(table) {
                    return Err(SchemaError::StillReferenced);
                }
                self.remove_table(table);
            },
            SchemaOp::DropType { ty, if_exists } => {
                if !self.has_type(ty) {
                    if if_exists {
                        return Ok(());
                    }
                    return Err(SchemaError::NotFound);
                }
                if self.type_in_use(ty) {
                    return Err(SchemaError::StillReferenced);
                }
                self.remove_type(ty);
            },
        }
        Ok(())
    }

    fn remove_table(&mut self, t: TableId)
        ensures
            final(self)@ == (SchemaView {
                tables: old(self)@.tables.remove(t),
                indexes: old(self)@.indexes.filter(|i: IndexId| index_table(i) != t),
                ..old(self)@
            }),
    {
        let mut tables: Vec<TableId> = Vec::new();
        let mut k: usize = 0;
        while k < self.tables.len()
            invariant
                k <= self.tables.len(),
                forall|x: TableId|
                    tables@.contains(x) <==> (self.tables@.take(k as int).contains(x) && x != t),
            decreases self.tables.len() - k,
        {
            let u = self.tables[k];
            assert(self.tables@.take(k + 1) =~= self.tables@.take(k as int).push(u));
            if u != t {
                tables.push(u);
            }
            k += 1;
        }
        assert(self.tables@.take(k as int) =~= self.tables@);
        let mut indexes: Vec<IndexId> = Vec::new();
        let mut k: usize = 0;
        while k < self.indexes.len()
            invariant
                k <= self.indexes.len(),
                forall|x: IndexId|
                    indexes@.contains(x) <==> (self.indexes@.take(k as int).contains(x) && index_table(x) != t),
            decreases self.indexes.len() - k,
        {
            let i = self.indexes[k];
            assert(self.indexes@.take(k + 1) =~= self.indexes@.take(k as int).push(i));
            if crate::schema::index_table_of(i) != t {
                indexes.push(i);
            }
            k += 1;
        }
        assert(self.indexes@.take(k as int) =~= self.indexes@);
        self.tables = tables;
        self.indexes = indexes;
        assert(self@.tables =~= old(self)@.tables.remove(t));
        assert forall|x: IndexId|
            #[trigger] self@.indexes.contains(x) <==> (old(self)@.indexes.contains(x) && index_table(x)
                != t) by {
            assert(old(self).indexes@.take(old(self).indexes@.len() as int) =~= old(self).indexes@);
        }
        assert(self@.indexes =~= old(self)@.indexes.filter(|i: IndexId| index_table(i) != t));
    }

    fn remove_type(&mut self, e: EnumType)
        ensures
            final(self)@ == (SchemaView { types: old(self)@.types.remove(e), ..old(self)@ }),
    {
        let mut types: Vec<EnumType> = Vec::new();
        let mut k: usize = 0;
        while k < self.types.len()
            invariant
                k <= self.types.len(),
                forall|x: EnumType|
                    types@.contains(x) <==> (self.types@.take(k as int).contains(x) && x != e),
            decreases self.types.len() - k,
        {
            let f = self.types[k];
            assert(self.types@.take(k + 1) =~= self.types@.take(k as int).push(f));
            if f != e {
                types.push(f);
            }
            k += 1;
        }
        assert(self.types@.take(k as int) =~= self.types@);
        self.types = types;
        assert(self@.types =~= old(self)@.types.remove(e));
    }

    /// Applies a script, stopping at the first refusal; the statements before
    /// it stay applied.
    pub fn run(&mut self, ops: &Vec<SchemaOp>) -> (r: Result<(), SchemaError>)
        ensures
            match run(old(self)@, ops@) {
                Ok(s1) => r is Ok && final(self)@ == s1,
                Err(e) => r == Err::<(), SchemaError>(e) && stopped_at(old(self)@, ops@, final(self)@, e),
            },
    {
        let mut k: usize = 0;
        while k < ops.len()
            invariant
                k <= ops.len(),
                run(old(self)@, ops@.take(k as int)) == Ok::<SchemaView, SchemaError>(self@),
            decreases ops.len() - k,
        {
            proof {
                assert(ops@.take(k + 1) =~= ops@.take(k as int).push(ops@[k as int]));
                lemma_run_push(old(self)@, ops@.take(k as int), ops@[k as int]);
            }
            let ghost before = self@;
            let r = self.apply(ops[k]);
            if r.is_err() {
                proof {
                    lemma_run_prefix_err(old(self)@, ops@, k as int + 1);
                    assert(self@ == before);
                    assert(step(self@, ops@[k as int]) == Err::<SchemaView, SchemaError>(r->Err_0));
                }
                return r;
            }
            k += 1;
        }
        assert(ops@.take(k as int) =~= ops@);
        Ok(())
    }
}

/// A script on `s` was refused with `e` at some statement and left `s1`: the
/// statements before that one applied, that one and those after it did not.
pub open spec fn stopped_at(s: SchemaView, ops: Seq<SchemaOp>, s1: SchemaView, e: SchemaError) -> bool {
    exists|n: int|
        0 <= n < ops.len() && run(s, ops.take(n)) == Ok::<SchemaView, SchemaError>(s1)
            && #[trigger] step(s1, ops[n]) == Err::<SchemaView, SchemaError>(e)
}

/// Once a prefix of a script is refused, the whole script is refused with
/// the same error.
pub proof fn lemma_run_prefix_err(s: SchemaView, ops: Seq<SchemaOp>, n: int)
    requires
        0 <= n <= ops.len(),
        run(s, ops.take(n)) is Err,
    ensures
        run(s, ops) == run(s, ops.take(n)),
    decreases ops.len() - n,
{
    if n == ops.len() {
        assert(ops.take(n) =~= ops);
    } else {
        assert(ops.take(n + 1) =~= ops.take(n).push(ops[n]));
        lemma_run_push(s, ops.take(n), ops[n]);
        lemma_run_prefix_err(s, ops, n + 1);
    }
}

} // verus!
