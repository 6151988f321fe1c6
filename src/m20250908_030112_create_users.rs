use vstd::prelude::*;

use crate::schema::{
    id_column, optional, required, defaulted, rule, ForeignKeyView, KeyView, TableView,
    foreign_keys, index_table, ColumnDef, ColumnDefault, ColumnType, ForeignKeyDef,
    ForeignKeyRule, IndexId, KeyDef, OnDelete, TableDef, TableId,
};
use crate::schema_state::{run, stopped_at, SchemaError, SchemaOp, SchemaState, SchemaView};

verus! {

broadcast use crate::schema_state::lemma_run_push;

/// The first migration: users, their sign-in providers and suspensions.
pub struct Migration;

/// The statements that apply this migration.
pub open spec fn up_script() -> Seq<SchemaOp> {
    Seq::empty()
        .push(SchemaOp::CreateTable { table: TableId::User, if_not_exists: true })
        .push(SchemaOp::CreateTable { table: TableId::AuthProvider, if_not_exists: true })
        .push(SchemaOp::CreateIndex { index: IndexId::AuthProviderNameUserIdUidx, if_not_exists: true })
        .push(SchemaOp::CreateIndex { index: IndexId::AuthProviderUserIdIdx, if_not_exists: true })
        .push(SchemaOp::CreateTable { table: TableId::UserSuspension, if_not_exists: true })
}

/// The statements that roll this migration back.
pub open spec fn down_script() -> Seq<SchemaOp> {
    Seq::empty()
        .push(SchemaOp::DropTable { table: TableId::UserSuspension, if_exists: true })
        .push(SchemaOp::DropTable { table: TableId::AuthProvider, if_exists: true })
        .push(SchemaOp::DropTable { table: TableId::User, if_exists: true })
}

/// None of the objects of this migration exists in `s`.
pub open spec fn absent_from(s: SchemaView) -> bool {
    &&& !s.tables.contains(TableId::User)
    &&& !s.tables.contains(TableId::AuthProvider)
    &&& !s.tables.contains(TableId::UserSuspension)
    &&& !s.indexes.contains(IndexId::AuthProviderNameUserIdUidx)
    &&& !s.indexes.contains(IndexId::AuthProviderUserIdIdx)
}

/// All of the objects of this migration exist in `s`.
pub open spec fn present_in(s: SchemaView) -> bool {
    &&& s.tables.contains(TableId::User)
    &&& s.tables.contains(TableId::AuthProvider)
    &&& s.tables.contains(TableId::UserSuspension)
    &&& s.indexes.contains(IndexId::AuthProviderNameUserIdUidx)
    &&& s.indexes.contains(IndexId::AuthProviderUserIdIdx)
}

impl Migration {
    /// The migration's name, which records that it was applied.
    pub fn name(&self) -> (r: &'static str)
        ensures
            r@ == "m20250908_030112_create_users"@,
    {
        "m20250908_030112_create_users"
    }

    /// The statements that apply this migration.
    pub fn up_ops(&self) -> (r: Vec<SchemaOp>)
        ensures
            r@ == up_script(),
    {
        let r = vec![
            SchemaOp::CreateTable { table: TableId::User, if_not_exists: true },
            SchemaOp::CreateTable { table: TableId::AuthProvider, if_not_exists: true },
            SchemaOp::CreateIndex { index: IndexId::AuthProviderNameUserIdUidx, if_not_exists: true },
            SchemaOp::CreateIndex { index: IndexId::AuthProviderUserIdIdx, if_not_exists: true },
            SchemaOp::CreateTable { table: TableId::UserSuspension, if_not_exists: true },
        ];
        assert(r@ =~= up_script());
        r
    }

    /// The statements that roll this migration back.
    pub fn down_ops(&self) -> (r: Vec<SchemaOp>)
        ensures
            r@ == down_script(),
    {
        let r = vec![
            SchemaOp::DropTable { table: TableId::UserSuspension, if_exists: true },
            SchemaOp::DropTable { table: TableId::AuthProvider, if_exists: true },
            SchemaOp::DropTable { table: TableId::User, if_exists: true },
        ];
        assert(r@ =~= down_script());
        r
    }

    /// Applies the migration to `schema`, stopping at the first refusal.
    pub fn up(&self, schema: &mut SchemaState) -> (r: Result<(), SchemaError>)
        ensures
            match run(old(schema)@, up_script()) {
                Ok(s1) => r is Ok && final(schema)@ == s1,
                Err(e) => r == Err::<(), SchemaError>(e) && stopped_at(
                    old(schema)@,
                    up_script(),
                    final(schema)@,
                    e,
                ),
            },
    {
        schema.run(&self.up_ops())
    }

    /// Rolls the migration back on `schema`, stopping at the first refusal.
    pub fn down(&self, schema: &mut SchemaState) -> (r: Result<(), SchemaError>)
        ensures
            match run(old(schema)@, down_script()) {
                Ok(s1) => r is Ok && final(schema)@ == s1,
                Err(e) => r == Err::<(), SchemaError>(e) && stopped_at(
                    old(schema)@,
                    down_script(),
                    final(schema)@,
                    e,
                ),
            },
    {
        schema.run(&self.down_ops())
    }
}

/// The schema right after this migration is applied to `s`.
pub open spec fn after_up(s: SchemaView) -> SchemaView {
    SchemaView {
        tables: s.tables
            .insert(TableId::User)
            .insert(TableId::AuthProvider)
            .insert(TableId::UserSuspension),
        types: s.types,
        indexes: s.indexes
            .insert(IndexId::AuthProviderNameUserIdUidx)
            .insert(IndexId::AuthProviderUserIdIdx),
    }
}

/// Applying this migration to a schema that already holds all of its objects
/// succeeds and changes nothing: every statement creates only what is missing.
#[verifier::rlimit(40)]
pub proof fn lemma_up_idempotent(s: SchemaView)
    requires
        present_in(s),
    ensures
        run(s, up_script()) == Ok::<SchemaView, SchemaError>(s),
{
}

/// Applying this migration to a consistent schema that holds none of its
/// objects succeeds and creates all of them; rolling it back right after
/// succeeds too and restores the schema exactly.
pub proof fn lemma_down_reverses_up(s: SchemaView)
    requires
        s.wf(),
        absent_from(s),
    ensures
        run(s, up_script()) == Ok::<SchemaView, SchemaError>(after_up(s)),
        after_up(s).wf(),
        present_in(after_up(s)),
        run(after_up(s), down_script()) == Ok::<SchemaView, SchemaError>(s),
{
    let s1 = run(s, up_script())->Ok_0;
    assert(s1.tables =~= after_up(s).tables);
    assert(s1.types =~= after_up(s).types);
    assert(s1.indexes =~= after_up(s).indexes);
    let s2 = run(s1, down_script())->Ok_0;
    assert(s2.tables =~= s.tables);
    assert(s2.indexes =~= s.indexes);
}

/// The columns of the `user` table.
#[derive(Clone, Copy, Debug, PartialEq, Eq, Structural)]
pub enum User {
    Table,
    Id,
    Name,
    Email,
    Version,
    IsActive,
    IsStaff,
    IsAdmin,
    CreatedAt,
    UpdatedAt,
}

impl User {
    /// The identifier in the database.
    pub open spec fn spec_name(self) -> Seq<char> {
        match self {
            User::Table => "user"@,
            User::Id => "id"@,
            User::Name => "name"@,
            User::Email => "email"@,
            User::Version => "version"@,
            User::IsActive => "is_active"@,
            User::IsStaff => "is_staff"@,
            User::IsAdmin => "is_admin"@,
            User::CreatedAt => "created_at"@,
            User::UpdatedAt => "updated_at"@,
        }
    }

    /// The identifier in the database.
    pub fn name(&self) -> (r: &'static str)
        ensures
            r@ == self.spec_name(),
    {
        match self {
            User::Table => "user",
            User::Id => "id",
            User::Name => "name",
            User::Email => "email",
            User::Version => "version",
            User::IsActive => "is_active",
            User::IsStaff => "is_staff",
            User::IsAdmin => "is_admin",
            User::CreatedAt => "created_at",
            User::UpdatedAt => "updated_at",
        }
    }
}


/// The definition of the `user` table.
pub open spec fn user_table_spec() -> TableView {
    TableView {
        table: TableId::User,
        columns: seq![
            id_column(),
            required("name"@, ColumnType::Varchar(200)),
            required("email"@, ColumnType::Varchar(250)),
            defaulted("version"@, ColumnType::Integer, ColumnDefault::Integer(1)),
            defaulted("is_active"@, ColumnType::Boolean, ColumnDefault::Boolean(true)),
            defaulted("is_staff"@, ColumnType::Boolean, ColumnDefault::Boolean(false)),
            defaulted("is_admin"@, ColumnType::Boolean, ColumnDefault::Boolean(false)),
            required("created_at"@, ColumnType::Timestamp),
            required("updated_at"@, ColumnType::Timestamp),
        ],
        primary_key: None,
        foreign_keys: seq![],
        unique: None,
    }
}

/// The `user` table.
pub fn user_table() -> (r: TableDef)
    ensures
        r@ == user_table_spec(),
        r.table == TableId::User,
        r.rules() == foreign_keys(TableId::User),
{
    let columns = vec![
        ColumnDef::id(),
        ColumnDef::required(User::Name.name(), ColumnType::Varchar(200)),
        ColumnDef::required(User::Email.name(), ColumnType::Varchar(250)),
        ColumnDef::defaulted(User::Version.name(), ColumnType::Integer, ColumnDefault::Integer(1)),
        ColumnDef::defaulted(User::IsActive.name(), ColumnType::Boolean, ColumnDefault::Boolean(true)),
        ColumnDef::defaulted(User::IsStaff.name(), ColumnType::Boolean, ColumnDefault::Boolean(false)),
        ColumnDef::defaulted(User::IsAdmin.name(), ColumnType::Boolean, ColumnDefault::Boolean(false)),
        ColumnDef::required(User::CreatedAt.name(), ColumnType::Timestamp),
        ColumnDef::required(User::UpdatedAt.name(), ColumnType::Timestamp),
    ];
    let keys = Vec::new();
    let r = TableDef {
        table: TableId::User,
        columns,
        primary_key: None,
        unique: None,
        foreign_keys: keys,
    };
    assert(r@.columns =~= user_table_spec().columns);
    assert(r@.foreign_keys =~= user_table_spec().foreign_keys);
    assert(r.rules() =~= foreign_keys(TableId::User));
    r
}

/// The definition of the `auth_provider` table.
pub open spec fn auth_provider_table_spec() -> TableView {
    TableView {
        table: TableId::AuthProvider,
        columns: seq![
            id_column(),
            required("name"@, ColumnType::Varchar(200)),
            required("user_id"@, ColumnType::Integer),
            required("created_at"@, ColumnType::Timestamp),
            required("updated_at"@, ColumnType::Timestamp),
        ],
        primary_key: None,
        foreign_keys: seq![
            ForeignKeyView {
                name: "auth_provider_user_id_fk"@,
                column: "user_id"@,
                rule: rule(TableId::User, OnDelete::Cascade),
            },
        ],
        unique: None,
    }
}

/// The `auth_provider` table.
pub fn auth_provider_table() -> (r: TableDef)
    ensures
        r@ == auth_provider_table_spec(),
        r.table == TableId::AuthProvider,
        r.rules() == foreign_keys(TableId::AuthProvider),
{
    let columns = vec![
        ColumnDef::id(),
        ColumnDef::required("name", ColumnType::Varchar(200)),
        ColumnDef::required("user_id", ColumnType::Integer),
        ColumnDef::required("created_at", ColumnType::Timestamp),
        ColumnDef::required("updated_at", ColumnType::Timestamp),
    ];
    let keys = vec![
        ForeignKeyDef {
            name: "auth_provider_user_id_fk",
            column: "user_id",
            rule: ForeignKeyRule { target: TableId::User, on_delete: OnDelete::Cascade },
        },
    ];
    let r = TableDef {
        table: TableId::AuthProvider,
        columns,
        primary_key: None,
        unique: None,
        foreign_keys: keys,
    };
    assert(r@.columns =~= auth_provider_table_spec().columns);
    assert(r@.foreign_keys =~= auth_provider_table_spec().foreign_keys);
    assert(r.rules() =~= foreign_keys(TableId::AuthProvider));
    r
}

/// The definition of the `user_suspension` table.
pub open spec fn user_suspension_table_spec() -> TableView {
    TableView {
        table: TableId::UserSuspension,
        columns: seq![
            id_column(),
            required("suspended_until"@, ColumnType::Timestamp),
            required("suspended_reason"@, ColumnType::Text),
            defaulted("version"@, ColumnType::Integer, ColumnDefault::Integer(1)),
            defaulted("is_active"@, ColumnType::Boolean, ColumnDefault::Boolean(true)),
            defaulted("is_banned"@, ColumnType::Boolean, ColumnDefault::Boolean(false)),
            required("user_id"@, ColumnType::Integer),
            required("created_at"@, ColumnType::Timestamp),
            required("updated_at"@, ColumnType::Timestamp),
        ],
        primary_key: None,
        foreign_keys: seq![
            ForeignKeyView {
                name: "user_suspension_user_id_fk"@,
                column: "user_id"@,
                rule: rule(TableId::User, OnDelete::Cascade),
            },
        ],
        unique: Some(KeyView { name: "user_suspension_user_id_uidx"@, columns: seq!["user_id"@] }),
    }
}

/// The `user_suspension` table.
pub fn user_suspension_table() -> (r: TableDef)
    ensures
        r@ == user_suspension_table_spec(),
        r.table == TableId::UserSuspension,
        r.rules() == foreign_keys(TableId::UserSuspension),
{
    let columns = vec![
        ColumnDef::id(),
        ColumnDef::required("suspended_until", ColumnType::Timestamp),
        ColumnDef::required("suspended_reason", ColumnType::Text),
        ColumnDef::defaulted("version", ColumnType::Integer, ColumnDefault::Integer(1)),
        ColumnDef::defaulted("is_active", ColumnType::Boolean, ColumnDefault::Boolean(true)),
        ColumnDef::defaulted("is_banned", ColumnType::Boolean, ColumnDefault::Boolean(false)),
        ColumnDef::required("user_id", ColumnType::Integer),
        ColumnDef::required("created_at", ColumnType::Timestamp),
        ColumnDef::required("updated_at", ColumnType::Timestamp),
    ];
    let keys = vec![
        ForeignKeyDef {
            name: "user_suspension_user_id_fk",
            column: "user_id",
            rule: ForeignKeyRule { target: TableId::User, on_delete: OnDelete::Cascade },
        },
    ];
    let r = TableDef {
        table: TableId::UserSuspension,
        columns,
        primary_key: None,
        unique: Some(KeyDef { name: "user_suspension_user_id_uidx", columns: vec!["user_id"] }),
        foreign_keys: keys,
    };
    assert(r@.columns =~= user_suspension_table_spec().columns);
    assert(r@.foreign_keys =~= user_suspension_table_spec().foreign_keys);
    assert(r@.unique->0.columns =~= user_suspension_table_spec().unique->0.columns);
    assert(r.rules() =~= foreign_keys(TableId::UserSuspension));
    r
}

} // verus!
