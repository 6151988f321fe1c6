use vstd::prelude::*;

use crate::schema::{
    id_column, optional, required, defaulted, rule, ForeignKeyView, KeyView, TableView,
    foreign_keys, ColumnDef, ColumnDefault, ColumnType, EnumType, ForeignKeyDef, ForeignKeyRule,
    IndexId, KeyDef, OnDelete, TableDef, TableId,
};
use crate::schema_state::{run, stopped_at, SchemaError, SchemaOp, SchemaState, SchemaView};

verus! {

broadcast use crate::schema_state::lemma_run_push;

/// The third migration: the entries of a curriculum vitae.
pub struct Migration;

/// The statements that apply this migration.
pub open spec fn up_script() -> Seq<SchemaOp> {
    Seq::empty()
        .push(SchemaOp::CreateType { ty: EnumType::CodeSource, if_not_exists: true })
        .push(SchemaOp::CreateTable { table: TableId::Summary, if_not_exists: true })
        .push(SchemaOp::CreateIndex { index: IndexId::SummaryCreatedByIdx, if_not_exists: true })
        .push(SchemaOp::CreateTable { table: TableId::Experience, if_not_exists: true })
        .push(SchemaOp::CreateIndex { index: IndexId::ExperienceCreatedByIdx, if_not_exists: true })
        .push(SchemaOp::CreateTable { table: TableId::Education, if_not_exists: true })
        .push(SchemaOp::CreateIndex { index: IndexId::EducationCreatedByIdx, if_not_exists: true })
        .push(SchemaOp::CreateTable { table: TableId::Certificate, if_not_exists: true })
        .push(SchemaOp::CreateIndex { index: IndexId::CertificateCreatedByIdx, if_not_exists: true })
        .push(SchemaOp::CreateTable { table: TableId::Skill, if_not_exists: true })
        .push(SchemaOp::CreateIndex { index: IndexId::SkillCreatedByIdx, if_not_exists: true })
        .push(SchemaOp::CreateIndex { index: IndexId::SkillTechnologyIdIdx, if_not_exists: true })
        .push(SchemaOp::CreateTable { table: TableId::OpenSourceContribution, if_not_exists: true })
        .push(SchemaOp::CreateIndex { index: IndexId::OpenSourceContributionCreatedByIdx, if_not_exists: true })
}

/// The statements that roll this migration back.
pub open spec fn down_script() -> Seq<SchemaOp> {
    Seq::empty()
        .push(SchemaOp::DropTable { table: TableId::OpenSourceContribution, if_exists: false })
        .push(SchemaOp::DropTable { table: TableId::Skill, if_exists: false })
        .push(SchemaOp::DropTable { table: TableId::Certificate, if_exists: false })
        .push(SchemaOp::DropTable { table: TableId::Education, if_exists: false })
        .push(SchemaOp::DropTable { table: TableId::Experience, if_exists: false })
        .push(SchemaOp::DropTable { table: TableId::Summary, if_exists: false })
        .push(SchemaOp::DropType { ty: EnumType::CodeSource, if_exists: false })
}

/// None of the objects of this migration exists in `s`.
pub open spec fn absent_from(s: SchemaView) -> bool {
    &&& !s.tables.contains(TableId::Summary)
    &&& !s.tables.contains(TableId::Experience)
    &&& !s.tables.contains(TableId::Education)
    &&& !s.tables.contains(TableId::Certificate)
    &&& !s.tables.contains(TableId::Skill)
    &&& !s.tables.contains(TableId::OpenSourceContribution)
    &&& !s.types.contains(EnumType::CodeSource)
    &&& !s.indexes.contains(IndexId::SummaryCreatedByIdx)
    &&& !s.indexes.contains(IndexId::ExperienceCreatedByIdx)
    &&& !s.indexes.contains(IndexId::EducationCreatedByIdx)
    &&& !s.indexes.contains(IndexId::CertificateCreatedByIdx)
    &&& !s.indexes.contains(IndexId::SkillCreatedByIdx)
    &&& !s.indexes.contains(IndexId::SkillTechnologyIdIdx)
    &&& !s.indexes.contains(IndexId::OpenSourceContributionCreatedByIdx)
}

/// All of the objects of this migration exist in `s`.
pub open spec fn present_in(s: SchemaView) -> bool {
    &&& s.tables.contains(TableId::Summary)
    &&& s.tables.contains(TableId::Experience)
    &&& s.tables.contains(TableId::Education)
    &&& s.tables.contains(TableId::Certificate)
    &&& s.tables.contains(TableId::Skill)
    &&& s.tables.contains(TableId::OpenSourceContribution)
    &&& s.types.contains(EnumType::CodeSource)
    &&& s.indexes.contains(IndexId::SummaryCreatedByIdx)
    &&& s.indexes.contains(IndexId::ExperienceCreatedByIdx)
    &&& s.indexes.contains(IndexId::EducationCreatedByIdx)
    &&& s.indexes.contains(IndexId::CertificateCreatedByIdx)
    &&& s.indexes.contains(IndexId::SkillCreatedByIdx)
    &&& s.indexes.contains(IndexId::SkillTechnologyIdIdx)
    &&& s.indexes.contains(IndexId::OpenSourceContributionCreatedByIdx)
}

/// The tables of earlier migrations that this one references.
pub open spec fn prerequisites_in(s: SchemaView) -> bool {
    &&& s.tables.contains(TableId::User)
    &&& s.tables.contains(TableId::Technology)
}

impl Migration {
    /// The migration's name, which records that it was applied.
    pub fn name(&self) -> (r: &'static str)
        ensures
            r@ == "m20250911_185836_create_cv"@,
    {
        "m20250911_185836_create_cv"
    }

    /// The statements that apply this migration.
    pub fn up_ops(&self) -> (r: Vec<SchemaOp>)
        ensures
            r@ == up_script(),
    {
        let r = vec![
            SchemaOp::CreateType { ty: EnumType::CodeSource, if_not_exists: true },
            SchemaOp::CreateTable { table: TableId::Summary, if_not_exists: true },
            SchemaOp::CreateIndex { index: IndexId::SummaryCreatedByIdx, if_not_exists: true },
            SchemaOp::CreateTable { table: TableId::Experience, if_not_exists: true },
            SchemaOp::CreateIndex { index: IndexId::ExperienceCreatedByIdx, if_not_exists: true },
            SchemaOp::CreateTable { table: TableId::Education, if_not_exists: true },
            SchemaOp::CreateIndex { index: IndexId::EducationCreatedByIdx, if_not_exists: true },
            SchemaOp::CreateTable { table: TableId::Certificate, if_not_exists: true },
            SchemaOp::CreateIndex { index: IndexId::CertificateCreatedByIdx, if_not_exists: true },
            SchemaOp::CreateTable { table: TableId::Skill, if_not_exists: true },
            SchemaOp::CreateIndex { index: IndexId::SkillCreatedByIdx, if_not_exists: true },
            SchemaOp::CreateIndex { index: IndexId::SkillTechnologyIdIdx, if_not_exists: true },
            SchemaOp::CreateTable { table: TableId::OpenSourceContribution, if_not_exists: true },
            SchemaOp::CreateIndex { index: IndexId::OpenSourceContributionCreatedByIdx, if_not_exists: true },
        ];
        assert(r@ =~= up_script());
        r
    }

    /// The statements that roll this migration back.
    pub fn down_ops(&self) -> (r: Vec<SchemaOp>)
        ensures
            r@ == down_script(),
    {
        let r = vec![
            SchemaOp::DropTable { table: TableId::OpenSourceContribution, if_exists: false },
            SchemaOp::DropTable { table: TableId::Skill, if_exists: false },
            SchemaOp::DropTable { table: TableId::Certificate, if_exists: false },
            SchemaOp::DropTable { table: TableId::Education, if_exists: false },
            SchemaOp::DropTable { table: TableId::Experience, if_exists: false },
            SchemaOp::DropTable { table: TableId::Summary, if_exists: false },
            SchemaOp::DropType { ty: EnumType::CodeSource, if_exists: false },
        ];
        assert(r@ =~= down_script());
        r
    }

    /// Applies the migration to `schema`, stopping at the first refusal.
    pub fn up(&self, schema: &mut SchemaState) -> (r: Result<(), SchemaError>)
        ensures
            match run(old(schema)@, up_script()) {
                Ok(s1) => r is Ok && final(schema)@ == s1,
                Err(e) => r == Err::<(), SchemaError>(e) && stopped_at(
                    old(schema)@,
                    up_script(),
                    final(schema)@,
                    e,
                ),
            },
    {
        schema.run(&self.up_ops())
    }

    /// Rolls the migration back on `schema`, stopping at the first refusal.
    pub fn down(&self, schema: &mut SchemaState) -> (r: Result<(), SchemaError>)
        ensures
            match run(old(schema)@, down_script()) {
                Ok(s1) => r is Ok && final(schema)@ == s1,
                Err(e) => r == Err::<(), SchemaError>(e) && stopped_at(
                    old(schema)@,
                    down_script(),
                    final(schema)@,
                    e,
                ),
            },
    {
        schema.run(&self.down_ops())
    }
}

/// The schema right after this migration is applied to `s`.
pub open spec fn after_up(s: SchemaView) -> SchemaView {
    SchemaView {
        tables: s.tables
            .insert(TableId::Summary)
            .insert(TableId::Experience)
            .insert(TableId::Education)
            .insert(TableId::Certificate)
            .insert(TableId::Skill)
            .insert(TableId::OpenSourceContribution),
        types: s.types
            .insert(EnumType::CodeSource),
        indexes: s.indexes
            .insert(IndexId::SummaryCreatedByIdx)
            .insert(IndexId::ExperienceCreatedByIdx)
            .insert(IndexId::EducationCreatedByIdx)
            .insert(IndexId::CertificateCreatedByIdx)
            .insert(IndexId::SkillCreatedByIdx)
            .insert(IndexId::SkillTechnologyIdIdx)
            .insert(IndexId::OpenSourceContributionCreatedByIdx),
    }
}

/// Applying this migration to a schema that already holds all of its objects
/// succeeds and changes nothing: every statement creates only what is missing.
#[verifier::rlimit(40)]
pub proof fn lemma_up_idempotent(s: SchemaView)
    requires
        present_in(s),
    ensures
        run(s, up_script()) == Ok::<SchemaView, SchemaError>(s),
{
}

/// Applying this migration to a consistent schema that holds the tables it
/// builds on and none of its own objects succeeds and creates all of them;
/// rolling it back right after succeeds too and restores the schema exactly.
pub proof fn lemma_down_reverses_up(s: SchemaView)
    requires
        s.wf(),
        prerequisites_in(s),
        absent_from(s),
    ensures
        run(s, up_script()) == Ok::<SchemaView, SchemaError>(after_up(s)),
        after_up(s).wf(),
        present_in(after_up(s)),
        run(after_up(s), down_script()) == Ok::<SchemaView, SchemaError>(s),
{
    let s1 = run(s, up_script())->Ok_0;
    assert(s1.tables =~= after_up(s).tables);
    assert(s1.types =~= after_up(s).types);
    assert(s1.indexes =~= after_up(s).indexes);
    let s2 = run(s1, down_script())->Ok_0;
    assert(s2.tables =~= s.tables);
    assert(s2.types =~= s.types);
    assert(s2.indexes =~= s.indexes);
}

/// Where an open-source contribution is hosted.
#[derive(Clone, Copy, Debug, PartialEq, Eq, Structural)]
pub enum CodeSource {
    Github,
    Gitlab,
    CratesIo,
    Npm,
    Pypi,
    Other,
}

impl CodeSource {
    /// The identifier in the database.
    pub open spec fn spec_name(self) -> Seq<char> {
        match self {
            CodeSource::Github => "github"@,
            CodeSource::Gitlab => "gitlab"@,
            CodeSource::CratesIo => "crates_io"@,
            CodeSource::Npm => "npm"@,
            CodeSource::Pypi => "pypi"@,
            CodeSource::Other => "other"@,
        }
    }

    /// The identifier in the database.
    pub fn name(&self) -> (r: &'static str)
        ensures
            r@ == self.spec_name(),
    {
        match self {
            CodeSource::Github => "github",
            CodeSource::Gitlab => "gitlab",
            CodeSource::CratesIo => "crates_io",
            CodeSource::Npm => "npm",
            CodeSource::Pypi => "pypi",
            CodeSource::Other => "other",
        }
    }

    /// Every value, in declaration order.
    pub fn all() -> (r: Vec<CodeSource>)
        ensures
            r@ == seq![CodeSource::Github, CodeSource::Gitlab, CodeSource::CratesIo, CodeSource::Npm, CodeSource::Pypi, CodeSource::Other],
    {
        let r = vec![CodeSource::Github, CodeSource::Gitlab, CodeSource::CratesIo, CodeSource::Npm, CodeSource::Pypi, CodeSource::Other];
        assert(r@ =~= seq![CodeSource::Github, CodeSource::Gitlab, CodeSource::CratesIo, CodeSource::Npm, CodeSource::Pypi, CodeSource::Other]);
        r
    }
}

/// The database type of [`CodeSource`].
#[derive(Clone, Copy, Debug, PartialEq, Eq, Structural)]
pub struct CodeSourceEnum;

impl CodeSourceEnum {
    /// The type's name in the database.
    pub fn name(&self) -> (r: &'static str)
        ensures
            r@ == "code_source_enum"@,
    {
        "code_source_enum"
    }
}


/// The definition of the `summary` table.
pub open spec fn summary_table_spec() -> TableView {
    TableView {
        table: TableId::Summary,
        columns: seq![
            id_column(),
            required("summary"@, ColumnType::Text),
            required("created_by_id"@, ColumnType::Integer),
            required("created_at"@, ColumnType::Timestamp),
            required("updated_at"@, ColumnType::Timestamp),
        ],
        primary_key: None,
        foreign_keys: seq![
            ForeignKeyView {
                name: "summary_created_by_fk"@,
                column: "created_by_id"@,
                rule: rule(TableId::User, OnDelete::Cascade),
            },
        ],
        unique: None,
    }
}

/// The `summary` table.
pub fn summary_table() -> (r: TableDef)
    ensures
        r@ == summary_table_spec(),
        r.table == TableId::Summary,
        r.rules() == foreign_keys(TableId::Summary),
{
    let columns = vec![
        ColumnDef::id(),
        ColumnDef::required("summary", ColumnType::Text),
        ColumnDef::required("created_by_id", ColumnType::Integer),
        ColumnDef::required("created_at", ColumnType::Timestamp),
        ColumnDef::required("updated_at", ColumnType::Timestamp),
    ];
    let keys = vec![
        ForeignKeyDef {
            name: "summary_created_by_fk",
            column: "created_by_id",
            rule: ForeignKeyRule { target: TableId::User, on_delete: OnDelete::Cascade },
        },
    ];
    let r = TableDef {
        table: TableId::Summary,
        columns,
        primary_key: None,
        unique: None,
        foreign_keys: keys,
    };
    assert(r@.columns =~= summary_table_spec().columns);
    assert(r@.foreign_keys =~= summary_table_spec().foreign_keys);
    assert(r.rules() =~= foreign_keys(TableId::Summary));
    r
}

/// The definition of the `experience` table.
pub open spec fn experience_table_spec() -> TableView {
    TableView {
        table: TableId::Experience,
        columns: seq![
            id_column(),
            required("company"@, ColumnType::Varchar(200)),
            required("location"@, ColumnType::Varchar(200)),
            required("title"@, ColumnType::Varchar(200)),
            required("start_date"@, ColumnType::Date),
            optional("end_date"@, ColumnType::Date),
            optional("achievements"@, ColumnType::Text),
            defaulted("is_current"@, ColumnType::Boolean, ColumnDefault::Boolean(false)),
            required("created_by_id"@, ColumnType::Integer),
            required("created_at"@, ColumnType::Timestamp),
            required("updated_at"@, ColumnType::Timestamp),
        ],
        primary_key: None,
        foreign_keys: seq![
            ForeignKeyView {
                name: "experience_created_by_fk"@,
                column: "created_by_id"@,
                rule: rule(TableId::User, OnDelete::Cascade),
            },
        ],
        unique: None,
    }
}

/// The `experience` table.
pub fn experience_table() -> (r: TableDef)
    ensures
        r@ == experience_table_spec(),
        r.table == TableId::Experience,
        r.rules() == foreign_keys(TableId::Experience),
{
    let columns = vec![
        ColumnDef::id(),
        ColumnDef::required("company", ColumnType::Varchar(200)),
        ColumnDef::required("location", ColumnType::Varchar(200)),
        ColumnDef::required("title", ColumnType::Varchar(200)),
        ColumnDef::required("start_date", ColumnType::Date),
        ColumnDef::optional("end_date", ColumnType::Date),
        ColumnDef::optional("achievements", ColumnType::Text),
        ColumnDef::defaulted("is_current", ColumnType::Boolean, ColumnDefault::Boolean(false)),
        ColumnDef::required("created_by_id", ColumnType::Integer),
        ColumnDef::required("created_at", ColumnType::Timestamp),
        ColumnDef::required("updated_at", ColumnType::Timestamp),
    ];
    let keys = vec![
        ForeignKeyDef {
            name: "experience_created_by_fk",
            column: "created_by_id",
            rule: ForeignKeyRule { target: TableId::User, on_delete: OnDelete::Cascade },
        },
    ];
    let r = TableDef {
        table: TableId::Experience,
        columns,
        primary_key: None,
        unique: None,
        foreign_keys: keys,
    };
    assert(r@.columns =~= experience_table_spec().columns);
    assert(r@.foreign_keys =~= experience_table_spec().foreign_keys);
    assert(r.rules() =~= foreign_keys(TableId::Experience));
    r
}

/// The definition of the `education` table.
pub open spec fn education_table_spec() -> TableView {
    TableView {
        table: TableId::Education,
        columns: seq![
            id_column(),
            required("institution"@, ColumnType::Varchar(200)),
            required("location"@, ColumnType::Varchar(200)),
            required("degree"@, ColumnType::Varchar(200)),
            required("start_date"@, ColumnType::Date),
            optional("end_date"@, ColumnType::Date),
            optional("grade"@, ColumnType::Varchar(50)),
            optional("description"@, ColumnType::Text),
            required("created_by_id"@, ColumnType::Integer),
            required("created_at"@, ColumnType::Timestamp),
            required("updated_at"@, ColumnType::Timestamp),
        ],
        primary_key: None,
        foreign_keys: seq![
            ForeignKeyView {
                name: "education_created_by_fk"@,
                column: "created_by_id"@,
                rule: rule(TableId::User, OnDelete::Cascade),
            },
        ],
        unique: None,
    }
}

/// The `education` table.
pub fn education_table() -> (r: TableDef)
    ensures
        r@ == education_table_spec(),
        r.table == TableId::Education,
        r.rules() == foreign_keys(TableId::Education),
{
    let columns = vec![
        ColumnDef::id(),
        ColumnDef::required("institution", ColumnType::Varchar(200)),
        ColumnDef::required("location", ColumnType::Varchar(200)),
        ColumnDef::required("degree", ColumnType::Varchar(200)),
        ColumnDef::required("start_date", ColumnType::Date),
        ColumnDef::optional("end_date", ColumnType::Date),
        ColumnDef::optional("grade", ColumnType::Varchar(50)),
        ColumnDef::optional("description", ColumnType::Text),
        ColumnDef::required("created_by_id", ColumnType::Integer),
        ColumnDef::required("created_at", ColumnType::Timestamp),
        ColumnDef::required("updated_at", ColumnType::Timestamp),
    ];
    let keys = vec![
        ForeignKeyDef {
            name: "education_created_by_fk",
            column: "created_by_id",
            rule: ForeignKeyRule { target: TableId::User, on_delete: OnDelete::Cascade },
        },
    ];
    let r = TableDef {
        table: TableId::Education,
        columns,
        primary_key: None,
        unique: None,
        foreign_keys: keys,
    };
    assert(r@.columns =~= education_table_spec().columns);
    assert(r@.foreign_keys =~= education_table_spec().foreign_keys);
    assert(r.rules() =~= foreign_keys(TableId::Education));
    r
}

/// The definition of the `certificate` table.
pub open spec fn certificate_table_spec() -> TableView {
    TableView {
        table: TableId::Certificate,
        columns: seq![
            id_column(),
            required("title"@, ColumnType::Varchar(200)),
            required("issuer"@, ColumnType::Varchar(200)),
            required("issue_date"@, ColumnType::Date),
            optional("expiration_date"@, ColumnType::Date),
            optional("verification_code"@, ColumnType::Varchar(100)),
            optional("description"@, ColumnType::Text),
            required("created_by_id"@, ColumnType::Integer),
            required("created_at"@, ColumnType::Timestamp),
            required("updated_at"@, ColumnType::Timestamp),
        ],
        primary_key: None,
        foreign_keys: seq![
            ForeignKeyView {
                name: "certificate_created_by_fk"@,
                column: "created_by_id"@,
                rule: rule(TableId::User, OnDelete::Cascade),
            },
        ],
        unique: None,
    }
}

/// The `certificate` table.
pub fn certificate_table() -> (r: TableDef)
    ensures
        r@ == certificate_table_spec(),
        r.table == TableId::Certificate,
        r.rules() == foreign_keys(TableId::Certificate),
{
    let columns = vec![
        ColumnDef::id(),
        ColumnDef::required("title", ColumnType::Varchar(200)),
        ColumnDef::required("issuer", ColumnType::Varchar(200)),
        ColumnDef::required("issue_date", ColumnType::Date),
        ColumnDef::optional("expiration_date", ColumnType::Date),
        ColumnDef::optional("verification_code", ColumnType::Varchar(100)),
        ColumnDef::optional("description", ColumnType::Text),
        ColumnDef::required("created_by_id", ColumnType::Integer),
        ColumnDef::required("created_at", ColumnType::Timestamp),
        ColumnDef::required("updated_at", ColumnType::Timestamp),
    ];
    let keys = vec![
        ForeignKeyDef {
            name: "certificate_created_by_fk",
            column: "created_by_id",
            rule: ForeignKeyRule { target: TableId::User, on_delete: OnDelete::Cascade },
        },
    ];
    let r = TableDef {
        table: TableId::Certificate,
        columns,
        primary_key: None,
        unique: None,
        foreign_keys: keys,
    };
    assert(r@.columns =~= certificate_table_spec().columns);
    assert(r@.foreign_keys =~= certificate_table_spec().foreign_keys);
    assert(r.rules() =~= foreign_keys(TableId::Certificate));
    r
}

/// The definition of the `skill` table.
pub open spec fn skill_table_spec() -> TableView {
    TableView {
        table: TableId::Skill,
        columns: seq![
            id_column(),
            required("technology_id"@, ColumnType::Integer),
            required("created_by_id"@, ColumnType::Integer),
            required("initial_usage_date"@, ColumnType::Date),
            optional("last_usage_date"@, ColumnType::Date),
            defaulted("is_currently_used"@, ColumnType::Boolean, ColumnDefault::Boolean(false)),
            optional("description"@, ColumnType::Text),
            required("created_at"@, ColumnType::Timestamp),
            required("updated_at"@, ColumnType::Timestamp),
        ],
        primary_key: None,
        foreign_keys: seq![
            ForeignKeyView {
                name: "skill_created_by_fk"@,
                column: "created_by_id"@,
                rule: rule(TableId::User, OnDelete::Cascade),
            },
            ForeignKeyView {
                name: "skill_technology_id_fk"@,
                column: "technology_id"@,
                rule: rule(TableId::Technology, OnDelete::Cascade),
            },
        ],
        unique: None,
    }
}

/// The `skill` table.
pub fn skill_table() -> (r: TableDef)
    ensures
        r@ == skill_table_spec(),
        r.table == TableId::Skill,
        r.rules() == foreign_keys(TableId::Skill),
{
    let columns = vec![
        ColumnDef::id(),
        ColumnDef::required("technology_id", ColumnType::Integer),
        ColumnDef::required("created_by_id", ColumnType::Integer),
        ColumnDef::required("initial_usage_date", ColumnType::Date),
        ColumnDef::optional("last_usage_date", ColumnType::Date),
        ColumnDef::defaulted("is_currently_used", ColumnType::Boolean, ColumnDefault::Boolean(false)),
        ColumnDef::optional("description", ColumnType::Text),
        ColumnDef::required("created_at", ColumnType::Timestamp),
        ColumnDef::required("updated_at", ColumnType::Timestamp),
    ];
    let keys = vec![
        ForeignKeyDef {
            name: "skill_created_by_fk",
            column: "created_by_id",
            rule: ForeignKeyRule { target: TableId::User, on_delete: OnDelete::Cascade },
        },
        ForeignKeyDef {
            name: "skill_technology_id_fk",
            column: "technology_id",
            rule: ForeignKeyRule { target: TableId::Technology, on_delete: OnDelete::Cascade },
        },
    ];
    let r = TableDef {
        table: TableId::Skill,
        columns,
        primary_key: None,
        unique: None,
        foreign_keys: keys,
    };
    assert(r@.columns =~= skill_table_spec().columns);
    assert(r@.foreign_keys =~= skill_table_spec().foreign_keys);
    assert(r.rules() =~= foreign_keys(TableId::Skill));
    r
}

/// The definition of the `open_source_contribution` table.
pub open spec fn open_source_contribution_table_spec() -> TableView {
    TableView {
        table: TableId::OpenSourceContribution,
        columns: seq![
            id_column(),
            required("url"@, ColumnType::Varchar(500)),
            required("name"@, ColumnType::Varchar(200)),
            required("source"@, ColumnType::Enumeration(EnumType::CodeSource)),
            optional("description"@, ColumnType::Text),
            required("created_by_id"@, ColumnType::Integer),
            required("created_at"@, ColumnType::Timestamp),
            required("updated_at"@, ColumnType::Timestamp),
        ],
        primary_key: None,
        foreign_keys: seq![
            ForeignKeyView {
                name: "open_source_contribution_created_by_fk"@,
                column: "created_by_id"@,
                rule: rule(TableId::User, OnDelete::Cascade),
            },
        ],
        unique: None,
    }
}

/// The `open_source_contribution` table.
pub fn open_source_contribution_table() -> (r: TableDef)
    ensures
        r@ == open_source_contribution_table_spec(),
        r.table == TableId::OpenSourceContribution,
        r.rules() == foreign_keys(TableId::OpenSourceContribution),
{
    let columns = vec![
        ColumnDef::id(),
        ColumnDef::required("url", ColumnType::Varchar(500)),
        ColumnDef::required("name", ColumnType::Varchar(200)),
        ColumnDef::required("source", ColumnType::Enumeration(EnumType::CodeSource)),
        ColumnDef::optional("description", ColumnType::Text),
        ColumnDef::required("created_by_id", ColumnType::Integer),
        ColumnDef::required("created_at", ColumnType::Timestamp),
        ColumnDef::required("updated_at", ColumnType::Timestamp),
    ];
    let keys = vec![
        ForeignKeyDef {
            name: "open_source_contribution_created_by_fk",
            column: "created_by_id",
            rule: ForeignKeyRule { target: TableId::User, on_delete: OnDelete::Cascade },
        },
    ];
    let r = TableDef {
        table: TableId::OpenSourceContribution,
        columns,
        primary_key: None,
        unique: None,
        foreign_keys: keys,
    };
    assert(r@.columns =~= open_source_contribution_table_spec().columns);
    assert(r@.foreign_keys =~= open_source_contribution_table_spec().foreign_keys);
    assert(r.rules() =~= foreign_keys(TableId::OpenSourceContribution));
    r
}

} // verus!
