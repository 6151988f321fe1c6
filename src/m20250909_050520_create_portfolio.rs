use vstd::prelude::*;

use crate::schema::{
    id_column, optional, required, defaulted, rule, ForeignKeyView, KeyView, TableView,
    foreign_keys, ColumnDef, ColumnDefault, ColumnType, EnumType, ForeignKeyDef, ForeignKeyRule,
    IndexId, KeyDef, OnDelete, TableDef, TableId,
};
use crate::schema_state::{run, stopped_at, SchemaError, SchemaOp, SchemaState, SchemaView};

verus! {

broadcast use crate::schema_state::lemma_run_push;

/// The second migration: technologies and portfolio projects.
pub struct Migration;

/// The statements that apply this migration.
pub open spec fn up_script() -> Seq<SchemaOp> {
    Seq::empty()
        .push(SchemaOp::CreateType { ty: EnumType::TechnologyType, if_not_exists: true })
        .push(SchemaOp::CreateType { ty: EnumType::ProjectStatus, if_not_exists: true })
        .push(SchemaOp::CreateType { ty: EnumType::ProjectLinkType, if_not_exists: true })
        .push(SchemaOp::CreateTable { table: TableId::Technology, if_not_exists: true })
        .push(SchemaOp::CreateTable { table: TableId::RelatedTechnology, if_not_exists: true })
        .push(SchemaOp::CreateTable { table: TableId::Project, if_not_exists: true })
        .push(SchemaOp::CreateTable { table: TableId::ProjectTechnology, if_not_exists: true })
        .push(SchemaOp::CreateTable { table: TableId::ProjectLink, if_not_exists: true })
        .push(SchemaOp::CreateTable { table: TableId::ProjectImage, if_not_exists: true })
        .push(SchemaOp::CreateIndex { index: IndexId::ProjectImageProjectIdIdx, if_not_exists: true })
        .push(SchemaOp::CreateIndex { index: IndexId::ProjectImageCreatedByIdx, if_not_exists: true })
}

/// The statements that roll this migration back.
pub open spec fn down_script() -> Seq<SchemaOp> {
    Seq::empty()
        .push(SchemaOp::DropTable { table: TableId::ProjectTechnology, if_exists: true })
        .push(SchemaOp::DropTable { table: TableId::ProjectLink, if_exists: true })
        .push(SchemaOp::DropTable { table: TableId::ProjectImage, if_exists: true })
        .push(SchemaOp::DropTable { table: TableId::Project, if_exists: true })
        .push(SchemaOp::DropTable { table: TableId::RelatedTechnology, if_exists: true })
        .push(SchemaOp::DropTable { table: TableId::Technology, if_exists: true })
        .push(SchemaOp::DropType { ty: EnumType::TechnologyType, if_exists: true })
        .push(SchemaOp::DropType { ty: EnumType::ProjectStatus, if_exists: true })
        .push(SchemaOp::DropType { ty: EnumType::ProjectLinkType, if_exists: true })
}

/// None of the objects of this migration exists in `s`.
pub open spec fn absent_from(s: SchemaView) -> bool {
    &&& !s.tables.contains(TableId::Technology)
    &&& !s.tables.contains(TableId::RelatedTechnology)
    &&& !s.tables.contains(TableId::Project)
    &&& !s.tables.contains(TableId::ProjectTechnology)
    &&& !s.tables.contains(TableId::ProjectLink)
    &&& !s.tables.contains(TableId::ProjectImage)
    &&& !s.types.contains(EnumType::TechnologyType)
    &&& !s.types.contains(EnumType::ProjectStatus)
    &&& !s.types.contains(EnumType::ProjectLinkType)
    &&& !s.indexes.contains(IndexId::ProjectImageProjectIdIdx)
    &&& !s.indexes.contains(IndexId::ProjectImageCreatedByIdx)
}

/// All of the objects of this migration exist in `s`.
pub open spec fn present_in(s: SchemaView) -> bool {
    &&& s.tables.contains(TableId::Technology)
    &&& s.tables.contains(TableId::RelatedTechnology)
    &&& s.tables.contains(TableId::Project)
    &&& s.tables.contains(TableId::ProjectTechnology)
    &&& s.tables.contains(TableId::ProjectLink)
    &&& s.tables.contains(TableId::ProjectImage)
    &&& s.types.contains(EnumType::TechnologyType)
    &&& s.types.contains(EnumType::ProjectStatus)
    &&& s.types.contains(EnumType::ProjectLinkType)
    &&& s.indexes.contains(IndexId::ProjectImageProjectIdIdx)
    &&& s.indexes.contains(IndexId::ProjectImageCreatedByIdx)
}

/// The tables of earlier migrations that this one references.
pub open spec fn prerequisites_in(s: SchemaView) -> bool {
    &&& s.tables.contains(TableId::User)
}

impl Migration {
    /// The migration's name, which records that it was applied.
    pub fn name(&self) -> (r: &'static str)
        ensures
            r@ == "m20250909_050520_create_portfolio"@,
    {
        "m20250909_050520_create_portfolio"
    }

    /// The statements that apply this migration.
    pub fn up_ops(&self) -> (r: Vec<SchemaOp>)
        ensures
            r@ == up_script(),
    {
        let r = vec![
            SchemaOp::CreateType { ty: EnumType::TechnologyType, if_not_exists: true },
            SchemaOp::CreateType { ty: EnumType::ProjectStatus, if_not_exists: true },
            SchemaOp::CreateType { ty: EnumType::ProjectLinkType, if_not_exists: true },
            SchemaOp::CreateTable { table: TableId::Technology, if_not_exists: true },
            SchemaOp::CreateTable { table: TableId::RelatedTechnology, if_not_exists: true },
            SchemaOp::CreateTable { table: TableId::Project, if_not_exists: true },
            SchemaOp::CreateTable { table: TableId::ProjectTechnology, if_not_exists: true },
            SchemaOp::CreateTable { table: TableId::ProjectLink, if_not_exists: true },
            SchemaOp::CreateTable { table: TableId::ProjectImage, if_not_exists: true },
            SchemaOp::CreateIndex { index: IndexId::ProjectImageProjectIdIdx, if_not_exists: true },
            SchemaOp::CreateIndex { index: IndexId::ProjectImageCreatedByIdx, if_not_exists: true },
        ];
        assert(r@ =~= up_script());
        r
    }

    /// The statements that roll this migration back.
    pub fn down_ops(&self) -> (r: Vec<SchemaOp>)
        ensures
            r@ == down_script(),
    {
        let r = vec![
            SchemaOp::DropTable { table: TableId::ProjectTechnology, if_exists: true },
            SchemaOp::DropTable { table: TableId::ProjectLink, if_exists: true },
            SchemaOp::DropTable { table: TableId::ProjectImage, if_exists: true },
            SchemaOp::DropTable { table: TableId::Project, if_exists: true },
            SchemaOp::DropTable { table: TableId::RelatedTechnology, if_exists: true },
            SchemaOp::DropTable { table: TableId::Technology, if_exists: true },
            SchemaOp::DropType { ty: EnumType::TechnologyType, if_exists: true },
            SchemaOp::DropType { ty: EnumType::ProjectStatus, if_exists: true },
            SchemaOp::DropType { ty: EnumType::ProjectLinkType, if_exists: true },
        ];
        assert(r@ =~= down_script());
        r
    }

    /// Applies the migration to `schema`, stopping at the first refusal.
    pub fn up(&self, schema: &mut SchemaState) -> (r: Result<(), SchemaError>)
        ensures
            match run(old(schema)@, up_script()) {
                Ok(s1) => r is Ok && final(schema)@ == s1,
                Err(e) => r == Err::<(), SchemaError>(e) && stopped_at(
                    old(schema)@,
                    up_script(),
                    final(schema)@,
                    e,
                ),
            },
    {
        schema.run(&self.up_ops())
    }

    /// Rolls the migration back on `schema`, stopping at the first refusal.
    pub fn down(&self, schema: &mut SchemaState) -> (r: Result<(), SchemaError>)
        ensures
            match run(old(schema)@, down_script()) {
                Ok(s1) => r is Ok && final(schema)@ == s1,
                Err(e) => r == Err::<(), SchemaError>(e) && stopped_at(
                    old(schema)@,
                    down_script(),
                    final(schema)@,
                    e,
                ),
            },
    {
        schema.run(&self.down_ops())
    }
}

/// The schema right after this migration is applied to `s`.
pub open spec fn after_up(s: SchemaView) -> SchemaView {
    SchemaView {
        tables: s.tables
            .insert(TableId::Technology)
            .insert(TableId::RelatedTechnology)
            .insert(TableId::Project)
            .insert(TableId::ProjectTechnology)
            .insert(TableId::ProjectLink)
            .insert(TableId::ProjectImage),
        types: s.types
            .insert(EnumType::TechnologyType)
            .insert(EnumType::ProjectStatus)
            .insert(EnumType::ProjectLinkType),
        indexes: s.indexes
            .insert(IndexId::ProjectImageProjectIdIdx)
            .insert(IndexId::ProjectImageCreatedByIdx),
    }
}

/// Applying this migration to a schema that already holds all of its objects
/// succeeds and changes nothing: every statement creates only what is missing.
#[verifier::rlimit(40)]
pub proof fn lemma_up_idempotent(s: SchemaView)
    requires
        present_in(s),
    ensures
        run(s, up_script()) == Ok::<SchemaView, SchemaError>(s),
{
}

/// Applying this migration to a consistent schema that holds the tables it
/// builds on and none of its own objects succeeds and creates all of them;
/// rolling it back right after succeeds too and restores the schema exactly.
pub proof fn lemma_down_reverses_up(s: SchemaView)
    requires
        s.wf(),
        prerequisites_in(s),
        absent_from(s),
    ensures
        run(s, up_script()) == Ok::<SchemaView, SchemaError>(after_up(s)),
        after_up(s).wf(),
        present_in(after_up(s)),
        run(after_up(s), down_script()) == Ok::<SchemaView, SchemaError>(s),
{
    let s1 = run(s, up_script())->Ok_0;
    assert(s1.tables =~= after_up(s).tables);
    assert(s1.types =~= after_up(s).types);
    assert(s1.indexes =~= after_up(s).indexes);
    let s2 = run(s1, down_script())->Ok_0;
    assert(s2.tables =~= s.tables);
    assert(s2.types =~= s.types);
    assert(s2.indexes =~= s.indexes);
}

/// The kinds of technology.
#[derive(Clone, Copy, Debug, PartialEq, Eq, Structural)]
pub enum TechnologyType {
    Language,
    Framework,
    Database,
    Platform,
    Tool,
    Other,
}

impl TechnologyType {
    /// The identifier in the database.
    pub open spec fn spec_name(self) -> Seq<char> {
        match self {
            TechnologyType::Language => "language"@,
            TechnologyType::Framework => "framework"@,
            TechnologyType::Database => "database"@,
            TechnologyType::Platform => "platform"@,
            TechnologyType::Tool => "tool"@,
            TechnologyType::Other => "other"@,
        }
    }

    /// The identifier in the database.
    pub fn name(&self) -> (r: &'static str)
        ensures
            r@ == self.spec_name(),
    {
        match self {
            TechnologyType::Language => "language",
            TechnologyType::Framework => "framework",
            TechnologyType::Database => "database",
            TechnologyType::Platform => "platform",
            TechnologyType::Tool => "tool",
            TechnologyType::Other => "other",
        }
    }

    /// Every value, in declaration order.
    pub fn all() -> (r: Vec<TechnologyType>)
        ensures
            r@ == seq![TechnologyType::Language, TechnologyType::Framework, TechnologyType::Database, TechnologyType::Platform, TechnologyType::Tool, TechnologyType::Other],
    {
        let r = vec![TechnologyType::Language, TechnologyType::Framework, TechnologyType::Database, TechnologyType::Platform, TechnologyType::Tool, TechnologyType::Other];
        assert(r@ =~= seq![TechnologyType::Language, TechnologyType::Framework, TechnologyType::Database, TechnologyType::Platform, TechnologyType::Tool, TechnologyType::Other]);
        r
    }
}

/// The database type of [`TechnologyType`].
#[derive(Clone, Copy, Debug, PartialEq, Eq, Structural)]
pub struct TechnologyTypeEnum;

impl TechnologyTypeEnum {
    /// The type's name in the database.
    pub fn name(&self) -> (r: &'static str)
        ensures
            r@ == "technology_type_enum"@,
    {
        "technology_type_enum"
    }
}

/// The columns of the `technology` table.
#[derive(Clone, Copy, Debug, PartialEq, Eq, Structural)]
pub enum Technology {
    Table,
    Id,
    Name,
    Icon,
    TechType,
    Description,
    CreatedById,
    CreatedAt,
    UpdatedAt,
}

impl Technology {
    /// The identifier in the database.
    pub open spec fn spec_name(self) -> Seq<char> {
        match self {
            Technology::Table => "technology"@,
            Technology::Id => "id"@,
            Technology::Name => "name"@,
            Technology::Icon => "icon"@,
            Technology::TechType => "tech_type"@,
            Technology::Description => "description"@,
            Technology::CreatedById => "created_by_id"@,
            Technology::CreatedAt => "created_at"@,
            Technology::UpdatedAt => "updated_at"@,
        }
    }

    /// The identifier in the database.
    pub fn name(&self) -> (r: &'static str)
        ensures
            r@ == self.spec_name(),
    {
        match self {
            Technology::Table => "technology",
            Technology::Id => "id",
            Technology::Name => "name",
            Technology::Icon => "icon",
            Technology::TechType => "tech_type",
            Technology::Description => "description",
            Technology::CreatedById => "created_by_id",
            Technology::CreatedAt => "created_at",
            Technology::UpdatedAt => "updated_at",
        }
    }
}

/// The states of a project.
#[derive(Clone, Copy, Debug, PartialEq, Eq, Structural)]
pub enum ProjectStatus {
    Ongoing,
    Completed,
    Maintenance,
    Archived,
    OnHold,
    Dropped,
}

impl ProjectStatus {
    /// The identifier in the database.
    pub open spec fn spec_name(self) -> Seq<char> {
        match self {
            ProjectStatus::Ongoing => "ongoing"@,
            ProjectStatus::Completed => "completed"@,
            ProjectStatus::Maintenance => "maintenance"@,
            ProjectStatus::Archived => "archived"@,
            ProjectStatus::OnHold => "on_hold"@,
            ProjectStatus::Dropped => "dropped"@,
        }
    }

    /// The identifier in the database.
    pub fn name(&self) -> (r: &'static str)
        ensures
            r@ == self.spec_name(),
    {
        match self {
            ProjectStatus::Ongoing => "ongoing",
            ProjectStatus::Completed => "completed",
            ProjectStatus::Maintenance => "maintenance",
            ProjectStatus::Archived => "archived",
            ProjectStatus::OnHold => "on_hold",
            ProjectStatus::Dropped => "dropped",
        }
    }

    /// Every value, in declaration order.
    pub fn all() -> (r: Vec<ProjectStatus>)
        ensures
            r@ == seq![ProjectStatus::Ongoing, ProjectStatus::Completed, ProjectStatus::Maintenance, ProjectStatus::Archived, ProjectStatus::OnHold, ProjectStatus::Dropped],
    {
        let r = vec![ProjectStatus::Ongoing, ProjectStatus::Completed, ProjectStatus::Maintenance, ProjectStatus::Archived, ProjectStatus::OnHold, ProjectStatus::Dropped];
        assert(r@ =~= seq![ProjectStatus::Ongoing, ProjectStatus::Completed, ProjectStatus::Maintenance, ProjectStatus::Archived, ProjectStatus::OnHold, ProjectStatus::Dropped]);
        r
    }
}

/// The database type of [`ProjectStatus`].
#[derive(Clone, Copy, Debug, PartialEq, Eq, Structural)]
pub struct ProjectStatusEnum;

impl ProjectStatusEnum {
    /// The type's name in the database.
    pub fn name(&self) -> (r: &'static str)
        ensures
            r@ == "project_status_enum"@,
    {
        "project_status_enum"
    }
}

/// The columns of the `project` table.
#[derive(Clone, Copy, Debug, PartialEq, Eq, Structural)]
pub enum Project {
    Table,
    Id,
    Title,
    Subtitle,
    Description,
    Status,
    StartDate,
    EndDate,
    DropDate,
    CreatedById,
    CreatedAt,
    UpdatedAt,
}

impl Project {
    /// The identifier in the database.
    pub open spec fn spec_name(self) -> Seq<char> {
        match self {
            Project::Table => "project"@,
            Project::Id => "id"@,
            Project::Title => "title"@,
            Project::Subtitle => "subtitle"@,
            Project::Description => "description"@,
            Project::Status => "status"@,
            Project::StartDate => "start_date"@,
            Project::EndDate => "end_date"@,
            Project::DropDate => "drop_date"@,
            Project::CreatedById => "created_by_id"@,
            Project::CreatedAt => "created_at"@,
            Project::UpdatedAt => "updated_at"@,
        }
    }

    /// The identifier in the database.
    pub fn name(&self) -> (r: &'static str)
        ensures
            r@ == self.spec_name(),
    {
        match self {
            Project::Table => "project",
            Project::Id => "id",
            Project::Title => "title",
            Project::Subtitle => "subtitle",
            Project::Description => "description",
            Project::Status => "status",
            Project::StartDate => "start_date",
            Project::EndDate => "end_date",
            Project::DropDate => "drop_date",
            Project::CreatedById => "created_by_id",
            Project::CreatedAt => "created_at",
            Project::UpdatedAt => "updated_at",
        }
    }
}

/// The kinds of project link.
#[derive(Clone, Copy, Debug, PartialEq, Eq, Structural)]
pub enum ProjectLinkType {
    Website,
    Github,
    Gitlab,
    DevTo,
    Linkedin,
    Youtube,
    Other,
}

impl ProjectLinkType {
    /// The identifier in the database.
    pub open spec fn spec_name(self) -> Seq<char> {
        match self {
            ProjectLinkType::Website => "website"@,
            ProjectLinkType::Github => "github"@,
            ProjectLinkType::Gitlab => "gitlab"@,
            ProjectLinkType::DevTo => "dev_to"@,
            ProjectLinkType::Linkedin => "linkedin"@,
            ProjectLinkType::Youtube => "youtube"@,
            ProjectLinkType::Other => "other"@,
        }
    }

    /// The identifier in the database.
    pub fn name(&self) -> (r: &'static str)
        ensures
            r@ == self.spec_name(),
    {
        match self {
            ProjectLinkType::Website => "website",
            ProjectLinkType::Github => "github",
            ProjectLinkType::Gitlab => "gitlab",
            ProjectLinkType::DevTo => "dev_to",
            ProjectLinkType::Linkedin => "linkedin",
            ProjectLinkType::Youtube => "youtube",
            ProjectLinkType::Other => "other",
        }
    }

    /// Every value, in declaration order.
    pub fn all() -> (r: Vec<ProjectLinkType>)
        ensures
            r@ == seq![ProjectLinkType::Website, ProjectLinkType::Github, ProjectLinkType::Gitlab, ProjectLinkType::DevTo, ProjectLinkType::Linkedin, ProjectLinkType::Youtube, ProjectLinkType::Other],
    {
        let r = vec![ProjectLinkType::Website, ProjectLinkType::Github, ProjectLinkType::Gitlab, ProjectLinkType::DevTo, ProjectLinkType::Linkedin, ProjectLinkType::Youtube, ProjectLinkType::Other];
        assert(r@ =~= seq![ProjectLinkType::Website, ProjectLinkType::Github, ProjectLinkType::Gitlab, ProjectLinkType::DevTo, ProjectLinkType::Linkedin, ProjectLinkType::Youtube, ProjectLinkType::Other]);
        r
    }
}

/// The database type of [`ProjectLinkType`].
#[derive(Clone, Copy, Debug, PartialEq, Eq, Structural)]
pub struct ProjectLinkTypeEnum;

impl ProjectLinkTypeEnum {
    /// The type's name in the database.
    pub fn name(&self) -> (r: &'static str)
        ensures
            r@ == "project_link_type_enum"@,
    {
        "project_link_type_enum"
    }
}


/// The definition of the `technology` table.
pub open spec fn technology_table_spec() -> TableView {
    TableView {
        table: TableId::Technology,
        columns: seq![
            id_column(),
            required("name"@, ColumnType::Varchar(200)),
            required("icon"@, ColumnType::Text),
            required("tech_type"@, ColumnType::Enumeration(EnumType::TechnologyType)),
            optional("description"@, ColumnType::Text),
            required("created_by_id"@, ColumnType::Integer),
            required("created_at"@, ColumnType::Timestamp),
            required("updated_at"@, ColumnType::Timestamp),
        ],
        primary_key: None,
        foreign_keys: seq![
            ForeignKeyView {
                name: "technology_created_by_fk"@,
                column: "created_by_id"@,
                rule: rule(TableId::User, OnDelete::Cascade),
            },
        ],
        unique: None,
    }
}

/// The `technology` table.
pub fn technology_table() -> (r: TableDef)
    ensures
        r@ == technology_table_spec(),
        r.table == TableId::Technology,
        r.rules() == foreign_keys(TableId::Technology),
{
    let columns = vec![
        ColumnDef::id(),
        ColumnDef::required(Technology::Name.name(), ColumnType::Varchar(200)),
        ColumnDef::required(Technology::Icon.name(), ColumnType::Text),
        ColumnDef::required(Technology::TechType.name(), ColumnType::Enumeration(EnumType::TechnologyType)),
        ColumnDef::optional(Technology::Description.name(), ColumnType::Text),
        ColumnDef::required(Technology::CreatedById.name(), ColumnType::Integer),
        ColumnDef::required(Technology::CreatedAt.name(), ColumnType::Timestamp),
        ColumnDef::required(Technology::UpdatedAt.name(), ColumnType::Timestamp),
    ];
    let keys = vec![
        ForeignKeyDef {
            name: "technology_created_by_fk",
            column: "created_by_id",
            rule: ForeignKeyRule { target: TableId::User, on_delete: OnDelete::Cascade },
        },
    ];
    let r = TableDef {
        table: TableId::Technology,
        columns,
        primary_key: None,
        unique: None,
        foreign_keys: keys,
    };
    assert(r@.columns =~= technology_table_spec().columns);
    assert(r@.foreign_keys =~= technology_table_spec().foreign_keys);
    assert(r.rules() =~= foreign_keys(TableId::Technology));
    r
}

/// The definition of the `related_technology` table.
pub open spec fn related_technology_table_spec() -> TableView {
    TableView {
        table: TableId::RelatedTechnology,
        columns: seq![
            required("parent_technology_id"@, ColumnType::Integer),
            required("child_technology_id"@, ColumnType::Integer),
            required("created_at"@, ColumnType::Timestamp),
        ],
        primary_key: Some(KeyView { name: "related_technologies_parent_technology_id_child_technology_id_pk"@, columns: seq!["parent_technology_id"@, "child_technology_id"@] }),
        foreign_keys: seq![
            ForeignKeyView {
                name: "related_technologies_parent_technology_id_fk"@,
                column: "parent_technology_id"@,
                rule: rule(TableId::Technology, OnDelete::Cascade),
            },
            ForeignKeyView {
                name: "related_technologies_child_technology_id_fk"@,
                column: "child_technology_id"@,
                rule: rule(TableId::Technology, OnDelete::Cascade),
            },
        ],
        unique: None,
    }
}

/// The `related_technology` table.
pub fn related_technology_table() -> (r: TableDef)
    ensures
        r@ == related_technology_table_spec(),
        r.table == TableId::RelatedTechnology,
        r.rules() == foreign_keys(TableId::RelatedTechnology),
{
    let columns = vec![
        ColumnDef::required("parent_technology_id", ColumnType::Integer),
        ColumnDef::required("child_technology_id", ColumnType::Integer),
        ColumnDef::required("created_at", ColumnType::Timestamp),
    ];
    let keys = vec![
        ForeignKeyDef {
            name: "related_technologies_parent_technology_id_fk",
            column: "parent_technology_id",
            rule: ForeignKeyRule { target: TableId::Technology, on_delete: OnDelete::Cascade },
        },
        ForeignKeyDef {
            name: "related_technologies_child_technology_id_fk",
            column: "child_technology_id",
            rule: ForeignKeyRule { target: TableId::Technology, on_delete: OnDelete::Cascade },
        },
    ];
    let r = TableDef {
        table: TableId::RelatedTechnology,
        columns,
        primary_key: Some(KeyDef { name: "related_technologies_parent_technology_id_child_technology_id_pk", columns: vec!["parent_technology_id", "child_technology_id"] }),
        unique: None,
        foreign_keys: keys,
    };
    assert(r@.columns =~= related_technology_table_spec().columns);
    assert(r@.foreign_keys =~= related_technology_table_spec().foreign_keys);
    assert(r@.primary_key->0.columns =~= related_technology_table_spec().primary_key->0.columns);
    assert(r.rules() =~= foreign_keys(TableId::RelatedTechnology));
    r
}

/// The definition of the `project` table.
pub open spec fn project_table_spec() -> TableView {
    TableView {
        table: TableId::Project,
        columns: seq![
            id_column(),
            required("title"@, ColumnType::Varchar(200)),
            optional("subtitle"@, ColumnType::Varchar(300)),
            required("description"@, ColumnType::Text),
            required("status"@, ColumnType::Enumeration(EnumType::ProjectStatus)),
            required("start_date"@, ColumnType::Date),
            optional("end_date"@, ColumnType::Date),
            optional("drop_date"@, ColumnType::Date),
            required("created_by_id"@, ColumnType::Integer),
            required("created_at"@, ColumnType::Timestamp),
            required("updated_at"@, ColumnType::Timestamp),
        ],
        primary_key: None,
        foreign_keys: seq![
            ForeignKeyView {
                name: "project_created_by_fk"@,
                column: "created_by_id"@,
                rule: rule(TableId::User, OnDelete::Cascade),
            },
        ],
        unique: None,
    }
}

/// The `project` table.
pub fn project_table() -> (r: TableDef)
    ensures
        r@ == project_table_spec(),
        r.table == TableId::Project,
        r.rules() == foreign_keys(TableId::Project),
{
    let columns = vec![
        ColumnDef::id(),
        ColumnDef::required(Project::Title.name(), ColumnType::Varchar(200)),
        ColumnDef::optional(Project::Subtitle.name(), ColumnType::Varchar(300)),
        ColumnDef::required(Project::Description.name(), ColumnType::Text),
        ColumnDef::required(Project::Status.name(), ColumnType::Enumeration(EnumType::ProjectStatus)),
        ColumnDef::required(Project::StartDate.name(), ColumnType::Date),
        ColumnDef::optional(Project::EndDate.name(), ColumnType::Date),
        ColumnDef::optional(Project::DropDate.name(), ColumnType::Date),
        ColumnDef::required(Project::CreatedById.name(), ColumnType::Integer),
        ColumnDef::required(Project::CreatedAt.name(), ColumnType::Timestamp),
        ColumnDef::required(Project::UpdatedAt.name(), ColumnType::Timestamp),
    ];
    let keys = vec![
        ForeignKeyDef {
            name: "project_created_by_fk",
            column: "created_by_id",
            rule: ForeignKeyRule { target: TableId::User, on_delete: OnDelete::Cascade },
        },
    ];
    let r = TableDef {
        table: TableId::Project,
        columns,
        primary_key: None,
        unique: None,
        foreign_keys: keys,
    };
    assert(r@.columns =~= project_table_spec().columns);
    assert(r@.foreign_keys =~= project_table_spec().foreign_keys);
    assert(r.rules() =~= foreign_keys(TableId::Project));
    r
}

/// The definition of the `project_technology` table.
pub open spec fn project_technology_table_spec() -> TableView {
    TableView {
        table: TableId::ProjectTechnology,
        columns: seq![
            required("project_id"@, ColumnType::Integer),
            required("technology_id"@, ColumnType::Integer),
            required("created_at"@, ColumnType::Timestamp),
        ],
        primary_key: Some(KeyView { name: "project_technology_project_id_technology_id_pk"@, columns: seq!["project_id"@, "technology_id"@] }),
        foreign_keys: seq![
            ForeignKeyView {
                name: "project_technology_project_id_fk"@,
                column: "project_id"@,
                rule: rule(TableId::Project, OnDelete::Cascade),
            },
            ForeignKeyView {
                name: "project_technology_technology_id_fk"@,
                column: "technology_id"@,
                rule: rule(TableId::Technology, OnDelete::Cascade),
            },
        ],
        unique: None,
    }
}

/// The `project_technology` table.
pub fn project_technology_table() -> (r: TableDef)
    ensures
        r@ == project_technology_table_spec(),
        r.table == TableId::ProjectTechnology,
        r.rules() == foreign_keys(TableId::ProjectTechnology),
{
    let columns = vec![
        ColumnDef::required("project_id", ColumnType::Integer),
        ColumnDef::required("technology_id", ColumnType::Integer),
        ColumnDef::required("created_at", ColumnType::Timestamp),
    ];
    let keys = vec![
        ForeignKeyDef {
            name: "project_technology_project_id_fk",
            column: "project_id",
            rule: ForeignKeyRule { target: TableId::Project, on_delete: OnDelete::Cascade },
        },
        ForeignKeyDef {
            name: "project_technology_technology_id_fk",
            column: "technology_id",
            rule: ForeignKeyRule { target: TableId::Technology, on_delete: OnDelete::Cascade },
        },
    ];
    let r = TableDef {
        table: TableId::ProjectTechnology,
        columns,
        primary_key: Some(KeyDef { name: "project_technology_project_id_technology_id_pk", columns: vec!["project_id", "technology_id"] }),
        unique: None,
        foreign_keys: keys,
    };
    assert(r@.columns =~= project_technology_table_spec().columns);
    assert(r@.foreign_keys =~= project_technology_table_spec().foreign_keys);
    assert(r@.primary_key->0.columns =~= project_technology_table_spec().primary_key->0.columns);
    assert(r.rules() =~= foreign_keys(TableId::ProjectTechnology));
    r
}

/// The definition of the `project_link` table.
pub open spec fn project_link_table_spec() -> TableView {
    TableView {
        table: TableId::ProjectLink,
        columns: seq![
            id_column(),
            required("project_id"@, ColumnType::Integer),
            required("link_url"@, ColumnType::Varchar(500)),
            required("link_type"@, ColumnType::Enumeration(EnumType::ProjectLinkType)),
            required("created_by_id"@, ColumnType::Integer),
            required("created_at"@, ColumnType::Timestamp),
            required("updated_at"@, ColumnType::Timestamp),
        ],
        primary_key: None,
        foreign_keys: seq![
            ForeignKeyView {
                name: "project_link_project_id_fk"@,
                column: "project_id"@,
                rule: rule(TableId::Project, OnDelete::Cascade),
            },
            ForeignKeyView {
                name: "project_link_created_by_fk"@,
                column: "created_by_id"@,
                rule: rule(TableId::User, OnDelete::Cascade),
            },
        ],
        unique: None,
    }
}

/// The `project_link` table.
pub fn project_link_table() -> (r: TableDef)
    ensures
        r@ == project_link_table_spec(),
        r.table == TableId::ProjectLink,
        r.rules() == foreign_keys(TableId::ProjectLink),
{
    let columns = vec![
        ColumnDef::id(),
        ColumnDef::required("project_id", ColumnType::Integer),
        ColumnDef::required("link_url", ColumnType::Varchar(500)),
        ColumnDef::required("link_type", ColumnType::Enumeration(EnumType::ProjectLinkType)),
        ColumnDef::required("created_by_id", ColumnType::Integer),
        ColumnDef::required("created_at", ColumnType::Timestamp),
        ColumnDef::required("updated_at", ColumnType::Timestamp),
    ];
    let keys = vec![
        ForeignKeyDef {
            name: "project_link_project_id_fk",
            column: "project_id",
            rule: ForeignKeyRule { target: TableId::Project, on_delete: OnDelete::Cascade },
        },
        ForeignKeyDef {
            name: "project_link_created_by_fk",
            column: "created_by_id",
            rule: ForeignKeyRule { target: TableId::User, on_delete: OnDelete::Cascade },
        },
    ];
    let r = TableDef {
        table: TableId::ProjectLink,
        columns,
        primary_key: None,
        unique: None,
        foreign_keys: keys,
    };
    assert(r@.columns =~= project_link_table_spec().columns);
    assert(r@.foreign_keys =~= project_link_table_spec().foreign_keys);
    assert(r.rules() =~= foreign_keys(TableId::ProjectLink));
    r
}

/// The definition of the `project_image` table.
pub open spec fn project_image_table_spec() -> TableView {
    TableView {
        table: TableId::ProjectImage,
        columns: seq![
            id_column(),
            required("project_id"@, ColumnType::Integer),
            required("image_url"@, ColumnType::Varchar(500)),
            required("image_type"@, ColumnType::Varchar(100)),
            required("created_by_id"@, ColumnType::Integer),
            required("created_at"@, ColumnType::Timestamp),
            required("updated_at"@, ColumnType::Timestamp),
        ],
        primary_key: None,
        foreign_keys: seq![
            ForeignKeyView {
                name: "project_image_project_id_fk"@,
                column: "project_id"@,
                rule: rule(TableId::Project, OnDelete::Cascade),
            },
            ForeignKeyView {
                name: "project_image_created_by_fk"@,
                column: "created_by_id"@,
                rule: rule(TableId::User, OnDelete::Cascade),
            },
        ],
        unique: None,
    }
}

/// The `project_image` table.
pub fn project_image_table() -> (r: TableDef)
    ensures
        r@ == project_image_table_spec(),
        r.table == TableId::ProjectImage,
        r.rules() == foreign_keys(TableId::ProjectImage),
{
    let columns = vec![
        ColumnDef::id(),
        ColumnDef::required("project_id", ColumnType::Integer),
        ColumnDef::required("image_url", ColumnType::Varchar(500)),
        ColumnDef::required("image_type", ColumnType::Varchar(100)),
        ColumnDef::required("created_by_id", ColumnType::Integer),
        ColumnDef::required("created_at", ColumnType::Timestamp),
        ColumnDef::required("updated_at", ColumnType::Timestamp),
    ];
    let keys = vec![
        ForeignKeyDef {
            name: "project_image_project_id_fk",
            column: "project_id",
            rule: ForeignKeyRule { target: TableId::Project, on_delete: OnDelete::Cascade },
        },
        ForeignKeyDef {
            name: "project_image_created_by_fk",
            column: "created_by_id",
            rule: ForeignKeyRule { target: TableId::User, on_delete: OnDelete::Cascade },
        },
    ];
    let r = TableDef {
        table: TableId::ProjectImage,
        columns,
        primary_key: None,
        unique: None,
        foreign_keys: keys,
    };
    assert(r@.columns =~= project_image_table_spec().columns);
    assert(r@.foreign_keys =~= project_image_table_spec().foreign_keys);
    assert(r.rules() =~= foreign_keys(TableId::ProjectImage));
    r
}

} // verus!
