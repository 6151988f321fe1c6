use vstd::prelude::*;

use crate::m20250909_050520_create_portfolio::{
    ProjectLinkType, ProjectLinkTypeEnum, ProjectStatus, ProjectStatusEnum, TechnologyType,
    TechnologyTypeEnum,
};
use crate::m20250911_185836_create_cv::{CodeSource, CodeSourceEnum};
use crate::m20250911_205500_create_blog::{BlogReactions, BlogReactionsEnum};

verus! {

/// The tables of the schema.
#[derive(Clone, Copy, Debug, PartialEq, Eq, Structural, Hash)]
pub enum TableId {
    User,
    AuthProvider,
    UserSuspension,
    Technology,
    RelatedTechnology,
    Project,
    ProjectTechnology,
    ProjectLink,
    ProjectImage,
    Summary,
    Experience,
    Education,
    Certificate,
    Skill,
    OpenSourceContribution,
    CommonTag,
    BlogPost,
    BlogPostTag,
    BlogPostImage,
    BlogPostTechnology,
    BlogSeries,
    BlogSeriesPost,
    BlogSeriesTechnology,
    BlogPostComment,
    BlogPostReaction,
    BlogPostCommentReaction,
}

/// The enumerated column types of the schema, created as database types.
#[derive(Clone, Copy, Debug, PartialEq, Eq, Structural, Hash)]
pub enum EnumType {
    TechnologyType,
    ProjectStatus,
    ProjectLinkType,
    CodeSource,
    BlogReactions,
}

/// What happens to a referencing row when the row it references is deleted.
#[derive(Clone, Copy, Debug, PartialEq, Eq, Structural)]
pub enum OnDelete {
    /// The referencing row is deleted too.
    Cascade,
    /// The referencing column is set to null; the row stays.
    SetNull,
}

/// The declared type of a column.
#[derive(Clone, Copy, Debug, PartialEq, Eq, Structural)]
pub enum ColumnType {
    Integer,
    /// A character column of at most the given length.
    Varchar(u32),
    Text,
    Boolean,
    Timestamp,
    Date,
    Enumeration(EnumType),
}

/// The default value of a column, if it has one.
#[derive(Clone, Copy, Debug, PartialEq, Eq, Structural)]
pub enum ColumnDefault {
    NoDefault,
    Integer(i64),
    Boolean(bool),
}

/// One column of a table.
#[derive(Clone, Copy, Debug)]
pub struct ColumnDef {
    pub name: &'static str,
    pub ty: ColumnType,
    pub nullable: bool,
    pub default: ColumnDefault,
    /// An auto-incremented integer primary key.
    pub auto_increment_key: bool,
}

/// The mathematical value of a [`ColumnDef`].
pub ghost struct ColumnView {
    pub name: Seq<char>,
    pub ty: ColumnType,
    pub nullable: bool,
    pub default: ColumnDefault,
    pub auto_increment_key: bool,
}

impl View for ColumnDef {
    type V = ColumnView;

    open spec fn view(&self) -> ColumnView {
        ColumnView {
            name: self.name@,
            ty: self.ty,
            nullable: self.nullable,
            default: self.default,
            auto_increment_key: self.auto_increment_key,
        }
    }
}

/// The auto-incremented integer `id` primary key.
pub open spec fn id_column() -> ColumnView {
    ColumnView {
        name: "id"@,
        ty: ColumnType::Integer,
        nullable: false,
        default: ColumnDefault::NoDefault,
        auto_increment_key: true,
    }
}

/// A not-null column without default.
pub open spec fn required(name: Seq<char>, ty: ColumnType) -> ColumnView {
    ColumnView { name, ty, nullable: false, default: ColumnDefault::NoDefault, auto_increment_key: false }
}

/// A nullable column without default.
pub open spec fn optional(name: Seq<char>, ty: ColumnType) -> ColumnView {
    ColumnView { name, ty, nullable: true, default: ColumnDefault::NoDefault, auto_increment_key: false }
}

/// A not-null column with a default value.
pub open spec fn defaulted(name: Seq<char>, ty: ColumnType, default: ColumnDefault) -> ColumnView {
    ColumnView { name, ty, nullable: false, default, auto_increment_key: false }
}

impl ColumnDef {
    /// The auto-incremented integer `id` primary key.
    pub fn id() -> (r: ColumnDef)
        ensures
            r@ == id_column(),
    {
        ColumnDef {
            name: "id",
            ty: ColumnType::Integer,
            nullable: false,
            default: ColumnDefault::NoDefault,
            auto_increment_key: true,
        }
    }

    /// A not-null column without default.
    pub fn required(name: &'static str, ty: ColumnType) -> (r: ColumnDef)
        ensures
            r@ == required(name@, ty),
    {
        ColumnDef { name, ty, nullable: false, default: ColumnDefault::NoDefault, auto_increment_key: false }
    }

    /// A nullable column without default.
    pub fn optional(name: &'static str, ty: ColumnType) -> (r: ColumnDef)
        ensures
            r@ == optional(name@, ty),
    {
        ColumnDef { name, ty, nullable: true, default: ColumnDefault::NoDefault, auto_increment_key: false }
    }

    /// A not-null column with a default value.
    pub fn defaulted(name: &'static str, ty: ColumnType, default: ColumnDefault) -> (r: ColumnDef)
        ensures
            r@ == defaulted(name@, ty, default),
    {
        ColumnDef { name, ty, nullable: false, default, auto_increment_key: false }
    }
}

/// The rule that a foreign key enforces: the table it points into (always at
/// that table's `id`) and its action on delete.
#[derive(Clone, Copy, Debug, PartialEq, Eq, Structural)]
pub struct ForeignKeyRule {
    pub target: TableId,
    pub on_delete: OnDelete,
}

impl ForeignKeyRule {
    /// A column that is nulled on delete is nullable; every other
    /// referencing column of the schema is not null.
    pub open spec fn nullable(self) -> bool {
        self.on_delete == OnDelete::SetNull
    }
}

/// A named foreign key from one column.
#[derive(Clone, Copy, Debug)]
pub struct ForeignKeyDef {
    pub name: &'static str,
    pub column: &'static str,
    pub rule: ForeignKeyRule,
}

/// The mathematical value of a [`ForeignKeyDef`].
pub ghost struct ForeignKeyView {
    pub name: Seq<char>,
    pub column: Seq<char>,
    pub rule: ForeignKeyRule,
}

impl View for ForeignKeyDef {
    type V = ForeignKeyView;

    open spec fn view(&self) -> ForeignKeyView {
        ForeignKeyView { name: self.name@, column: self.column@, rule: self.rule }
    }
}

/// A named key over some columns: a composite primary key or a unique constraint.
#[derive(Clone, Debug)]
pub struct KeyDef {
    pub name: &'static str,
    pub columns: Vec<&'static str>,
}

/// The mathematical value of a [`KeyDef`].
pub ghost struct KeyView {
    pub name: Seq<char>,
    pub columns: Seq<Seq<char>>,
}

impl View for KeyDef {
    type V = KeyView;

    open spec fn view(&self) -> KeyView {
        KeyView { name: self.name@, columns: self.columns@.map_values(|c: &str| c@) }
    }
}

/// The value of an optional key.
pub open spec fn key_view(k: Option<KeyDef>) -> Option<KeyView> {
    match k {
        Some(k) => Some(k@),
        None => None,
    }
}

/// The full definition of a table.
#[derive(Clone, Debug)]
pub struct TableDef {
    pub table: TableId,
    pub columns: Vec<ColumnDef>,
    /// The composite primary key of a table without an `id` column.
    pub primary_key: Option<KeyDef>,
    pub foreign_keys: Vec<ForeignKeyDef>,
    /// A unique constraint declared with the table.
    pub unique: Option<KeyDef>,
}

/// The mathematical value of a [`TableDef`].
pub ghost struct TableView {
    pub table: TableId,
    pub columns: Seq<ColumnView>,
    pub primary_key: Option<KeyView>,
    pub foreign_keys: Seq<ForeignKeyView>,
    pub unique: Option<KeyView>,
}

impl View for TableDef {
    type V = TableView;

    open spec fn view(&self) -> TableView {
        TableView {
            table: self.table,
            columns: self.columns@.map_values(|c: ColumnDef| c@),
            primary_key: key_view(self.primary_key),
            foreign_keys: self.foreign_keys@.map_values(|f: ForeignKeyDef| f@),
            unique: key_view(self.unique),
        }
    }
}

impl TableDef {
    /// The rules of the table's foreign keys, in declaration order.
    pub open spec fn rules(&self) -> Seq<ForeignKeyRule> {
        self.foreign_keys@.map_values(|f: ForeignKeyDef| f.rule)
    }
}

/// The mathematical value of an [`IndexDef`].
pub ghost struct IndexView {
    pub name: Seq<char>,
    pub table: TableId,
    pub columns: Seq<Seq<char>>,
    pub unique: bool,
}

impl View for IndexDef {
    type V = IndexView;

    open spec fn view(&self) -> IndexView {
        IndexView {
            name: self.name@,
            table: self.table,
            columns: self.columns@.map_values(|c: &str| c@),
            unique: self.unique,
        }
    }
}

/// A secondary index, created after its table.
#[derive(Clone, Debug)]
pub struct IndexDef {
    pub name: &'static str,
    pub table: TableId,
    pub columns: Vec<&'static str>,
    pub unique: bool,
}

/// A foreign key rule, for the catalog below.
pub open spec fn rule(target: TableId, on_delete: OnDelete) -> ForeignKeyRule {
    ForeignKeyRule { target, on_delete }
}

/// The rules of each table's foreign keys, in declaration order.
pub open spec fn foreign_keys(t: TableId) -> Seq<ForeignKeyRule> {
    match t {
        TableId::User => seq![],
        TableId::AuthProvider => seq![rule(TableId::User, OnDelete::Cascade)],
        TableId::UserSuspension => seq![rule(TableId::User, OnDelete::Cascade)],
        TableId::Technology => seq![rule(TableId::User, OnDelete::Cascade)],
        TableId::RelatedTechnology => seq![
            rule(TableId::Technology, OnDelete::Cascade),
            rule(TableId::Technology, OnDelete::Cascade),
        ],
        TableId::Project => seq![rule(TableId::User, OnDelete::Cascade)],
        TableId::ProjectTechnology => seq![
            rule(TableId::Project, OnDelete::Cascade),
            rule(TableId::Technology, OnDelete::Cascade),
        ],
        TableId::ProjectLink => seq![
            rule(TableId::Project, OnDelete::Cascade),
            rule(TableId::User, OnDelete::Cascade),
        ],
        TableId::ProjectImage => seq![
            rule(TableId::Project, OnDelete::Cascade),
            rule(TableId::User, OnDelete::Cascade),
        ],
        TableId::Summary => seq![rule(TableId::User, OnDelete::Cascade)],
        TableId::Experience => seq![rule(TableId::User, OnDelete::Cascade)],
        TableId::Education => seq![rule(TableId::User, OnDelete::Cascade)],
        TableId::Certificate => seq![rule(TableId::User, OnDelete::Cascade)],
        TableId::Skill => seq![
            rule(TableId::User, OnDelete::Cascade),
            rule(TableId::Technology, OnDelete::Cascade),
        ],
        TableId::OpenSourceContribution => seq![rule(TableId::User, OnDelete::Cascade)],
        TableId::CommonTag => seq![],
        TableId::BlogPost => seq![rule(TableId::User, OnDelete::Cascade)],
        TableId::BlogPostTag => seq![
            rule(TableId::BlogPost, OnDelete::Cascade),
            rule(TableId::CommonTag, OnDelete::SetNull),
            rule(TableId::User, OnDelete::Cascade),
        ],
        TableId::BlogPostImage => seq![
            rule(TableId::BlogPost, OnDelete::Cascade),
            rule(TableId::User, OnDelete::Cascade),
        ],
        TableId::BlogPostTechnology => seq![
            rule(TableId::BlogPost, OnDelete::Cascade),
            rule(TableId::Technology, OnDelete::Cascade),
        ],
        TableId::BlogSeries => seq![rule(TableId::User, OnDelete::Cascade)],
        TableId::BlogSeriesPost => seq![
            rule(TableId::BlogSeries, OnDelete::Cascade),
            rule(TableId::BlogPost, OnDelete::Cascade),
        ],
        TableId::BlogSeriesTechnology => seq![
            rule(TableId::BlogSeries, OnDelete::Cascade),
            rule(TableId::Technology, OnDelete::Cascade),
        ],
        TableId::BlogPostComment => seq![
            rule(TableId::BlogPost, OnDelete::Cascade),
            rule(TableId::User, OnDelete::Cascade),
            rule(TableId::BlogPostComment, OnDelete::SetNull),
        ],
        TableId::BlogPostReaction => seq![
            rule(TableId::BlogPost, OnDelete::Cascade),
            rule(TableId::User, OnDelete::Cascade),
        ],
        TableId::BlogPostCommentReaction => seq![
            rule(TableId::BlogPostComment, OnDelete::Cascade),
            rule(TableId::User, OnDelete::Cascade),
        ],
    }
}

/// Whether `t` has a foreign key into `u`.
pub open spec fn references(t: TableId, u: TableId) -> bool {
    match t {
        TableId::User => false,
        TableId::AuthProvider => u == TableId::User,
        TableId::UserSuspension => u == TableId::User,
        TableId::Technology => u == TableId::User,
        TableId::RelatedTechnology => u == TableId::Technology,
        TableId::Project => u == TableId::User,
        TableId::ProjectTechnology => u == TableId::Project || u == TableId::Technology,
        TableId::ProjectLink => u == TableId::Project || u == TableId::User,
        TableId::ProjectImage => u == TableId::Project || u == TableId::User,
        TableId::Summary => u == TableId::User,
        TableId::Experience => u == TableId::User,
        TableId::Education => u == TableId::User,
        TableId::Certificate => u == TableId::User,
        TableId::Skill => u == TableId::Technology || u == TableId::User,
        TableId::OpenSourceContribution => u == TableId::User,
        TableId::CommonTag => false,
        TableId::BlogPost => u == TableId::User,
        TableId::BlogPostTag => {
            u == TableId::BlogPost
                || u == TableId::CommonTag
                || u == TableId::User
        },
        TableId::BlogPostImage => u == TableId::BlogPost || u == TableId::User,
        TableId::BlogPostTechnology => u == TableId::BlogPost || u == TableId::Technology,
        TableId::BlogSeries => u == TableId::User,
        TableId::BlogSeriesPost => u == TableId::BlogPost || u == TableId::BlogSeries,
        TableId::BlogSeriesTechnology => u == TableId::BlogSeries || u == TableId::Technology,
        TableId::BlogPostComment => {
            u == TableId::BlogPost
                || u == TableId::BlogPostComment
                || u == TableId::User
        },
        TableId::BlogPostReaction => u == TableId::BlogPost || u == TableId::User,
        TableId::BlogPostCommentReaction => u == TableId::BlogPostComment || u == TableId::User,
    }
}

/// `references` is exactly "some foreign key of `t` points into `u`".
pub proof fn lemma_references_foreign_keys(t: TableId, u: TableId)
    ensures
        references(t, u) <==> exists|k: int|
            0 <= k < foreign_keys(t).len() && #[trigger] foreign_keys(t)[k].target == u,
{
    if references(t, u) {
        let fks = foreign_keys(t);
        if fks.len() > 0 && fks[0].target == u {
            assert(fks[0].target == u);
        } else if fks.len() > 1 && fks[1].target == u {
            assert(fks[1].target == u);
        } else {
            assert(fks[2].target == u);
        }
    }
}

impl EnumType {
    /// The type's name in the database.
    pub open spec fn spec_name(self) -> Seq<char> {
        match self {
            EnumType::TechnologyType => "technology_type_enum"@,
            EnumType::ProjectStatus => "project_status_enum"@,
            EnumType::ProjectLinkType => "project_link_type_enum"@,
            EnumType::CodeSource => "code_source_enum"@,
            EnumType::BlogReactions => "blog_reactions_enum"@,
        }
    }

    /// The type's name in the database.
    pub fn name(&self) -> (r: &'static str)
        ensures
            r@ == self.spec_name(),
    {
        match self {
            EnumType::TechnologyType => TechnologyTypeEnum.name(),
            EnumType::ProjectStatus => ProjectStatusEnum.name(),
            EnumType::ProjectLinkType => ProjectLinkTypeEnum.name(),
            EnumType::CodeSource => CodeSourceEnum.name(),
            EnumType::BlogReactions => BlogReactionsEnum.name(),
        }
    }

    /// The type's values in the database, in declaration order.
    pub open spec fn value_names(self) -> Seq<Seq<char>> {
        match self {
            EnumType::TechnologyType => seq!["language"@, "framework"@, "database"@, "platform"@, "tool"@, "other"@],
            EnumType::ProjectStatus => seq!["ongoing"@, "completed"@, "maintenance"@, "archived"@, "on_hold"@, "dropped"@],
            EnumType::ProjectLinkType => seq!["website"@, "github"@, "gitlab"@, "dev_to"@, "linkedin"@, "youtube"@, "other"@],
            EnumType::CodeSource => seq!["github"@, "gitlab"@, "crates_io"@, "npm"@, "pypi"@, "other"@],
            EnumType::BlogReactions => seq!["hate"@, "dislike"@, "ok"@, "like"@, "love"@],
        }
    }

    /// The type's values in the database, in declaration order.
    pub fn values(&self) -> (r: Vec<&'static str>)
        ensures
            r@.map_values(|s: &str| s@) == self.value_names(),
    {
        let r = match self {
            EnumType::TechnologyType => vec![
                TechnologyType::Language.name(),
                TechnologyType::Framework.name(),
                TechnologyType::Database.name(),
                TechnologyType::Platform.name(),
                TechnologyType::Tool.name(),
                TechnologyType::Other.name(),
            ],
            EnumType::ProjectStatus => vec![
                ProjectStatus::Ongoing.name(),
                ProjectStatus::Completed.name(),
                ProjectStatus::Maintenance.name(),
                ProjectStatus::Archived.name(),
                ProjectStatus::OnHold.name(),
                ProjectStatus::Dropped.name(),
            ],
            EnumType::ProjectLinkType => vec![
                ProjectLinkType::Website.name(),
                ProjectLinkType::Github.name(),
                ProjectLinkType::Gitlab.name(),
                ProjectLinkType::DevTo.name(),
                ProjectLinkType::Linkedin.name(),
                ProjectLinkType::Youtube.name(),
                ProjectLinkType::Other.name(),
            ],
            EnumType::CodeSource => vec![
                CodeSource::Github.name(),
                CodeSource::Gitlab.name(),
                CodeSource::CratesIo.name(),
                CodeSource::Npm.name(),
                CodeSource::Pypi.name(),
                CodeSource::Other.name(),
            ],
            EnumType::BlogReactions => vec![
                BlogReactions::Hate.name(),
                BlogReactions::Dislike.name(),
                BlogReactions::Okay.name(),
                BlogReactions::Like.name(),
                BlogReactions::Love.name(),
            ],
        };
        assert(r@.map_values(|s: &str| s@) =~= self.value_names());
        r
    }
}

/// The enumerated type that a table's columns use, if any.
pub open spec fn enum_type_of(t: TableId) -> Option<EnumType> {
    match t {
        TableId::Technology => Some(EnumType::TechnologyType),
        TableId::Project => Some(EnumType::ProjectStatus),
        TableId::ProjectLink => Some(EnumType::ProjectLinkType),
        TableId::OpenSourceContribution => Some(EnumType::CodeSource),
        TableId::BlogPostReaction => Some(EnumType::BlogReactions),
        TableId::BlogPostCommentReaction => Some(EnumType::BlogReactions),
        _ => None,
    }
}

impl TableId {
    /// The enumerated type that the table's columns use, if any.
    pub fn enum_type(&self) -> (r: Option<EnumType>)
        ensures
            r == enum_type_of(*self),
    {
        match self {
            TableId::Technology => Some(EnumType::TechnologyType),
            TableId::Project => Some(EnumType::ProjectStatus),
            TableId::ProjectLink => Some(EnumType::ProjectLinkType),
            TableId::OpenSourceContribution => Some(EnumType::CodeSource),
            TableId::BlogPostReaction => Some(EnumType::BlogReactions),
            TableId::BlogPostCommentReaction => Some(EnumType::BlogReactions),
            _ => None,
        }
    }

    /// Whether the table has a foreign key into `u`.
    pub fn references(&self, u: TableId) -> (r: bool)
        ensures
            r == references(*self, u),
    {
        let rules = foreign_key_rules(*self);
        proof {
            lemma_references_foreign_keys(*self, u);
        }
        let mut k: usize = 0;
        while k < rules.len()
            invariant
                k <= rules.len(),
                rules@ == foreign_keys(*self),
                forall|j: int| 0 <= j < k ==> rules@[j].target != u,
            decreases rules.len() - k,
        {
            if rules[k].target == u {
                assert(rules@[k as int].target == u);
                return true;
            }
            k += 1;
        }
        false
    }
}

/// The rules of a table's foreign keys, in declaration order.
pub fn foreign_key_rules(t: TableId) -> (r: Vec<ForeignKeyRule>)
    ensures
        r@ == foreign_keys(t),
{
    let def = table_def(t);
    let mut r: Vec<ForeignKeyRule> = Vec::new();
    let mut k: usize = 0;
    while k < def.foreign_keys.len()
        invariant
            k <= def.foreign_keys.len(),
            def.rules() == foreign_keys(t),
            r@ == def.rules().take(k as int),
        decreases def.foreign_keys.len() - k,
    {
        r.push(def.foreign_keys[k].rule);
        k += 1;
        assert(r@ =~= def.rules().take(k as int));
    }
    assert(r@ =~= def.rules());
    r
}

/// The secondary indexes of the schema.
#[derive(Clone, Copy, Debug, PartialEq, Eq, Structural, Hash)]
pub enum IndexId {
    AuthProviderNameUserIdUidx,
    AuthProviderUserIdIdx,
    ProjectImageProjectIdIdx,
    ProjectImageCreatedByIdx,
    SummaryCreatedByIdx,
    ExperienceCreatedByIdx,
    EducationCreatedByIdx,
    CertificateCreatedByIdx,
    SkillCreatedByIdx,
    SkillTechnologyIdIdx,
    OpenSourceContributionCreatedByIdx,
    CommonTagNameUidx,
    BlogPostCreatedByIdx,
    BlogPostPublishedAtIdx,
    BlogPostIsPublishedIdx,
    BlogPostTagBlogPostIdIdx,
    BlogPostTagCommonTagIdIdx,
    BlogPostTagCreatedByIdx,
    BlogPostImageBlogPostIdIdx,
    BlogPostImageCreatedByIdx,
    BlogSeriesCreatedByIdx,
    BlogPostCommentBlogPostIdIdx,
    BlogPostCommentCreatedByIdx,
    BlogPostCommentParentCommentIdIdx,
}

/// The table that an index is on.
pub open spec fn index_table(i: IndexId) -> TableId {
    match i {
        IndexId::AuthProviderNameUserIdUidx => TableId::AuthProvider,
        IndexId::AuthProviderUserIdIdx => TableId::AuthProvider,
        IndexId::ProjectImageProjectIdIdx => TableId::ProjectImage,
        IndexId::ProjectImageCreatedByIdx => TableId::ProjectImage,
        IndexId::SummaryCreatedByIdx => TableId::Summary,
        IndexId::ExperienceCreatedByIdx => TableId::Experience,
        IndexId::EducationCreatedByIdx => TableId::Education,
        IndexId::CertificateCreatedByIdx => TableId::Certificate,
        IndexId::SkillCreatedByIdx => TableId::Skill,
        IndexId::SkillTechnologyIdIdx => TableId::Skill,
        IndexId::OpenSourceContributionCreatedByIdx => TableId::OpenSourceContribution,
        IndexId::CommonTagNameUidx => TableId::CommonTag,
        IndexId::BlogPostCreatedByIdx => TableId::BlogPost,
        IndexId::BlogPostPublishedAtIdx => TableId::BlogPost,
        IndexId::BlogPostIsPublishedIdx => TableId::BlogPost,
        IndexId::BlogPostTagBlogPostIdIdx => TableId::BlogPostTag,
        IndexId::BlogPostTagCommonTagIdIdx => TableId::BlogPostTag,
        IndexId::BlogPostTagCreatedByIdx => TableId::BlogPostTag,
        IndexId::BlogPostImageBlogPostIdIdx => TableId::BlogPostImage,
        IndexId::BlogPostImageCreatedByIdx => TableId::BlogPostImage,
        IndexId::BlogSeriesCreatedByIdx => TableId::BlogSeries,
        IndexId::BlogPostCommentBlogPostIdIdx => TableId::BlogPostComment,
        IndexId::BlogPostCommentCreatedByIdx => TableId::BlogPostComment,
        IndexId::BlogPostCommentParentCommentIdIdx => TableId::BlogPostComment,
    }
}

/// Whether an index enforces uniqueness.
pub open spec fn index_unique(i: IndexId) -> bool {
    i == IndexId::AuthProviderNameUserIdUidx || i == IndexId::CommonTagNameUidx
}

/// The table that an index is on.
pub fn index_table_of(i: IndexId) -> (r: TableId)
    ensures
        r == index_table(i),
{
    index_def(i).table
}

/// The full definition of each index.
pub open spec fn index_spec(i: IndexId) -> IndexView {
    match i {
        IndexId::AuthProviderNameUserIdUidx => IndexView {
            name: "auth_provider_name_user_id_uidx"@,
            table: TableId::AuthProvider,
            columns: seq!["name"@, "user_id"@],
            unique: true,
        },
        IndexId::AuthProviderUserIdIdx => IndexView {
            name: "auth_provider_user_id_idx"@,
            table: TableId::AuthProvider,
            columns: seq!["user_id"@],
            unique: false,
        },
        IndexId::ProjectImageProjectIdIdx => IndexView {
            name: "project_image_project_id_idx"@,
            table: TableId::ProjectImage,
            columns: seq!["project_id"@],
            unique: false,
        },
        IndexId::ProjectImageCreatedByIdx => IndexView {
            name: "project_image_created_by_idx"@,
            table: TableId::ProjectImage,
            columns: seq!["created_by_id"@],
            unique: false,
        },
        IndexId::SummaryCreatedByIdx => IndexView {
            name: "summary_created_by_idx"@,
            table: TableId::Summary,
            columns: seq!["created_by_id"@],
            unique: false,
        },
        IndexId::ExperienceCreatedByIdx => IndexView {
            name: "experience_created_by_idx"@,
            table: TableId::Experience,
            columns: seq!["created_by_id"@],
            unique: false,
        },
        IndexId::EducationCreatedByIdx => IndexView {
            name: "education_created_by_idx"@,
            table: TableId::Education,
            columns: seq!["created_by_id"@],
            unique: false,
        },
        IndexId::CertificateCreatedByIdx => IndexView {
            name: "certificate_created_by_idx"@,
            table: TableId::Certificate,
            columns: seq!["created_by_id"@],
            unique: false,
        },
        IndexId::SkillCreatedByIdx => IndexView {
            name: "skill_created_by_idx"@,
            table: TableId::Skill,
            columns: seq!["created_by_id"@],
            unique: false,
        },
        IndexId::SkillTechnologyIdIdx => IndexView {
            name: "skill_technology_id_idx"@,
            table: TableId::Skill,
            columns: seq!["technology_id"@],
            unique: false,
        },
        IndexId::OpenSourceContributionCreatedByIdx => IndexView {
            name: "open_source_contribution_created_by_idx"@,
            table: TableId::OpenSourceContribution,
            columns: seq!["created_by_id"@],
            unique: false,
        },
        IndexId::CommonTagNameUidx => IndexView {
            name: "common_tag_name_uidx"@,
            table: TableId::CommonTag,
            columns: seq!["name"@],
            unique: true,
        },
        IndexId::BlogPostCreatedByIdx => IndexView {
            name: "blog_post_created_by_idx"@,
            table: TableId::BlogPost,
            columns: seq!["created_by_id"@],
            unique: false,
        },
        IndexId::BlogPostPublishedAtIdx => IndexView {
            name: "blog_post_published_at_idx"@,
            table: TableId::BlogPost,
            columns: seq!["published_at"@],
            unique: false,
        },
        IndexId::BlogPostIsPublishedIdx => IndexView {
            name: "blog_post_is_published_idx"@,
            table: TableId::BlogPost,
            columns: seq!["is_published"@],
            unique: false,
        },
        IndexId::BlogPostTagBlogPostIdIdx => IndexView {
            name: "blog_post_tag_blog_post_id_idx"@,
            table: TableId::BlogPostTag,
            columns: seq!["blog_post_id"@],
            unique: false,
        },
        IndexId::BlogPostTagCommonTagIdIdx => IndexView {
            name: "blog_post_tag_common_tag_id_idx"@,
            table: TableId::BlogPostTag,
            columns: seq!["common_tag_id"@],
            unique: false,
        },
        IndexId::BlogPostTagCreatedByIdx => IndexView {
            name: "blog_post_tag_created_by_idx"@,
            table: TableId::BlogPostTag,
            columns: seq!["created_by_id"@],
            unique: false,
        },
        IndexId::BlogPostImageBlogPostIdIdx => IndexView {
            name: "blog_post_image_blog_post_id_idx"@,
            table: TableId::BlogPostImage,
            columns: seq!["blog_post_id"@],
            unique: false,
        },
        IndexId::BlogPostImageCreatedByIdx => IndexView {
            name: "blog_post_image_created_by_idx"@,
            table: TableId::BlogPostImage,
            columns: seq!["created_by_id"@],
            unique: false,
        },
        IndexId::BlogSeriesCreatedByIdx => IndexView {
            name: "blog_series_created_by_idx"@,
            table: TableId::BlogSeries,
            columns: seq!["created_by_id"@],
            unique: false,
        },
        IndexId::BlogPostCommentBlogPostIdIdx => IndexView {
            name: "blog_post_comment_blog_post_id_idx"@,
            table: TableId::BlogPostComment,
            columns: seq!["blog_post_id"@],
            unique: false,
        },
        IndexId::BlogPostCommentCreatedByIdx => IndexView {
            name: "blog_post_comment_created_by_idx"@,
            table: TableId::BlogPostComment,
            columns: seq!["created_by_id"@],
            unique: false,
        },
        IndexId::BlogPostCommentParentCommentIdIdx => IndexView {
            name: "blog_post_comment_parent_comment_id_idx"@,
            table: TableId::BlogPostComment,
            columns: seq!["parent_comment_id"@],
            unique: false,
        },
    }
}

/// The definition of an index.
pub fn index_def(i: IndexId) -> (r: IndexDef)
    ensures
        r@ == index_spec(i),
        r.table == index_table(i),
        r.unique == index_unique(i),
{
    match i {
        IndexId::AuthProviderNameUserIdUidx => {
            let r = IndexDef {
                name: "auth_provider_name_user_id_uidx",
                table: TableId::AuthProvider,
                columns: vec!["name", "user_id"],
                unique: true,
            };
            assert(r@.columns =~= index_spec(i).columns);
            r
        },
        IndexId::AuthProviderUserIdIdx => {
            let r = IndexDef {
                name: "auth_provider_user_id_idx",
                table: TableId::AuthProvider,
                columns: vec!["user_id"],
                unique: false,
            };
            assert(r@.columns =~= index_spec(i).columns);
            r
        },
        IndexId::ProjectImageProjectIdIdx => {
            let r = IndexDef {
                name: "project_image_project_id_idx",
                table: TableId::ProjectImage,
                columns: vec!["project_id"],
                unique: false,
            };
            assert(r@.columns =~= index_spec(i).columns);
            r
        },
        IndexId::ProjectImageCreatedByIdx => {
            let r = IndexDef {
                name: "project_image_created_by_idx",
                table: TableId::ProjectImage,
                columns: vec!["created_by_id"],
                unique: false,
            };
            assert(r@.columns =~= index_spec(i).columns);
            r
        },
        IndexId::SummaryCreatedByIdx => {
            let r = IndexDef {
                name: "summary_created_by_idx",
                table: TableId::Summary,
                columns: vec!["created_by_id"],
                unique: false,
            };
            assert(r@.columns =~= index_spec(i).columns);
            r
        },
        IndexId::ExperienceCreatedByIdx => {
            let r = IndexDef {
                name: "experience_created_by_idx",
                table: TableId::Experience,
                columns: vec!["created_by_id"],
                unique: false,
            };
            assert(r@.columns =~= index_spec(i).columns);
            r
        },
        IndexId::EducationCreatedByIdx => {
            let r = IndexDef {
                name: "education_created_by_idx",
                table: TableId::Education,
                columns: vec!["created_by_id"],
                unique: false,
            };
            assert(r@.columns =~= index_spec(i).columns);
            r
        },
        IndexId::CertificateCreatedByIdx => {
            let r = IndexDef {
                name: "certificate_created_by_idx",
                table: TableId::Certificate,
                columns: vec!["created_by_id"],
                unique: false,
            };
            assert(r@.columns =~= index_spec(i).columns);
            r
        },
        IndexId::SkillCreatedByIdx => {
            let r = IndexDef {
                name: "skill_created_by_idx",
                table: TableId::Skill,
                columns: vec!["created_by_id"],
                unique: false,
            };
            assert(r@.columns =~= index_spec(i).columns);
            r
        },
        IndexId::SkillTechnologyIdIdx => {
            let r = IndexDef {
                name: "skill_technology_id_idx",
                table: TableId::Skill,
                columns: vec!["technology_id"],
                unique: false,
            };
            assert(r@.columns =~= index_spec(i).columns);
            r
        },
        IndexId::OpenSourceContributionCreatedByIdx => {
            let r = IndexDef {
                name: "open_source_contribution_created_by_idx",
                table: TableId::OpenSourceContribution,
                columns: vec!["created_by_id"],
                unique: false,
            };
            assert(r@.columns =~= index_spec(i).columns);
            r
        },
        IndexId::CommonTagNameUidx => {
            let r = IndexDef {
                name: "common_tag_name_uidx",
                table: TableId::CommonTag,
                columns: vec!["name"],
                unique: true,
            };
            assert(r@.columns =~= index_spec(i).columns);
            r
        },
        IndexId::BlogPostCreatedByIdx => {
            let r = IndexDef {
                name: "blog_post_created_by_idx",
                table: TableId::BlogPost,
                columns: vec!["created_by_id"],
                unique: false,
            };
            assert(r@.columns =~= index_spec(i).columns);
            r
        },
        IndexId::BlogPostPublishedAtIdx => {
            let r = IndexDef {
                name: "blog_post_published_at_idx",
                table: TableId::BlogPost,
                columns: vec!["published_at"],
                unique: false,
            };
            assert(r@.columns =~= index_spec(i).columns);
            r
        },
        IndexId::BlogPostIsPublishedIdx => {
            let r = IndexDef {
                name: "blog_post_is_published_idx",
                table: TableId::BlogPost,
                columns: vec!["is_published"],
                unique: false,
            };
            assert(r@.columns =~= index_spec(i).columns);
            r
        },
        IndexId::BlogPostTagBlogPostIdIdx => {
            let r = IndexDef {
                name: "blog_post_tag_blog_post_id_idx",
                table: TableId::BlogPostTag,
                columns: vec!["blog_post_id"],
                unique: false,
            };
            assert(r@.columns =~= index_spec(i).columns);
            r
        },
        IndexId::BlogPostTagCommonTagIdIdx => {
            let r = IndexDef {
                name: "blog_post_tag_common_tag_id_idx",
                table: TableId::BlogPostTag,
                columns: vec!["common_tag_id"],
                unique: false,
            };
            assert(r@.columns =~= index_spec(i).columns);
            r
        },
        IndexId::BlogPostTagCreatedByIdx => {
            let r = IndexDef {
                name: "blog_post_tag_created_by_idx",
                table: TableId::BlogPostTag,
                columns: vec!["created_by_id"],
                unique: false,
            };
            assert(r@.columns =~= index_spec(i).columns);
            r
        },
        IndexId::BlogPostImageBlogPostIdIdx => {
            let r = IndexDef {
                name: "blog_post_image_blog_post_id_idx",
                table: TableId::BlogPostImage,
                columns: vec!["blog_post_id"],
                unique: false,
            };
            assert(r@.columns =~= index_spec(i).columns);
            r
        },
        IndexId::BlogPostImageCreatedByIdx => {
            let r = IndexDef {
                name: "blog_post_image_created_by_idx",
                table: TableId::BlogPostImage,
                columns: vec!["created_by_id"],
                unique: false,
            };
            assert(r@.columns =~= index_spec(i).columns);
            r
        },
        IndexId::BlogSeriesCreatedByIdx => {
            let r = IndexDef {
                name: "blog_series_created_by_idx",
                table: TableId::BlogSeries,
                columns: vec!["created_by_id"],
                unique: false,
            };
            assert(r@.columns =~= index_spec(i).columns);
            r
        },
        IndexId::BlogPostCommentBlogPostIdIdx => {
            let r = IndexDef {
                name: "blog_post_comment_blog_post_id_idx",
                table: TableId::BlogPostComment,
                columns: vec!["blog_post_id"],
                unique: false,
            };
            assert(r@.columns =~= index_spec(i).columns);
            r
        },
        IndexId::BlogPostCommentCreatedByIdx => {
            let r = IndexDef {
                name: "blog_post_comment_created_by_idx",
                table: TableId::BlogPostComment,
                columns: vec!["created_by_id"],
                unique: false,
            };
            assert(r@.columns =~= index_spec(i).columns);
            r
        },
        IndexId::BlogPostCommentParentCommentIdIdx => {
            let r = IndexDef {
                name: "blog_post_comment_parent_comment_id_idx",
                table: TableId::BlogPostComment,
                columns: vec!["parent_comment_id"],
                unique: false,
            };
            assert(r@.columns =~= index_spec(i).columns);
            r
        },
    }
}


impl TableId {
    /// The table's name in the database.
    pub open spec fn spec_name(self) -> Seq<char> {
        match self {
            TableId::User => "user"@,
            TableId::AuthProvider => "auth_provider"@,
            TableId::UserSuspension => "user_suspension"@,
            TableId::Technology => "technology"@,
            TableId::RelatedTechnology => "related_technology"@,
            TableId::Project => "project"@,
            TableId::ProjectTechnology => "project_technology"@,
            TableId::ProjectLink => "project_link"@,
            TableId::ProjectImage => "project_image"@,
            TableId::Summary => "summary"@,
            TableId::Experience => "experience"@,
            TableId::Education => "education"@,
            TableId::Certificate => "certificate"@,
            TableId::Skill => "skill"@,
            TableId::OpenSourceContribution => "open_source_contribution"@,
            TableId::CommonTag => "common_tag"@,
            TableId::BlogPost => "blog_post"@,
            TableId::BlogPostTag => "blog_post_tag"@,
            TableId::BlogPostImage => "blog_post_image"@,
            TableId::BlogPostTechnology => "blog_post_technology"@,
            TableId::BlogSeries => "blog_series"@,
            TableId::BlogSeriesPost => "blog_series_post"@,
            TableId::BlogSeriesTechnology => "blog_series_technology"@,
            TableId::BlogPostComment => "blog_post_comment"@,
            TableId::BlogPostReaction => "blog_post_reaction"@,
            TableId::BlogPostCommentReaction => "blog_post_comment_reaction"@,
        }
    }

    /// The table's name in the database.
    pub fn name(&self) -> (r: &'static str)
        ensures
            r@ == self.spec_name(),
    {
        match self {
            TableId::User => "user",
            TableId::AuthProvider => "auth_provider",
            TableId::UserSuspension => "user_suspension",
            TableId::Technology => "technology",
            TableId::RelatedTechnology => "related_technology",
            TableId::Project => "project",
            TableId::ProjectTechnology => "project_technology",
            TableId::ProjectLink => "project_link",
            TableId::ProjectImage => "project_image",
            TableId::Summary => "summary",
            TableId::Experience => "experience",
            TableId::Education => "education",
            TableId::Certificate => "certificate",
            TableId::Skill => "skill",
            TableId::OpenSourceContribution => "open_source_contribution",
            TableId::CommonTag => "common_tag",
            TableId::BlogPost => "blog_post",
            TableId::BlogPostTag => "blog_post_tag",
            TableId::BlogPostImage => "blog_post_image",
            TableId::BlogPostTechnology => "blog_post_technology",
            TableId::BlogSeries => "blog_series",
            TableId::BlogSeriesPost => "blog_series_post",
            TableId::BlogSeriesTechnology => "blog_series_technology",
            TableId::BlogPostComment => "blog_post_comment",
            TableId::BlogPostReaction => "blog_post_reaction",
            TableId::BlogPostCommentReaction => "blog_post_comment_reaction",
        }
    }
}

/// The full definition of each table.
pub open spec fn table_spec(t: TableId) -> TableView {
    match t {
        TableId::User => crate::m20250908_030112_create_users::user_table_spec(),
        TableId::AuthProvider => crate::m20250908_030112_create_users::auth_provider_table_spec(),
        TableId::UserSuspension => crate::m20250908_030112_create_users::user_suspension_table_spec(),
        TableId::Technology => crate::m20250909_050520_create_portfolio::technology_table_spec(),
        TableId::RelatedTechnology => crate::m20250909_050520_create_portfolio::related_technology_table_spec(),
        TableId::Project => crate::m20250909_050520_create_portfolio::project_table_spec(),
        TableId::ProjectTechnology => crate::m20250909_050520_create_portfolio::project_technology_table_spec(),
        TableId::ProjectLink => crate::m20250909_050520_create_portfolio::project_link_table_spec(),
        TableId::ProjectImage => crate::m20250909_050520_create_portfolio::project_image_table_spec(),
        TableId::Summary => crate::m20250911_185836_create_cv::summary_table_spec(),
        TableId::Experience => crate::m20250911_185836_create_cv::experience_table_spec(),
        TableId::Education => crate::m20250911_185836_create_cv::education_table_spec(),
        TableId::Certificate => crate::m20250911_185836_create_cv::certificate_table_spec(),
        TableId::Skill => crate::m20250911_185836_create_cv::skill_table_spec(),
        TableId::OpenSourceContribution => crate::m20250911_185836_create_cv::open_source_contribution_table_spec(),
        TableId::CommonTag => crate::m20250911_205500_create_blog::common_tag_table_spec(),
        TableId::BlogPost => crate::m20250911_205500_create_blog::blog_post_table_spec(),
        TableId::BlogPostTag => crate::m20250911_205500_create_blog::blog_post_tag_table_spec(),
        TableId::BlogPostImage => crate::m20250911_205500_create_blog::blog_post_image_table_spec(),
        TableId::BlogPostTechnology => crate::m20250911_205500_create_blog::blog_post_technology_table_spec(),
        TableId::BlogSeries => crate::m20250911_205500_create_blog::blog_series_table_spec(),
        TableId::BlogSeriesPost => crate::m20250911_205500_create_blog::blog_series_post_table_spec(),
        TableId::BlogSeriesTechnology => crate::m20250911_205500_create_blog::blog_series_technology_table_spec(),
        TableId::BlogPostComment => crate::m20250911_205500_create_blog::blog_post_comment_table_spec(),
        TableId::BlogPostReaction => crate::m20250911_205500_create_blog::blog_post_reaction_table_spec(),
        TableId::BlogPostCommentReaction => crate::m20250911_205500_create_blog::blog_post_comment_reaction_table_spec(),
    }
}

/// The unique index on a table, if it has one.
pub open spec fn unique_index_of(t: TableId) -> Option<IndexId> {
    match t {
        TableId::AuthProvider => Some(IndexId::AuthProviderNameUserIdUidx),
        TableId::CommonTag => Some(IndexId::CommonTagNameUidx),
        _ => None,
    }
}

/// The columns of the unique constraint that a table declares, if any: its
/// composite primary key, its inline unique key or its unique index.
pub open spec fn declared_unique_columns(t: TableId) -> Option<Seq<Seq<char>>> {
    if table_spec(t).primary_key is Some {
        Some(table_spec(t).primary_key->0.columns)
    } else if table_spec(t).unique is Some {
        Some(table_spec(t).unique->0.columns)
    } else {
        match unique_index_of(t) {
            Some(i) => Some(index_spec(i).columns),
            None => None,
        }
    }
}

/// A table declares at most one unique constraint, and every unique index
/// is the one that `unique_index_of` names for its table.
pub proof fn lemma_one_unique_constraint(t: TableId, i: IndexId)
    ensures
        !(table_spec(t).primary_key is Some && table_spec(t).unique is Some),
        unique_index_of(t) is Some ==> table_spec(t).primary_key is None && table_spec(t).unique
            is None,
        unique_index_of(t) matches Some(j) ==> index_spec(j).table == t && index_spec(j).unique,
        index_spec(i).unique ==> unique_index_of(index_spec(i).table) == Some(i),
{
}

/// The catalogue agrees with the table definitions: the foreign key rules
/// are those of the definition, and a table that depends on an enumerated
/// type has a column of that type.
pub proof fn lemma_catalogue_matches_definitions(t: TableId)
    ensures
        foreign_keys(t) == table_spec(t).foreign_keys.map_values(|f: ForeignKeyView| f.rule),
        enum_type_of(t) matches Some(e) ==> exists|k: int|
            0 <= k < table_spec(t).columns.len() && #[trigger] table_spec(t).columns[k].ty
                == ColumnType::Enumeration(e),
{
    match t {
        TableId::User => {
            assert(foreign_keys(t) =~= table_spec(t).foreign_keys.map_values(|f: ForeignKeyView| f.rule));
        },
        TableId::AuthProvider => {
            assert(foreign_keys(t) =~= table_spec(t).foreign_keys.map_values(|f: ForeignKeyView| f.rule));
        },
        TableId::UserSuspension => {
            assert(foreign_keys(t) =~= table_spec(t).foreign_keys.map_values(|f: ForeignKeyView| f.rule));
        },
        TableId::Technology => {
            assert(foreign_keys(t) =~= table_spec(t).foreign_keys.map_values(|f: ForeignKeyView| f.rule));
            assert(table_spec(t).columns[3].ty == ColumnType::Enumeration(enum_type_of(t)->0));
        },
        TableId::RelatedTechnology => {
            assert(foreign_keys(t) =~= table_spec(t).foreign_keys.map_values(|f: ForeignKeyView| f.rule));
        },
        TableId::Project => {
            assert(foreign_keys(t) =~= table_spec(t).foreign_keys.map_values(|f: ForeignKeyView| f.rule));
            assert(table_spec(t).columns[4].ty == ColumnType::Enumeration(enum_type_of(t)->0));
        },
        TableId::ProjectTechnology => {
            assert(foreign_keys(t) =~= table_spec(t).foreign_keys.map_values(|f: ForeignKeyView| f.rule));
        },
        TableId::ProjectLink => {
            assert(foreign_keys(t) =~= table_spec(t).foreign_keys.map_values(|f: ForeignKeyView| f.rule));
            assert(table_spec(t).columns[3].ty == ColumnType::Enumeration(enum_type_of(t)->0));
        },
        TableId::ProjectImage => {
            assert(foreign_keys(t) =~= table_spec(t).foreign_keys.map_values(|f: ForeignKeyView| f.rule));
        },
        TableId::Summary => {
            assert(foreign_keys(t) =~= table_spec(t).foreign_keys.map_values(|f: ForeignKeyView| f.rule));
        },
        TableId::Experience => {
            assert(foreign_keys(t) =~= table_spec(t).foreign_keys.map_values(|f: ForeignKeyView| f.rule));
        },
        TableId::Education => {
            assert(foreign_keys(t) =~= table_spec(t).foreign_keys.map_values(|f: ForeignKeyView| f.rule));
        },
        TableId::Certificate => {
            assert(foreign_keys(t) =~= table_spec(t).foreign_keys.map_values(|f: ForeignKeyView| f.rule));
        },
        TableId::Skill => {
            assert(foreign_keys(t) =~= table_spec(t).foreign_keys.map_values(|f: ForeignKeyView| f.rule));
        },
        TableId::OpenSourceContribution => {
            assert(foreign_keys(t) =~= table_spec(t).foreign_keys.map_values(|f: ForeignKeyView| f.rule));
            assert(table_spec(t).columns[3].ty == ColumnType::Enumeration(enum_type_of(t)->0));
        },
        TableId::CommonTag => {
            assert(foreign_keys(t) =~= table_spec(t).foreign_keys.map_values(|f: ForeignKeyView| f.rule));
        },
        TableId::BlogPost => {
            assert(foreign_keys(t) =~= table_spec(t).foreign_keys.map_values(|f: ForeignKeyView| f.rule));
        },
        TableId::BlogPostTag => {
            assert(foreign_keys(t) =~= table_spec(t).foreign_keys.map_values(|f: ForeignKeyView| f.rule));
        },
        TableId::BlogPostImage => {
            assert(foreign_keys(t) =~= table_spec(t).foreign_keys.map_values(|f: ForeignKeyView| f.rule));
        },
        TableId::BlogPostTechnology => {
            assert(foreign_keys(t) =~= table_spec(t).foreign_keys.map_values(|f: ForeignKeyView| f.rule));
        },
        TableId::BlogSeries => {
            assert(foreign_keys(t) =~= table_spec(t).foreign_keys.map_values(|f: ForeignKeyView| f.rule));
        },
        TableId::BlogSeriesPost => {
            assert(foreign_keys(t) =~= table_spec(t).foreign_keys.map_values(|f: ForeignKeyView| f.rule));
        },
        TableId::BlogSeriesTechnology => {
            assert(foreign_keys(t) =~= table_spec(t).foreign_keys.map_values(|f: ForeignKeyView| f.rule));
        },
        TableId::BlogPostComment => {
            assert(foreign_keys(t) =~= table_spec(t).foreign_keys.map_values(|f: ForeignKeyView| f.rule));
        },
        TableId::BlogPostReaction => {
            assert(foreign_keys(t) =~= table_spec(t).foreign_keys.map_values(|f: ForeignKeyView| f.rule));
            assert(table_spec(t).columns[2].ty == ColumnType::Enumeration(enum_type_of(t)->0));
        },
        TableId::BlogPostCommentReaction => {
            assert(foreign_keys(t) =~= table_spec(t).foreign_keys.map_values(|f: ForeignKeyView| f.rule));
            assert(table_spec(t).columns[2].ty == ColumnType::Enumeration(enum_type_of(t)->0));
        },
    }
}

/// The full definition of a table.
pub fn table_def(t: TableId) -> (r: TableDef)
    ensures
        r@ == table_spec(t),
        r.table == t,
        r.rules() == foreign_keys(t),
{
    match t {
        TableId::User => crate::m20250908_030112_create_users::user_table(),
        TableId::AuthProvider => crate::m20250908_030112_create_users::auth_provider_table(),
        TableId::UserSuspension => crate::m20250908_030112_create_users::user_suspension_table(),
        TableId::Technology => crate::m20250909_050520_create_portfolio::technology_table(),
        TableId::RelatedTechnology => crate::m20250909_050520_create_portfolio::related_technology_table(),
        TableId::Project => crate::m20250909_050520_create_portfolio::project_table(),
        TableId::ProjectTechnology => crate::m20250909_050520_create_portfolio::project_technology_table(),
        TableId::ProjectLink => crate::m20250909_050520_create_portfolio::project_link_table(),
        TableId::ProjectImage => crate::m20250909_050520_create_portfolio::project_image_table(),
        TableId::Summary => crate::m20250911_185836_create_cv::summary_table(),
        TableId::Experience => crate::m20250911_185836_create_cv::experience_table(),
        TableId::Education => crate::m20250911_185836_create_cv::education_table(),
        TableId::Certificate => crate::m20250911_185836_create_cv::certificate_table(),
        TableId::Skill => crate::m20250911_185836_create_cv::skill_table(),
        TableId::OpenSourceContribution => crate::m20250911_185836_create_cv::open_source_contribution_table(),
        TableId::CommonTag => crate::m20250911_205500_create_blog::common_tag_table(),
        TableId::BlogPost => crate::m20250911_205500_create_blog::blog_post_table(),
        TableId::BlogPostTag => crate::m20250911_205500_create_blog::blog_post_tag_table(),
        TableId::BlogPostImage => crate::m20250911_205500_create_blog::blog_post_image_table(),
        TableId::BlogPostTechnology => crate::m20250911_205500_create_blog::blog_post_technology_table(),
        TableId::BlogSeries => crate::m20250911_205500_create_blog::blog_series_table(),
        TableId::BlogSeriesPost => crate::m20250911_205500_create_blog::blog_series_post_table(),
        TableId::BlogSeriesTechnology => crate::m20250911_205500_create_blog::blog_series_technology_table(),
        TableId::BlogPostComment => crate::m20250911_205500_create_blog::blog_post_comment_table(),
        TableId::BlogPostReaction => crate::m20250911_205500_create_blog::blog_post_reaction_table(),
        TableId::BlogPostCommentReaction => crate::m20250911_205500_create_blog::blog_post_comment_reaction_table(),
    }
}
} // verus!
