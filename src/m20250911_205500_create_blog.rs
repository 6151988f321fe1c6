use vstd::prelude::*;

use crate::schema::{
    id_column, optional, required, defaulted, rule, ForeignKeyView, KeyView, TableView,
    foreign_keys, ColumnDef, ColumnDefault, ColumnType, EnumType, ForeignKeyDef, ForeignKeyRule,
    IndexId, KeyDef, OnDelete, TableDef, TableId,
};
use crate::schema_state::{run, stopped_at, SchemaError, SchemaOp, SchemaState, SchemaView};

verus! {

broadcast use crate::schema_state::lemma_run_push;

/// The fourth migration: blog posts, tags, series, comments and reactions.
pub struct Migration;

/// The statements that apply this migration.
pub open spec fn up_script() -> Seq<SchemaOp> {
    Seq::empty()
        .push(SchemaOp::CreateType { ty: EnumType::BlogReactions, if_not_exists: true })
        .push(SchemaOp::CreateTable { table: TableId::CommonTag, if_not_exists: true })
        .push(SchemaOp::CreateIndex { index: IndexId::CommonTagNameUidx, if_not_exists: true })
        .push(SchemaOp::CreateTable { table: TableId::BlogPost, if_not_exists: true })
        .push(SchemaOp::CreateIndex { index: IndexId::BlogPostCreatedByIdx, if_not_exists: true })
        .push(SchemaOp::CreateIndex { index: IndexId::BlogPostPublishedAtIdx, if_not_exists: true })
        .push(SchemaOp::CreateIndex { index: IndexId::BlogPostIsPublishedIdx, if_not_exists: true })
        .push(SchemaOp::CreateTable { table: TableId::BlogPostTag, if_not_exists: true })
        .push(SchemaOp::CreateIndex { index: IndexId::BlogPostTagBlogPostIdIdx, if_not_exists: true })
        .push(SchemaOp::CreateIndex { index: IndexId::BlogPostTagCommonTagIdIdx, if_not_exists: true })
        .push(SchemaOp::CreateIndex { index: IndexId::BlogPostTagCreatedByIdx, if_not_exists: true })
        .push(SchemaOp::CreateTable { table: TableId::BlogPostImage, if_not_exists: true })
        .push(SchemaOp::CreateIndex { index: IndexId::BlogPostImageBlogPostIdIdx, if_not_exists: true })
        .push(SchemaOp::CreateIndex { index: IndexId::BlogPostImageCreatedByIdx, if_not_exists: true })
        .push(SchemaOp::CreateTable { table: TableId::BlogPostTechnology, if_not_exists: true })
        .push(SchemaOp::CreateTable { table: TableId::BlogSeries, if_not_exists: true })
        .push(SchemaOp::CreateIndex { index: IndexId::BlogSeriesCreatedByIdx, if_not_exists: true })
        .push(SchemaOp::CreateTable { table: TableId::BlogSeriesPost, if_not_exists: true })
        .push(SchemaOp::CreateTable { table: TableId::BlogSeriesTechnology, if_not_exists: true })
        .push(SchemaOp::CreateTable { table: TableId::BlogPostComment, if_not_exists: true })
        .push(SchemaOp::CreateIndex { index: IndexId::BlogPostCommentBlogPostIdIdx, if_not_exists: true })
        .push(SchemaOp::CreateIndex { index: IndexId::BlogPostCommentCreatedByIdx, if_not_exists: true })
        .push(SchemaOp::CreateIndex { index: IndexId::BlogPostCommentParentCommentIdIdx, if_not_exists: true })
        .push(SchemaOp::CreateTable { table: TableId::BlogPostReaction, if_not_exists: true })
        .push(SchemaOp::CreateTable { table: TableId::BlogPostCommentReaction, if_not_exists: true })
}

/// The statements that roll this migration back. The reaction tables go
/// first: they reference the posts and comments, which cannot be dropped
/// while a table still references them.
pub open spec fn down_script() -> Seq<SchemaOp> {
    Seq::empty()
        .push(SchemaOp::DropTable { table: TableId::BlogPostCommentReaction, if_exists: true })
        .push(SchemaOp::DropTable { table: TableId::BlogPostReaction, if_exists: true })
        .push(SchemaOp::DropTable { table: TableId::BlogPostComment, if_exists: true })
        .push(SchemaOp::DropTable { table: TableId::BlogSeriesTechnology, if_exists: true })
        .push(SchemaOp::DropTable { table: TableId::BlogSeriesPost, if_exists: true })
        .push(SchemaOp::DropTable { table: TableId::BlogSeries, if_exists: true })
        .push(SchemaOp::DropTable { table: TableId::BlogPostTechnology, if_exists: true })
        .push(SchemaOp::DropTable { table: TableId::BlogPostImage, if_exists: true })
        .push(SchemaOp::DropTable { table: TableId::BlogPostTag, if_exists: true })
        .push(SchemaOp::DropTable { table: TableId::BlogPost, if_exists: true })
        .push(SchemaOp::DropTable { table: TableId::CommonTag, if_exists: true })
        .push(SchemaOp::DropType { ty: EnumType::BlogReactions, if_exists: false })
}

/// None of the objects of this migration exists in `s`.
pub open spec fn absent_from(s: SchemaView) -> bool {
    &&& !s.tables.contains(TableId::CommonTag)
    &&& !s.tables.contains(TableId::BlogPost)
    &&& !s.tables.contains(TableId::BlogPostTag)
    &&& !s.tables.contains(TableId::BlogPostImage)
    &&& !s.tables.contains(TableId::BlogPostTechnology)
    &&& !s.tables.contains(TableId::BlogSeries)
    &&& !s.tables.contains(TableId::BlogSeriesPost)
    &&& !s.tables.contains(TableId::BlogSeriesTechnology)
    &&& !s.tables.contains(TableId::BlogPostComment)
    &&& !s.tables.contains(TableId::BlogPostReaction)
    &&& !s.tables.contains(TableId::BlogPostCommentReaction)
    &&& !s.types.contains(EnumType::BlogReactions)
    &&& !s.indexes.contains(IndexId::CommonTagNameUidx)
    &&& !s.indexes.contains(IndexId::BlogPostCreatedByIdx)
    &&& !s.indexes.contains(IndexId::BlogPostPublishedAtIdx)
    &&& !s.indexes.contains(IndexId::BlogPostIsPublishedIdx)
    &&& !s.indexes.contains(IndexId::BlogPostTagBlogPostIdIdx)
    &&& !s.indexes.contains(IndexId::BlogPostTagCommonTagIdIdx)
    &&& !s.indexes.contains(IndexId::BlogPostTagCreatedByIdx)
    &&& !s.indexes.contains(IndexId::BlogPostImageBlogPostIdIdx)
    &&& !s.indexes.contains(IndexId::BlogPostImageCreatedByIdx)
    &&& !s.indexes.contains(IndexId::BlogSeriesCreatedByIdx)
    &&& !s.indexes.contains(IndexId::BlogPostCommentBlogPostIdIdx)
    &&& !s.indexes.contains(IndexId::BlogPostCommentCreatedByIdx)
    &&& !s.indexes.contains(IndexId::BlogPostCommentParentCommentIdIdx)
}

/// All of the objects of this migration exist in `s`.
pub open spec fn present_in(s: SchemaView) -> bool {
    &&& s.tables.contains(TableId::CommonTag)
    &&& s.tables.contains(TableId::BlogPost)
    &&& s.tables.contains(TableId::BlogPostTag)
    &&& s.tables.contains(TableId::BlogPostImage)
    &&& s.tables.contains(TableId::BlogPostTechnology)
    &&& s.tables.contains(TableId::BlogSeries)
    &&& s.tables.contains(TableId::BlogSeriesPost)
    &&& s.tables.contains(TableId::BlogSeriesTechnology)
    &&& s.tables.contains(TableId::BlogPostComment)
    &&& s.tables.contains(TableId::BlogPostReaction)
    &&& s.tables.contains(TableId::BlogPostCommentReaction)
    &&& s.types.contains(EnumType::BlogReactions)
    &&& s.indexes.contains(IndexId::CommonTagNameUidx)
    &&& s.indexes.contains(IndexId::BlogPostCreatedByIdx)
    &&& s.indexes.contains(IndexId::BlogPostPublishedAtIdx)
    &&& s.indexes.contains(IndexId::BlogPostIsPublishedIdx)
    &&& s.indexes.contains(IndexId::BlogPostTagBlogPostIdIdx)
    &&& s.indexes.contains(IndexId::BlogPostTagCommonTagIdIdx)
    &&& s.indexes.contains(IndexId::BlogPostTagCreatedByIdx)
    &&& s.indexes.contains(IndexId::BlogPostImageBlogPostIdIdx)
    &&& s.indexes.contains(IndexId::BlogPostImageCreatedByIdx)
    &&& s.indexes.contains(IndexId::BlogSeriesCreatedByIdx)
    &&& s.indexes.contains(IndexId::BlogPostCommentBlogPostIdIdx)
    &&& s.indexes.contains(IndexId::BlogPostCommentCreatedByIdx)
    &&& s.indexes.contains(IndexId::BlogPostCommentParentCommentIdIdx)
}

/// The tables of earlier migrations that this one references.
pub open spec fn prerequisites_in(s: SchemaView) -> bool {
    &&& s.tables.contains(TableId::User)
    &&& s.tables.contains(TableId::Technology)
}

impl Migration {
    /// The migration's name, which records that it was applied.
    pub fn name(&self) -> (r: &'static str)
        ensures
            r@ == "m20250911_205500_create_blog"@,
    {
        "m20250911_205500_create_blog"
    }

    /// The statements that apply this migration.
    pub fn up_ops(&self) -> (r: Vec<SchemaOp>)
        ensures
            r@ == up_script(),
    {
        let r = vec![
            SchemaOp::CreateType { ty: EnumType::BlogReactions, if_not_exists: true },
            SchemaOp::CreateTable { table: TableId::CommonTag, if_not_exists: true },
            SchemaOp::CreateIndex { index: IndexId::CommonTagNameUidx, if_not_exists: true },
            SchemaOp::CreateTable { table: TableId::BlogPost, if_not_exists: true },
            SchemaOp::CreateIndex { index: IndexId::BlogPostCreatedByIdx, if_not_exists: true },
            SchemaOp::CreateIndex { index: IndexId::BlogPostPublishedAtIdx, if_not_exists: true },
            SchemaOp::CreateIndex { index: IndexId::BlogPostIsPublishedIdx, if_not_exists: true },
            SchemaOp::CreateTable { table: TableId::BlogPostTag, if_not_exists: true },
            SchemaOp::CreateIndex { index: IndexId::BlogPostTagBlogPostIdIdx, if_not_exists: true },
            SchemaOp::CreateIndex { index: IndexId::BlogPostTagCommonTagIdIdx, if_not_exists: true },
            SchemaOp::CreateIndex { index: IndexId::BlogPostTagCreatedByIdx, if_not_exists: true },
            SchemaOp::CreateTable { table: TableId::BlogPostImage, if_not_exists: true },
            SchemaOp::CreateIndex { index: IndexId::BlogPostImageBlogPostIdIdx, if_not_exists: true },
            SchemaOp::CreateIndex { index: IndexId::BlogPostImageCreatedByIdx, if_not_exists: true },
            SchemaOp::CreateTable { table: TableId::BlogPostTechnology, if_not_exists: true },
            SchemaOp::CreateTable { table: TableId::BlogSeries, if_not_exists: true },
            SchemaOp::CreateIndex { index: IndexId::BlogSeriesCreatedByIdx, if_not_exists: true },
            SchemaOp::CreateTable { table: TableId::BlogSeriesPost, if_not_exists: true },
            SchemaOp::CreateTable { table: TableId::BlogSeriesTechnology, if_not_exists: true },
            SchemaOp::CreateTable { table: TableId::BlogPostComment, if_not_exists: true },
            SchemaOp::CreateIndex { index: IndexId::BlogPostCommentBlogPostIdIdx, if_not_exists: true },
            SchemaOp::CreateIndex { index: IndexId::BlogPostCommentCreatedByIdx, if_not_exists: true },
            SchemaOp::CreateIndex { index: IndexId::BlogPostCommentParentCommentIdIdx, if_not_exists: true },
            SchemaOp::CreateTable { table: TableId::BlogPostReaction, if_not_exists: true },
            SchemaOp::CreateTable { table: TableId::BlogPostCommentReaction, if_not_exists: true },
        ];
        assert(r@ =~= up_script());
        r
    }

    /// The statements that roll this migration back.
    pub fn down_ops(&self) -> (r: Vec<SchemaOp>)
        ensures
            r@ == down_script(),
    {
        let r = vec![
            SchemaOp::DropTable { table: TableId::BlogPostCommentReaction, if_exists: true },
            SchemaOp::DropTable { table: TableId::BlogPostReaction, if_exists: true },
            SchemaOp::DropTable { table: TableId::BlogPostComment, if_exists: true },
            SchemaOp::DropTable { table: TableId::BlogSeriesTechnology, if_exists: true },
            SchemaOp::DropTable { table: TableId::BlogSeriesPost, if_exists: true },
            SchemaOp::DropTable { table: TableId::BlogSeries, if_exists: true },
            SchemaOp::DropTable { table: TableId::BlogPostTechnology, if_exists: true },
            SchemaOp::DropTable { table: TableId::BlogPostImage, if_exists: true },
            SchemaOp::DropTable { table: TableId::BlogPostTag, if_exists: true },
            SchemaOp::DropTable { table: TableId::BlogPost, if_exists: true },
            SchemaOp::DropTable { table: TableId::CommonTag, if_exists: true },
            SchemaOp::DropType { ty: EnumType::BlogReactions, if_exists: false },
        ];
        assert(r@ =~= down_script());
        r
    }

    /// Applies the migration to `schema`, stopping at the first refusal.
    pub fn up(&self, schema: &mut SchemaState) -> (r: Result<(), SchemaError>)
        ensures
            match run(old(schema)@, up_script()) {
                Ok(s1) => r is Ok && final(schema)@ == s1,
                Err(e) => r == Err::<(), SchemaError>(e) && stopped_at(
                    old(schema)@,
                    up_script(),
                    final(schema)@,
                    e,
                ),
            },
    {
        schema.run(&self.up_ops())
    }

    /// Rolls the migration back on `schema`, stopping at the first refusal.
    pub fn down(&self, schema: &mut SchemaState) -> (r: Result<(), SchemaError>)
        ensures
            match run(old(schema)@, down_script()) {
                Ok(s1) => r is Ok && final(schema)@ == s1,
                Err(e) => r == Err::<(), SchemaError>(e) && stopped_at(
                    old(schema)@,
                    down_script(),
                    final(schema)@,
                    e,
                ),
            },
    {
        schema.run(&self.down_ops())
    }
}

/// The schema right after this migration is applied to `s`.
pub open spec fn after_up(s: SchemaView) -> SchemaView {
    SchemaView {
        tables: s.tables
                .insert(TableId::CommonTag)
                .insert(TableId::BlogPost)
                .insert(TableId::BlogPostTag)
                .insert(TableId::BlogPostImage)
                .insert(TableId::BlogPostTechnology)
                .insert(TableId::BlogSeries)
                .insert(TableId::BlogSeriesPost)
                .insert(TableId::BlogSeriesTechnology)
                .insert(TableId::BlogPostComment)
                .insert(TableId::BlogPostReaction)
                .insert(TableId::BlogPostCommentReaction),
        types: s.types
                .insert(EnumType::BlogReactions),
        indexes: s.indexes
                .insert(IndexId::CommonTagNameUidx)
                .insert(IndexId::BlogPostCreatedByIdx)
                .insert(IndexId::BlogPostPublishedAtIdx)
                .insert(IndexId::BlogPostIsPublishedIdx)
                .insert(IndexId::BlogPostTagBlogPostIdIdx)
                .insert(IndexId::BlogPostTagCommonTagIdIdx)
                .insert(IndexId::BlogPostTagCreatedByIdx)
                .insert(IndexId::BlogPostImageBlogPostIdIdx)
                .insert(IndexId::BlogPostImageCreatedByIdx)
                .insert(IndexId::BlogSeriesCreatedByIdx)
                .insert(IndexId::BlogPostCommentBlogPostIdIdx)
                .insert(IndexId::BlogPostCommentCreatedByIdx)
                .insert(IndexId::BlogPostCommentParentCommentIdIdx),
    }
}

#[verifier::rlimit(60)]
proof fn lemma_up(s: SchemaView)
    requires
        s.wf(),
        prerequisites_in(s),
        absent_from(s),
    ensures
        run(s, up_script()) == Ok::<SchemaView, SchemaError>(after_up(s)),
{
    let s1 = run(s, up_script())->Ok_0;
    assert(s1.tables =~= after_up(s).tables);
    assert(s1.types =~= after_up(s).types);
    assert(s1.indexes =~= after_up(s).indexes);
}

#[verifier::rlimit(60)]
proof fn lemma_down(s: SchemaView)
    requires
        s.wf(),
        prerequisites_in(s),
        absent_from(s),
    ensures
        run(after_up(s), down_script()) == Ok::<SchemaView, SchemaError>(s),
{
    let s2 = run(after_up(s), down_script())->Ok_0;
    assert(s2.tables =~= s.tables);
    assert(s2.types =~= s.types);
    assert(s2.indexes =~= s.indexes);
}

/// Applying this migration to a schema that already holds all of its objects
/// succeeds and changes nothing: every statement creates only what is missing.
#[verifier::rlimit(40)]
pub proof fn lemma_up_idempotent(s: SchemaView)
    requires
        present_in(s),
    ensures
        run(s, up_script()) == Ok::<SchemaView, SchemaError>(s),
{
}

/// Applying this migration to a consistent schema that holds the tables it
/// builds on and none of its own objects succeeds and creates all of them;
/// rolling it back right after succeeds too and restores the schema exactly.
pub proof fn lemma_down_reverses_up(s: SchemaView)
    requires
        s.wf(),
        prerequisites_in(s),
        absent_from(s),
    ensures
        run(s, up_script()) == Ok::<SchemaView, SchemaError>(after_up(s)),
        after_up(s).wf(),
        present_in(after_up(s)),
        run(after_up(s), down_script()) == Ok::<SchemaView, SchemaError>(s),
{
    lemma_up(s);
    lemma_down(s);
}

/// The reactions to a post or a comment.
#[derive(Clone, Copy, Debug, PartialEq, Eq, Structural)]
pub enum BlogReactions {
    Hate,
    Dislike,
    Okay,
    Like,
    Love,
}

impl BlogReactions {
    /// The identifier in the database.
    pub open spec fn spec_name(self) -> Seq<char> {
        match self {
            BlogReactions::Hate => "hate"@,
            BlogReactions::Dislike => "dislike"@,
            BlogReactions::Okay => "ok"@,
            BlogReactions::Like => "like"@,
            BlogReactions::Love => "love"@,
        }
    }

    /// The identifier in the database.
    pub fn name(&self) -> (r: &'static str)
        ensures
            r@ == self.spec_name(),
    {
        match self {
            BlogReactions::Hate => "hate",
            BlogReactions::Dislike => "dislike",
            BlogReactions::Okay => "ok",
            BlogReactions::Like => "like",
            BlogReactions::Love => "love",
        }
    }

    /// Every value, in declaration order.
    pub fn all() -> (r: Vec<BlogReactions>)
        ensures
            r@ == seq![BlogReactions::Hate, BlogReactions::Dislike, BlogReactions::Okay, BlogReactions::Like, BlogReactions::Love],
    {
        let r = vec![BlogReactions::Hate, BlogReactions::Dislike, BlogReactions::Okay, BlogReactions::Like, BlogReactions::Love];
        assert(r@ =~= seq![BlogReactions::Hate, BlogReactions::Dislike, BlogReactions::Okay, BlogReactions::Like, BlogReactions::Love]);
        r
    }
}

/// The database type of [`BlogReactions`].
#[derive(Clone, Copy, Debug, PartialEq, Eq, Structural)]
pub struct BlogReactionsEnum;

impl BlogReactionsEnum {
    /// The type's name in the database.
    pub fn name(&self) -> (r: &'static str)
        ensures
            r@ == "blog_reactions_enum"@,
    {
        "blog_reactions_enum"
    }
}


/// The definition of the `common_tag` table.
pub open spec fn common_tag_table_spec() -> TableView {
    TableView {
        table: TableId::CommonTag,
        columns: seq![
            id_column(),
            required("name"@, ColumnType::Varchar(100)),
            required("created_at"@, ColumnType::Timestamp),
            required("updated_at"@, ColumnType::Timestamp),
        ],
        primary_key: None,
        foreign_keys: seq![],
        unique: None,
    }
}

/// The `common_tag` table.
pub fn common_tag_table() -> (r: TableDef)
    ensures
        r@ == common_tag_table_spec(),
        r.table == TableId::CommonTag,
        r.rules() == foreign_keys(TableId::CommonTag),
{
    let columns = vec![
        ColumnDef::id(),
        ColumnDef::required("name", ColumnType::Varchar(100)),
        ColumnDef::required("created_at", ColumnType::Timestamp),
        ColumnDef::required("updated_at", ColumnType::Timestamp),
    ];
    let keys = Vec::new();
    let r = TableDef {
        table: TableId::CommonTag,
        columns,
        primary_key: None,
        unique: None,
        foreign_keys: keys,
    };
    assert(r@.columns =~= common_tag_table_spec().columns);
    assert(r@.foreign_keys =~= common_tag_table_spec().foreign_keys);
    assert(r.rules() =~= foreign_keys(TableId::CommonTag));
    r
}

/// The definition of the `blog_post` table.
pub open spec fn blog_post_table_spec() -> TableView {
    TableView {
        table: TableId::BlogPost,
        columns: seq![
            id_column(),
            required("title"@, ColumnType::Varchar(200)),
            required("content"@, ColumnType::Text),
            required("created_by_id"@, ColumnType::Integer),
            optional("cover_image_url"@, ColumnType::Varchar(500)),
            optional("first_published_at"@, ColumnType::Timestamp),
            optional("published_at"@, ColumnType::Timestamp),
            defaulted("is_published"@, ColumnType::Boolean, ColumnDefault::Boolean(false)),
            defaulted("is_featured"@, ColumnType::Boolean, ColumnDefault::Boolean(false)),
            required("created_at"@, ColumnType::Timestamp),
            required("updated_at"@, ColumnType::Timestamp),
        ],
        primary_key: None,
        foreign_keys: seq![
            ForeignKeyView {
                name: "blog_post_created_by_fk"@,
                column: "created_by_id"@,
                rule: rule(TableId::User, OnDelete::Cascade),
            },
        ],
        unique: None,
    }
}

/// The `blog_post` table.
pub fn blog_post_table() -> (r: TableDef)
    ensures
        r@ == blog_post_table_spec(),
        r.table == TableId::BlogPost,
        r.rules() == foreign_keys(TableId::BlogPost),
{
    let columns = vec![
        ColumnDef::id(),
        ColumnDef::required("title", ColumnType::Varchar(200)),
        ColumnDef::required("content", ColumnType::Text),
        ColumnDef::required("created_by_id", ColumnType::Integer),
        ColumnDef::optional("cover_image_url", ColumnType::Varchar(500)),
        ColumnDef::optional("first_published_at", ColumnType::Timestamp),
        ColumnDef::optional("published_at", ColumnType::Timestamp),
        ColumnDef::defaulted("is_published", ColumnType::Boolean, ColumnDefault::Boolean(false)),
        ColumnDef::defaulted("is_featured", ColumnType::Boolean, ColumnDefault::Boolean(false)),
        ColumnDef::required("created_at", ColumnType::Timestamp),
        ColumnDef::required("updated_at", ColumnType::Timestamp),
    ];
    let keys = vec![
        ForeignKeyDef {
            name: "blog_post_created_by_fk",
            column: "created_by_id",
            rule: ForeignKeyRule { target: TableId::User, on_delete: OnDelete::Cascade },
        },
    ];
    let r = TableDef {
        table: TableId::BlogPost,
        columns,
        primary_key: None,
        unique: None,
        foreign_keys: keys,
    };
    assert(r@.columns =~= blog_post_table_spec().columns);
    assert(r@.foreign_keys =~= blog_post_table_spec().foreign_keys);
    assert(r.rules() =~= foreign_keys(TableId::BlogPost));
    r
}

/// The definition of the `blog_post_tag` table.
pub open spec fn blog_post_tag_table_spec() -> TableView {
    TableView {
        table: TableId::BlogPostTag,
        columns: seq![
            id_column(),
            required("blog_post_id"@, ColumnType::Integer),
            required("tag"@, ColumnType::Varchar(100)),
            optional("common_tag_id"@, ColumnType::Integer),
            required("created_by_id"@, ColumnType::Integer),
            required("created_at"@, ColumnType::Timestamp),
            required("updated_at"@, ColumnType::Timestamp),
        ],
        primary_key: None,
        foreign_keys: seq![
            ForeignKeyView {
                name: "blog_post_tag_blog_post_id_fk"@,
                column: "blog_post_id"@,
                rule: rule(TableId::BlogPost, OnDelete::Cascade),
            },
            ForeignKeyView {
                name: "blog_post_tag_common_tag_id_fk"@,
                column: "common_tag_id"@,
                rule: rule(TableId::CommonTag, OnDelete::SetNull),
            },
            ForeignKeyView {
                name: "blog_post_tag_created_by_fk"@,
                column: "created_by_id"@,
                rule: rule(TableId::User, OnDelete::Cascade),
            },
        ],
        unique: None,
    }
}

/// The `blog_post_tag` table.
pub fn blog_post_tag_table() -> (r: TableDef)
    ensures
        r@ == blog_post_tag_table_spec(),
        r.table == TableId::BlogPostTag,
        r.rules() == foreign_keys(TableId::BlogPostTag),
{
    let columns = vec![
        ColumnDef::id(),
        ColumnDef::required("blog_post_id", ColumnType::Integer),
        ColumnDef::required("tag", ColumnType::Varchar(100)),
        ColumnDef::optional("common_tag_id", ColumnType::Integer),
        ColumnDef::required("created_by_id", ColumnType::Integer),
        ColumnDef::required("created_at", ColumnType::Timestamp),
        ColumnDef::required("updated_at", ColumnType::Timestamp),
    ];
    let keys = vec![
        ForeignKeyDef {
            name: "blog_post_tag_blog_post_id_fk",
            column: "blog_post_id",
            rule: ForeignKeyRule { target: TableId::BlogPost, on_delete: OnDelete::Cascade },
        },
        ForeignKeyDef {
            name: "blog_post_tag_common_tag_id_fk",
            column: "common_tag_id",
            rule: ForeignKeyRule { target: TableId::CommonTag, on_delete: OnDelete::SetNull },
        },
        ForeignKeyDef {
            name: "blog_post_tag_created_by_fk",
            column: "created_by_id",
            rule: ForeignKeyRule { target: TableId::User, on_delete: OnDelete::Cascade },
        },
    ];
    let r = TableDef {
        table: TableId::BlogPostTag,
        columns,
        primary_key: None,
        unique: None,
        foreign_keys: keys,
    };
    assert(r@.columns =~= blog_post_tag_table_spec().columns);
    assert(r@.foreign_keys =~= blog_post_tag_table_spec().foreign_keys);
    assert(r.rules() =~= foreign_keys(TableId::BlogPostTag));
    r
}

/// The definition of the `blog_post_image` table.
pub open spec fn blog_post_image_table_spec() -> TableView {
    TableView {
        table: TableId::BlogPostImage,
        columns: seq![
            id_column(),
            required("blog_post_id"@, ColumnType::Integer),
            required("image_url"@, ColumnType::Varchar(500)),
            required("created_by_id"@, ColumnType::Integer),
            required("created_at"@, ColumnType::Timestamp),
            required("updated_at"@, ColumnType::Timestamp),
        ],
        primary_key: None,
        foreign_keys: seq![
            ForeignKeyView {
                name: "blog_post_image_blog_post_id_fk"@,
                column: "blog_post_id"@,
                rule: rule(TableId::BlogPost, OnDelete::Cascade),
            },
            ForeignKeyView {
                name: "blog_post_image_created_by_fk"@,
                column: "created_by_id"@,
                rule: rule(TableId::User, OnDelete::Cascade),
            },
        ],
        unique: None,
    }
}

/// The `blog_post_image` table.
pub fn blog_post_image_table() -> (r: TableDef)
    ensures
        r@ == blog_post_image_table_spec(),
        r.table == TableId::BlogPostImage,
        r.rules() == foreign_keys(TableId::BlogPostImage),
{
    let columns = vec![
        ColumnDef::id(),
        ColumnDef::required("blog_post_id", ColumnType::Integer),
        ColumnDef::required("image_url", ColumnType::Varchar(500)),
        ColumnDef::required("created_by_id", ColumnType::Integer),
        ColumnDef::required("created_at", ColumnType::Timestamp),
        ColumnDef::required("updated_at", ColumnType::Timestamp),
    ];
    let keys = vec![
        ForeignKeyDef {
            name: "blog_post_image_blog_post_id_fk",
            column: "blog_post_id",
            rule: ForeignKeyRule { target: TableId::BlogPost, on_delete: OnDelete::Cascade },
        },
        ForeignKeyDef {
            name: "blog_post_image_created_by_fk",
            column: "created_by_id",
            rule: ForeignKeyRule { target: TableId::User, on_delete: OnDelete::Cascade },
        },
    ];
    let r = TableDef {
        table: TableId::BlogPostImage,
        columns,
        primary_key: None,
        unique: None,
        foreign_keys: keys,
    };
    assert(r@.columns =~= blog_post_image_table_spec().columns);
    assert(r@.foreign_keys =~= blog_post_image_table_spec().foreign_keys);
    assert(r.rules() =~= foreign_keys(TableId::BlogPostImage));
    r
}

/// The definition of the `blog_post_technology` table.
pub open spec fn blog_post_technology_table_spec() -> TableView {
    TableView {
        table: TableId::BlogPostTechnology,
        columns: seq![
            required("blog_post_id"@, ColumnType::Integer),
            required("technology_id"@, ColumnType::Integer),
            required("created_at"@, ColumnType::Timestamp),
        ],
        primary_key: Some(KeyView { name: "blog_post_technology_pk"@, columns: seq!["blog_post_id"@, "technology_id"@] }),
        foreign_keys: seq![
            ForeignKeyView {
                name: "blog_post_technology_blog_post_id_fk"@,
                column: "blog_post_id"@,
                rule: rule(TableId::BlogPost, OnDelete::Cascade),
            },
            ForeignKeyView {
                name: "blog_post_technology_technology_id_fk"@,
                column: "technology_id"@,
                rule: rule(TableId::Technology, OnDelete::Cascade),
            },
        ],
        unique: None,
    }
}

/// The `blog_post_technology` table.
pub fn blog_post_technology_table() -> (r: TableDef)
    ensures
        r@ == blog_post_technology_table_spec(),
        r.table == TableId::BlogPostTechnology,
        r.rules() == foreign_keys(TableId::BlogPostTechnology),
{
    let columns = vec![
        ColumnDef::required("blog_post_id", ColumnType::Integer),
        ColumnDef::required("technology_id", ColumnType::Integer),
        ColumnDef::required("created_at", ColumnType::Timestamp),
    ];
    let keys = vec![
        ForeignKeyDef {
            name: "blog_post_technology_blog_post_id_fk",
            column: "blog_post_id",
            rule: ForeignKeyRule { target: TableId::BlogPost, on_delete: OnDelete::Cascade },
        },
        ForeignKeyDef {
            name: "blog_post_technology_technology_id_fk",
            column: "technology_id",
            rule: ForeignKeyRule { target: TableId::Technology, on_delete: OnDelete::Cascade },
        },
    ];
    let r = TableDef {
        table: TableId::BlogPostTechnology,
        columns,
        primary_key: Some(KeyDef { name: "blog_post_technology_pk", columns: vec!["blog_post_id", "technology_id"] }),
        unique: None,
        foreign_keys: keys,
    };
    assert(r@.columns =~= blog_post_technology_table_spec().columns);
    assert(r@.foreign_keys =~= blog_post_technology_table_spec().foreign_keys);
    assert(r@.primary_key->0.columns =~= blog_post_technology_table_spec().primary_key->0.columns);
    assert(r.rules() =~= foreign_keys(TableId::BlogPostTechnology));
    r
}

/// The definition of the `blog_series` table.
pub open spec fn blog_series_table_spec() -> TableView {
    TableView {
        table: TableId::BlogSeries,
        columns: seq![
            id_column(),
            required("title"@, ColumnType::Varchar(200)),
            optional("subtitle"@, ColumnType::Varchar(300)),
            optional("cover_image_url"@, ColumnType::Varchar(500)),
            required("created_by_id"@, ColumnType::Integer),
            required("created_at"@, ColumnType::Timestamp),
            required("updated_at"@, ColumnType::Timestamp),
        ],
        primary_key: None,
        foreign_keys: seq![
            ForeignKeyView {
                name: "blog_series_created_by_fk"@,
                column: "created_by_id"@,
                rule: rule(TableId::User, OnDelete::Cascade),
            },
        ],
        unique: None,
    }
}

/// The `blog_series` table.
pub fn blog_series_table() -> (r: TableDef)
    ensures
        r@ == blog_series_table_spec(),
        r.table == TableId::BlogSeries,
        r.rules() == foreign_keys(TableId::BlogSeries),
{
    let columns = vec![
        ColumnDef::id(),
        ColumnDef::required("title", ColumnType::Varchar(200)),
        ColumnDef::optional("subtitle", ColumnType::Varchar(300)),
        ColumnDef::optional("cover_image_url", ColumnType::Varchar(500)),
        ColumnDef::required("created_by_id", ColumnType::Integer),
        ColumnDef::required("created_at", ColumnType::Timestamp),
        ColumnDef::required("updated_at", ColumnType::Timestamp),
    ];
    let keys = vec![
        ForeignKeyDef {
            name: "blog_series_created_by_fk",
            column: "created_by_id",
            rule: ForeignKeyRule { target: TableId::User, on_delete: OnDelete::Cascade },
        },
    ];
    let r = TableDef {
        table: TableId::BlogSeries,
        columns,
        primary_key: None,
        unique: None,
        foreign_keys: keys,
    };
    assert(r@.columns =~= blog_series_table_spec().columns);
    assert(r@.foreign_keys =~= blog_series_table_spec().foreign_keys);
    assert(r.rules() =~= foreign_keys(TableId::BlogSeries));
    r
}

/// The definition of the `blog_series_post` table.
pub open spec fn blog_series_post_table_spec() -> TableView {
    TableView {
        table: TableId::BlogSeriesPost,
        columns: seq![
            required("blog_series_id"@, ColumnType::Integer),
            required("blog_post_id"@, ColumnType::Integer),
            required("created_at"@, ColumnType::Timestamp),
        ],
        primary_key: Some(KeyView { name: "blog_series_post_pk"@, columns: seq!["blog_series_id"@, "blog_post_id"@] }),
        foreign_keys: seq![
            ForeignKeyView {
                name: "blog_series_post_blog_series_id_fk"@,
                column: "blog_series_id"@,
                rule: rule(TableId::BlogSeries, OnDelete::Cascade),
            },
            ForeignKeyView {
                name: "blog_series_post_blog_post_id_fk"@,
                column: "blog_post_id"@,
                rule: rule(TableId::BlogPost, OnDelete::Cascade),
            },
        ],
        unique: None,
    }
}

/// The `blog_series_post` table.
pub fn blog_series_post_table() -> (r: TableDef)
    ensures
        r@ == blog_series_post_table_spec(),
        r.table == TableId::BlogSeriesPost,
        r.rules() == foreign_keys(TableId::BlogSeriesPost),
{
    let columns = vec![
        ColumnDef::required("blog_series_id", ColumnType::Integer),
        ColumnDef::required("blog_post_id", ColumnType::Integer),
        ColumnDef::required("created_at", ColumnType::Timestamp),
    ];
    let keys = vec![
        ForeignKeyDef {
            name: "blog_series_post_blog_series_id_fk",
            column: "blog_series_id",
            rule: ForeignKeyRule { target: TableId::BlogSeries, on_delete: OnDelete::Cascade },
        },
        ForeignKeyDef {
            name: "blog_series_post_blog_post_id_fk",
            column: "blog_post_id",
            rule: ForeignKeyRule { target: TableId::BlogPost, on_delete: OnDelete::Cascade },
        },
    ];
    let r = TableDef {
        table: TableId::BlogSeriesPost,
        columns,
        primary_key: Some(KeyDef { name: "blog_series_post_pk", columns: vec!["blog_series_id", "blog_post_id"] }),
        unique: None,
        foreign_keys: keys,
    };
    assert(r@.columns =~= blog_series_post_table_spec().columns);
    assert(r@.foreign_keys =~= blog_series_post_table_spec().foreign_keys);
    assert(r@.primary_key->0.columns =~= blog_series_post_table_spec().primary_key->0.columns);
    assert(r.rules() =~= foreign_keys(TableId::BlogSeriesPost));
    r
}

/// The definition of the `blog_series_technology` table.
pub open spec fn blog_series_technology_table_spec() -> TableView {
    TableView {
        table: TableId::BlogSeriesTechnology,
        columns: seq![
            required("blog_series_id"@, ColumnType::Integer),
            required("technology_id"@, ColumnType::Integer),
            required("created_at"@, ColumnType::Timestamp),
        ],
        primary_key: Some(KeyView { name: "blog_series_technology_pk"@, columns: seq!["blog_series_id"@, "technology_id"@] }),
        foreign_keys: seq![
            ForeignKeyView {
                name: "blog_series_technology_blog_series_id_fk"@,
                column: "blog_series_id"@,
                rule: rule(TableId::BlogSeries, OnDelete::Cascade),
            },
            ForeignKeyView {
                name: "blog_series_technology_technology_id_fk"@,
                column: "technology_id"@,
                rule: rule(TableId::Technology, OnDelete::Cascade),
            },
        ],
        unique: None,
    }
}

/// The `blog_series_technology` table.
pub fn blog_series_technology_table() -> (r: TableDef)
    ensures
        r@ == blog_series_technology_table_spec(),
        r.table == TableId::BlogSeriesTechnology,
        r.rules() == foreign_keys(TableId::BlogSeriesTechnology),
{
    let columns = vec![
        ColumnDef::required("blog_series_id", ColumnType::Integer),
        ColumnDef::required("technology_id", ColumnType::Integer),
        ColumnDef::required("created_at", ColumnType::Timestamp),
    ];
    let keys = vec![
        ForeignKeyDef {
            name: "blog_series_technology_blog_series_id_fk",
            column: "blog_series_id",
            rule: ForeignKeyRule { target: TableId::BlogSeries, on_delete: OnDelete::Cascade },
        },
        ForeignKeyDef {
            name: "blog_series_technology_technology_id_fk",
            column: "technology_id",
            rule: ForeignKeyRule { target: TableId::Technology, on_delete: OnDelete::Cascade },
        },
    ];
    let r = TableDef {
        table: TableId::BlogSeriesTechnology,
        columns,
        primary_key: Some(KeyDef { name: "blog_series_technology_pk", columns: vec!["blog_series_id", "technology_id"] }),
        unique: None,
        foreign_keys: keys,
    };
    assert(r@.columns =~= blog_series_technology_table_spec().columns);
    assert(r@.foreign_keys =~= blog_series_technology_table_spec().foreign_keys);
    assert(r@.primary_key->0.columns =~= blog_series_technology_table_spec().primary_key->0.columns);
    assert(r.rules() =~= foreign_keys(TableId::BlogSeriesTechnology));
    r
}

/// The definition of the `blog_post_comment` table.
pub open spec fn blog_post_comment_table_spec() -> TableView {
    TableView {
        table: TableId::BlogPostComment,
        columns: seq![
            id_column(),
            required("blog_post_id"@, ColumnType::Integer),
            required("comment"@, ColumnType::Text),
            defaulted("is_hidden"@, ColumnType::Boolean, ColumnDefault::Boolean(false)),
            required("created_by_id"@, ColumnType::Integer),
            optional("parent_comment_id"@, ColumnType::Integer),
            optional("image_url"@, ColumnType::Varchar(500)),
            required("created_at"@, ColumnType::Timestamp),
            required("updated_at"@, ColumnType::Timestamp),
        ],
        primary_key: None,
        foreign_keys: seq![
            ForeignKeyView {
                name: "blog_post_comment_blog_post_id_fk"@,
                column: "blog_post_id"@,
                rule: rule(TableId::BlogPost, OnDelete::Cascade),
            },
            ForeignKeyView {
                name: "blog_post_comment_created_by_fk"@,
                column: "created_by_id"@,
                rule: rule(TableId::User, OnDelete::Cascade),
            },
            ForeignKeyView {
                name: "blog_post_comment_parent_comment_id_fk"@,
                column: "parent_comment_id"@,
                rule: rule(TableId::BlogPostComment, OnDelete::SetNull),
            },
        ],
        unique: None,
    }
}

/// The `blog_post_comment` table.
pub fn blog_post_comment_table() -> (r: TableDef)
    ensures
        r@ == blog_post_comment_table_spec(),
        r.table == TableId::BlogPostComment,
        r.rules() == foreign_keys(TableId::BlogPostComment),
{
    let columns = vec![
        ColumnDef::id(),
        ColumnDef::required("blog_post_id", ColumnType::Integer),
        ColumnDef::required("comment", ColumnType::Text),
        ColumnDef::defaulted("is_hidden", ColumnType::Boolean, ColumnDefault::Boolean(false)),
        ColumnDef::required("created_by_id", ColumnType::Integer),
        ColumnDef::optional("parent_comment_id", ColumnType::Integer),
        ColumnDef::optional("image_url", ColumnType::Varchar(500)),
        ColumnDef::required("created_at", ColumnType::Timestamp),
        ColumnDef::required("updated_at", ColumnType::Timestamp),
    ];
    let keys = vec![
        ForeignKeyDef {
            name: "blog_post_comment_blog_post_id_fk",
            column: "blog_post_id",
            rule: ForeignKeyRule { target: TableId::BlogPost, on_delete: OnDelete::Cascade },
        },
        ForeignKeyDef {
            name: "blog_post_comment_created_by_fk",
            column: "created_by_id",
            rule: ForeignKeyRule { target: TableId::User, on_delete: OnDelete::Cascade },
        },
        ForeignKeyDef {
            name: "blog_post_comment_parent_comment_id_fk",
            column: "parent_comment_id",
            rule: ForeignKeyRule { target: TableId::BlogPostComment, on_delete: OnDelete::SetNull },
        },
    ];
    let r = TableDef {
        table: TableId::BlogPostComment,
        columns,
        primary_key: None,
        unique: None,
        foreign_keys: keys,
    };
    assert(r@.columns =~= blog_post_comment_table_spec().columns);
    assert(r@.foreign_keys =~= blog_post_comment_table_spec().foreign_keys);
    assert(r.rules() =~= foreign_keys(TableId::BlogPostComment));
    r
}

/// The definition of the `blog_post_reaction` table.
pub open spec fn blog_post_reaction_table_spec() -> TableView {
    TableView {
        table: TableId::BlogPostReaction,
        columns: seq![
            required("blog_post_id"@, ColumnType::Integer),
            required("created_by_id"@, ColumnType::Integer),
            required("reaction"@, ColumnType::Enumeration(EnumType::BlogReactions)),
            required("created_at"@, ColumnType::Timestamp),
        ],
        primary_key: Some(KeyView { name: "blog_post_reaction_pk"@, columns: seq!["blog_post_id"@, "created_by_id"@] }),
        foreign_keys: seq![
            ForeignKeyView {
                name: "blog_post_reaction_blog_post_id_fk"@,
                column: "blog_post_id"@,
                rule: rule(TableId::BlogPost, OnDelete::Cascade),
            },
            ForeignKeyView {
                name: "blog_post_reaction_created_by_fk"@,
                column: "created_by_id"@,
                rule: rule(TableId::User, OnDelete::Cascade),
            },
        ],
        unique: None,
    }
}

/// The `blog_post_reaction` table.
pub fn blog_post_reaction_table() -> (r: TableDef)
    ensures
        r@ == blog_post_reaction_table_spec(),
        r.table == TableId::BlogPostReaction,
        r.rules() == foreign_keys(TableId::BlogPostReaction),
{
    let columns = vec![
        ColumnDef::required("blog_post_id", ColumnType::Integer),
        ColumnDef::required("created_by_id", ColumnType::Integer),
        ColumnDef::required("reaction", ColumnType::Enumeration(EnumType::BlogReactions)),
        ColumnDef::required("created_at", ColumnType::Timestamp),
    ];
    let keys = vec![
        ForeignKeyDef {
            name: "blog_post_reaction_blog_post_id_fk",
            column: "blog_post_id",
            rule: ForeignKeyRule { target: TableId::BlogPost, on_delete: OnDelete::Cascade },
        },
        ForeignKeyDef {
            name: "blog_post_reaction_created_by_fk",
            column: "created_by_id",
            rule: ForeignKeyRule { target: TableId::User, on_delete: OnDelete::Cascade },
        },
    ];
    let r = TableDef {
        table: TableId::BlogPostReaction,
        columns,
        primary_key: Some(KeyDef { name: "blog_post_reaction_pk", columns: vec!["blog_post_id", "created_by_id"] }),
        unique: None,
        foreign_keys: keys,
    };
    assert(r@.columns =~= blog_post_reaction_table_spec().columns);
    assert(r@.foreign_keys =~= blog_post_reaction_table_spec().foreign_keys);
    assert(r@.primary_key->0.columns =~= blog_post_reaction_table_spec().primary_key->0.columns);
    assert(r.rules() =~= foreign_keys(TableId::BlogPostReaction));
    r
}

/// The definition of the `blog_post_comment_reaction` table.
pub open spec fn blog_post_comment_reaction_table_spec() -> TableView {
    TableView {
        table: TableId::BlogPostCommentReaction,
        columns: seq![
            required("blog_post_comment_id"@, ColumnType::Integer),
            required("created_by_id"@, ColumnType::Integer),
            required("reaction"@, ColumnType::Enumeration(EnumType::BlogReactions)),
            required("created_at"@, ColumnType::Timestamp),
        ],
        primary_key: Some(KeyView { name: "blog_post_comment_reaction_pk"@, columns: seq!["blog_post_comment_id"@, "created_by_id"@] }),
        foreign_keys: seq![
            ForeignKeyView {
                name: "blog_post_comment_reaction_blog_post_comment_id_fk"@,
                column: "blog_post_comment_id"@,
                rule: rule(TableId::BlogPostComment, OnDelete::Cascade),
            },
            ForeignKeyView {
                name: "blog_post_comment_reaction_created_by_fk"@,
                column: "created_by_id"@,
                rule: rule(TableId::User, OnDelete::Cascade),
            },
        ],
        unique: None,
    }
}

/// The `blog_post_comment_reaction` table.
pub fn blog_post_comment_reaction_table() -> (r: TableDef)
    ensures
        r@ == blog_post_comment_reaction_table_spec(),
        r.table == TableId::BlogPostCommentReaction,
        r.rules() == foreign_keys(TableId::BlogPostCommentReaction),
{
    let columns = vec![
        ColumnDef::required("blog_post_comment_id", ColumnType::Integer),
        ColumnDef::required("created_by_id", ColumnType::Integer),
        ColumnDef::required("reaction", ColumnType::Enumeration(EnumType::BlogReactions)),
        ColumnDef::required("created_at", ColumnType::Timestamp),
    ];
    let keys = vec![
        ForeignKeyDef {
            name: "blog_post_comment_reaction_blog_post_comment_id_fk",
            column: "blog_post_comment_id",
            rule: ForeignKeyRule { target: TableId::BlogPostComment, on_delete: OnDelete::Cascade },
        },
        ForeignKeyDef {
            name: "blog_post_comment_reaction_created_by_fk",
            column: "created_by_id",
            rule: ForeignKeyRule { target: TableId::User, on_delete: OnDelete::Cascade },
        },
    ];
    let r = TableDef {
        table: TableId::BlogPostCommentReaction,
        columns,
        primary_key: Some(KeyDef { name: "blog_post_comment_reaction_pk", columns: vec!["blog_post_comment_id", "created_by_id"] }),
        unique: None,
        foreign_keys: keys,
    };
    assert(r@.columns =~= blog_post_comment_reaction_table_spec().columns);
    assert(r@.foreign_keys =~= blog_post_comment_reaction_table_spec().foreign_keys);
    assert(r@.primary_key->0.columns =~= blog_post_comment_reaction_table_spec().primary_key->0.columns);
    assert(r.rules() =~= foreign_keys(TableId::BlogPostCommentReaction));
    r
}

} // verus!
