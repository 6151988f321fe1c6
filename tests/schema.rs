use tugascript::m20250908_030112_create_users as users;
use tugascript::m20250909_050520_create_portfolio as portfolio;
use tugascript::m20250911_185836_create_cv as cv;
use tugascript::m20250911_205500_create_blog as blog;
use tugascript::migrator::{Migrator, Revision};
use tugascript::schema::{
    foreign_key_rules, index_def, table_def, ColumnDefault, ColumnType, EnumType,
    ForeignKeyRule, IndexId, OnDelete, TableId,
};
use tugascript::integrity::unique_key_of;
use tugascript::schema_state::{SchemaError, SchemaOp, SchemaState};

fn all_tables() -> Vec<TableId> {
    vec![
        TableId::User,
        TableId::AuthProvider,
        TableId::UserSuspension,
        TableId::Technology,
        TableId::RelatedTechnology,
        TableId::Project,
        TableId::ProjectTechnology,
        TableId::ProjectLink,
        TableId::ProjectImage,
        TableId::Summary,
        TableId::Experience,
        TableId::Education,
        TableId::Certificate,
        TableId::Skill,
        TableId::OpenSourceContribution,
        TableId::CommonTag,
        TableId::BlogPost,
        TableId::BlogPostTag,
        TableId::BlogPostImage,
        TableId::BlogPostTechnology,
        TableId::BlogSeries,
        TableId::BlogSeriesPost,
        TableId::BlogSeriesTechnology,
        TableId::BlogPostComment,
        TableId::BlogPostReaction,
        TableId::BlogPostCommentReaction,
    ]
}

fn all_indexes() -> Vec<IndexId> {
    vec![
        IndexId::AuthProviderNameUserIdUidx,
        IndexId::AuthProviderUserIdIdx,
        IndexId::ProjectImageProjectIdIdx,
        IndexId::ProjectImageCreatedByIdx,
        IndexId::SummaryCreatedByIdx,
        IndexId::ExperienceCreatedByIdx,
        IndexId::EducationCreatedByIdx,
        IndexId::CertificateCreatedByIdx,
        IndexId::SkillCreatedByIdx,
        IndexId::SkillTechnologyIdIdx,
        IndexId::OpenSourceContributionCreatedByIdx,
        IndexId::CommonTagNameUidx,
        IndexId::BlogPostCreatedByIdx,
        IndexId::BlogPostPublishedAtIdx,
        IndexId::BlogPostIsPublishedIdx,
        IndexId::BlogPostTagBlogPostIdIdx,
        IndexId::BlogPostTagCommonTagIdIdx,
        IndexId::BlogPostTagCreatedByIdx,
        IndexId::BlogPostImageBlogPostIdIdx,
        IndexId::BlogPostImageCreatedByIdx,
        IndexId::BlogSeriesCreatedByIdx,
        IndexId::BlogPostCommentBlogPostIdIdx,
        IndexId::BlogPostCommentCreatedByIdx,
        IndexId::BlogPostCommentParentCommentIdIdx,
    ]
}

fn all_types() -> Vec<EnumType> {
    vec![
        EnumType::TechnologyType,
        EnumType::ProjectStatus,
        EnumType::ProjectLinkType,
        EnumType::CodeSource,
        EnumType::BlogReactions,
    ]
}

/// What exists, as three lists of flags.
fn snapshot(s: &SchemaState) -> (Vec<bool>, Vec<bool>, Vec<bool>) {
    (
        all_tables().into_iter().map(|t| s.has_table(t)).collect(),
        all_types().into_iter().map(|e| s.has_type(e)).collect(),
        all_indexes().into_iter().map(|i| s.has_index(i)).collect(),
    )
}

fn is_empty(s: &SchemaState) -> bool {
    let (t, e, i) = snapshot(s);
    t.iter().chain(e.iter()).chain(i.iter()).all(|b| !b)
}

#[test]
fn each_migration_down_reverses_up() {
    let mut s = SchemaState::new();
    for rev in Migrator::migrations() {
        let before = snapshot(&s);
        s.run(&rev.up_ops()).unwrap();
        let after_up = snapshot(&s);
        assert_ne!(before, after_up);
        s.run(&rev.down_ops()).unwrap();
        assert_eq!(snapshot(&s), before);
        s.run(&rev.up_ops()).unwrap();
        assert_eq!(snapshot(&s), after_up);
    }
}

#[test]
fn all_migrations_then_rollback_leave_nothing() {
    let mut s = SchemaState::new();
    Migrator::up(&mut s).unwrap();
    for t in all_tables() {
        assert!(s.has_table(t));
    }
    for e in all_types() {
        assert!(s.has_type(e));
    }
    for i in all_indexes() {
        assert!(s.has_index(i));
    }
    Migrator::down(&mut s).unwrap();
    assert!(is_empty(&s));
}

#[test]
fn migrations_listed_oldest_first() {
    let names: Vec<&str> = Migrator::migrations().iter().map(|m| m.name()).collect();
    assert_eq!(
        names,
        vec![
            "m20250908_030112_create_users",
            "m20250909_050520_create_portfolio",
            "m20250911_185836_create_cv",
            "m20250911_205500_create_blog",
        ]
    );
    assert_eq!(Revision::CreateBlog.name(), blog::Migration.name());
}

#[test]
fn users_migration_creates_its_tables() {
    let mut s = SchemaState::new();
    users::Migration.up(&mut s).unwrap();
    assert!(s.has_table(TableId::User));
    assert!(s.has_table(TableId::AuthProvider));
    assert!(s.has_table(TableId::UserSuspension));
    assert!(s.has_index(IndexId::AuthProviderNameUserIdUidx));
    assert!(!s.has_table(TableId::Technology));
    users::Migration.down(&mut s).unwrap();
    assert!(is_empty(&s));
}

#[test]
fn portfolio_needs_users_first() {
    let mut s = SchemaState::new();
    assert_eq!(portfolio::Migration.up(&mut s), Err(SchemaError::MissingDependency));
    // the types created before the refusal stay
    assert!(s.has_type(EnumType::TechnologyType));
    assert!(!s.has_table(TableId::Technology));
}

#[test]
fn rolled_back_blog_keeps_earlier_migrations() {
    let mut s = SchemaState::new();
    Migrator::up(&mut s).unwrap();
    blog::Migration.down(&mut s).unwrap();
    assert!(!s.has_table(TableId::BlogPost));
    assert!(!s.has_table(TableId::BlogPostCommentReaction));
    assert!(!s.has_type(EnumType::BlogReactions));
    assert!(s.has_table(TableId::Skill));
    assert!(s.has_table(TableId::User));
}

#[test]
fn cv_rollback_twice_is_refused() {
    let mut s = SchemaState::new();
    users::Migration.up(&mut s).unwrap();
    portfolio::Migration.up(&mut s).unwrap();
    cv::Migration.up(&mut s).unwrap();
    cv::Migration.down(&mut s).unwrap();
    assert_eq!(cv::Migration.down(&mut s), Err(SchemaError::NotFound));
}

#[test]
fn portfolio_rollback_twice_is_accepted() {
    let mut s = SchemaState::new();
    users::Migration.up(&mut s).unwrap();
    portfolio::Migration.up(&mut s).unwrap();
    portfolio::Migration.down(&mut s).unwrap();
    assert_eq!(portfolio::Migration.down(&mut s), Ok(()));
}

#[test]
fn applying_twice_changes_nothing() {
    let mut s = SchemaState::new();
    for rev in Migrator::migrations() {
        s.run(&rev.up_ops()).unwrap();
        let once = snapshot(&s);
        assert_eq!(s.run(&rev.up_ops()), Ok(()));
        assert_eq!(snapshot(&s), once);
    }
    assert_eq!(Migrator::up(&mut s), Ok(()));
}

#[test]
fn dropping_a_referenced_table_is_refused() {
    let mut s = SchemaState::new();
    users::Migration.up(&mut s).unwrap();
    let r = s.apply(SchemaOp::DropTable { table: TableId::User, if_exists: true });
    assert_eq!(r, Err(SchemaError::StillReferenced));
    assert!(s.has_table(TableId::User));
}

#[test]
fn dropping_a_type_in_use_is_refused() {
    let mut s = SchemaState::new();
    Migrator::up(&mut s).unwrap();
    let r = s.apply(SchemaOp::DropType { ty: EnumType::BlogReactions, if_exists: false });
    assert_eq!(r, Err(SchemaError::StillReferenced));
}

#[test]
fn schema_statement_errors() {
    let mut s = SchemaState::new();
    assert_eq!(
        s.apply(SchemaOp::CreateIndex { index: IndexId::AuthProviderUserIdIdx, if_not_exists: true }),
        Err(SchemaError::NotFound)
    );
    assert_eq!(
        s.apply(SchemaOp::DropTable { table: TableId::User, if_exists: false }),
        Err(SchemaError::NotFound)
    );
    assert_eq!(
        s.apply(SchemaOp::DropType { ty: EnumType::CodeSource, if_exists: false }),
        Err(SchemaError::NotFound)
    );
    assert_eq!(
        s.apply(SchemaOp::DropType { ty: EnumType::CodeSource, if_exists: true }),
        Ok(())
    );
    s.apply(SchemaOp::CreateTable { table: TableId::User, if_not_exists: false }).unwrap();
    assert_eq!(
        s.apply(SchemaOp::CreateTable { table: TableId::User, if_not_exists: false }),
        Err(SchemaError::AlreadyExists)
    );
    assert_eq!(
        s.apply(SchemaOp::CreateTable { table: TableId::Technology, if_not_exists: true }),
        Err(SchemaError::MissingDependency)
    );
    s.apply(SchemaOp::CreateType { ty: EnumType::TechnologyType, if_not_exists: false }).unwrap();
    assert_eq!(
        s.apply(SchemaOp::CreateType { ty: EnumType::TechnologyType, if_not_exists: true }),
        Ok(())
    );
    assert_eq!(
        s.apply(SchemaOp::CreateType { ty: EnumType::TechnologyType, if_not_exists: false }),
        Err(SchemaError::AlreadyExists)
    );
    s.apply(SchemaOp::CreateTable { table: TableId::Technology, if_not_exists: true }).unwrap();
    assert!(s.has_table(TableId::Technology));
}

#[test]
fn dropping_a_table_drops_its_indexes() {
    let mut s = SchemaState::new();
    users::Migration.up(&mut s).unwrap();
    s.apply(SchemaOp::DropTable { table: TableId::AuthProvider, if_exists: false }).unwrap();
    assert!(!s.has_index(IndexId::AuthProviderNameUserIdUidx));
    assert!(!s.has_index(IndexId::AuthProviderUserIdIdx));
    assert!(s.has_table(TableId::UserSuspension));
}

#[test]
fn user_table_definition() {
    let d = table_def(TableId::User);
    assert_eq!(d.table, TableId::User);
    assert_eq!(d.columns.len(), 9);
    assert!(d.columns[0].auto_increment_key);
    assert_eq!(d.columns[0].name, "id");
    assert_eq!(d.columns[2].name, "email");
    assert_eq!(d.columns[2].ty, ColumnType::Varchar(250));
    assert_eq!(d.columns[3].default, ColumnDefault::Integer(1));
    assert_eq!(d.columns[4].default, ColumnDefault::Boolean(true));
    assert!(d.foreign_keys.is_empty());
    assert!(d.primary_key.is_none());
}

#[test]
fn suspension_user_is_unique() {
    let d = table_def(TableId::UserSuspension);
    let u = d.unique.unwrap();
    assert_eq!(u.name, "user_suspension_user_id_uidx");
    assert_eq!(u.columns, vec!["user_id"]);
}

#[test]
fn reaction_tables_have_composite_keys() {
    let d = table_def(TableId::BlogPostReaction);
    let pk = d.primary_key.unwrap();
    assert_eq!(pk.name, "blog_post_reaction_pk");
    assert_eq!(pk.columns, vec!["blog_post_id", "created_by_id"]);
    assert_eq!(d.columns[2].ty, ColumnType::Enumeration(EnumType::BlogReactions));
    let d = table_def(TableId::BlogPostCommentReaction);
    assert_eq!(d.primary_key.unwrap().columns, vec!["blog_post_comment_id", "created_by_id"]);
}

#[test]
fn tag_and_comment_links_set_null() {
    assert_eq!(
        foreign_key_rules(TableId::BlogPostTag),
        vec![
            ForeignKeyRule { target: TableId::BlogPost, on_delete: OnDelete::Cascade },
            ForeignKeyRule { target: TableId::CommonTag, on_delete: OnDelete::SetNull },
            ForeignKeyRule { target: TableId::User, on_delete: OnDelete::Cascade },
        ]
    );
    let d = table_def(TableId::BlogPostComment);
    assert_eq!(d.foreign_keys[2].name, "blog_post_comment_parent_comment_id_fk");
    assert_eq!(d.foreign_keys[2].column, "parent_comment_id");
    assert_eq!(d.foreign_keys[2].rule.on_delete, OnDelete::SetNull);
}

#[test]
fn every_other_foreign_key_cascades() {
    for t in all_tables() {
        for f in table_def(t).foreign_keys {
            if f.rule.on_delete == OnDelete::SetNull {
                assert!(
                    f.column == "common_tag_id" || f.column == "parent_comment_id",
                    "{}",
                    f.name
                );
            }
        }
    }
}

#[test]
fn table_names() {
    assert_eq!(TableId::User.name(), "user");
    assert_eq!(TableId::BlogPostCommentReaction.name(), "blog_post_comment_reaction");
    assert_eq!(TableId::OpenSourceContribution.name(), "open_source_contribution");
    assert_eq!(table_def(TableId::Technology).columns[3].name, "tech_type");
}

#[test]
fn table_references() {
    assert!(TableId::BlogPostComment.references(TableId::BlogPostComment));
    assert!(TableId::Skill.references(TableId::Technology));
    assert!(!TableId::User.references(TableId::User));
    assert!(!TableId::CommonTag.references(TableId::User));
}

#[test]
fn enum_type_names_and_values() {
    assert_eq!(EnumType::TechnologyType.name(), "technology_type_enum");
    assert_eq!(EnumType::BlogReactions.name(), "blog_reactions_enum");
    assert_eq!(
        EnumType::TechnologyType.values(),
        vec!["language", "framework", "database", "platform", "tool", "other"]
    );
    assert_eq!(
        EnumType::ProjectStatus.values(),
        vec!["ongoing", "completed", "maintenance", "archived", "on_hold", "dropped"]
    );
    assert_eq!(
        EnumType::ProjectLinkType.values(),
        vec!["website", "github", "gitlab", "dev_to", "linkedin", "youtube", "other"]
    );
    assert_eq!(
        EnumType::CodeSource.values(),
        vec!["github", "gitlab", "crates_io", "npm", "pypi", "other"]
    );
    assert_eq!(EnumType::BlogReactions.values(), vec!["hate", "dislike", "ok", "like", "love"]);
    assert_eq!(EnumType::CodeSource.name(), cv::CodeSourceEnum.name());
}

#[test]
fn index_definitions() {
    let i = index_def(IndexId::AuthProviderNameUserIdUidx);
    assert_eq!(i.name, "auth_provider_name_user_id_uidx");
    assert_eq!(i.table, TableId::AuthProvider);
    assert_eq!(i.columns, vec!["name", "user_id"]);
    assert!(i.unique);
    let i = index_def(IndexId::CommonTagNameUidx);
    assert!(i.unique);
    let i = index_def(IndexId::BlogPostIsPublishedIdx);
    assert_eq!(i.columns, vec!["is_published"]);
    assert!(!i.unique);
}

#[test]
fn column_identifiers() {
    assert_eq!(users::User::Table.name(), "user");
    assert_eq!(users::User::IsAdmin.name(), "is_admin");
    assert_eq!(portfolio::Technology::TechType.name(), "tech_type");
    assert_eq!(portfolio::Project::DropDate.name(), "drop_date");
    assert_eq!(portfolio::ProjectLinkType::DevTo.name(), "dev_to");
    assert_eq!(blog::BlogReactions::Okay.name(), "ok");
}

#[test]
fn unique_keys_match_table_definitions() {
    let unique_indexes: Vec<_> =
        all_indexes().into_iter().map(index_def).filter(|i| i.unique).collect();
    for t in all_tables() {
        let def = table_def(t);
        let declared: Vec<Vec<&str>> = def
            .primary_key
            .iter()
            .chain(def.unique.iter())
            .map(|k| k.columns.clone())
            .chain(unique_indexes.iter().filter(|i| i.table == t).map(|i| i.columns.clone()))
            .collect();
        match unique_key_of(t) {
            None => assert!(declared.is_empty(), "{}", t.name()),
            Some(key) => {
                let mut expected: Vec<&str> = Vec::new();
                if key.with_name {
                    expected.push("name");
                }
                for f in def.foreign_keys.iter().take(key.ref_count) {
                    expected.push(f.column);
                }
                assert_eq!(declared, vec![expected], "{}", t.name());
            }
        }
    }
}

#[test]
fn nullable_foreign_keys_are_the_set_null_ones() {
    for t in all_tables() {
        let def = table_def(t);
        for f in &def.foreign_keys {
            let col = def.columns.iter().find(|c| c.name == f.column).unwrap();
            assert_eq!(col.nullable, f.rule.on_delete == OnDelete::SetNull, "{}", f.name);
            assert_eq!(col.ty, ColumnType::Integer);
        }
    }
}

#[test]
fn refused_statement_keeps_earlier_ones_only() {
    let mut s = SchemaState::new();
    let ops = vec![
        SchemaOp::CreateTable { table: TableId::User, if_not_exists: true },
        SchemaOp::DropTable { table: TableId::Technology, if_exists: false },
        SchemaOp::CreateTable { table: TableId::AuthProvider, if_not_exists: true },
    ];
    assert_eq!(s.run(&ops), Err(SchemaError::NotFound));
    assert!(s.has_table(TableId::User));
    assert!(!s.has_table(TableId::AuthProvider));
}

#[test]
fn blog_needs_technologies() {
    let mut s = SchemaState::new();
    users::Migration.up(&mut s).unwrap();
    assert_eq!(blog::Migration.up(&mut s), Err(SchemaError::MissingDependency));
    // the reaction type, the common tags, their index and the posts came first
    assert!(s.has_type(EnumType::BlogReactions));
    assert!(s.has_table(TableId::CommonTag));
    assert!(s.has_index(IndexId::CommonTagNameUidx));
    assert!(s.has_table(TableId::BlogPost));
    assert!(!s.has_table(TableId::BlogPostTechnology));
    assert!(!s.has_table(TableId::BlogPostComment));
}

#[test]
fn common_tag_table_definition() {
    let d = table_def(TableId::CommonTag);
    let cols: Vec<(&str, ColumnType, bool)> =
        d.columns.iter().map(|c| (c.name, c.ty, c.nullable)).collect();
    assert_eq!(
        cols,
        vec![
            ("id", ColumnType::Integer, false),
            ("name", ColumnType::Varchar(100), false),
            ("created_at", ColumnType::Timestamp, false),
            ("updated_at", ColumnType::Timestamp, false),
        ]
    );
    assert!(d.primary_key.is_none());
    assert!(d.unique.is_none());
}
