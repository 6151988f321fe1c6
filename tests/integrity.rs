use tugascript::integrity::{unique_key_of, Database, IntegrityError, Row, UniqueKey};
use tugascript::schema::TableId;

fn row(table: TableId, id: u64, refs: Vec<Option<u64>>, name: &str) -> Row {
    Row { table, id, refs, name: String::from(name) }
}

fn has(db: &Database, table: TableId, id: u64) -> bool {
    db.position(table, id).is_some()
}

fn refs_of(db: &Database, table: TableId, id: u64) -> Vec<Option<u64>> {
    let i = db.position(table, id).unwrap();
    db.row(i).refs.clone()
}

/// Two users; user 1 writes post 10 with a tag, an image, a comment by
/// user 2 with a reply and reactions.
fn blog_fixture() -> Database {
    let mut db = Database::new();
    db.insert(row(TableId::User, 1, vec![], "")).unwrap();
    db.insert(row(TableId::User, 2, vec![], "")).unwrap();
    db.insert(row(TableId::CommonTag, 5, vec![], "rust")).unwrap();
    db.insert(row(TableId::BlogPost, 10, vec![Some(1)], "")).unwrap();
    db.insert(row(TableId::BlogPostTag, 20, vec![Some(10), Some(5), Some(1)], "")).unwrap();
    db.insert(row(TableId::BlogPostImage, 30, vec![Some(10), Some(1)], "")).unwrap();
    db.insert(row(TableId::BlogPostComment, 40, vec![Some(10), Some(2), None], "")).unwrap();
    db.insert(row(TableId::BlogPostComment, 41, vec![Some(10), Some(1), Some(40)], "")).unwrap();
    db.insert(row(TableId::BlogPostReaction, 50, vec![Some(10), Some(2)], "")).unwrap();
    db.insert(row(TableId::BlogPostCommentReaction, 60, vec![Some(40), Some(1)], "")).unwrap();
    db.insert(row(TableId::BlogPostCommentReaction, 61, vec![Some(41), Some(2)], "")).unwrap();
    db
}

#[test]
fn fixture_is_accepted() {
    let db = blog_fixture();
    assert_eq!(db.len(), 11);
}

#[test]
fn auth_provider_name_and_user_unique() {
    let mut db = Database::new();
    db.insert(row(TableId::User, 1, vec![], "")).unwrap();
    db.insert(row(TableId::User, 2, vec![], "")).unwrap();
    db.insert(row(TableId::AuthProvider, 1, vec![Some(1)], "github")).unwrap();
    assert_eq!(
        db.insert(row(TableId::AuthProvider, 2, vec![Some(1)], "github")),
        Err(IntegrityError::DuplicateKey)
    );
    assert_eq!(db.insert(row(TableId::AuthProvider, 2, vec![Some(1)], "google")), Ok(()));
    assert_eq!(db.insert(row(TableId::AuthProvider, 3, vec![Some(2)], "github")), Ok(()));
    assert_eq!(db.len(), 5);
}

#[test]
fn common_tag_name_unique() {
    let mut db = Database::new();
    db.insert(row(TableId::CommonTag, 1, vec![], "rust")).unwrap();
    assert_eq!(
        db.insert(row(TableId::CommonTag, 2, vec![], "rust")),
        Err(IntegrityError::DuplicateKey)
    );
    assert_eq!(db.insert(row(TableId::CommonTag, 2, vec![], "go")), Ok(()));
}

#[test]
fn one_suspension_per_user() {
    let mut db = Database::new();
    db.insert(row(TableId::User, 1, vec![], "")).unwrap();
    db.insert(row(TableId::UserSuspension, 1, vec![Some(1)], "")).unwrap();
    assert_eq!(
        db.insert(row(TableId::UserSuspension, 2, vec![Some(1)], "")),
        Err(IntegrityError::DuplicateKey)
    );
}

#[test]
fn one_reaction_per_user_and_target() {
    let mut db = blog_fixture();
    assert_eq!(
        db.insert(row(TableId::BlogPostReaction, 51, vec![Some(10), Some(2)], "")),
        Err(IntegrityError::DuplicateKey)
    );
    assert_eq!(db.insert(row(TableId::BlogPostReaction, 51, vec![Some(10), Some(1)], "")), Ok(()));
    assert_eq!(
        db.insert(row(TableId::BlogPostCommentReaction, 62, vec![Some(40), Some(1)], "")),
        Err(IntegrityError::DuplicateKey)
    );
    assert_eq!(
        db.insert(row(TableId::BlogPostCommentReaction, 62, vec![Some(40), Some(2)], "")),
        Ok(())
    );
}

#[test]
fn insert_errors() {
    let mut db = Database::new();
    db.insert(row(TableId::User, 1, vec![], "")).unwrap();
    assert_eq!(
        db.insert(row(TableId::BlogPost, 1, vec![], "")),
        Err(IntegrityError::WrongShape)
    );
    assert_eq!(
        db.insert(row(TableId::BlogPost, 1, vec![None], "")),
        Err(IntegrityError::NullReference)
    );
    assert_eq!(db.insert(row(TableId::User, 1, vec![], "")), Err(IntegrityError::DuplicateId));
    assert_eq!(
        db.insert(row(TableId::BlogPost, 1, vec![Some(7)], "")),
        Err(IntegrityError::MissingReference)
    );
    assert_eq!(db.len(), 1);
}

#[test]
fn first_broken_rule_is_reported() {
    let mut db = Database::new();
    db.insert(row(TableId::User, 1, vec![], "")).unwrap();
    // both a duplicate id and a missing reference: the id is checked first
    db.insert(row(TableId::BlogPost, 1, vec![Some(1)], "")).unwrap();
    assert_eq!(
        db.insert(row(TableId::BlogPost, 1, vec![Some(9)], "")),
        Err(IntegrityError::DuplicateId)
    );
}

#[test]
fn comment_may_reply_to_existing_comment_only() {
    let mut db = blog_fixture();
    assert_eq!(
        db.insert(row(TableId::BlogPostComment, 42, vec![Some(10), Some(2), Some(99)], "")),
        Err(IntegrityError::MissingReference)
    );
    assert_eq!(
        db.insert(row(TableId::BlogPostComment, 42, vec![Some(10), Some(2), Some(41)], "")),
        Ok(())
    );
}

#[test]
fn delete_missing_row_is_not_found() {
    let mut db = blog_fixture();
    assert_eq!(db.delete(TableId::User, 3), Err(IntegrityError::NotFound));
    assert_eq!(db.delete(TableId::BlogPost, 1), Err(IntegrityError::NotFound));
    assert_eq!(db.len(), 11);
}

#[test]
fn deleting_user_removes_dependent_rows() {
    let mut db = blog_fixture();
    db.delete(TableId::User, 1).unwrap();
    // everything hangs off user 1's post, so only user 2 and the tag remain
    assert_eq!(db.len(), 2);
    assert!(has(&db, TableId::User, 2));
    assert!(has(&db, TableId::CommonTag, 5));
    assert!(!has(&db, TableId::BlogPostComment, 40));
    assert!(!has(&db, TableId::BlogPostCommentReaction, 61));
}

#[test]
fn deleting_other_user_keeps_post() {
    let mut db = blog_fixture();
    db.delete(TableId::User, 2).unwrap();
    assert!(has(&db, TableId::BlogPost, 10));
    assert!(!has(&db, TableId::BlogPostComment, 40));
    assert!(!has(&db, TableId::BlogPostReaction, 50));
    assert!(!has(&db, TableId::BlogPostCommentReaction, 60));
    assert!(!has(&db, TableId::BlogPostCommentReaction, 61));
    // the reply by user 1 loses its parent and stays
    assert!(has(&db, TableId::BlogPostComment, 41));
    assert_eq!(refs_of(&db, TableId::BlogPostComment, 41), vec![Some(10), Some(1), None]);
    assert_eq!(db.len(), 6);
}

#[test]
fn deleting_post_removes_its_rows() {
    let mut db = blog_fixture();
    db.delete(TableId::BlogPost, 10).unwrap();
    assert!(!has(&db, TableId::BlogPostTag, 20));
    assert!(!has(&db, TableId::BlogPostImage, 30));
    assert!(!has(&db, TableId::BlogPostComment, 40));
    assert!(!has(&db, TableId::BlogPostComment, 41));
    assert!(!has(&db, TableId::BlogPostReaction, 50));
    assert!(!has(&db, TableId::BlogPostCommentReaction, 60));
    assert!(has(&db, TableId::User, 1));
    assert!(has(&db, TableId::User, 2));
    assert!(has(&db, TableId::CommonTag, 5));
    assert_eq!(db.len(), 3);
}

#[test]
fn deleting_common_tag_nulls_post_tags() {
    let mut db = blog_fixture();
    db.delete(TableId::CommonTag, 5).unwrap();
    assert_eq!(db.len(), 10);
    assert!(has(&db, TableId::BlogPostTag, 20));
    assert_eq!(refs_of(&db, TableId::BlogPostTag, 20), vec![Some(10), None, Some(1)]);
}

#[test]
fn deleting_parent_comment_keeps_replies() {
    let mut db = blog_fixture();
    db.delete(TableId::BlogPostComment, 40).unwrap();
    assert!(!has(&db, TableId::BlogPostComment, 40));
    assert!(!has(&db, TableId::BlogPostCommentReaction, 60));
    assert!(has(&db, TableId::BlogPostComment, 41));
    assert_eq!(refs_of(&db, TableId::BlogPostComment, 41), vec![Some(10), Some(1), None]);
    assert!(has(&db, TableId::BlogPostCommentReaction, 61));
    assert_eq!(db.len(), 9);
}

#[test]
fn deleted_id_can_be_reused() {
    let mut db = blog_fixture();
    db.delete(TableId::CommonTag, 5).unwrap();
    assert_eq!(db.insert(row(TableId::CommonTag, 5, vec![], "rust")), Ok(()));
}

#[test]
fn technology_links_cascade_from_both_sides() {
    let mut db = Database::new();
    db.insert(row(TableId::User, 1, vec![], "")).unwrap();
    db.insert(row(TableId::Technology, 1, vec![Some(1)], "")).unwrap();
    db.insert(row(TableId::Technology, 2, vec![Some(1)], "")).unwrap();
    db.insert(row(TableId::RelatedTechnology, 1, vec![Some(1), Some(2)], "")).unwrap();
    assert_eq!(
        db.insert(row(TableId::RelatedTechnology, 2, vec![Some(1), Some(2)], "")),
        Err(IntegrityError::DuplicateKey)
    );
    db.insert(row(TableId::Skill, 1, vec![Some(1), Some(2)], "")).unwrap();
    db.delete(TableId::Technology, 2).unwrap();
    assert!(!has(&db, TableId::RelatedTechnology, 1));
    assert!(!has(&db, TableId::Skill, 1));
    assert!(has(&db, TableId::Technology, 1));
}

#[test]
fn unique_keys_of_tables() {
    assert_eq!(
        unique_key_of(TableId::AuthProvider),
        Some(UniqueKey { with_name: true, ref_count: 1 })
    );
    assert_eq!(
        unique_key_of(TableId::BlogPostReaction),
        Some(UniqueKey { with_name: false, ref_count: 2 })
    );
    assert_eq!(unique_key_of(TableId::BlogPost), None);
}
