use vstd::prelude::*;

use crate::m20250908_030112_create_users as users;
use crate::m20250909_050520_create_portfolio as portfolio;
use crate::m20250911_185836_create_cv as cv;
use crate::m20250911_205500_create_blog as blog;
use crate::schema_state::{run, stopped_at, SchemaError, SchemaOp, SchemaState, SchemaView};

verus! {

/// The migrations of the schema, one per step.
#[derive(Clone, Copy, Debug, PartialEq, Eq, Structural)]
pub enum Revision {
    CreateUsers,
    CreatePortfolio,
    CreateCv,
    CreateBlog,
}

/// The statements that apply a migration.
pub open spec fn up_script_of(r: Revision) -> Seq<SchemaOp> {
    match r {
        Revision::CreateUsers => users::up_script(),
        Revision::CreatePortfolio => portfolio::up_script(),
        Revision::CreateCv => cv::up_script(),
        Revision::CreateBlog => blog::up_script(),
    }
}

/// The statements that roll a migration back.
pub open spec fn down_script_of(r: Revision) -> Seq<SchemaOp> {
    match r {
        Revision::CreateUsers => users::down_script(),
        Revision::CreatePortfolio => portfolio::down_script(),
        Revision::CreateCv => cv::down_script(),
        Revision::CreateBlog => blog::down_script(),
    }
}

/// Every migration applied, oldest first.
pub open spec fn all_up_script() -> Seq<SchemaOp> {
    users::up_script() + portfolio::up_script() + cv::up_script() + blog::up_script()
}

/// Every migration rolled back, newest first.
pub open spec fn all_down_script() -> Seq<SchemaOp> {
    blog::down_script() + cv::down_script() + portfolio::down_script() + users::down_script()
}

impl Revision {
    /// The migration's name, which records that it was applied.
    pub open spec fn spec_name(self) -> Seq<char> {
        match self {
            Revision::CreateUsers => "m20250908_030112_create_users"@,
            Revision::CreatePortfolio => "m20250909_050520_create_portfolio"@,
            Revision::CreateCv => "m20250911_185836_create_cv"@,
            Revision::CreateBlog => "m20250911_205500_create_blog"@,
        }
    }

    /// The migration's name, which records that it was applied.
    pub fn name(&self) -> (r: &'static str)
        ensures
            r@ == self.spec_name(),
    {
        match self {
            Revision::CreateUsers => users::Migration.name(),
            Revision::CreatePortfolio => portfolio::Migration.name(),
            Revision::CreateCv => cv::Migration.name(),
            Revision::CreateBlog => blog::Migration.name(),
        }
    }

    /// The statements that apply the migration.
    pub fn up_ops(&self) -> (r: Vec<SchemaOp>)
        ensures
            r@ == up_script_of(*self),
    {
        match self {
            Revision::CreateUsers => users::Migration.up_ops(),
            Revision::CreatePortfolio => portfolio::Migration.up_ops(),
            Revision::CreateCv => cv::Migration.up_ops(),
            Revision::CreateBlog => blog::Migration.up_ops(),
        }
    }

    /// The statements that roll the migration back.
    pub fn down_ops(&self) -> (r: Vec<SchemaOp>)
        ensures
            r@ == down_script_of(*self),
    {
        match self {
            Revision::CreateUsers => users::Migration.down_ops(),
            Revision::CreatePortfolio => portfolio::Migration.down_ops(),
            Revision::CreateCv => cv::Migration.down_ops(),
            Revision::CreateBlog => blog::Migration.down_ops(),
        }
    }
}

/// The ordered list of the schema's migrations.
pub struct Migrator;

impl Migrator {
    /// The migrations, oldest first.
    pub fn migrations() -> (r: Vec<Revision>)
        ensures
            r@ == seq![
                Revision::CreateUsers,
                Revision::CreatePortfolio,
                Revision::CreateCv,
                Revision::CreateBlog,
            ],
    {
        let r = vec![
            Revision::CreateUsers,
            Revision::CreatePortfolio,
            Revision::CreateCv,
            Revision::CreateBlog,
        ];
        assert(r@ =~= seq![
            Revision::CreateUsers,
            Revision::CreatePortfolio,
            Revision::CreateCv,
            Revision::CreateBlog,
        ]);
        r
    }

    /// The statements of every migration, oldest first.
    pub fn up_ops() -> (r: Vec<SchemaOp>)
        ensures
            r@ == all_up_script(),
    {
        let mut r = users::Migration.up_ops();
        let mut next = portfolio::Migration.up_ops();
        r.append(&mut next);
        let mut next = cv::Migration.up_ops();
        r.append(&mut next);
        let mut next = blog::Migration.up_ops();
        r.append(&mut next);
        r
    }

    /// The statements that roll every migration back, newest first.
    pub fn down_ops() -> (r: Vec<SchemaOp>)
        ensures
            r@ == all_down_script(),
    {
        let mut r = blog::Migration.down_ops();
        let mut next = cv::Migration.down_ops();
        r.append(&mut next);
        let mut next = portfolio::Migration.down_ops();
        r.append(&mut next);
        let mut next = users::Migration.down_ops();
        r.append(&mut next);
        r
    }

    /// Applies every migration to `schema`, stopping at the first refusal.
    pub fn up(schema: &mut SchemaState) -> (r: Result<(), SchemaError>)
        ensures
            match run(old(schema)@, all_up_script()) {
                Ok(s1) => r is Ok && final(schema)@ == s1,
                Err(e) => r == Err::<(), SchemaError>(e) && stopped_at(
                    old(schema)@,
                    all_up_script(),
                    final(schema)@,
                    e,
                ),
            },
    {
        schema.run(&Self::up_ops())
    }

    /// Rolls every migration back on `schema`, stopping at the first refusal.
    pub fn down(schema: &mut SchemaState) -> (r: Result<(), SchemaError>)
        ensures
            match run(old(schema)@, all_down_script()) {
                Ok(s1) => r is Ok && final(schema)@ == s1,
                Err(e) => r == Err::<(), SchemaError>(e) && stopped_at(
                    old(schema)@,
                    all_down_script(),
                    final(schema)@,
                    e,
                ),
            },
    {
        schema.run(&Self::down_ops())
    }
}

/// Running two scripts one after the other is running their concatenation.
pub proof fn lemma_run_append(s: SchemaView, a: Seq<SchemaOp>, b: Seq<SchemaOp>)
    ensures
        run(s, a + b) == match run(s, a) {
            Ok(s1) => run(s1, b),
            Err(e) => Err(e),
        },
    decreases b.len(),
{
    if b.len() == 0 {
        assert(a + b =~= a);
    } else {
        assert((a + b).drop_last() =~= a + b.drop_last());
        lemma_run_append(s, a, b.drop_last());
    }
}

/// On an empty database every migration applies, and rolling them all back
/// leaves the database empty again.
pub proof fn lemma_fresh_database_round_trip()
    ensures
        run(SchemaView::empty(), all_up_script()) matches Ok(s) && run(s, all_down_script())
            == Ok::<SchemaView, SchemaError>(SchemaView::empty()),
{
    let s0 = SchemaView::empty();
    users::lemma_down_reverses_up(s0);
    let s1 = users::after_up(s0);
    portfolio::lemma_down_reverses_up(s1);
    let s2 = portfolio::after_up(s1);
    cv::lemma_down_reverses_up(s2);
    let s3 = cv::after_up(s2);
    blog::lemma_down_reverses_up(s3);
    let s4 = blog::after_up(s3);
    lemma_run_append(s0, users::up_script(), portfolio::up_script());
    lemma_run_append(s0, users::up_script() + portfolio::up_script(), cv::up_script());
    lemma_run_append(
        s0,
        users::up_script() + portfolio::up_script() + cv::up_script(),
        blog::up_script(),
    );
    lemma_run_append(s4, blog::down_script(), cv::down_script());
    lemma_run_append(s4, blog::down_script() + cv::down_script(), portfolio::down_script());
    lemma_run_append(
        s4,
        blog::down_script() + cv::down_script() + portfolio::down_script(),
        users::down_script(),
    );
}


/// Applying every migration to a schema that already holds all of their
/// objects succeeds and changes nothing.
pub proof fn lemma_all_up_idempotent(s: SchemaView)
    requires
        users::present_in(s),
        portfolio::present_in(s),
        cv::present_in(s),
        blog::present_in(s),
    ensures
        run(s, all_up_script()) == Ok::<SchemaView, SchemaError>(s),
{
    users::lemma_up_idempotent(s);
    portfolio::lemma_up_idempotent(s);
    cv::lemma_up_idempotent(s);
    blog::lemma_up_idempotent(s);
    lemma_run_append(s, users::up_script(), portfolio::up_script());
    lemma_run_append(s, users::up_script() + portfolio::up_script(), cv::up_script());
    lemma_run_append(
        s,
        users::up_script() + portfolio::up_script() + cv::up_script(),
        blog::up_script(),
    );
}

} // verus!
