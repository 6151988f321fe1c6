//! Verified core of a personal portfolio and blog site: the session state that
//! the navigation reads, the site's routes, the relational schema with its
//! migrations, and an in-memory model of the schema's integrity rules.

pub mod navigation;
pub mod state;

pub mod schema;
pub mod schema_state;

pub mod m20250908_030112_create_users;
pub mod m20250909_050520_create_portfolio;
pub mod m20250911_185836_create_cv;
pub mod m20250911_205500_create_blog;
pub mod migrator;

pub mod integrity;
