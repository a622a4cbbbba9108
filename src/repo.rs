pub mod model;
pub mod redb_repo;
