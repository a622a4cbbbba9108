use redb::Database;
use std::marker::PhantomData;
use std::sync::Arc;
use vstd::prelude::*;

verus! {

/// An open database; carried, never read.
#[verifier::external_type_specification]
#[verifier::external_body]
pub struct ExDatabase(Database);

/// Converts between the values a table stores and the values its users
/// handle.
pub trait Transformer<From, Into> {
    fn forward(&self, v: From) -> Into;

    fn backward(&self, v: Into) -> From;
}

/// Stores values as they are.
#[derive(Clone, Copy, Debug)]
pub struct Same;

impl<T> Transformer<T, T> for Same {
    fn forward(&self, v: T) -> T {
        v
    }

    fn backward(&self, v: T) -> T {
        v
    }
}

/// A table of a database, named `table` and keyed by account, whose stored
/// values of type `From` its users see as values of type `Into`.
pub struct RedbRepo<From, Into, X> {
    pub table: String,
    pub db: Arc<Database>,
    pub transform: X,
    pub values: PhantomData<(From, Into)>,
}

impl<T> RedbRepo<T, T, Same> {
    /// A table whose values are stored as they are.
    pub fn new(table: String, db: Arc<Database>) -> (r: Self)
        ensures
            r.table@ == table@,
            r.db == db,
    {
        RedbRepo { table, db, transform: Same, values: PhantomData }
    }
}

impl<From, Into, X: Transformer<From, Into>> RedbRepo<From, Into, X> {
    /// A table whose values are converted by `transform` on the way in and
    /// out.
    pub fn new_proxy(table: String, db: Arc<Database>, transform: X) -> (r: Self)
        ensures
            r.table@ == table@,
            r.db == db,
            r.transform == transform,
    {
        RedbRepo { table, db, transform, values: PhantomData }
    }
}

} // verus!
