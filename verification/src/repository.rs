//! The persistence-backed repositories: each holds the connection pool its
//! queries run on. The queries themselves — SQL construction and execution —
//! are the persistence collaborator's work and live with the process wiring,
//! which chooses the pool type and reaches it through `pool()`.

use vstd::prelude::*;

verus! {

/// Category store over a connection pool.
pub struct CategoryRepository<P> {
    db_pool: P,
}

impl<P> CategoryRepository<P> {
    /// The pool the store was built over.
    pub closed spec fn spec_pool(&self) -> P {
        self.db_pool
    }

    /// A category store over the pool.
    pub fn new(db_pool: P) -> (r: Self)
        ensures
            r.spec_pool() == db_pool,
    {
        CategoryRepository { db_pool }
    }

    /// The pool the store's queries run on.
    pub fn pool(&self) -> (r: &P)
        ensures
            *r == self.spec_pool(),
    {
        &self.db_pool
    }
}

/// Comment store over a connection pool.
pub struct CommentRepository<P> {
    db_pool: P,
}

impl<P> CommentRepository<P> {
    /// The pool the store was built over.
    pub closed spec fn spec_pool(&self) -> P {
        self.db_pool
    }

    /// A comment store over the pool.
    pub fn new(db_pool: P) -> (r: Self)
        ensures
            r.spec_pool() == db_pool,
    {
        CommentRepository { db_pool }
    }

    /// The pool the store's queries run on.
    pub fn pool(&self) -> (r: &P)
        ensures
            *r == self.spec_pool(),
    {
        &self.db_pool
    }
}

/// Post store over a connection pool.
pub struct PostRepository<P> {
    db_pool: P,
}

impl<P> PostRepository<P> {
    /// The pool the store was built over.
    pub closed spec fn spec_pool(&self) -> P {
        self.db_pool
    }

    /// A post store over the pool.
    pub fn new(db_pool: P) -> (r: Self)
        ensures
            r.spec_pool() == db_pool,
    {
        PostRepository { db_pool }
    }

    /// The pool the store's queries run on.
    pub fn pool(&self) -> (r: &P)
        ensures
            *r == self.spec_pool(),
    {
        &self.db_pool
    }
}

/// User store over a connection pool.
pub struct UserRepository<P> {
    db_pool: P,
}

impl<P> UserRepository<P> {
    /// The pool the store was built over.
    pub closed spec fn spec_pool(&self) -> P {
        self.db_pool
    }

    /// A user store over the pool.
    pub fn new(db_pool: P) -> (r: Self)
        ensures
            r.spec_pool() == db_pool,
    {
        UserRepository { db_pool }
    }

    /// The pool the store's queries run on.
    pub fn pool(&self) -> (r: &P)
        ensures
            *r == self.spec_pool(),
    {
        &self.db_pool
    }
}

} // verus!
