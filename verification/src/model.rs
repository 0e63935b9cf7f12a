//! Records as the persistence collaborator stores them.
//!
//! `User` is the one record the authentication core reads and writes; its
//! `password` field always holds a password hash, never a plaintext. The
//! other records belong to the resource repositories.

use vstd::prelude::*;

verus! {

/// A stored user credential and profile. `password` holds the hash produced
/// by the hashing boundary.
#[derive(Debug)]
pub struct User {
    pub id: i32,
    pub firstname: String,
    pub lastname: String,
    pub email: String,
    pub password: String,
}

/// The mathematical image of a stored user: every field as a plain value.
pub ghost struct UserView {
    pub id: int,
    pub firstname: Seq<char>,
    pub lastname: Seq<char>,
    pub email: Seq<char>,
    pub password: Seq<char>,
}

impl View for User {
    type V = UserView;

    open spec fn view(&self) -> UserView {
        UserView {
            id: self.id as int,
            firstname: self.firstname@,
            lastname: self.lastname@,
            email: self.email@,
            password: self.password@,
        }
    }
}

impl Clone for User {
    fn clone(&self) -> (r: Self)
        ensures
            r == *self,
    {
        User {
            id: self.id,
            firstname: self.firstname.clone(),
            lastname: self.lastname.clone(),
            email: self.email.clone(),
            password: self.password.clone(),
        }
    }
}

/// A stored category.
#[derive(Debug, Clone)]
pub struct Category {
    pub id: i32,
    pub name: String,
}

/// A stored comment, attached to a post.
#[derive(Debug, Clone)]
pub struct Comment {
    pub id: i32,
    pub id_post_comment: i32,
    pub user_name_comment: String,
    pub comment: String,
}

/// A stored post.
#[derive(Debug, Clone)]
pub struct Post {
    pub id: i32,
    pub title: String,
    pub img: String,
    pub body: String,
    pub category_id: i32,
    pub user_id: i32,
    pub user_name: String,
}

/// A post joined with one of its comments.
#[derive(Debug, Clone)]
pub struct PostRelationModel {
    pub post_id: i32,
    pub title: String,
    pub comment_id: i32,
    pub id_post_comment: i32,
    pub user_name_comment: String,
    pub comment: String,
}

} // verus!
