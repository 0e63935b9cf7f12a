//! Response envelopes as the services hand them back to the route handlers.
//!
//! Success is always `{status, message, data}`; failure is always
//! `{status, message}` with the fixed message of the classified error, so no
//! collaborator detail leaks to a caller.

use vstd::prelude::*;

use crate::errors::AppError;
use crate::errors::app_error_message;
use crate::model::Category;
use crate::model::Comment;
use crate::model::Post;
use crate::model::PostRelationModel;
use crate::model::User;

verus! {

/// Success envelope around one value.
#[derive(Debug, Clone)]
pub struct ApiResponse<T> {
    pub status: String,
    pub message: String,
    pub data: T,
}

/// Success envelope around one page of values.
#[derive(Debug, Clone)]
pub struct ApiResponsePagination<T> {
    pub status: String,
    pub message: String,
    pub data: T,
    pub pagination: crate::pagination::Pagination,
}

/// Failure envelope; `message` is the classified error's fixed message.
#[derive(Debug)]
pub struct ErrorResponse {
    pub status: String,
    pub message: String,
}

impl ErrorResponse {
    /// Classify an error into the uniform failure envelope: status "error"
    /// and the error's fixed message.
    pub fn from_app_error(e: AppError) -> (r: ErrorResponse)
        ensures
            r.status@ == "error"@,
            r.message@ == app_error_message(e),
    {
        let message = e.message();
        (ErrorResponse { status: String::from_str("error"), message })
    }
}

/// A category as reported to callers.
#[derive(Debug, Clone)]
pub struct CategoryResponse {
    pub id: i32,
    pub name: String,
}

impl From<Category> for CategoryResponse {
    fn from(c: Category) -> (r: CategoryResponse) {
        (CategoryResponse { id: c.id, name: c.name })
    }
}

impl vstd::std_specs::convert::FromSpecImpl<Category> for CategoryResponse {
    open spec fn obeys_from_spec() -> bool {
        true
    }

    open spec fn from_spec(c: Category) -> CategoryResponse {
        (CategoryResponse { id: c.id, name: c.name })
    }
}

/// A comment as reported to callers.
#[derive(Debug, Clone)]
pub struct CommentResponse {
    pub id: i32,
    pub id_post_comment: i32,
    pub user_name_comment: String,
    pub comment: String,
}

impl From<Comment> for CommentResponse {
    fn from(c: Comment) -> (r: CommentResponse) {
        (CommentResponse {
            id: c.id,
            id_post_comment: c.id_post_comment,
            user_name_comment: c.user_name_comment,
            comment: c.comment,
        })
    }
}

impl vstd::std_specs::convert::FromSpecImpl<Comment> for CommentResponse {
    open spec fn obeys_from_spec() -> bool {
        true
    }

    open spec fn from_spec(c: Comment) -> CommentResponse {
        (CommentResponse {
            id: c.id,
            id_post_comment: c.id_post_comment,
            user_name_comment: c.user_name_comment,
            comment: c.comment,
        })
    }
}

/// A post as reported to callers.
#[derive(Debug, Clone)]
pub struct PostResponse {
    pub id: i32,
    pub title: String,
    pub body: String,
    pub img: String,
    pub category_id: i32,
    pub user_id: i32,
    pub user_name: String,
}

impl From<Post> for PostResponse {
    fn from(p: Post) -> (r: PostResponse) {
        (PostResponse {
            id: p.id,
            title: p.title,
            body: p.body,
            img: p.img,
            category_id: p.category_id,
            user_id: p.user_id,
            user_name: p.user_name,
        })
    }
}

impl vstd::std_specs::convert::FromSpecImpl<Post> for PostResponse {
    open spec fn obeys_from_spec() -> bool {
        true
    }

    open spec fn from_spec(p: Post) -> PostResponse {
        (PostResponse {
            id: p.id,
            title: p.title,
            body: p.body,
            img: p.img,
            category_id: p.category_id,
            user_id: p.user_id,
            user_name: p.user_name,
        })
    }
}

/// A post joined with one comment, as reported to callers.
#[derive(Debug, Clone)]
pub struct PostRelationResponse {
    pub post_id: i32,
    pub title: String,
    pub comment_id: i32,
    pub id_post_comment: i32,
    pub user_name_comment: String,
    pub comment: String,
}

impl From<PostRelationModel> for PostRelationResponse {
    fn from(p: PostRelationModel) -> (r: PostRelationResponse) {
        (PostRelationResponse {
            post_id: p.post_id,
            title: p.title,
            comment_id: p.comment_id,
            id_post_comment: p.id_post_comment,
            user_name_comment: p.user_name_comment,
            comment: p.comment,
        })
    }
}

impl vstd::std_specs::convert::FromSpecImpl<PostRelationModel> for PostRelationResponse {
    open spec fn obeys_from_spec() -> bool {
        true
    }

    open spec fn from_spec(p: PostRelationModel) -> PostRelationResponse {
        (PostRelationResponse {
            post_id: p.post_id,
            title: p.title,
            comment_id: p.comment_id,
            id_post_comment: p.id_post_comment,
            user_name_comment: p.user_name_comment,
            comment: p.comment,
        })
    }
}

/// A user as reported to callers: the stored record stripped of its
/// password hash.
#[derive(Debug, Clone)]
pub struct UserResponse {
    pub id: i32,
    pub firstname: String,
    pub lastname: String,
    pub email: String,
}

impl From<User> for UserResponse {
    fn from(u: User) -> (r: UserResponse) {
        (UserResponse { id: u.id, firstname: u.firstname, lastname: u.lastname, email: u.email })
    }
}

impl vstd::std_specs::convert::FromSpecImpl<User> for UserResponse {
    open spec fn obeys_from_spec() -> bool {
        true
    }

    open spec fn from_spec(u: User) -> UserResponse {
        (UserResponse { id: u.id, firstname: u.firstname, lastname: u.lastname, email: u.email })
    }
}

/// Outcome of a stored-file upload.
#[derive(Debug, Clone)]
pub struct UploadResponse {
    pub message: String,
    pub file_name: String,
    pub file_path: String,
}

/// Outcome of a stored-file deletion.
#[derive(Debug, Clone)]
pub struct DeleteResponse {
    pub message: String,
}

} // verus!
