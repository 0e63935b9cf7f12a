//! Request bodies as the route handlers hand them to the services.

use vstd::prelude::*;

verus! {

/// Body of a registration call.
#[derive(Debug, Clone)]
pub struct RegisterRequest {
    pub firstname: String,
    pub lastname: String,
    pub email: String,
    pub password: String,
}

/// Body of a login call.
#[derive(Debug, Clone)]
pub struct LoginRequest {
    pub email: String,
    pub password: String,
}

/// Body of a direct user-creation call; `password` is a plaintext at the
/// service boundary and has been replaced by its hash by the time the
/// request reaches the directory.
#[derive(Debug, Clone)]
pub struct CreateUserRequest {
    pub firstname: String,
    pub lastname: String,
    pub email: String,
    pub password: String,
}

/// Partial update of a user; absent fields are left as stored.
#[derive(Debug, Clone)]
pub struct UpdateUserRequest {
    pub id: Option<i32>,
    pub firstname: Option<String>,
    pub lastname: Option<String>,
    pub email: Option<String>,
    pub password: Option<String>,
}

/// Paged listing of categories; zero or negative numbers fall back to the
/// defaults, an empty search means no filter.
#[derive(Debug, Clone)]
pub struct FindAllCategoryRequest {
    pub page: i32,
    pub page_size: i32,
    pub search: String,
}

/// Body of a category-creation call.
#[derive(Debug, Clone)]
pub struct CreateCategoryRequest {
    pub name: String,
}

/// Partial update of a category.
#[derive(Debug, Clone)]
pub struct UpdateCategoryRequest {
    pub id: Option<i32>,
    pub name: Option<String>,
}

/// Body of a comment-creation call.
#[derive(Debug, Clone)]
pub struct CreateCommentRequest {
    pub id_post_comment: i32,
    pub user_name_comment: String,
    pub comment: String,
}

/// Partial update of a comment.
#[derive(Debug, Clone)]
pub struct UpdateCommentRequest {
    pub id_post_comment: Option<i32>,
    pub user_name_comment: String,
    pub comment: String,
}

/// Paged listing of posts.
#[derive(Debug, Clone)]
pub struct FindAllPostRequest {
    pub page: i32,
    pub page_size: i32,
    pub search: String,
}

/// Body of a post-creation call.
#[derive(Debug, Clone)]
pub struct CreatePostRequest {
    pub title: String,
    pub body: String,
    pub file: String,
    pub category_id: i32,
    pub user_id: i32,
    pub user_name: String,
}

/// Body of a post update.
#[derive(Debug, Clone)]
pub struct UpdatePostRequest {
    pub post_id: Option<i32>,
    pub title: String,
    pub body: String,
    pub file: String,
    pub category_id: i32,
    pub user_id: i32,
    pub user_name: String,
}

/// The page used when a listing request does not name one.
pub fn default_page() -> (r: i32)
    ensures
        r == 1,
{
    1
}

/// The page size used when a listing request does not name one.
pub fn default_page_size() -> (r: i32)
    ensures
        r == 10,
{
    10
}

} // verus!
