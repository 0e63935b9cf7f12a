use example_sea_query::errors::AppError;
use example_sea_query::files::FileService;
use example_sea_query::model::Category;
use example_sea_query::pagination::page_or_first;
use example_sea_query::pagination::page_size_floor_one;
use example_sea_query::pagination::page_size_or_default;
use example_sea_query::pagination::total_pages;
use example_sea_query::repository::CategoryRepository;
use example_sea_query::repository::CommentRepository;
use example_sea_query::repository::PostRepository;
use example_sea_query::repository::UserRepository;
use example_sea_query::request::default_page;
use example_sea_query::request::default_page_size;
use example_sea_query::response::CategoryResponse;
use example_sea_query::response::ErrorResponse;
use example_sea_query::slug::generate_slug;

#[test]
fn slugs_lowercase_dash_and_trim() {
    assert_eq!(generate_slug("Hello World"), "hello-world");
    assert_eq!(generate_slug("  Rust 101  "), "rust-101");
    assert_eq!(generate_slug("C'est l'été!"), "cest-lété");
    assert_eq!(generate_slug("---"), "");
    assert_eq!(generate_slug(""), "");
    assert_eq!(generate_slug("A  B"), "a--b");
}

#[test]
fn pagination_defaults_and_ceiling() {
    assert_eq!(default_page(), 1);
    assert_eq!(default_page_size(), 10);
    assert_eq!(page_or_first(0), 1);
    assert_eq!(page_or_first(-3), 1);
    assert_eq!(page_or_first(4), 4);
    assert_eq!(page_size_or_default(0), 10);
    assert_eq!(page_size_or_default(25), 25);
    assert_eq!(page_size_floor_one(0), 1);
    assert_eq!(page_size_floor_one(25), 25);
    assert_eq!(total_pages(0, 10), 0);
    assert_eq!(total_pages(1, 10), 1);
    assert_eq!(total_pages(10, 10), 1);
    assert_eq!(total_pages(11, 10), 2);
    assert_eq!(total_pages(101, 10), 11);
}

#[test]
fn every_error_maps_to_its_fixed_message_and_status() {
    assert_eq!(AppError::EmailAlreadyExists.http_status(), 409);
    assert_eq!(AppError::InvalidCredentials.http_status(), 401);
    assert_eq!(AppError::TokenExpired.http_status(), 401);
    assert_eq!(AppError::TokenInvalid.http_status(), 401);
    assert_eq!(AppError::NotFound(String::from("x")).http_status(), 404);
    assert_eq!(AppError::ValidationError(String::from("x")).http_status(), 400);
    assert_eq!(AppError::HashingError(String::from("x")).http_status(), 500);
    assert_eq!(AppError::RepositoryError(String::from("x")).http_status(), 500);

    assert_eq!(AppError::EmailAlreadyExists.message(), "Email already exists");
    assert_eq!(AppError::InvalidCredentials.message(), "Invalid credentials");
    assert_eq!(AppError::TokenExpired.message(), "Token has expired");
    assert_eq!(AppError::TokenInvalid.message(), "Token validation failed");
    assert_eq!(AppError::NotFound(String::from("gone")).message(), "gone");
    assert_eq!(AppError::ValidationError(String::from("x")).message(), "Validation error");
    assert_eq!(
        AppError::HashingError(String::from("x")).message(),
        "Error during password hashing"
    );
    assert_eq!(
        AppError::RepositoryError(String::from("x")).message(),
        "Database error occurred"
    );

    let body = ErrorResponse::from_app_error(AppError::RepositoryError(String::from("secret")));
    assert_eq!(body.status, "error");
    assert_eq!(body.message, "Database error occurred");
}

#[test]
fn known_image_types_map_to_extensions() {
    let files = FileService::new();
    assert_eq!(files.get_extension_from_mime("image/jpeg"), Some("jpg"));
    assert_eq!(files.get_extension_from_mime("image/png"), Some("png"));
    assert_eq!(files.get_extension_from_mime("image/gif"), None);
    assert_eq!(files.get_extension_from_mime(""), None);
}

#[test]
fn repositories_carry_their_pool() {
    let categories = CategoryRepository::new(11u32);
    let comments = CommentRepository::new(22u32);
    let posts = PostRepository::new(33u32);
    let users = UserRepository::new(44u32);
    assert_eq!(*categories.pool(), 11);
    assert_eq!(*comments.pool(), 22);
    assert_eq!(*posts.pool(), 33);
    assert_eq!(*users.pool(), 44);
}

#[test]
fn category_response_keeps_the_fields() {
    let resp = CategoryResponse::from(Category { id: 3, name: String::from("news") });
    assert_eq!(resp.id, 3);
    assert_eq!(resp.name, "news");
}
