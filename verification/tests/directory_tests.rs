use example_sea_query::directory::MemoryUserRepository;
use example_sea_query::directory::UserRepositoryTrait;
use example_sea_query::errors::AppError;
use example_sea_query::request::CreateUserRequest;

fn create_request(email: &str) -> CreateUserRequest {
    CreateUserRequest {
        firstname: String::from("Alan"),
        lastname: String::from("Turing"),
        email: String::from(email),
        password: String::from("a-stored-hash"),
    }
}

#[test]
fn identifiers_are_handed_out_in_order() {
    let mut repo = MemoryUserRepository::new();
    let first = repo.create_user(&create_request("a@x.com")).unwrap();
    let second = repo.create_user(&create_request("b@x.com")).unwrap();
    assert_eq!(first.id, 1);
    assert_eq!(second.id, 2);
    assert_eq!(first.password, "a-stored-hash");
}

#[test]
fn duplicate_create_is_a_repository_error() {
    let mut repo = MemoryUserRepository::new();
    repo.create_user(&create_request("a@x.com")).unwrap();
    let err = repo.create_user(&create_request("a@x.com")).unwrap_err();
    assert!(matches!(err, AppError::RepositoryError(_)));
    assert_eq!(err.message(), "Database error occurred");
}

#[test]
fn lookups_see_exactly_what_was_stored() {
    let mut repo = MemoryUserRepository::new();
    repo.create_user(&create_request("a@x.com")).unwrap();
    assert_eq!(repo.find_by_email_exists("a@x.com"), Ok(true));
    assert_eq!(repo.find_by_email_exists("b@x.com"), Ok(false));

    let by_email = repo.find_by_email("a@x.com").unwrap().unwrap();
    assert_eq!(by_email.firstname, "Alan");
    let by_id = repo.find_by_id(1).unwrap().unwrap();
    assert_eq!(by_id.email, "a@x.com");
    assert!(repo.find_by_email("b@x.com").unwrap().is_none());
    assert!(repo.find_by_id(9).unwrap().is_none());
}

#[test]
fn delete_frees_the_email_for_reuse() {
    let mut repo = MemoryUserRepository::new();
    repo.create_user(&create_request("a@x.com")).unwrap();
    repo.delete_user("a@x.com").unwrap();
    assert_eq!(repo.find_by_email_exists("a@x.com"), Ok(false));
    let again = repo.create_user(&create_request("a@x.com")).unwrap();
    assert_eq!(again.id, 2);
}
