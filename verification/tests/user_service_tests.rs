use std::sync::Arc;
use std::sync::Mutex;

use example_sea_query::directory::MemoryUserRepository;
use example_sea_query::directory::UserRepositoryTrait;
use example_sea_query::errors::AppError;
use example_sea_query::hashing::Hashing;
use example_sea_query::model::User;
use example_sea_query::request::CreateUserRequest;
use example_sea_query::request::UpdateUserRequest;
use example_sea_query::users::UserService;

/// A directory that records the password field handed to `create_user`,
/// so a test can see what the service actually stores.
struct ProbeDirectory {
    inner: MemoryUserRepository,
    seen_password: Arc<Mutex<Option<String>>>,
}

impl UserRepositoryTrait for ProbeDirectory {
    fn find_by_email_exists(&self, email: &str) -> Result<bool, AppError> {
        self.inner.find_by_email_exists(email)
    }

    fn create_user(&mut self, input: &CreateUserRequest) -> Result<User, AppError> {
        *self.seen_password.lock().unwrap() = Some(input.password.clone());
        self.inner.create_user(input)
    }

    fn find_by_email(&self, email: &str) -> Result<Option<User>, AppError> {
        self.inner.find_by_email(email)
    }

    fn find_by_id(&self, id: i32) -> Result<Option<User>, AppError> {
        self.inner.find_by_id(id)
    }

    fn update_user(&mut self, input: &UpdateUserRequest) -> Result<User, AppError> {
        self.inner.update_user(input)
    }

    fn delete_user(&mut self, email: &str) -> Result<(), AppError> {
        self.inner.delete_user(email)
    }
}

#[test]
fn the_service_stores_a_hash_never_the_plaintext() {
    let seen = Arc::new(Mutex::new(None));
    let probe = ProbeDirectory { inner: MemoryUserRepository::new(), seen_password: seen.clone() };
    let mut users = UserService::new(probe);
    let mut request = create_request("g@x.com");
    request.password = String::from("secret123");
    users.create_user(&request).unwrap();

    let stored = seen.lock().unwrap().clone().unwrap();
    assert_ne!(stored, "secret123");
    assert_eq!(stored.len(), 60);
    assert_eq!(Hashing::new().compare_password(&stored, "secret123"), Ok(()));
}

fn create_request(email: &str) -> CreateUserRequest {
    CreateUserRequest {
        firstname: String::from("Grace"),
        lastname: String::from("Hopper"),
        email: String::from(email),
        password: String::from("a-stored-hash"),
    }
}

#[test]
fn create_and_look_up_by_email() {
    let mut users = UserService::new(MemoryUserRepository::new());
    let created = users.create_user(&create_request("g@x.com")).unwrap();
    assert_eq!(created.status, "success");
    assert_eq!(created.message, "User created successfully");
    assert_eq!(created.data.id, 1);
    assert_eq!(created.data.email, "g@x.com");

    let found = users.find_user_by_email("g@x.com").unwrap().unwrap();
    assert_eq!(found.message, "User retrieved successfully");
    assert_eq!(found.data.id, 1);
    assert_eq!(found.data.firstname, "Grace");
}

#[test]
fn creating_a_duplicate_email_is_a_conflict() {
    let mut users = UserService::new(MemoryUserRepository::new());
    users.create_user(&create_request("g@x.com")).unwrap();
    let err = users.create_user(&create_request("g@x.com")).unwrap_err();
    assert_eq!(err.status, "error");
    assert_eq!(err.message, "Email already exists");
}

#[test]
fn existence_check_reports_both_ways() {
    let mut users = UserService::new(MemoryUserRepository::new());
    let absent = users.find_by_email_exists("g@x.com").unwrap();
    assert_eq!(absent.data, false);
    assert_eq!(absent.message, "User does not exist");
    users.create_user(&create_request("g@x.com")).unwrap();
    let present = users.find_by_email_exists("g@x.com").unwrap();
    assert_eq!(present.data, true);
    assert_eq!(present.message, "User exists");
}

#[test]
fn missing_email_lookup_is_not_found_with_the_email_named() {
    let users = UserService::new(MemoryUserRepository::new());
    let err = users.find_user_by_email("nobody@x.com").unwrap_err();
    assert_eq!(err.status, "error");
    assert_eq!(err.message, "User with email nobody@x.com not found");
}

#[test]
fn missing_id_lookup_is_not_found_with_the_id_named() {
    let users = UserService::<MemoryUserRepository>::new(MemoryUserRepository::new());
    let err = users.find_by_id(7).unwrap_err();
    assert_eq!(err.status, "error");
    assert_eq!(err.message, "User with id 7 not found");
    let negative = users.find_by_id(-3).unwrap_err();
    assert_eq!(negative.message, "User with id -3 not found");
    let extreme = users.find_by_id(i32::MIN).unwrap_err();
    assert_eq!(extreme.message, "User with id -2147483648 not found");
}

#[test]
fn find_by_id_returns_the_stored_profile() {
    let mut users = UserService::new(MemoryUserRepository::new());
    users.create_user(&create_request("g@x.com")).unwrap();
    let found = users.find_by_id(1).unwrap().unwrap();
    assert_eq!(found.data.email, "g@x.com");
    assert_eq!(found.data.lastname, "Hopper");
}

#[test]
fn update_changes_the_named_fields_and_keeps_the_rest() {
    let mut users = UserService::new(MemoryUserRepository::new());
    users.create_user(&create_request("g@x.com")).unwrap();
    let updated = users
        .update_user(&UpdateUserRequest {
            id: Some(1),
            firstname: Some(String::from("Grete")),
            lastname: None,
            email: None,
            password: None,
        })
        .unwrap()
        .unwrap();
    assert_eq!(updated.message, "User updated successfully");
    assert_eq!(updated.data.firstname, "Grete");
    assert_eq!(updated.data.lastname, "Hopper");
    assert_eq!(updated.data.email, "g@x.com");
}

#[test]
fn update_without_an_id_is_a_validation_error() {
    let mut users = UserService::new(MemoryUserRepository::new());
    let err = users
        .update_user(&UpdateUserRequest {
            id: None,
            firstname: None,
            lastname: None,
            email: None,
            password: None,
        })
        .unwrap_err();
    assert_eq!(err.status, "error");
    assert_eq!(err.message, "Validation error");
}

#[test]
fn delete_removes_the_record_and_tolerates_absence() {
    let mut users = UserService::new(MemoryUserRepository::new());
    users.create_user(&create_request("g@x.com")).unwrap();
    let deleted = users.delete_user("g@x.com").unwrap();
    assert_eq!(deleted.message, "User deleted successfully");
    assert_eq!(users.find_by_email_exists("g@x.com").unwrap().data, false);
    assert!(users.delete_user("g@x.com").is_ok());
}
