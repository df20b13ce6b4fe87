use blog_core::auth::{verify_jwt, AuthConfig, AuthUser};
use blog_core::error::{AppError, StorageError};
use blog_core::models::{
    BlogPost, CreatePostRequest, LoginRequest, RegisterRequest, UpdatePostRequest, User,
};
use blog_core::oid::ObjectId;
use blog_core::password::verify_password;
use blog_core::routes::{
    conclude_login, create_post, delete_post, get_post, get_posts, is_owner, login, merge,
    register, register_user, reply_token, resume, start, update_post,
};
use blog_core::steps::{
    Listing, Pending, PostDeletion, PostUpdate, Registration, Reply, Request, Step,
};
use blog_core::storage::{unexpected, Action, Event};

const ALICE: &str = "64b7f3a2c1d4e5f601234567";
const BOB: &str = "64b7f3a2c1d4e5f6012345ff";
const POST: &str = "0123456789abcdef01234567";
const NOW: usize = 1_700_000_000;
// A digest of "pw" with a low work factor, so that the checks run fast.
const PW_DIGEST: &str = "$2b$04$EGdrhbKUv8Oc9vGiXX0HQOxSg445d458Muh7DAHskb6QbtCvdxcie";
const PW: &str = "correctbatteryhorsestapler";

fn config() -> AuthConfig {
    AuthConfig::new("secret".to_string())
}

fn oid(text: &str) -> ObjectId {
    ObjectId::parse(text).unwrap()
}

fn alice_request() -> RegisterRequest {
    RegisterRequest {
        username: "alice".to_string(),
        email: "a@x.com".to_string(),
        password: "pw".to_string(),
        phonenumber: "555".to_string(),
    }
}

fn alice(id: Option<ObjectId>, digest: &str) -> User {
    User {
        id,
        username: "alice".to_string(),
        password: digest.to_string(),
        email: "a@x.com".to_string(),
        phonenumber: "555".to_string(),
    }
}

fn post(id: Option<ObjectId>, title: &str, content: &str, author: &str) -> BlogPost {
    BlogPost { id, title: title.to_string(), content: content.to_string(), author_id: oid(author) }
}

fn down() -> StorageError {
    StorageError { code: None, message: "connection refused".to_string() }
}

fn duplicate() -> StorageError {
    StorageError { code: Some(11000), message: "E11000 duplicate key error".to_string() }
}

fn refused(e: AppError) -> Step {
    Step::Finish(Err(e))
}

fn bad_request(message: &str) -> Step {
    refused(AppError::BadRequest(message.to_string()))
}

fn not_authorized(message: &str) -> Step {
    refused(AppError::Auth(message.to_string()))
}

fn not_found(message: &str) -> Step {
    refused(AppError::NotFound(message.to_string()))
}

fn login_request(password: &str) -> LoginRequest {
    LoginRequest { email: "a@x.com".to_string(), password: password.to_string() }
}

#[test]
fn register_starts_with_a_search_for_the_email() {
    assert_eq!(
        start(Request::Register(alice_request())),
        Step::Ask(
            Pending::Register(Registration::Lookup(alice_request())),
            Action::FindUserByEmail("a@x.com".to_string())
        )
    );
}

#[test]
fn register_refuses_a_taken_email() {
    let found = Event::User(Some(alice(Some(oid(ALICE)), PW_DIGEST)));
    assert_eq!(
        register(Registration::Lookup(alice_request()), found),
        bad_request("Email already in use")
    );
}

#[test]
fn register_stores_the_digest_not_the_password() {
    let step = register(Registration::Lookup(alice_request()), Event::User(None));
    match step {
        Step::Ask(Pending::Register(Registration::Insert(kept)), Action::InsertUser(user)) => {
            assert_eq!(kept, user);
            assert_eq!(user.id, None);
            assert_eq!(user.username, "alice");
            assert_eq!(user.email, "a@x.com");
            assert_eq!(user.phonenumber, "555");
            assert_ne!(user.password, "pw");
            assert!(user.password.starts_with("$2b$10$"));
            assert!(verify_password("pw", &user.password));
        }
        other => panic!("{:?}", other),
    }
}

#[test]
fn register_user_takes_the_digest_as_it_is() {
    let step = register_user(alice_request(), Ok("digest".to_string()));
    assert_eq!(
        step,
        Step::Ask(
            Pending::Register(Registration::Insert(alice(None, "digest"))),
            Action::InsertUser(alice(None, "digest"))
        )
    );
}

#[test]
fn register_user_passes_the_failure_on() {
    let failure = AppError::BadRequest("Failed to hash password".to_string());
    assert_eq!(
        register_user(alice_request(), Err(failure)),
        bad_request("Failed to hash password")
    );
}

#[test]
fn register_replies_the_user_once_stored() {
    assert_eq!(
        register(Registration::Insert(alice(None, PW_DIGEST)), Event::Done),
        Step::Finish(Ok(Reply::User(alice(None, PW_DIGEST))))
    );
}

#[test]
fn register_reports_a_refused_insert_as_a_taken_email() {
    assert_eq!(
        register(Registration::Insert(alice(None, PW_DIGEST)), Event::Failed(duplicate())),
        bad_request("Email already in use")
    );
}

#[test]
fn register_reports_other_storage_failures_as_they_are() {
    assert_eq!(
        register(Registration::Insert(alice(None, PW_DIGEST)), Event::Failed(down())),
        refused(AppError::MongoDb(down()))
    );
    assert_eq!(
        register(Registration::Lookup(alice_request()), Event::Failed(down())),
        refused(AppError::MongoDb(down()))
    );
    assert_eq!(
        register(Registration::Lookup(alice_request()), Event::Failed(duplicate())),
        refused(AppError::MongoDb(duplicate()))
    );
}

#[test]
fn login_starts_with_a_search_for_the_email() {
    assert_eq!(
        start(Request::Login(login_request("pw"))),
        Step::Ask(Pending::Login(login_request("pw")), Action::FindUserByEmail("a@x.com".to_string()))
    );
}

#[test]
fn login_issues_a_token_to_the_user() {
    let found = Event::User(Some(alice(Some(oid(ALICE)), PW_DIGEST)));
    match login(login_request(PW), found, &config(), NOW) {
        Step::Finish(Ok(Reply::Token(token))) => {
            let claims = verify_jwt(&config(), &token, NOW).unwrap();
            assert_eq!(claims.sub, ALICE);
            assert_eq!(claims.exp, NOW + 3600);
        }
        other => panic!("{:?}", other),
    }
}

#[test]
fn login_fails_alike_for_unknown_user_and_wrong_password() {
    let unknown = login(login_request(PW), Event::User(None), &config(), NOW);
    let found = Event::User(Some(alice(Some(oid(ALICE)), PW_DIGEST)));
    let wrong = login(login_request("guess"), found, &config(), NOW);
    assert_eq!(unknown, not_authorized("Invalid credentials"));
    assert_eq!(wrong, unknown);
}

#[test]
fn login_fails_alike_for_an_unreadable_digest() {
    let found = Event::User(Some(alice(Some(oid(ALICE)), "plain")));
    assert_eq!(
        login(login_request("plain"), found, &config(), NOW),
        not_authorized("Invalid credentials")
    );
}

#[test]
fn login_reports_a_storage_failure() {
    assert_eq!(
        login(login_request(PW), Event::Failed(down()), &config(), NOW),
        refused(AppError::MongoDb(down()))
    );
}

#[test]
fn login_of_a_user_without_identifier_is_a_storage_failure() {
    let found = Event::User(Some(alice(None, PW_DIGEST)));
    assert_eq!(login(login_request(PW), found, &config(), NOW), refused(unexpected()));
    assert_eq!(unexpected().status_code(), 500);
    assert_eq!(unexpected().message(), "Unexpected reply from storage");
}

#[test]
fn conclude_login_decides_on_the_check() {
    let user = alice(Some(oid(ALICE)), PW_DIGEST);
    assert_eq!(
        conclude_login(&user, false, &config(), NOW),
        not_authorized("Invalid credentials")
    );
    assert!(matches!(
        conclude_login(&user, true, &config(), NOW),
        Step::Finish(Ok(Reply::Token(_)))
    ));
}

#[test]
fn reply_token_wraps_either_outcome() {
    assert_eq!(
        reply_token(Ok("t".to_string())),
        Step::Finish(Ok(Reply::Token("t".to_string())))
    );
    assert_eq!(
        reply_token(Err(AppError::Auth("Failed to create token".to_string()))),
        not_authorized("Failed to create token")
    );
}

#[test]
fn create_post_sets_the_caller_as_author() {
    let body = CreatePostRequest { title: "Hi".to_string(), content: "World".to_string() };
    assert_eq!(
        start(Request::CreatePost(AuthUser(ALICE.to_string()), body)),
        Step::Ask(
            Pending::CreatePost(post(None, "Hi", "World", ALICE)),
            Action::InsertPost(post(None, "Hi", "World", ALICE))
        )
    );
}

#[test]
fn create_post_refuses_an_identity_that_is_no_identifier() {
    for caller in ["", "alice", "64b7f3a2c1d4e5f60123456", "64b7f3a2c1d4e5f60123456z"] {
        let body = CreatePostRequest { title: "Hi".to_string(), content: "World".to_string() };
        assert_eq!(
            start(Request::CreatePost(AuthUser(caller.to_string()), body)),
            bad_request("Invalid user ID")
        );
    }
}

#[test]
fn create_post_replies_the_post_once_stored() {
    assert_eq!(
        create_post(post(None, "Hi", "World", ALICE), Event::Done),
        Step::Finish(Ok(Reply::Post(post(None, "Hi", "World", ALICE))))
    );
    assert_eq!(
        create_post(post(None, "Hi", "World", ALICE), Event::Failed(down())),
        refused(AppError::MongoDb(down()))
    );
}

#[test]
fn get_posts_reads_the_cursor_to_its_end() {
    assert_eq!(
        start(Request::GetPosts),
        Step::Ask(Pending::GetPosts(Listing::Open), Action::FindPosts)
    );
    assert_eq!(
        get_posts(Listing::Open, Event::Done),
        Step::Ask(Pending::GetPosts(Listing::Next(vec![])), Action::NextPost)
    );
    let first = post(Some(oid(POST)), "a", "b", ALICE);
    let second = post(Some(oid(BOB)), "c", "d", BOB);
    assert_eq!(
        get_posts(Listing::Next(vec![]), Event::Post(Some(first.clone()))),
        Step::Ask(Pending::GetPosts(Listing::Next(vec![first.clone()])), Action::NextPost)
    );
    assert_eq!(
        get_posts(Listing::Next(vec![first.clone()]), Event::Post(Some(second.clone()))),
        Step::Ask(
            Pending::GetPosts(Listing::Next(vec![first.clone(), second.clone()])),
            Action::NextPost
        )
    );
    assert_eq!(
        get_posts(Listing::Next(vec![first.clone(), second.clone()]), Event::Post(None)),
        Step::Finish(Ok(Reply::Posts(vec![first, second])))
    );
}

#[test]
fn get_posts_of_an_empty_store_is_empty() {
    assert_eq!(
        get_posts(Listing::Next(vec![]), Event::Post(None)),
        Step::Finish(Ok(Reply::Posts(vec![])))
    );
}

#[test]
fn get_posts_reports_a_storage_failure() {
    assert_eq!(get_posts(Listing::Open, Event::Failed(down())), refused(AppError::MongoDb(down())));
    let first = post(Some(oid(POST)), "a", "b", ALICE);
    assert_eq!(
        get_posts(Listing::Next(vec![first]), Event::Failed(down())),
        refused(AppError::MongoDb(down()))
    );
}

#[test]
fn get_post_wants_an_identifier() {
    assert_eq!(
        start(Request::GetPost(POST.to_string())),
        Step::Ask(Pending::GetPost, Action::FindPost(oid(POST)))
    );
    assert_eq!(start(Request::GetPost("42".to_string())), bad_request("Invalid ID"));
    assert_eq!(start(Request::GetPost(String::new())), bad_request("Invalid ID"));
}

#[test]
fn get_post_replies_the_post_or_not_found() {
    let found = post(Some(oid(POST)), "Hi", "World", ALICE);
    assert_eq!(
        get_post(Event::Post(Some(found.clone()))),
        Step::Finish(Ok(Reply::Post(found)))
    );
    assert_eq!(get_post(Event::Post(None)), not_found("Post not found"));
    assert_eq!(get_post(Event::Failed(down())), refused(AppError::MongoDb(down())));
}

fn update(title: Option<&str>, content: Option<&str>) -> UpdatePostRequest {
    UpdatePostRequest {
        title: title.map(|t| t.to_string()),
        content: content.map(|c| c.to_string()),
    }
}

fn update_lookup(caller: &str, body: UpdatePostRequest) -> PostUpdate {
    PostUpdate::Lookup { caller: AuthUser(caller.to_string()), id: oid(POST), update: body }
}

#[test]
fn update_post_loads_the_post_first() {
    assert_eq!(
        start(Request::UpdatePost(AuthUser(ALICE.to_string()), POST.to_string(), update(None, None))),
        Step::Ask(
            Pending::UpdatePost(update_lookup(ALICE, update(None, None))),
            Action::FindPost(oid(POST))
        )
    );
    assert_eq!(
        start(Request::UpdatePost(AuthUser(ALICE.to_string()), "x".to_string(), update(None, None))),
        bad_request("Invalid ID")
    );
}

#[test]
fn update_post_merges_the_supplied_fields() {
    let stored = || Event::Post(Some(post(Some(oid(POST)), "T", "C", ALICE)));
    let write = |title: &str, content: &str| {
        Step::Ask(
            Pending::UpdatePost(PostUpdate::Write { id: oid(POST) }),
            Action::UpdatePost {
                id: oid(POST),
                title: title.to_string(),
                content: content.to_string(),
            },
        )
    };
    assert_eq!(update_post(update_lookup(ALICE, update(None, Some("C2"))), stored()), write("T", "C2"));
    assert_eq!(update_post(update_lookup(ALICE, update(Some("T2"), None)), stored()), write("T2", "C"));
    assert_eq!(
        update_post(update_lookup(ALICE, update(Some("T2"), Some("C2"))), stored()),
        write("T2", "C2")
    );
    assert_eq!(update_post(update_lookup(ALICE, update(None, None)), stored()), write("T", "C"));
    assert_eq!(update_post(update_lookup(ALICE, update(Some(""), None)), stored()), write("", "C"));
}

#[test]
fn update_post_is_for_the_author_only() {
    let stored = Event::Post(Some(post(Some(oid(POST)), "T", "C", ALICE)));
    assert_eq!(
        update_post(update_lookup(BOB, update(Some("T2"), Some("C2"))), stored),
        not_authorized("Not authorized to update this post")
    );
}

#[test]
fn update_post_of_a_missing_post_is_not_found() {
    assert_eq!(
        update_post(update_lookup(ALICE, update(None, None)), Event::Post(None)),
        not_found("Post not found")
    );
    assert_eq!(
        update_post(update_lookup(ALICE, update(None, None)), Event::Failed(down())),
        refused(AppError::MongoDb(down()))
    );
}

#[test]
fn update_post_reads_the_post_back() {
    assert_eq!(
        update_post(PostUpdate::Write { id: oid(POST) }, Event::Done),
        Step::Ask(Pending::UpdatePost(PostUpdate::Reload), Action::FindPost(oid(POST)))
    );
    assert_eq!(
        update_post(PostUpdate::Write { id: oid(POST) }, Event::Failed(down())),
        refused(AppError::MongoDb(down()))
    );
    let reloaded = post(Some(oid(POST)), "T", "C2", ALICE);
    assert_eq!(
        update_post(PostUpdate::Reload, Event::Post(Some(reloaded.clone()))),
        Step::Finish(Ok(Reply::Post(reloaded)))
    );
    assert_eq!(
        update_post(PostUpdate::Reload, Event::Post(None)),
        not_found("Post not found after update")
    );
    assert_eq!(
        update_post(PostUpdate::Reload, Event::Failed(down())),
        refused(AppError::MongoDb(down()))
    );
}

fn delete_lookup(caller: &str) -> PostDeletion {
    PostDeletion::Lookup { caller: AuthUser(caller.to_string()), id: oid(POST) }
}

#[test]
fn delete_post_loads_the_post_first() {
    assert_eq!(
        start(Request::DeletePost(AuthUser(ALICE.to_string()), POST.to_string())),
        Step::Ask(Pending::DeletePost(delete_lookup(ALICE)), Action::FindPost(oid(POST)))
    );
    assert_eq!(
        start(Request::DeletePost(AuthUser(ALICE.to_string()), "nope".to_string())),
        bad_request("Invalid ID")
    );
}

#[test]
fn delete_post_is_for_the_author_only() {
    let stored = || Event::Post(Some(post(Some(oid(POST)), "T", "C", ALICE)));
    assert_eq!(
        delete_post(delete_lookup(BOB), stored()),
        not_authorized("Not authorized to delete this post")
    );
    assert_eq!(
        delete_post(delete_lookup(ALICE), stored()),
        Step::Ask(Pending::DeletePost(PostDeletion::Write), Action::DeletePost(oid(POST)))
    );
}

#[test]
fn delete_post_ends_without_content() {
    assert_eq!(delete_post(PostDeletion::Write, Event::Done), Step::Finish(Ok(Reply::NoContent)));
    assert_eq!(
        delete_post(PostDeletion::Write, Event::Failed(down())),
        refused(AppError::MongoDb(down()))
    );
    assert_eq!(delete_post(delete_lookup(ALICE), Event::Post(None)), not_found("Post not found"));
    assert_eq!(
        delete_post(delete_lookup(ALICE), Event::Failed(down())),
        refused(AppError::MongoDb(down()))
    );
}

#[test]
fn ownership_goes_by_the_lower_case_text() {
    let owned = post(Some(oid(POST)), "T", "C", ALICE);
    assert!(is_owner(&AuthUser(ALICE.to_string()), &owned));
    assert!(!is_owner(&AuthUser(BOB.to_string()), &owned));
    assert!(!is_owner(&AuthUser(ALICE.to_uppercase()), &owned));
    assert!(!is_owner(&AuthUser(String::new()), &owned));
}

#[test]
fn merge_prefers_the_supplied_text() {
    assert_eq!(merge(Some("new".to_string()), "old".to_string()), "new");
    assert_eq!(merge(None, "old".to_string()), "old");
    assert_eq!(merge(Some(String::new()), "old".to_string()), "");
}

#[test]
fn answer_that_does_not_fit_is_a_storage_failure() {
    let a_post = || Event::Post(Some(post(Some(oid(POST)), "T", "C", ALICE)));
    let a_user = || Event::User(Some(alice(Some(oid(ALICE)), PW_DIGEST)));
    assert_eq!(register(Registration::Lookup(alice_request()), a_post()), refused(unexpected()));
    assert_eq!(register(Registration::Lookup(alice_request()), Event::Done), refused(unexpected()));
    assert_eq!(register(Registration::Insert(alice(None, "d")), a_user()), refused(unexpected()));
    assert_eq!(login(login_request(PW), Event::Done, &config(), NOW), refused(unexpected()));
    assert_eq!(login(login_request(PW), a_post(), &config(), NOW), refused(unexpected()));
    assert_eq!(create_post(post(None, "T", "C", ALICE), a_post()), refused(unexpected()));
    assert_eq!(get_posts(Listing::Open, a_post()), refused(unexpected()));
    assert_eq!(get_posts(Listing::Next(vec![]), Event::Done), refused(unexpected()));
    assert_eq!(get_post(Event::Done), refused(unexpected()));
    assert_eq!(get_post(a_user()), refused(unexpected()));
    assert_eq!(update_post(update_lookup(ALICE, update(None, None)), Event::Done), refused(unexpected()));
    assert_eq!(update_post(PostUpdate::Write { id: oid(POST) }, a_post()), refused(unexpected()));
    assert_eq!(update_post(PostUpdate::Reload, Event::Done), refused(unexpected()));
    assert_eq!(delete_post(delete_lookup(ALICE), a_user()), refused(unexpected()));
    assert_eq!(delete_post(PostDeletion::Write, a_post()), refused(unexpected()));
}

#[test]
fn resume_goes_on_with_the_waiting_handler() {
    let found = post(Some(oid(POST)), "T", "C", ALICE);
    assert_eq!(
        resume(Pending::GetPost, Event::Post(Some(found.clone())), &config(), NOW),
        Step::Finish(Ok(Reply::Post(found.clone())))
    );
    assert_eq!(
        resume(Pending::CreatePost(found.clone()), Event::Done, &config(), NOW),
        Step::Finish(Ok(Reply::Post(found.clone())))
    );
    assert_eq!(
        resume(Pending::GetPosts(Listing::Next(vec![found.clone()])), Event::Post(None), &config(), NOW),
        Step::Finish(Ok(Reply::Posts(vec![found.clone()])))
    );
    assert_eq!(
        resume(Pending::DeletePost(PostDeletion::Write), Event::Done, &config(), NOW),
        Step::Finish(Ok(Reply::NoContent))
    );
    assert_eq!(
        resume(Pending::UpdatePost(PostUpdate::Reload), Event::Post(None), &config(), NOW),
        not_found("Post not found after update")
    );
    assert_eq!(
        resume(Pending::Login(login_request(PW)), Event::User(None), &config(), NOW),
        not_authorized("Invalid credentials")
    );
    assert_eq!(
        resume(
            Pending::Register(Registration::Insert(alice(None, PW_DIGEST))),
            Event::Failed(duplicate()),
            &config(),
            NOW
        ),
        bad_request("Email already in use")
    );
}

#[test]
fn success_is_reported_with_200_or_204() {
    assert_eq!(Reply::User(alice(None, "d")).status_code(), 200);
    assert_eq!(Reply::Token("t".to_string()).status_code(), 200);
    assert_eq!(Reply::Post(post(None, "T", "C", ALICE)).status_code(), 200);
    assert_eq!(Reply::Posts(vec![]).status_code(), 200);
    assert_eq!(Reply::NoContent.status_code(), 204);
}
