use axum::http::header::AUTHORIZATION;
use axum::http::{Extensions, HeaderMap, HeaderValue};
use rs_kafka_mongo::auth::handlers::{
    login, login_at, signup, signup_after_insert, signup_after_lookup, signup_register,
};
use rs_kafka_mongo::auth::middleware::auth_middleware;
use rs_kafka_mongo::auth::models::{LoginRequest, SignupRequest, User, UserId};
use rs_kafka_mongo::auth::utils::{hash_password, validate_jwt_at, verify_password};
use rs_kafka_mongo::config::Config;
use rs_kafka_mongo::db::mongo::MongoError;
use rs_kafka_mongo::db::oid::ObjectId;
use rs_kafka_mongo::status::Reply;

fn config() -> Config {
    Config {
        server_addr: "0.0.0.0:8000".to_string(),
        database_url: "mongodb://localhost:27017".to_string(),
        database_name: "shop".to_string(),
        kafka_brokers: "localhost:9092".to_string(),
        kafka_product_events_topic: "product_events".to_string(),
        jwt_secret: "s3cr3t".to_string(),
        jwt_expiration_hours: 24,
    }
}

fn request(username: &str, password: &str) -> SignupRequest {
    SignupRequest { username: username.to_string(), password: password.to_string() }
}

fn credentials(username: &str, password: &str) -> LoginRequest {
    LoginRequest { username: username.to_string(), password: password.to_string() }
}

fn copy_of(user: &User) -> User {
    User {
        _id: user._id,
        username: user.username.clone(),
        password_hash: user.password_hash.clone(),
    }
}

fn find(store: &[User], username: &str) -> Result<Option<User>, MongoError> {
    Ok(store.iter().find(|u| u.username == username).map(copy_of))
}

/// Plays the part of the service around the handlers: runs one registration
/// against a store that never fails.
fn register(store: &mut Vec<User>, payload: &SignupRequest) -> Reply {
    let name = match signup(payload) {
        Ok(name) => name,
        Err(reply) => return reply,
    };
    let found = find(store, &name);
    let user = match signup_after_lookup(payload, found) {
        Ok(user) => user,
        Err(reply) => return reply,
    };
    let id = user._id.unwrap();
    store.push(user);
    signup_after_insert(Ok(id))
}

fn reply_is(reply: &Reply, status: u16, body: &str) -> bool {
    reply.status == status && reply.body == body
}

#[test]
fn empty_username_or_password_is_a_bad_request() {
    for (u, p) in [("", "pw"), ("alice", ""), ("", "")] {
        let reply = signup(&request(u, p)).unwrap_err();
        assert!(reply_is(&reply, 400, "Username and password cannot be empty"));
    }
}

#[test]
fn valid_request_goes_on_to_look_the_name_up() {
    assert_eq!(signup(&request("alice", "secret123")).unwrap(), "alice");
    assert_eq!(signup(&request(" ", " ")).unwrap(), " ");
}

#[test]
fn taken_name_is_a_conflict() {
    let taken = User {
        _id: Some(ObjectId { bytes: [1; 12] }),
        username: "alice".to_string(),
        password_hash: "x".to_string(),
    };
    let reply = signup_after_lookup(&request("alice", "pw"), Ok(Some(taken))).unwrap_err();
    assert!(reply_is(&reply, 409, "Username already exists"));
}

#[test]
fn failing_lookup_is_a_fault_of_the_service() {
    let failure = Err(MongoError::MongoDb("connection refused".to_string()));
    let reply = signup_after_lookup(&request("alice", "pw"), failure).unwrap_err();
    assert!(reply_is(&reply, 500, "Failed to check username availability"));
}

#[test]
fn free_name_gets_a_record_with_a_digest_of_the_password() {
    let user = signup_after_lookup(&request("alice", "secret123"), Ok(None)).unwrap();
    assert_eq!(user.username, "alice");
    assert!(user._id.is_some());
    assert_ne!(user.password_hash, "secret123");
    assert!(verify_password("secret123", &user.password_hash).unwrap());
    assert!(!verify_password("secret124", &user.password_hash).unwrap());
}

#[test]
fn two_records_get_two_identifiers() {
    let a = signup_after_lookup(&request("alice", "pw"), Ok(None)).unwrap();
    let b = signup_after_lookup(&request("bob", "pw"), Ok(None)).unwrap();
    assert_ne!(a._id.unwrap().bytes, b._id.unwrap().bytes);
}

#[test]
fn record_is_built_from_the_digest_and_identifier_given() {
    let id = ObjectId { bytes: [7; 12] };
    let user = signup_register(&request("alice", "pw"), Ok("digest".to_string()), id).unwrap();
    assert_eq!(user._id.unwrap().bytes, [7; 12]);
    assert_eq!(user.username, "alice");
    assert_eq!(user.password_hash, "digest");
}

#[test]
fn failed_digest_is_a_fault_of_the_service() {
    let id = ObjectId { bytes: [7; 12] };
    let failure = verify_password("pw", "not a digest").map(|_| String::new());
    assert!(failure.is_err());
    let reply = signup_register(&request("alice", "pw"), failure, id).unwrap_err();
    assert!(reply_is(&reply, 500, "Failed to process registration"));
}

#[test]
fn insert_outcome_closes_the_registration() {
    let reply = signup_after_insert(Ok(ObjectId { bytes: [0; 12] }));
    assert!(reply_is(&reply, 201, "User created successfully"));
    let reply = signup_after_insert(Err(MongoError::DuplicateKey("alice".to_string())));
    assert!(reply_is(&reply, 500, "Failed to register user"));
}

#[test]
fn signup_succeeds_once_per_name() {
    let mut store = Vec::new();
    let first = register(&mut store, &request("alice", "secret123"));
    assert!(reply_is(&first, 201, "User created successfully"));
    assert_eq!(store.len(), 1);
    let second = register(&mut store, &request("alice", "secret123"));
    assert!(reply_is(&second, 409, "Username already exists"));
    let third = register(&mut store, &request("alice", "another"));
    assert!(reply_is(&third, 409, "Username already exists"));
    assert_eq!(store.len(), 1);
    let other = register(&mut store, &request("bob", "secret123"));
    assert!(reply_is(&other, 201, "User created successfully"));
    assert_eq!(store.len(), 2);
}

#[test]
fn unknown_user_and_wrong_password_look_the_same() {
    let cfg = config();
    let unknown = login_at(&credentials("nobody", "pw"), &cfg, Ok(None), 0).unwrap_err();
    assert!(reply_is(&unknown, 401, "Invalid credentials"));
    let user = User {
        _id: Some(ObjectId { bytes: [1; 12] }),
        username: "alice".to_string(),
        password_hash: hash_password("secret123").unwrap(),
    };
    let wrong = login_at(&credentials("alice", "secret124"), &cfg, Ok(Some(user)), 0);
    assert!(reply_is(&wrong.unwrap_err(), 401, "Invalid credentials"));
}

#[test]
fn faults_during_login_look_the_same() {
    let cfg = config();
    let failure = Err(MongoError::MongoDb("down".to_string()));
    let reply = login_at(&credentials("alice", "pw"), &cfg, failure, 0).unwrap_err();
    assert!(reply_is(&reply, 500, "Login failed"));
    let broken = User {
        _id: Some(ObjectId { bytes: [1; 12] }),
        username: "alice".to_string(),
        password_hash: "not a digest".to_string(),
    };
    let reply = login_at(&credentials("alice", "pw"), &cfg, Ok(Some(broken)), 0).unwrap_err();
    assert!(reply_is(&reply, 500, "Login failed"));
    let without_id = User {
        _id: None,
        username: "alice".to_string(),
        password_hash: hash_password("pw").unwrap(),
    };
    let reply = login_at(&credentials("alice", "pw"), &cfg, Ok(Some(without_id)), 0);
    assert!(reply_is(&reply.unwrap_err(), 500, "Login failed"));
    let mut unissuable = config();
    unissuable.jwt_expiration_hours = u64::MAX;
    let user = User {
        _id: Some(ObjectId { bytes: [1; 12] }),
        username: "alice".to_string(),
        password_hash: hash_password("pw").unwrap(),
    };
    let reply = login_at(&credentials("alice", "pw"), &unissuable, Ok(Some(user)), 0);
    assert!(reply_is(&reply.unwrap_err(), 500, "Login failed"));
}

#[test]
fn right_password_gets_a_bearer_token_for_the_identifier() {
    let cfg = config();
    let id = ObjectId { bytes: [0x65, 0xa0, 0xf0, 0xc2, 0xd4, 0xe5, 0xf6, 0xa7, 0xb8, 0xc9, 0xd0, 0xe1] };
    let user = User {
        _id: Some(id),
        username: "alice".to_string(),
        password_hash: hash_password("secret123").unwrap(),
    };
    let body = login_at(&credentials("alice", "secret123"), &cfg, Ok(Some(user)), 1_000).unwrap();
    assert_eq!(body.token_type, "Bearer");
    let claims = validate_jwt_at(&body.token, &cfg, 1_000).unwrap();
    assert_eq!(claims.sub, "65a0f0c2d4e5f6a7b8c9d0e1");
    assert_eq!(claims.exp, 1_000 + 24 * 3600);
}

#[test]
fn alice_signs_up_logs_in_and_passes_the_guard() {
    let cfg = config();
    let mut store = Vec::new();
    let created = register(&mut store, &request("alice", "secret123"));
    assert_eq!(created.status, 201);
    let alice_id = store[0]._id.unwrap();
    let hex: String = alice_id.bytes.iter().map(|b| format!("{:02x}", b)).collect();

    let found = find(&store, "alice");
    let body = login(&credentials("alice", "secret123"), &cfg, found).unwrap();
    assert_eq!(body.token_type, "Bearer");
    assert!(!body.token.is_empty());

    let mut headers = HeaderMap::new();
    let value = format!("Bearer {}", body.token);
    headers.insert(AUTHORIZATION, HeaderValue::from_str(&value).unwrap());
    let mut extensions = Extensions::new();
    assert!(auth_middleware(&headers, &mut extensions, &cfg).is_ok());
    assert_eq!(UserId::from_request_parts(&extensions).unwrap().0, hex);

    let mut extensions = Extensions::new();
    let why = auth_middleware(&HeaderMap::new(), &mut extensions, &cfg).unwrap_err();
    assert_eq!(why.status(), 401);

    let mut mutated: Vec<char> = body.token.chars().collect();
    let last = mutated.len() - 1;
    mutated[last] = if mutated[last] == 'A' { 'B' } else { 'A' };
    let mutated: String = mutated.into_iter().collect();
    let mut headers = HeaderMap::new();
    let value = format!("Bearer {}", mutated);
    headers.insert(AUTHORIZATION, HeaderValue::from_str(&value).unwrap());
    let mut extensions = Extensions::new();
    let why = auth_middleware(&headers, &mut extensions, &cfg).unwrap_err();
    assert_eq!(why.status(), 401);
    assert!(extensions.is_empty());
}
