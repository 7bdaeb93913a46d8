use invite_auth::authentication::{authenticate, decide_login, found_users};
use invite_auth::errors::{ServiceError, StoreError};
use invite_auth::invitation::{create_invitation, create_invitation_at, invitation_saved};
use invite_auth::models::{
    AuthData, CreateInvitation, Invitation, RegisterUser, SlimUser, User, UserData,
};
use invite_auth::password::hash_password;
use invite_auth::registration::{
    found_invitations, invitation_id_from, parse_invitation_id, prepare_user, registered, select_invitation, user_for,
};
use invite_auth::service::{
    invite, invite_at, login, login_user, logout, redeem, register, register_at, who_am_i,
};
use invite_auth::store::MemoryStore;
use invite_auth::token::decode_token;

const ID_TEXT: &str = "67e55044-10b1-426f-9247-bb680e5fe0c8";
const ID: u128 = 0x67e55044_10b1_426f_9247_bb680e5fe0c8;
const OTHER_ID_TEXT: &str = "936da01f-9abd-4d9d-80c7-02af85c822a8";
const OTHER_ID: u128 = 0x936da01f_9abd_4d9d_80c7_02af85c822a8;
const NOW: i64 = 1_700_000_000_000_000;
const SECOND: i64 = 1_000_000;
const COST: u32 = 4;

fn request(id: &str, password: &str) -> RegisterUser {
    RegisterUser { invitation_id: id.to_string(), password: password.to_string() }
}

fn credentials(email: &str, password: &str) -> AuthData {
    AuthData { email: email.to_string(), password: password.to_string() }
}

fn invitation(id: u128, email: &str, expires_at: i64) -> Invitation {
    Invitation { id, email: email.to_string(), expires_at }
}

fn store_with(invitations: Vec<Invitation>) -> MemoryStore {
    let mut store = MemoryStore::new();
    for row in invitations {
        store.insert_invitation(row).unwrap();
    }
    store
}

#[test]
fn status_codes_and_messages() {
    assert_eq!(ServiceError::InvalidCredentials.status_code(), 400);
    assert_eq!(ServiceError::Unauthorized.status_code(), 401);
    assert_eq!(ServiceError::InvalidInvitation.status_code(), 404);
    assert_eq!(ServiceError::Conflict.status_code(), 409);
    assert_eq!(ServiceError::InternalError.status_code(), 500);
    assert_eq!(ServiceError::InvalidCredentials.message(), "Username and password don't match");
    assert_eq!(ServiceError::Unauthorized.message(), "Unauthorized");
    assert_eq!(ServiceError::InvalidInvitation.message(), "Invalid Invitation");
    assert_eq!(ServiceError::Conflict.message(), "Key already exists");
    assert_eq!(ServiceError::InternalError.message(), "Internal Server Error, Please try later");
}

#[test]
fn store_failures_are_mapped() {
    assert_eq!(ServiceError::from_store(StoreError::UniqueViolation), ServiceError::Conflict);
    assert_eq!(ServiceError::from_store(StoreError::Unavailable), ServiceError::InternalError);
}

#[test]
fn invitation_expires_a_day_after_issue() {
    let msg = CreateInvitation { email: "a@x.com".to_string() };
    let issued = create_invitation_at(&msg, ID, NOW).unwrap();
    assert_eq!(issued.id, ID);
    assert_eq!(issued.email, "a@x.com");
    assert_eq!(issued.expires_at, NOW + 86_400_000_000);
    assert!(issued.is_redeemable_at(NOW + 86_399_999_999));
    assert!(!issued.is_redeemable_at(NOW + 86_400_000_000));
    let direct = Invitation::issue(7, "b@x.com".to_string(), 0);
    assert_eq!(direct.expires_at, 86_400_000_000);
}

#[test]
fn invitation_deadline_out_of_range_is_internal_error() {
    let msg = CreateInvitation { email: "a@x.com".to_string() };
    assert_eq!(
        create_invitation_at(&msg, ID, i64::MAX).err(),
        Some(ServiceError::InternalError)
    );
    assert_eq!(
        create_invitation_at(&msg, ID, i64::MAX - 86_400_000_000).unwrap().expires_at,
        i64::MAX
    );
}

#[test]
fn fresh_invitations_differ() {
    let msg = CreateInvitation { email: "a@x.com".to_string() };
    let first = create_invitation(&msg).unwrap();
    let second = create_invitation(&msg).unwrap();
    assert_eq!(first.email, "a@x.com");
    assert_ne!(first.id, second.id);
    assert!(!first.is_redeemable_at(first.expires_at));
    assert!(first.is_redeemable_at(first.expires_at - 1));
}

#[test]
fn saved_invitation_is_passed_on() {
    let row = invitation(ID, "a@x.com", 5);
    assert_eq!(invitation_saved(Ok(row)).unwrap().id, ID);
    assert_eq!(
        invitation_saved(Err(StoreError::Unavailable)).err(),
        Some(ServiceError::InternalError)
    );
    assert_eq!(
        invitation_saved(Err(StoreError::UniqueViolation)).err(),
        Some(ServiceError::Conflict)
    );
}

#[test]
fn identifier_is_parsed() {
    assert_eq!(parse_invitation_id(&request(ID_TEXT, "pw")), Ok(ID));
    assert_eq!(
        parse_invitation_id(&request("67e5504410b1426f9247bb680e5fe0c8", "pw")),
        Ok(ID)
    );
    assert_eq!(invitation_id_from(Some(3)), Ok(3));
    assert_eq!(invitation_id_from(None), Err(ServiceError::InvalidInvitation));
}

#[test]
fn malformed_identifier_is_invalid_invitation() {
    for text in ["", "not-a-uuid", "67e55044-10b1-426f-9247-bb680e5fe0c", "1234"] {
        assert_eq!(
            parse_invitation_id(&request(text, "pw")),
            Err(ServiceError::InvalidInvitation)
        );
        let mut store = store_with(vec![invitation(ID, "a@x.com", NOW + SECOND)]);
        assert_eq!(
            register_at(&mut store, &request(text, "pw"), COST, NOW).err(),
            Some(ServiceError::InvalidInvitation)
        );
    }
}

#[test]
fn selection_takes_the_last_row_if_live() {
    assert_eq!(select_invitation(vec![], NOW).err(), Some(ServiceError::InvalidInvitation));
    let rows = vec![invitation(ID, "old@x.com", NOW + 5), invitation(ID, "new@x.com", NOW + 1)];
    assert_eq!(select_invitation(rows, NOW).unwrap().email, "new@x.com");
    let stale_last = vec![invitation(ID, "old@x.com", NOW + 5), invitation(ID, "new@x.com", NOW)];
    assert_eq!(select_invitation(stale_last, NOW).err(), Some(ServiceError::InvalidInvitation));
}

#[test]
fn expired_invitation_is_invalid() {
    let mut store = store_with(vec![invitation(ID, "a@x.com", NOW - SECOND)]);
    assert_eq!(
        register_at(&mut store, &request(ID_TEXT, "pw"), COST, NOW).err(),
        Some(ServiceError::InvalidInvitation)
    );
    assert!(store.users_by_email("a@x.com").is_empty());
}

#[test]
fn invitation_is_invalid_at_its_deadline_and_valid_just_before() {
    let mut store = store_with(vec![invitation(ID, "a@x.com", NOW)]);
    assert_eq!(
        register_at(&mut store, &request(ID_TEXT, "pw"), COST, NOW).err(),
        Some(ServiceError::InvalidInvitation)
    );
    assert_eq!(
        register_at(&mut store, &request(ID_TEXT, "pw"), COST, NOW - 1).unwrap().email,
        "a@x.com"
    );
}

#[test]
fn unknown_invitation_is_invalid() {
    let mut store = store_with(vec![invitation(ID, "a@x.com", NOW + SECOND)]);
    assert_eq!(
        register_at(&mut store, &request(OTHER_ID_TEXT, "pw"), COST, NOW).err(),
        Some(ServiceError::InvalidInvitation)
    );
    let mut empty = MemoryStore::new();
    assert_eq!(
        register(&mut empty, &request(ID_TEXT, "pw"), COST).err(),
        Some(ServiceError::InvalidInvitation)
    );
}

#[test]
fn register_then_authenticate() {
    let mut store = store_with(vec![invitation(ID, "a@x.com", NOW + SECOND)]);
    let created = register_at(&mut store, &request(ID_TEXT, "pw"), COST, NOW).unwrap();
    assert_eq!(created.email, "a@x.com");
    let rows = store.users_by_email("a@x.com");
    assert_eq!(rows.len(), 1);
    assert_eq!(rows[0].created_at, NOW);
    assert_ne!(rows[0].password, "pw");
    assert_eq!(login_user(&store, &credentials("a@x.com", "pw")).unwrap().email, "a@x.com");
    assert_eq!(
        login_user(&store, &credentials("a@x.com", "wrongpw")).err(),
        Some(ServiceError::InvalidCredentials)
    );
}

#[test]
fn second_registration_for_an_email_conflicts() {
    let mut store = store_with(vec![
        invitation(ID, "a@x.com", NOW + SECOND),
        invitation(OTHER_ID, "a@x.com", NOW + SECOND),
    ]);
    assert!(register_at(&mut store, &request(ID_TEXT, "pw"), COST, NOW).is_ok());
    assert_eq!(
        register_at(&mut store, &request(OTHER_ID_TEXT, "pw2"), COST, NOW).err(),
        Some(ServiceError::Conflict)
    );
    assert_eq!(store.users_by_email("a@x.com").len(), 1);
    assert_eq!(login_user(&store, &credentials("a@x.com", "pw")).unwrap().email, "a@x.com");
    assert_eq!(
        login_user(&store, &credentials("a@x.com", "pw2")).err(),
        Some(ServiceError::InvalidCredentials)
    );
}

#[test]
fn invitation_can_be_redeemed_again_until_conflict() {
    let mut store = store_with(vec![invitation(ID, "a@x.com", NOW + SECOND)]);
    assert!(register_at(&mut store, &request(ID_TEXT, "pw"), COST, NOW).is_ok());
    assert_eq!(store.invitations_by_id(ID).len(), 1);
    assert_eq!(
        register_at(&mut store, &request(ID_TEXT, "pw"), COST, NOW).err(),
        Some(ServiceError::Conflict)
    );
    assert_eq!(store.invitations_by_id(ID).len(), 1);
}

#[test]
fn unknown_user_and_wrong_password_get_the_same_error() {
    let mut store = store_with(vec![invitation(ID, "known@x.com", NOW + SECOND)]);
    register_at(&mut store, &request(ID_TEXT, "pw"), COST, NOW).unwrap();
    let unknown = login_user(&store, &credentials("nobody@x.com", "anything")).err();
    let wrong = login_user(&store, &credentials("known@x.com", "wrongpw")).err();
    assert_eq!(unknown, Some(ServiceError::InvalidCredentials));
    assert_eq!(unknown, wrong);
    assert_eq!(login(&store, &credentials("nobody@x.com", "pw"), "s").err(), unknown);
}

#[test]
fn hasher_failure_during_registration_is_internal_error() {
    let mut store = store_with(vec![invitation(ID, "a@x.com", NOW + SECOND)]);
    assert_eq!(
        register_at(&mut store, &request(ID_TEXT, "pw"), 99, NOW).err(),
        Some(ServiceError::InternalError)
    );
    assert!(store.users_by_email("a@x.com").is_empty());
    let msg = request(ID_TEXT, "pw");
    let found = vec![invitation(ID, "a@x.com", NOW + SECOND)];
    assert_eq!(prepare_user(found, &msg, 2, NOW).err(), Some(ServiceError::InternalError));
}

#[test]
fn prepared_user_carries_invitation_email() {
    let msg = request(ID_TEXT, "pw");
    let found = vec![invitation(ID, "a@x.com", NOW + SECOND)];
    let user = prepare_user(found, &msg, COST, NOW).unwrap();
    assert_eq!(user.email, "a@x.com");
    assert_eq!(user.created_at, NOW);
    let built = user_for(invitation(ID, "b@x.com", 9), Ok("digest".to_string()), 3).unwrap();
    assert_eq!(built.email, "b@x.com");
    assert_eq!(built.password, "digest");
    assert_eq!(built.created_at, 3);
    assert_eq!(
        user_for(invitation(ID, "b@x.com", 9), Err(ServiceError::InternalError), 3).err(),
        Some(ServiceError::InternalError)
    );
}

#[test]
fn insert_outcome_is_mapped() {
    let user = User::from_details("a@x.com".to_string(), "digest".to_string(), 1);
    assert_eq!(registered(Ok(user)).unwrap().email, "a@x.com");
    assert_eq!(registered(Err(StoreError::UniqueViolation)).err(), Some(ServiceError::Conflict));
    assert_eq!(registered(Err(StoreError::Unavailable)).err(), Some(ServiceError::InternalError));
}

#[test]
fn authenticate_checks_the_most_recent_row() {
    let old = User::from_details("a@x.com".to_string(), hash_password("old", COST).unwrap(), 1);
    let new = User::from_details("a@x.com".to_string(), hash_password("new", COST).unwrap(), 2);
    let rows = vec![old.clone(), new.clone()];
    assert_eq!(authenticate(&credentials("a@x.com", "new"), rows.clone()).unwrap().email, "a@x.com");
    assert_eq!(
        authenticate(&credentials("a@x.com", "old"), rows).err(),
        Some(ServiceError::InvalidCredentials)
    );
    assert_eq!(
        authenticate(&credentials("a@x.com", "new"), vec![]).err(),
        Some(ServiceError::InvalidCredentials)
    );
}

#[test]
fn corrupt_stored_credential_is_invalid_credentials() {
    let broken = User::from_details("a@x.com".to_string(), "not a hash".to_string(), 1);
    assert_eq!(
        authenticate(&credentials("a@x.com", "not a hash"), vec![broken]).err(),
        Some(ServiceError::InvalidCredentials)
    );
}

#[test]
fn login_decision_table() {
    let user = User::from_details("a@x.com".to_string(), "digest".to_string(), 1);
    assert_eq!(decide_login(Some(user.clone()), true).unwrap().email, "a@x.com");
    assert_eq!(decide_login(Some(user), false).err(), Some(ServiceError::InvalidCredentials));
    assert_eq!(decide_login(None, true).err(), Some(ServiceError::InvalidCredentials));
    assert_eq!(decide_login(None, false).err(), Some(ServiceError::InvalidCredentials));
}

#[test]
fn login_issues_a_token_for_the_user() {
    let mut store = MemoryStore::new();
    let sent = invite(&mut store, &CreateInvitation { email: "a@x.com".to_string() }).unwrap();
    assert_eq!(store.invitations_by_id(sent.id).len(), 1);
    let id_text = format!("{:032x}", sent.id);
    let body = UserData { password: "pw".to_string() };
    let msg = RegisterUser::from_parts(id_text, body);
    assert_eq!(register(&mut store, &msg, COST).unwrap().email, "a@x.com");
    let token = login(&store, &credentials("a@x.com", "pw"), "s3cret").unwrap();
    assert_eq!(decode_token(&token, "s3cret").unwrap().email, "a@x.com");
    assert_eq!(who_am_i(Some(&token), "s3cret").unwrap().email, "a@x.com");
    assert_eq!(who_am_i(Some(&token), "other").err(), Some(ServiceError::Unauthorized));
    assert_eq!(who_am_i(None, "s3cret").err(), Some(ServiceError::Unauthorized));
    assert_eq!(
        login(&store, &credentials("a@x.com", "nope"), "s3cret").err(),
        Some(ServiceError::InvalidCredentials)
    );
}

#[test]
fn several_invitations_for_one_email_coexist() {
    let mut store = MemoryStore::new();
    let msg = CreateInvitation { email: "a@x.com".to_string() };
    let first = invite_at(&mut store, &msg, ID, NOW).unwrap();
    let second = invite_at(&mut store, &msg, OTHER_ID, NOW + 1).unwrap();
    assert_eq!(first.expires_at, NOW + 86_400_000_000);
    assert_eq!(second.expires_at, NOW + 86_400_000_001);
    assert_eq!(store.invitations_by_id(ID).len(), 1);
    assert_eq!(store.invitations_by_id(OTHER_ID).len(), 1);
    assert_eq!(store.invitations_by_id(5).len(), 0);
}

#[test]
fn store_keeps_one_user_per_email() {
    let mut store = MemoryStore::new();
    let first = User::from_details("a@x.com".to_string(), "d1".to_string(), 1);
    let again = User::from_details("a@x.com".to_string(), "d2".to_string(), 2);
    let other = User::from_details("A@x.com".to_string(), "d3".to_string(), 3);
    assert!(!store.has_user("a@x.com"));
    assert_eq!(store.insert_user(first).unwrap().password, "d1");
    assert!(store.has_user("a@x.com"));
    assert_eq!(store.insert_user(again).err(), Some(StoreError::UniqueViolation));
    assert_eq!(store.insert_user(other).unwrap().email, "A@x.com");
    let rows = store.users_by_email("a@x.com");
    assert_eq!(rows.len(), 1);
    assert_eq!(rows[0].password, "d1");
    assert_eq!(store.users_by_email("A@x.com").len(), 1);
    assert!(store.users_by_email("b@x.com").is_empty());
}

#[test]
fn slim_user_is_the_email_alone() {
    let user = User::from_details("a@x.com".to_string(), "digest".to_string(), 1);
    let slim: SlimUser = user.into();
    assert_eq!(slim.email, "a@x.com");
}

#[test]
fn logout_clears_the_carrier() {
    let mut carrier = Some("token".to_string());
    logout(&mut carrier);
    assert_eq!(carrier, None);
    assert_eq!(who_am_i(carrier.as_deref(), "s").err(), Some(ServiceError::Unauthorized));
}

#[test]
fn redeem_follows_the_hasher_and_the_store() {
    let mut store = MemoryStore::new();
    let failed = redeem(&mut store, invitation(ID, "a@x.com", 9), Err(ServiceError::InternalError), 1);
    assert_eq!(failed.err(), Some(ServiceError::InternalError));
    assert!(!store.has_user("a@x.com"));
    let first = redeem(&mut store, invitation(ID, "a@x.com", 9), Ok("d1".to_string()), 1);
    assert_eq!(first.unwrap().email, "a@x.com");
    let second = redeem(&mut store, invitation(OTHER_ID, "a@x.com", 9), Ok("d2".to_string()), 2);
    assert_eq!(second.err(), Some(ServiceError::Conflict));
    let rows = store.users_by_email("a@x.com");
    assert_eq!(rows.len(), 1);
    assert_eq!(rows[0].password, "d1");
    assert_eq!(rows[0].created_at, 1);
}

#[test]
fn failed_lookups_are_mapped() {
    assert_eq!(
        found_invitations(Err(StoreError::Unavailable)).err(),
        Some(ServiceError::InternalError)
    );
    assert_eq!(found_invitations(Ok(vec![invitation(ID, "a@x.com", 1)])).unwrap().len(), 1);
    assert_eq!(found_users(Err(StoreError::Unavailable)).err(), Some(ServiceError::InternalError));
    assert_eq!(found_users(Ok(vec![])).unwrap().len(), 0);
}
