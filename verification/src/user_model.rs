use vstd::prelude::*;

verus! {

/// The instant a record was written, as milliseconds since the Unix epoch.
/// The transport layer converts to and from its own date-time representation.
#[derive(Debug, Clone, Copy, PartialEq, Eq, Structural)]
pub struct Timestamp {
    pub millis: i64,
}

/// The role a user holds within the system.
#[derive(Debug, Clone, Copy, PartialEq, Eq, Structural)]
pub enum UserRole {
    Admin,
    User,
    Inactive,
}

/// The canonical persisted entity. `password` holds the stored hash, never
/// the plaintext; it is the one field the public projection drops.
#[derive(Debug, Clone)]
pub struct User {
    pub id: String,
    pub email: String,
    pub password: String,
    pub role: UserRole,
    pub created_at: Timestamp,
    pub updated_at: Timestamp,
}

/// The transient per-request input to the creation workflow; `password` is
/// the plaintext secret, discarded after hashing.
#[derive(Debug, Clone)]
pub struct UserForCreation {
    pub email: String,
    pub password: String,
    pub role: UserRole,
}

/// User minus the password hash: the only representation ever returned to a
/// caller. By construction it has no field for credential material.
#[derive(Debug, Clone)]
pub struct UserPublic {
    pub id: String,
    pub email: String,
    pub role: UserRole,
    pub created_at: Timestamp,
    pub updated_at: Timestamp,
}

/// The public projection of a persisted user: every field but the password.
pub open spec fn user_public_of(u: User) -> UserPublic {
    UserPublic {
        id: u.id,
        email: u.email,
        role: u.role,
        created_at: u.created_at,
        updated_at: u.updated_at,
    }
}

/// The record the workflow assembles before persisting: the generated id,
/// the request's email and role, the hashed password, and one single
/// instant for both timestamps.
pub open spec fn assembled_user(
    input: UserForCreation,
    id: String,
    hashed_password: String,
    now: Timestamp,
) -> User {
    User {
        id: id,
        email: input.email,
        password: hashed_password,
        role: input.role,
        created_at: now,
        updated_at: now,
    }
}

/// The public projection carries no credential material: it does not depend
/// on the password field, so two records that differ only in their password
/// project to the same public view.
pub proof fn lemma_projection_hides_password(u1: User, u2: User)
    requires
        u1.id == u2.id,
        u1.email == u2.email,
        u1.role == u2.role,
        u1.created_at == u2.created_at,
        u1.updated_at == u2.updated_at,
    ensures
        user_public_of(u1) == user_public_of(u2),
{
}

/// Builds the record the workflow hands to the create port: provably
/// exactly the record `assembled_user` describes.
pub fn assemble_user(
    input: UserForCreation,
    id: String,
    hashed_password: String,
    now: Timestamp,
) -> (u: User)
    ensures
        u == assembled_user(input, id, hashed_password, now),
{
    User {
        id: id,
        email: input.email,
        password: hashed_password,
        role: input.role,
        created_at: now,
        updated_at: now,
    }
}

/// No credential material flows into the public result of creation: two
/// requests that agree on everything but their plaintext password, hashed
/// to whatever two digests, assemble records with the same public
/// projection (given the same generated id and instant).
pub proof fn lemma_creation_independent_of_secrets(
    input1: UserForCreation,
    input2: UserForCreation,
    id: String,
    hashed1: String,
    hashed2: String,
    now: Timestamp,
)
    requires
        input1.email == input2.email,
        input1.role == input2.role,
    ensures
        user_public_of(assembled_user(input1, id, hashed1, now)) == user_public_of(
            assembled_user(input2, id, hashed2, now),
        ),
{
}

/// Projecting the record assembled from a creation request yields exactly
/// the generated id, the request's email and role, and a creation stamp
/// equal to the update stamp.
pub proof fn lemma_assembled_projection(
    input: UserForCreation,
    id: String,
    hashed_password: String,
    now: Timestamp,
)
    ensures
        user_public_of(assembled_user(input, id, hashed_password, now)).id == id,
        user_public_of(assembled_user(input, id, hashed_password, now)).email == input.email,
        user_public_of(assembled_user(input, id, hashed_password, now)).role == input.role,
        user_public_of(assembled_user(input, id, hashed_password, now)).created_at == now,
        user_public_of(assembled_user(input, id, hashed_password, now)).updated_at == now,
{
}

} // verus!
