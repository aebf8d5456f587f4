use vstd::prelude::*;

use crate::errors::APIError;
use crate::signing::{bcrypt_check, bcrypt_hash};
use crate::text::{lowercase, to_lowercase};

verus! {

/// A user account as the API lists it.
#[derive(Debug)]
pub struct User {
    pub username: String,
    pub fullname: Option<String>,
    pub email: Option<String>,
    pub login_duration: Option<i32>,
}

/// The data of an account to be created.
#[derive(Debug)]
pub struct NewUser {
    pub p_username: String,
    pub p_password: String,
    pub p_fullname: String,
    pub p_email: String,
    pub p_loginduration: i32,
}

/// The changes that a request asks for on an account; `None` leaves a field as it is.
#[derive(Debug)]
pub struct EditUserParams {
    pub p_password: Option<String>,
    pub p_fullname: Option<String>,
    pub p_email: Option<String>,
    pub p_loginduration: Option<i32>,
}

/// A copy of an optional text.
pub fn clone_text(o: &Option<String>) -> (r: Option<String>)
    ensures
        r == *o,
{
    match o {
        Some(s) => Some(s.clone()),
        None => None,
    }
}

impl User {
    /// A copy of the account.
    pub fn duplicate(&self) -> (r: User)
        ensures
            r == *self,
    {
        User {
            username: self.username.clone(),
            fullname: clone_text(&self.fullname),
            email: clone_text(&self.email),
            login_duration: self.login_duration,
        }
    }

    /// The placeholder account: no username and nothing else.
    pub fn new() -> (r: User)
        ensures
            r.username@ == Seq::<char>::empty(),
            r.fullname is None,
            r.email is None,
            r.login_duration is None,
    {
        User { username: String::new(), fullname: None, email: None, login_duration: None }
    }

    /// Whether this is the placeholder account, the one with an empty username.
    pub fn is_empty(&self) -> (r: bool)
        ensures
            r == (self.username@.len() == 0),
    {
        self.username.as_str().is_empty()
    }
}

/// The account after the edit: each field that the request names takes the
/// requested value, the others and the username stay.
pub open spec fn edited(u: User, p: EditUserParams) -> User {
    User {
        username: u.username,
        fullname: if p.p_fullname is Some { p.p_fullname } else { u.fullname },
        email: if p.p_email is Some { p.p_email } else { u.email },
        login_duration: if p.p_loginduration is Some { p.p_loginduration } else { u.login_duration },
    }
}

impl EditUserParams {
    /// Whether the request asks for no change at all (it is then refused as a bad request).
    pub fn is_empty(&self) -> (r: bool)
        ensures
            r == (self.p_password is None && self.p_fullname is None && self.p_email is None
                && self.p_loginduration is None),
    {
        self.p_password.is_none() && self.p_fullname.is_none() && self.p_email.is_none()
            && self.p_loginduration.is_none()
    }
}

/// The account after the edit `params`.
pub fn apply_edit(current: &User, params: &EditUserParams) -> (r: User)
    ensures
        r == edited(*current, *params),
{
    let mut u = current.duplicate();
    if params.p_fullname.is_some() {
        u.fullname = clone_text(&params.p_fullname);
    }
    if params.p_email.is_some() {
        u.email = clone_text(&params.p_email);
    }
    if params.p_loginduration.is_some() {
        u.login_duration = params.p_loginduration;
    }
    u
}

/// What an edit of an account does, once the account has been looked up: the
/// account to write back, and the new password when one is asked for and the
/// requester is an administrator. A failed lookup is reported as a database
/// error, and a lookup that found only the placeholder as a missing account.
pub fn plan_edit(lookup: Result<User, APIError>, params: &EditUserParams, is_admin: bool) -> (r: Result<(User, Option<String>), APIError>)
    ensures
        lookup is Err ==> r == Err::<(User, Option<String>), APIError>(APIError::DBError),
        lookup matches Ok(u) && u.username@.len() == 0 ==> r == Err::<(User, Option<String>), APIError>(APIError::DataNotFound),
        lookup is Ok && lookup->Ok_0.username@.len() != 0 ==> (r matches Ok((v, pw)) && v == edited(lookup->Ok_0, *params)
            && pw == (if params.p_password is Some && is_admin { params.p_password } else { None::<String> })),
{
    match lookup {
        Err(_) => Err(APIError::DBError),
        Ok(u) => {
            if u.is_empty() {
                Err(APIError::DataNotFound)
            } else {
                let v = apply_edit(&u, params);
                let pw = if params.p_password.is_some() && is_admin {
                    clone_text(&params.p_password)
                } else {
                    None
                };
                Ok((v, pw))
            }
        },
    }
}

/// The answer to a lookup of one account: the account, or a missing account
/// when only the placeholder was found.
pub fn found_user(u: User) -> (r: Result<User, APIError>)
    ensures
        u.username@.len() == 0 ==> r == Err::<User, APIError>(APIError::DataNotFound),
        u.username@.len() != 0 ==> r == Ok::<User, APIError>(u),
{
    if u.is_empty() {
        Err(APIError::DataNotFound)
    } else {
        Ok(u)
    }
}

/// Whether an account may be created after checking whether the name is taken:
/// a taken name is refused, a failed check is a database error.
pub fn creation_allowed(taken: Result<bool, APIError>) -> (r: Result<(), APIError>)
    ensures
        taken == Ok::<bool, APIError>(true) ==> r == Err::<(), APIError>(APIError::DataExists),
        taken == Ok::<bool, APIError>(false) ==> r == Ok::<(), APIError>(()),
        taken is Err ==> r == Err::<(), APIError>(APIError::DBError),
{
    match taken {
        Ok(true) => Err(APIError::DataExists),
        Ok(false) => Ok(()),
        Err(_) => Err(APIError::DBError),
    }
}

/// Whether an account may be deleted after checking that it exists: a missing
/// account is reported, a failed check is a database error.
pub fn deletion_allowed(exists: Result<bool, APIError>) -> (r: Result<(), APIError>)
    ensures
        exists == Ok::<bool, APIError>(true) ==> r == Ok::<(), APIError>(()),
        exists == Ok::<bool, APIError>(false) ==> r == Err::<(), APIError>(APIError::DataNotFound),
        exists is Err ==> r == Err::<(), APIError>(APIError::DBError),
{
    existing_user(exists)
}

/// An edit that names no field leaves the account as it was.
pub proof fn lemma_empty_edit_is_identity(u: User, p: EditUserParams)
    requires
        p.p_fullname is None && p.p_email is None && p.p_loginduration is None,
    ensures
        edited(u, p) == u,
{
}

/// An edit never changes the username, and applying the same edit twice is
/// the same as applying it once.
pub proof fn lemma_edit_keeps_username_and_is_idempotent(u: User, p: EditUserParams)
    ensures
        edited(u, p).username == u.username,
        edited(edited(u, p), p) == edited(u, p),
{
}

} // verus!

verus! {

/// The account that a lookup by name yields from its rows: the last row, or
/// the placeholder account when there is none; a placeholder means that the
/// account is missing.
pub fn user_from_rows(rows: Vec<User>) -> (r: Result<User, APIError>)
    ensures
        rows@.len() == 0 ==> r == Err::<User, APIError>(APIError::DataNotFound),
        rows@.len() > 0 && rows@.last().username@.len() == 0 ==> r == Err::<User, APIError>(
            APIError::DataNotFound,
        ),
        rows@.len() > 0 && rows@.last().username@.len() != 0 ==> r == Ok::<User, APIError>(
            rows@.last(),
        ),
{
    let mut rows = rows;
    match rows.pop() {
        Some(u) => found_user(u),
        None => found_user(User::new()),
    }
}

/// The row that stores a new account.
#[derive(Debug)]
pub struct NewUserRow {
    pub username: String,
    pub password_hash: String,
    pub fullname: String,
    pub email: String,
    pub login_duration: i32,
}

/// The row that stores the account `data` with the password hash `hash`:
/// its username in lowercase, the hash, and its other fields as given.
pub fn user_row(data: &NewUser, hash: String) -> (r: NewUserRow)
    ensures
        r.username@ == lowercase(data.p_username@),
        r.password_hash == hash,
        r.fullname@ == data.p_fullname@,
        r.email@ == data.p_email@,
        r.login_duration == data.p_loginduration,
{
    NewUserRow {
        username: to_lowercase(data.p_username.as_str()),
        password_hash: hash,
        fullname: data.p_fullname.clone(),
        email: data.p_email.clone(),
        login_duration: data.p_loginduration,
    }
}

/// The row that stores the account `data`: its username in lowercase, a
/// bcrypt hash of its password, and its other fields as given. The hash
/// carries a random salt, so what is stated of it is that it verifies
/// against the password; `None` when no hash could be made.
pub fn new_user_row(data: &NewUser) -> (r: Option<NewUserRow>)
    ensures
        r matches Some(row) ==> {
            &&& row.username@ == lowercase(data.p_username@)
            &&& bcrypt_check(data.p_password@, row.password_hash@) == Some(true)
            &&& row.fullname@ == data.p_fullname@
            &&& row.email@ == data.p_email@
            &&& row.login_duration == data.p_loginduration
        },
{
    match bcrypt_hash(data.p_password.as_str()) {
        Some(h) => Some(user_row(data, h)),
        None => None,
    }
}

} // verus!

verus! {

/// The hash stored for a password that an edit sets: a bcrypt hash that
/// verifies against the password, `None` when no hash could be made.
pub fn hash_new_password(password: &str) -> (r: Option<String>)
    ensures
        r matches Some(h) ==> bcrypt_check(password@, h@) == Some(true),
{
    bcrypt_hash(password)
}

/// The statements that delete an account, in order: its permissions, its
/// store grants, and last the account itself.
pub open spec fn deletion_statements_spec() -> Seq<Seq<char>> {
    seq!["delete_user_permissions"@, "delete_user_stores"@, "delete_user"@]
}

/// The statements that delete an account, and the key they are bound to:
/// the account's name in lowercase.
pub fn user_deletion_plan(user_id: &str) -> (r: (Vec<&'static str>, String))
    ensures
        r.0@.map_values(|s: &'static str| s@) == deletion_statements_spec(),
        r.1@ == lowercase(user_id@),
{
    let mut stmts: Vec<&'static str> = Vec::new();
    stmts.push("delete_user_permissions");
    stmts.push("delete_user_stores");
    stmts.push("delete_user");
    assert(stmts@.map_values(|s: &'static str| s@) =~= deletion_statements_spec());
    (stmts, to_lowercase(user_id))
}

} // verus!

verus! {

/// The answer to a check that an account exists: a missing account is
/// reported, a failed check is a database error.
pub fn existing_user(exists: Result<bool, APIError>) -> (r: Result<(), APIError>)
    ensures
        exists == Ok::<bool, APIError>(true) ==> r == Ok::<(), APIError>(()),
        exists == Ok::<bool, APIError>(false) ==> r == Err::<(), APIError>(APIError::DataNotFound),
        exists is Err ==> r == Err::<(), APIError>(APIError::DBError),
{
    match exists {
        Ok(true) => Ok(()),
        Ok(false) => Err(APIError::DataNotFound),
        Err(_) => Err(APIError::DBError),
    }
}

/// The account list that a caller gets: the accounts read for a caller with
/// the users or admin right, and none for any other caller.
pub fn user_list_for(authorized: bool, users: Result<Vec<User>, APIError>) -> (r: Result<Vec<User>, APIError>)
    ensures
        !authorized ==> (r matches Ok(v) && v@.len() == 0),
        authorized ==> r == users,
{
    if authorized {
        users
    } else {
        Ok(Vec::new())
    }
}

} // verus!

verus! {

/// An edit applies each requested field on its own: a field that the request
/// names takes the requested value whatever else the request names, a field
/// that it does not name keeps its old value, and the username never changes.
pub proof fn lemma_edit_applies_each_field(u: User, p: EditUserParams, r: User)
    requires
        r == edited(u, p),
    ensures
        r.username == u.username,
        p.p_fullname is Some ==> r.fullname == p.p_fullname,
        p.p_fullname is None ==> r.fullname == u.fullname,
        p.p_email is Some ==> r.email == p.p_email,
        p.p_email is None ==> r.email == u.email,
        p.p_loginduration is Some ==> r.login_duration == p.p_loginduration,
        p.p_loginduration is None ==> r.login_duration == u.login_duration,
{
}

} // verus!
