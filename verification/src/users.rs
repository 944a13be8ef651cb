//! Users and sign-in: the records, the profiles that third-party sign-ins
//! bring, the e-mail sign-in form, and the profile-completion form.

use vstd::prelude::*;

use crate::errors::AppError;
use crate::passwords::{bcrypt_check, hash_accepts, hash_password, is_random_source_failure, password_bytes, password_matches};
use crate::text::{i64_to_text, integer_text, same_text};

verus! {

/// An instant, in microseconds since the Unix epoch.
#[derive(Clone, Copy, Debug, PartialEq, Eq, Structural)]
pub struct Moment {
    pub unix_micros: i64,
}

/// What a user may do.
#[derive(Clone, Copy, Debug, PartialEq, Eq, Structural)]
pub enum UserRole {
    Admin,
    Regular,
}

/// Whether a user's account is in use.
#[derive(Clone, Copy, Debug, PartialEq, Eq, Structural)]
pub enum UserStatus {
    Active,
    Disactive,
}

impl UserRole {
    /// A regular user, unless told otherwise.
    pub fn default() -> (res: UserRole)
        ensures
            res == UserRole::Regular,
    {
        UserRole::Regular
    }
}

impl UserStatus {
    /// An active account, unless told otherwise.
    pub fn default() -> (res: UserStatus)
        ensures
            res == UserStatus::Active,
    {
        UserStatus::Active
    }
}

/// Where a pending sign-up came from.
#[derive(Clone, Copy, Debug, PartialEq, Eq, Structural)]
pub enum Provider {
    Google,
    Github,
    Email,
}

/// A registered user.
pub struct User {
    pub id: u128,
    pub full_name: String,
    pub email: String,
    pub phone_number: Option<String>,
    /// The bcrypt hash of the user's password.
    pub password: String,
    pub picture: Option<String>,
    pub role: UserRole,
    pub status: UserStatus,
    pub email_verified: bool,
    pub oauth_user_id: Option<String>,
    pub created_at: Moment,
    pub updated_at: Moment,
}

/// A user as other users see them (the owner of a listing).
pub struct UserOut {
    pub id: u128,
    pub full_name: String,
    pub email: String,
    pub phone_number: String,
    pub picture: Option<String>,
    pub role: UserRole,
    pub status: UserStatus,
    pub email_verified: bool,
    pub oauth_user_id: Option<String>,
    pub created_at: Moment,
    pub updated_at: Moment,
}

/// The profile that Google's user-info endpoint gives.
pub struct GoogleOAuthUser {
    pub sub: String,
    pub email: Option<String>,
    pub email_verified: bool,
    pub family_name: Option<String>,
    pub given_name: Option<String>,
    pub name: Option<String>,
    pub picture: Option<String>,
    pub phone_number: Option<String>,
    pub created_at: Moment,
}

/// The profile that GitHub's user endpoint gives.
pub struct GithubOAuthUser {
    pub id: i64,
    pub login: String,
    pub avatar_url: String,
    pub name: Option<String>,
    pub email: Option<String>,
    pub created_at: Moment,
}

/// A pending sign-up: what is known of the person before they complete
/// their profile.
pub struct OAuthUser {
    pub id: String,
    pub provider: Provider,
    pub username: Option<String>,
    pub full_name: Option<String>,
    pub email: Option<String>,
    pub password: Option<String>,
    pub picture: Option<String>,
    pub phone_number: Option<String>,
    pub created_at: Option<Moment>,
}

impl OAuthUser {
    /// The pending sign-up of a Google profile: identified by its subject,
    /// with its name, e-mail, picture and phone number.
    pub fn from_google(g: GoogleOAuthUser) -> (res: OAuthUser)
        ensures
            res.id@ == g.sub@,
            res.provider == Provider::Google,
            res.username is None,
            res.full_name == g.name,
            res.email == g.email,
            res.password is None,
            res.picture == g.picture,
            res.phone_number == g.phone_number,
            res.created_at is None,
    {
        OAuthUser {
            id: g.sub,
            provider: Provider::Google,
            username: None,
            full_name: g.name,
            email: g.email,
            password: None,
            picture: g.picture,
            phone_number: g.phone_number,
            created_at: None,
        }
    }

    /// The pending sign-up of a GitHub profile: identified by the decimal
    /// text of its numeric id, with its login as user name, its e-mail and
    /// its avatar as picture.
    pub fn from_github(g: GithubOAuthUser) -> (res: OAuthUser)
        ensures
            res.id@ == integer_text(g.id as int),
            res.provider == Provider::Github,
            res.username matches Some(u) && u@ == g.login@,
            res.full_name is None,
            res.email == g.email,
            res.password is None,
            res.picture matches Some(p) && p@ == g.avatar_url@,
            res.phone_number is None,
            res.created_at is None,
    {
        OAuthUser {
            id: i64_to_text(g.id),
            provider: Provider::Github,
            username: Some(g.login),
            full_name: None,
            email: g.email,
            password: None,
            picture: Some(g.avatar_url),
            phone_number: None,
            created_at: None,
        }
    }

    /// Requires a pending sign-up to have been found.
    pub fn found(found: Option<OAuthUser>) -> (res: Result<OAuthUser, AppError>)
        ensures
            found is None <==> (res matches Err(e) && e is OAuthUserNotFoundError),
            found is Some ==> res == Ok::<OAuthUser, AppError>(found->Some_0),
    {
        match found {
            Some(u) => Ok(u),
            None => Err(AppError::OAuthUserNotFoundError),
        }
    }
}

/// The GitHub id that the sign-in cookie carries reads back as the id of the
/// GitHub profile that started the sign-in: the cookie holds the decimal text
/// of the id, and reading the cookie parses it.
pub proof fn lemma_github_id_round_trip(id: i64)
    ensures
        crate::text::decimal_i64(integer_text(id as int)) == Some(id),
{
    crate::text::lemma_integer_text_round_trip(id);
}

/// A phone number in Google's people API answer.
pub struct PhoneNumber {
    pub value: String,
}

/// The phone numbers in Google's people API answer.
pub struct PhoneResponse {
    pub phone_numbers: Option<Vec<PhoneNumber>>,
}

impl PhoneResponse {
    /// The first phone number of the answer, if it names any.
    pub fn first_phone_number(&self) -> (res: Option<String>)
        ensures
            match self.phone_numbers {
                Some(v) => if v@.len() > 0 {
                    res matches Some(s) && s@ == v@[0].value@
                } else {
                    res is None
                },
                None => res is None,
            },
    {
        match &self.phone_numbers {
            Some(v) => {
                if v.len() > 0 {
                    Some(v[0].value.clone())
                } else {
                    None
                }
            },
            None => None,
        }
    }
}

/// Where the front end should go next.
pub struct RedirectResponse {
    pub redirect_to: String,
}

impl RedirectResponse {
    /// Sends the visitor to the profile-completion page.
    pub fn complete_profile() -> (res: RedirectResponse)
        ensures
            res.redirect_to@ == "complete-profile"@,
    {
        RedirectResponse { redirect_to: String::from_str("complete-profile") }
    }
}

/// A visitor with a pending sign-up is sent to complete their profile
/// before anything else.
pub fn pending_sign_up_redirect(has_pending_sign_up: bool) -> (res: Option<RedirectResponse>)
    ensures
        has_pending_sign_up <==> res is Some,
        res matches Some(r) ==> r.redirect_to@ == "complete-profile"@,
{
    if has_pending_sign_up {
        Some(RedirectResponse::complete_profile())
    } else {
        None
    }
}

/// The token that an e-mail verification link carries.
pub struct VerifyQuery {
    pub token: String,
}

/// The authorization code that an OAuth provider hands back.
pub struct OAuthCallback {
    pub code: String,
}

/// The tokens handed to a signed-in client.
pub struct Tokens {
    pub access_token: String,
    pub refresh_token: Option<String>,
}

/// The answer to a completed sign-in: the user and their tokens.
pub struct AuthResponse {
    pub user: User,
    pub tokens: Tokens,
}

/// The e-mail sign-in form.
pub struct ContinueWithEmailSchema {
    pub email: String,
    pub password: String,
}

/// Whether a text is an e-mail address by the HTML5 rule (a local part and
/// a domain, each within its length limit and of the allowed characters).
pub uninterp spec fn email_is_valid(s: Seq<char>) -> bool;

/// `validator::ValidateEmail::validate_email`: the HTML5 e-mail address
/// rule, with a local part of at most 64 characters and a domain of at most
/// 255, the domain given as a host name, an address literal or an
/// internationalized name.
#[verifier::external_body]
fn check_email(s: &str) -> (res: bool)
    ensures
        res == email_is_valid(s@),
{
    validator::ValidateEmail::validate_email(&s)
}

/// A password of eight to thirty-two characters.
pub open spec fn password_length_ok(p: Seq<char>) -> bool {
    8 <= p.len() <= 32
}

/// The e-mail sign-in form is acceptable: a valid address, and a password
/// of eight to thirty-two characters.
pub open spec fn sign_in_form_ok(email: Seq<char>, password: Seq<char>) -> bool {
    email_is_valid(email) && password_length_ok(password)
}

/// The report of an unacceptable sign-in form: one line for each field in
/// error, the lines in either order.
pub open spec fn sign_in_form_report(email: Seq<char>, password: Seq<char>, m: Seq<char>) -> bool {
    let email_line = "email: Invalid email address"@;
    let password_line = "password: Password should be long between 8 and 32"@;
    match (email_is_valid(email), password_length_ok(password)) {
        (true, true) => false,
        (false, true) => m == email_line,
        (true, false) => m == password_line,
        (false, false) => m == email_line + "\n"@ + password_line || m == password_line + "\n"@ + email_line,
    }
}

/// The form is acceptable and the stored hash accepts its password.
pub open spec fn credentials_accepted(email: Seq<char>, password: Seq<char>, stored_hash: Seq<char>) -> bool {
    sign_in_form_ok(email, password) && bcrypt_check(password_bytes(password), stored_hash)
        == Ok::<bool, Seq<char>>(true)
}

impl ContinueWithEmailSchema {
    /// Checks the form: a valid e-mail address, and a password of eight to
    /// thirty-two characters.
    pub fn validate(&self) -> (res: Result<(), AppError>)
        ensures
            sign_in_form_ok(self.email@, self.password@) ==> res is Ok,
            !sign_in_form_ok(self.email@, self.password@) ==> (res matches Err(e)
                && e matches AppError::ValidatorValidationErrors(t) && sign_in_form_report(
                self.email@,
                self.password@,
                t@,
            )),
    {
        let email_ok = check_email(self.email.as_str());
        let n = self.password.as_str().unicode_len();
        let password_ok = 8 <= n && n <= 32;
        if email_ok && password_ok {
            return Ok(());
        }
        let mut msg = String::new();
        if !email_ok {
            msg.append("email: Invalid email address");
        }
        if !email_ok && !password_ok {
            msg.append("\n");
        }
        if !password_ok {
            msg.append("password: Password should be long between 8 and 32");
        }
        assert(sign_in_form_report(self.email@, self.password@, msg@)) by {
            let email_line = "email: Invalid email address"@;
            let password_line = "password: Password should be long between 8 and 32"@;
            if !email_ok && !password_ok {
                assert(msg@ =~= email_line + "\n"@ + password_line);
            }
        }
        Err(AppError::ValidatorValidationErrors(msg))
    }

    /// Signs in with the form, given the user that its e-mail names, if any:
    /// the form must be acceptable; a known user must give the password that
    /// their stored hash accepts; an unknown e-mail is a new sign-up.
    pub fn verify(&self, maybe_user: Option<User>) -> (res: Result<Option<User>, AppError>)
        ensures
            !sign_in_form_ok(self.email@, self.password@) ==> (res matches Err(e)
                && e matches AppError::ValidatorValidationErrors(t) && sign_in_form_report(
                self.email@,
                self.password@,
                t@,
            )),
            sign_in_form_ok(self.email@, self.password@) ==> match maybe_user {
                None => res matches Ok(r) && r is None,
                Some(u) => match bcrypt_check(password_bytes(self.password@), u.password@) {
                    Ok(true) => res == Ok::<Option<User>, AppError>(Some(u)),
                    Ok(false) => res matches Err(e) && e matches AppError::ValidationError(t)
                        && t@ == "Password is incorrect"@,
                    Err(m) => res matches Err(e) && e matches AppError::BcryptError(t) && t@ == m,
                },
            },
            maybe_user matches Some(u) ==> (res is Ok <==> credentials_accepted(
                self.email@,
                self.password@,
                u.password@,
            )),
    {
        self.validate()?;
        match maybe_user {
            Some(user) => {
                let verified = password_matches(self.password.as_str(), user.password.as_str())?;
                if !verified {
                    return Err(AppError::ValidationError(String::from_str("Password is incorrect")));
                }
                Ok(Some(user))
            },
            None => Ok(None),
        }
    }
}

/// A password stored at profile completion lets its owner sign in with it,
/// whenever the sign-in form itself is acceptable.
pub proof fn lemma_stored_password_signs_in(email: Seq<char>, password: Seq<char>, stored_hash: Seq<char>)
    requires
        sign_in_form_ok(email, password),
        hash_accepts(stored_hash, password),
    ensures
        credentials_accepted(email, password, stored_hash),
{
}

/// The fields of the profile-completion form, as they arrive.
pub struct OAuthUserSchema {
    pub username: Option<String>,
    pub full_name: Option<String>,
    pub email: Option<String>,
    pub phone_number: Option<String>,
    pub password: Option<String>,
    pub picture: Option<String>,
}

/// Which field of the profile-completion form a part of the upload fills.
#[derive(Clone, Copy, Debug, PartialEq, Eq, Structural)]
pub enum ProfileField {
    FullName,
    Email,
    Password,
    PhoneNumber,
    Picture,
    Ignored,
}

/// The field that a form part of the given name fills.
pub open spec fn profile_field_of(name: Seq<char>) -> ProfileField {
    if name == "full_name"@ {
        ProfileField::FullName
    } else if name == "email"@ {
        ProfileField::Email
    } else if name == "password"@ {
        ProfileField::Password
    } else if name == "phone_number"@ {
        ProfileField::PhoneNumber
    } else if name == "picture"@ {
        ProfileField::Picture
    } else {
        ProfileField::Ignored
    }
}

/// The field that a form part of the given name fills.
pub fn profile_field(name: &str) -> (res: ProfileField)
    ensures
        res == profile_field_of(name@),
        res == ProfileField::FullName <==> name@ == "full_name"@,
        res == ProfileField::Email <==> name@ == "email"@,
        res == ProfileField::Password <==> name@ == "password"@,
        res == ProfileField::PhoneNumber <==> name@ == "phone_number"@,
        res == ProfileField::Picture <==> name@ == "picture"@,
{
    proof {
        lemma_profile_field_names_differ();
    }
    if same_text(name, "full_name") {
        ProfileField::FullName
    } else if same_text(name, "email") {
        ProfileField::Email
    } else if same_text(name, "password") {
        ProfileField::Password
    } else if same_text(name, "phone_number") {
        ProfileField::PhoneNumber
    } else if same_text(name, "picture") {
        ProfileField::Picture
    } else {
        ProfileField::Ignored
    }
}

/// A profile with every field empty.
pub open spec fn empty_profile(s: OAuthUserSchema) -> bool {
    s.username is None && s.full_name is None && s.email is None && s.phone_number is None
        && s.password is None && s.picture is None
}

impl OAuthUserSchema {
    /// A form with nothing filled in yet.
    pub fn empty() -> (res: OAuthUserSchema)
        ensures
            empty_profile(res),
    {
        OAuthUserSchema {
            username: None,
            full_name: None,
            email: None,
            phone_number: None,
            password: None,
            picture: None,
        }
    }

    /// Fills a field of the form with a part of the upload: its text, or for
    /// the picture, the location where the picture was stored. A later part
    /// for the same field replaces the earlier one; other parts are ignored.
    pub fn accept(&mut self, field: ProfileField, value: String)
        ensures
            final(self).username == old(self).username,
            final(self).full_name == (if field == ProfileField::FullName { Some(value) } else { old(self).full_name }),
            final(self).email == (if field == ProfileField::Email { Some(value) } else { old(self).email }),
            final(self).password == (if field == ProfileField::Password { Some(value) } else { old(self).password }),
            final(self).phone_number == (if field == ProfileField::PhoneNumber { Some(value) } else { old(self).phone_number }),
            final(self).picture == (if field == ProfileField::Picture { Some(value) } else { old(self).picture }),
    {
        match field {
            ProfileField::FullName => self.full_name = Some(value),
            ProfileField::Email => self.email = Some(value),
            ProfileField::Password => self.password = Some(value),
            ProfileField::PhoneNumber => self.phone_number = Some(value),
            ProfileField::Picture => self.picture = Some(value),
            ProfileField::Ignored => {},
        }
    }
}

/// The record of a user about to be created from a completed profile.
pub struct NewUser {
    pub id: u128,
    pub full_name: String,
    pub email: String,
    pub phone_number: Option<String>,
    /// The bcrypt hash of the chosen password.
    pub password_hash: String,
    pub picture: Option<String>,
    /// The pending sign-up the user came from.
    pub oauth_user_id: String,
}

/// The user record of a completed profile: the form's name, e-mail, phone
/// and picture, and a hash of its password, tied to the pending sign-up.
pub fn new_user_from_profile(profile: OAuthUserSchema, id: u128, oauth_user_id: String) -> (res: Result<NewUser, AppError>)
    requires
        profile.password is Some,
        profile.full_name is Some,
        profile.email is Some,
    ensures
        res matches Ok(u) ==> {
            &&& u.id == id
            &&& u.full_name@ == profile.full_name->Some_0@
            &&& u.email@ == profile.email->Some_0@
            &&& u.phone_number == profile.phone_number
            &&& hash_accepts(u.password_hash@, profile.password->Some_0@)
            &&& u.password_hash@.subrange(0, 7) == "$2b$12$"@
            &&& u.picture == profile.picture
            &&& u.oauth_user_id@ == oauth_user_id@
        },
        res matches Err(e) ==> e matches AppError::BcryptError(m) && is_random_source_failure(m@),
{
    let password = profile.password.unwrap();
    let password_hash = hash_password(password.as_str())?;
    Ok(NewUser {
        id,
        full_name: profile.full_name.unwrap(),
        email: profile.email.unwrap(),
        phone_number: profile.phone_number,
        password_hash,
        picture: profile.picture,
        oauth_user_id,
    })
}

/// Requires the signed-in user to have been found.
pub fn found_user(found: Option<User>) -> (res: Result<User, AppError>)
    ensures
        found is Some ==> res == Ok::<User, AppError>(found->Some_0),
        found is None ==> (res matches Err(e) && e matches AppError::NotFoundError(m) && m@ == "User not found"@),
{
    match found {
        Some(u) => Ok(u),
        None => Err(AppError::NotFoundError(String::from_str("User not found"))),
    }
}

/// The answer to deleting the signed-in user, given how many rows the
/// deletion removed: `204 No Content`, or not found when none.
pub fn user_deletion_outcome(rows_affected: u64) -> (res: Result<u16, AppError>)
    ensures
        rows_affected == 0 ==> (res matches Err(e) && e matches AppError::NotFoundError(m) && m@ == "User not found"@),
        rows_affected > 0 ==> res == Ok::<u16, AppError>(204),
{
    if rows_affected == 0 {
        Err(AppError::NotFoundError(String::from_str("User not found")))
    } else {
        Ok(204)
    }
}

/// The answer to verifying an e-mail address, given how many users the
/// update marked verified: `200 OK`, or a query error when none.
pub fn email_verification_outcome(rows_affected: u64) -> (res: Result<u16, AppError>)
    ensures
        rows_affected == 0 ==> (res matches Err(e) && e matches AppError::QueryError(m)
            && m@ == "User couldn't set to verified"@),
        rows_affected > 0 ==> res == Ok::<u16, AppError>(200),
{
    if rows_affected == 0 {
        Err(AppError::QueryError(String::from_str("User couldn't set to verified")))
    } else {
        Ok(200)
    }
}

/// Each part of the profile-completion form that is named after a field
/// fills exactly that field, and a part of any other name fills none.
pub proof fn lemma_form_parts_fill_their_fields(name: Seq<char>)
    ensures
        profile_field_of(name) == ProfileField::FullName <==> name == "full_name"@,
        profile_field_of(name) == ProfileField::Email <==> name == "email"@,
        profile_field_of(name) == ProfileField::Password <==> name == "password"@,
        profile_field_of(name) == ProfileField::PhoneNumber <==> name == "phone_number"@,
        profile_field_of(name) == ProfileField::Picture <==> name == "picture"@,
        profile_field_of(name) == ProfileField::Ignored <==> !(name == "full_name"@ || name == "email"@
            || name == "password"@ || name == "phone_number"@ || name == "picture"@),
{
    lemma_profile_field_names_differ();
}

proof fn lemma_profile_field_names_differ()
    ensures
        "full_name"@ != "email"@,
        "full_name"@ != "password"@,
        "full_name"@ != "phone_number"@,
        "full_name"@ != "picture"@,
        "email"@ != "password"@,
        "email"@ != "phone_number"@,
        "email"@ != "picture"@,
        "password"@ != "phone_number"@,
        "password"@ != "picture"@,
        "phone_number"@ != "picture"@,
{
    reveal_strlit("full_name");
    reveal_strlit("email");
    reveal_strlit("password");
    reveal_strlit("phone_number");
    reveal_strlit("picture");
    assert("full_name"@.len() == 9);
    assert("email"@.len() == 5);
    assert("password"@.len() == 8);
    assert("phone_number"@.len() == 12);
    assert("picture"@.len() == 7);
}

} // verus!
