//! User accounts: argon2 password hashing and verification, the checks on
//! new accounts, and the git identity a user's commits are authored under.
//! Storing rows is the caller's job; everything decided about a row is here.

use vstd::prelude::*;
use vstd::string::StringSliceAdditionalSpecFns;
use argon2::password_hash::{PasswordHash, PasswordHasher, PasswordVerifier, SaltString};
use argon2::Argon2;
use crate::commit::CommitIdentity;
use crate::config::AppStateConfig;
use crate::hex::os_random;
use crate::text_support::{chars_of, concat, trim_chars, trimmed};

verus! {

/// A user account (password hash intentionally excluded).
#[derive(Debug, Clone, PartialEq, Eq)]
pub struct UserRecord {
    pub id: i64,
    pub username: String,
    pub git_name: String,
    pub git_email: String,
}

/// A stored account row, password hash included.
#[derive(Debug)]
pub struct StoredUser {
    pub id: i64,
    pub username: String,
    pub password_hash: String,
    pub git_name: String,
    pub git_email: String,
}

/// A new account ready to be stored.
#[derive(Debug)]
pub struct NewUser {
    pub username: String,
    pub password_hash: String,
    pub git_name: String,
    pub git_email: String,
}

/// Whether argon2 (default parameters) accepts `password` against the PHC
/// string `phc`.
pub uninterp spec fn argon2_accepts(password: Seq<u8>, phc: Seq<char>) -> bool;

/// `PasswordHash::new` on `phc`, then `Argon2::default().verify_password`
/// with `password`: true iff the string parses and the password matches it.
#[verifier::external_body]
fn argon2_verify(password: &[u8], phc: &str) -> (r: bool)
    ensures
        r == argon2_accepts(password@, phc@),
{
    match PasswordHash::new(phc) {
        Ok(parsed) => Argon2::default().verify_password(password, &parsed).is_ok(),
        Err(_) => false,
    }
}

/// The PHC string of argon2 with its default parameters (argon2id, version
/// 19, m=19456, t=2, p=1, 32-byte output) over `password` with the salt
/// `salt`.
pub uninterp spec fn argon2_phc(password: Seq<u8>, salt: Seq<u8>) -> Seq<char>;

/// `Argon2::default().hash_password` with the salt made of the 16 bytes
/// `salt` (`SaltString::encode_b64`), as a PHC string, or the text of
/// argon2's error. The hash is named: with fixed parameters and no secret it
/// depends on the password and the salt alone; and, as `verify_password`
/// recomputes it from the salt and parameters the string carries, it
/// accepts the password it was made from. With the default parameters and a 16-byte
/// salt, the one check in argon2's source that can fail is `MAX_PWD_LEN`
/// (`0xFFFFFFFF` bytes): a longer password gives `Error::PwdTooLong`, which
/// converts to `password_hash::Error::Password` and reads "invalid
/// password".
#[verifier::external_body]
fn argon2_hash(password: &[u8], salt: &[u8]) -> (r: Result<String, String>)
    requires
        salt@.len() == 16,
    ensures
        r is Ok <==> password@.len() <= 0xFFFF_FFFF,
        r matches Ok(h) ==> h@ == argon2_phc(password@, salt@),
        r matches Ok(h) ==> argon2_accepts(password@, h@),
        r matches Err(e) ==> e@ == "invalid password"@,
{
    let salt = SaltString::encode_b64(salt).map_err(|e| e.to_string())?;
    Argon2::default().hash_password(password, &salt).map(|h| h.to_string()).map_err(|e| e.to_string())
}

/// The account a login with `password` resolves to, given the row found
/// for the username (`None` when there is none).
pub open spec fn login_result(row: Option<(i64, Seq<char>, Seq<char>, Seq<char>, Seq<char>)>, password: Seq<u8>) -> Option<(i64, Seq<char>, Seq<char>, Seq<char>)> {
    match row {
        Some((id, username, hash, git_name, git_email)) => if argon2_accepts(password, hash) {
            Some((id, username, git_name, git_email))
        } else {
            None
        },
        None => None,
    }
}

/// A stored row as plain values.
pub open spec fn row_view(row: Option<StoredUser>) -> Option<(i64, Seq<char>, Seq<char>, Seq<char>, Seq<char>)> {
    match row {
        Some(u) => Some((u.id, u.username@, u.password_hash@, u.git_name@, u.git_email@)),
        None => None,
    }
}

/// A user record as plain values.
pub open spec fn record_view(r: Option<UserRecord>) -> Option<(i64, Seq<char>, Seq<char>, Seq<char>)> {
    match r {
        Some(u) => Some((u.id, u.username@, u.git_name@, u.git_email@)),
        None => None,
    }
}

/// Check a login: the account when a row exists for the username and the
/// password verifies against its hash; `None` otherwise, so an unknown
/// username and a wrong password look the same to the caller.
pub fn check_credentials(row: Option<StoredUser>, password: &str) -> (r: Option<UserRecord>)
    ensures
        record_view(r) == login_result(row_view(row), password.spec_bytes()),
{
    match row {
        None => None,
        Some(u) => {
            if argon2_verify(password.as_bytes(), u.password_hash.as_str()) {
                Some(
                    UserRecord {
                        id: u.id,
                        username: u.username,
                        git_name: u.git_name,
                        git_email: u.git_email,
                    },
                )
            } else {
                None
            }
        },
    }
}

/// A message that reports a failed hashing step.
pub open spec fn hash_failure(m: Seq<char>) -> bool {
    m.len() >= 6 && m.subrange(0, 6) == "hash: "@
}

/// A new account row from the salt the OS random source gave (`Err` with
/// its error when it gave none): the password is stored only as its argon2
/// hash, and every password argon2 accepts (at most `0xFFFFFFFF` bytes)
/// gives a row.
pub fn user_row_with_salt(
    username: &str,
    password: &str,
    git_name: &str,
    git_email: &str,
    salt: Result<Vec<u8>, String>,
) -> (r: Result<NewUser, String>)
    requires
        salt matches Ok(b) ==> b@.len() == 16,
    ensures
        salt matches Err(e) ==> (r matches Err(m) && m@ == "hash: "@ + e@),
        salt is Ok ==> (r is Ok <==> password.spec_bytes().len() <= 0xFFFF_FFFF),
        salt is Ok ==> (r matches Err(m) ==> m@ == "hash: invalid password"@),
        salt matches Ok(b) ==> (r matches Ok(u) ==> u.password_hash@ == argon2_phc(
            password.spec_bytes(),
            b@,
        )),
        r matches Ok(u) ==> u.username@ == username@ && u.git_name@ == git_name@ && u.git_email@
            == git_email@ && argon2_accepts(password.spec_bytes(), u.password_hash@),
{
    let salt = match salt {
        Ok(b) => b,
        Err(e) => return Err(concat("hash: ", e.as_str())),
    };
    let hash = match argon2_hash(password.as_bytes(), salt.as_slice()) {
        Ok(h) => h,
        Err(e) => {
            proof {
                reveal_strlit("hash: ");
                reveal_strlit("invalid password");
                reveal_strlit("hash: invalid password");
                assert("hash: "@ + e@ =~= "hash: invalid password"@);
            }
            return Err(concat("hash: ", e.as_str()));
        },
    };
    Ok(
        NewUser {
            username: username.to_owned(),
            password_hash: hash,
            git_name: git_name.to_owned(),
            git_email: git_email.to_owned(),
        },
    )
}

/// The hash is argon2 over the password with some 16-byte salt.
pub open spec fn salted_hash_of(password: Seq<u8>, hash: Seq<char>) -> bool {
    exists|b: Seq<u8>| b.len() == 16 && hash == #[trigger] argon2_phc(password, b)
}

/// A new account row with a fresh 16-byte salt from the OS random source.
/// A password argon2 refuses (over `0xFFFFFFFF` bytes) never gives a row;
/// whether the random source supplies the salt is the machine's.
pub fn new_user_row(username: &str, password: &str, git_name: &str, git_email: &str) -> (r: Result<
    NewUser,
    String,
>)
    ensures
        password.spec_bytes().len() > 0xFFFF_FFFF ==> r is Err,
        r matches Err(m) ==> hash_failure(m@),
        r matches Ok(u) ==> u.username@ == username@ && u.git_name@ == git_name@ && u.git_email@
            == git_email@ && argon2_accepts(password.spec_bytes(), u.password_hash@),
        r matches Ok(u) ==> salted_hash_of(password.spec_bytes(), u.password_hash@),
{
    let salt = os_random(16);
    let ghost drawn = if salt is Ok {
        salt->Ok_0@
    } else {
        Seq::<u8>::empty()
    };
    let r = user_row_with_salt(username, password, git_name, git_email, salt);
    proof {
        if r is Ok {
            assert(argon2_phc(password.spec_bytes(), drawn) == r->Ok_0.password_hash@);
        }
        reveal_strlit("hash: ");
        reveal_strlit("hash: invalid password");
        if r is Err {
            let m = r->Err_0;
            assert(m@.len() >= 6);
            assert(m@.subrange(0, 6) =~= "hash: "@);
        }
    }
    r
}

/// The refusal for an account with a blank name, password or email.
pub open spec fn useradd_refused(username: Seq<char>, password: Seq<char>, git_email: Seq<char>) -> bool {
    trimmed(username).len() == 0 || password.len() == 0 || trimmed(git_email).len() == 0
}

/// Reject empty inputs for a new account (the username and git email count
/// as empty when they are only whitespace).
pub fn check_useradd_input(username: &str, password: &str, git_email: &str) -> (r: Result<(), String>)
    ensures
        r is Err <==> useradd_refused(username@, password@, git_email@),
        r matches Err(m) ==> m@ == "username, password, and git email must not be empty"@,
{
    let u = trim_chars(chars_of(username).as_slice());
    let e = trim_chars(chars_of(git_email).as_slice());
    if u.len() == 0 || password.unicode_len() == 0 || e.len() == 0 {
        return Err("username, password, and git email must not be empty".to_owned());
    }
    Ok(())
}

/// `useradd`: refuse blank input, otherwise the new account's row (with
/// the password hashed) for the caller to store.
pub fn run_useradd(username: &str, password: &str, git_name: &str, git_email: &str) -> (r: Result<
    NewUser,
    String,
>)
    ensures
        useradd_refused(username@, password@, git_email@) ==> (r matches Err(m) && m@
            == "username, password, and git email must not be empty"@),
        !useradd_refused(username@, password@, git_email@) && password.spec_bytes().len()
            > 0xFFFF_FFFF ==> r is Err,
        !useradd_refused(username@, password@, git_email@) ==> (r matches Err(m) ==> hash_failure(
            m@,
        )),
        r matches Ok(u) ==> !useradd_refused(username@, password@, git_email@) && u.username@
            == username@ && u.git_name@ == git_name@ && u.git_email@ == git_email@
            && argon2_accepts(password.spec_bytes(), u.password_hash@),
        r matches Ok(u) ==> salted_hash_of(password.spec_bytes(), u.password_hash@),
{
    check_useradd_input(username, password, git_email)?;
    new_user_row(username, password, git_name, git_email)
}

/// The identity commits are made under for `user`: the user's git identity
/// as author, the fixed server identity as committer.
pub fn author_identity(user: &UserRecord, committer_name: &str, committer_email: &str) -> (id: CommitIdentity)
    ensures
        id.author_name@ == user.git_name@,
        id.author_email@ == user.git_email@,
        id.committer_name@ == committer_name@,
        id.committer_email@ == committer_email@,
{
    CommitIdentity {
        author_name: user.git_name.clone(),
        author_email: user.git_email.clone(),
        committer_name: committer_name.to_owned(),
        committer_email: committer_email.to_owned(),
    }
}

/// The commit identity of the acting user: the account behind the session
/// (if any) as author, the server's fixed committer as committer.
pub fn acting_user(user: Option<&UserRecord>, config: &AppStateConfig) -> (id: Option<CommitIdentity>)
    ensures
        user is None ==> id is None,
        user matches Some(u) ==> (id matches Some(i) && i.author_name@ == u.git_name@
            && i.author_email@ == u.git_email@ && i.committer_name@ == config.committer_name@
            && i.committer_email@ == config.committer_email@),
{
    match user {
        None => None,
        Some(u) => Some(
            author_identity(u, config.committer_name.as_str(), config.committer_email.as_str()),
        ),
    }
}

/// An account created with a password can log in with that password: the
/// stored hash accepts it, so the login check returns the account.
pub proof fn created_account_accepts_its_password(
    id: i64,
    username: Seq<char>,
    hash: Seq<char>,
    git_name: Seq<char>,
    git_email: Seq<char>,
    password: Seq<u8>,
)
    requires
        argon2_accepts(password, hash),
    ensures
        login_result(Some((id, username, hash, git_name, git_email)), password) == Some(
            (id, username, git_name, git_email),
        ),
{
}

/// Wrong password and unknown username are indistinguishable: both give no
/// account.
pub proof fn failed_logins_look_alike(
    row: (i64, Seq<char>, Seq<char>, Seq<char>, Seq<char>),
    password: Seq<u8>,
)
    requires
        !argon2_accepts(password, row.2),
    ensures
        login_result(Some(row), password) == login_result(None, password),
{
}

} // verus!
