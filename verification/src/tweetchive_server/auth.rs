//! The accounts of the archive's own users and their login tokens.
//!
//! A token is the user's id in decimal, a dot, and a random secret in
//! standard base64; the database keeps an Argon2 hash of the secret.

use crate::strings::{lacks, lemma_split_two, split_char, split_on};
use crate::text::{
    all_digits, decimal, i64_to_decimal, is_digit, lemma_decimal_digits,
    lemma_parse_i64_signed_decimal, parse_i64, parse_i64_spec, signed_decimal,
};
use argon2::{PasswordHasher, PasswordVerifier};
use base64::Engine;
use vstd::prelude::*;
use vstd::string::*;

verus! {

/// A character of the standard base64 alphabet, or its padding `=`.
pub open spec fn is_base64_char(c: char) -> bool {
    let n = c as u32;
    (65 <= n <= 90) || (97 <= n <= 122) || (48 <= n <= 57) || n == 43 || n == 47 || n == 61
}

/// The character of the standard base64 alphabet for the six-bit value `v`.
pub open spec fn base64_digit(v: int) -> char {
    if v < 26 {
        (65 + v) as char
    } else if v < 52 {
        (71 + v) as char
    } else if v < 62 {
        (v - 4) as char
    } else if v == 62 {
        '+'
    } else {
        '/'
    }
}

/// The standard, padded base64 text of `data`: each group of three bytes
/// becomes four digits of six bits each; a last group of one or two bytes
/// is filled with zero bits and padded with `=` to four characters.
pub open spec fn base64_text(data: Seq<u8>) -> Seq<char>
    decreases data.len(),
{
    if data.len() == 0 {
        Seq::empty()
    } else {
        let d0 = data[0] as int;
        if data.len() == 1 {
            seq![base64_digit(d0 / 4), base64_digit((d0 % 4) * 16), '=', '=']
        } else {
            let d1 = data[1] as int;
            if data.len() == 2 {
                seq![
                    base64_digit(d0 / 4),
                    base64_digit((d0 % 4) * 16 + d1 / 16),
                    base64_digit((d1 % 16) * 4),
                    '=',
                ]
            } else {
                let d2 = data[2] as int;
                seq![
                    base64_digit(d0 / 4),
                    base64_digit((d0 % 4) * 16 + d1 / 16),
                    base64_digit((d1 % 16) * 4 + d2 / 64),
                    base64_digit(d2 % 64),
                ] + base64_text(data.skip(3))
            }
        }
    }
}

proof fn lemma_base64_digit(v: int)
    requires
        0 <= v < 64,
    ensures
        is_base64_char(base64_digit(v)),
{
}

/// Base64 text uses only the standard alphabet and `=`.
pub proof fn lemma_base64_text_alphabet(data: Seq<u8>)
    ensures
        forall|i: int| 0 <= i < base64_text(data).len() ==> is_base64_char(#[trigger] base64_text(data)[i]),
    decreases data.len(),
{
    if data.len() > 0 {
        let d0 = data[0] as int;
        let t = base64_text(data);
        lemma_base64_digit(d0 / 4);
        if data.len() == 1 {
            lemma_base64_digit((d0 % 4) * 16);
            assert(is_base64_char('='));
        } else {
            let d1 = data[1] as int;
            lemma_base64_digit((d0 % 4) * 16 + d1 / 16);
            if data.len() == 2 {
                lemma_base64_digit((d1 % 16) * 4);
                assert(is_base64_char('='));
            } else {
                let d2 = data[2] as int;
                lemma_base64_digit((d1 % 16) * 4 + d2 / 64);
                lemma_base64_digit(d2 % 64);
                lemma_base64_text_alphabet(data.skip(3));
                let rest = base64_text(data.skip(3));
                assert forall|i: int| 0 <= i < t.len() implies is_base64_char(#[trigger] t[i]) by {
                    if i >= 4 {
                        assert(t[i] == rest[i - 4]);
                    }
                }
            }
        }
    }
}

/// The bytes that `base64`'s `STANDARD` engine decodes from `text`, if it
/// is valid padded base64.
pub uninterp spec fn base64_decoding(text: Seq<char>) -> Option<Seq<u8>>;

/// Calls `STANDARD.encode` of `base64`, the standard alphabet with padding.
/// Its text is `base64_text` of the bytes, and it decodes back to the
/// bytes, as the crate's round-trip tests check.
#[verifier::external_body]
fn base64_encode(data: &[u8]) -> (s: String)
    ensures
        s@ == base64_text(data@),
        base64_decoding(s@) == Some(data@),
{
    base64::engine::general_purpose::STANDARD.encode(data)
}

/// Calls `STANDARD.decode` of `base64`; its result depends on the text
/// alone and is named `base64_decoding`.
#[verifier::external_body]
fn base64_decode(text: &str) -> (r: Option<Vec<u8>>)
    ensures
        r matches Some(v) ==> base64_decoding(text@) == Some(v@),
        r is None ==> base64_decoding(text@) is None,
{
    base64::engine::general_purpose::STANDARD.decode(text).ok()
}

/// Whether Argon2 (default parameters) accepts `password` for the hash in
/// PHC string format `phc`.
pub uninterp spec fn argon2_accepts(password: Seq<u8>, phc: Seq<char>) -> bool;

/// Parses `phc` with `PasswordHash::new` and checks `password` against it
/// with `Argon2::default().verify_password`. The answer depends on the two
/// arguments alone and is named `argon2_accepts`; a string that is no PHC
/// string is answered `false`.
#[verifier::external_body]
fn argon2_verify(password: &[u8], phc: &str) -> (ok: bool)
    ensures
        ok == argon2_accepts(password@, phc@),
{
    match argon2::PasswordHash::new(phc) {
        Ok(hash) => argon2::Argon2::default().verify_password(password, &hash).is_ok(),
        Err(_) => false,
    }
}

/// The PHC string that Argon2 (default parameters) makes of `password` with
/// the B64 salt `salt`, when it makes one.
pub uninterp spec fn argon2_phc(password: Seq<u8>, salt: Seq<char>) -> Option<Seq<char>>;

/// Calls `Argon2::default().hash_password` and writes the hash as a PHC
/// string. The string depends on the two arguments alone and is named
/// `argon2_phc`. Checking the same password against it succeeds:
/// `verify_password` recomputes the hash with the algorithm, version,
/// parameters and salt that the string records. When hashing fails (a salt
/// that is not valid B64, for one) is not stated beyond the name.
#[verifier::external_body]
fn argon2_hash(password: &[u8], salt: &str) -> (r: Option<String>)
    ensures
        r matches Some(phc) ==> argon2_phc(password@, salt@) == Some(phc@) && argon2_accepts(
            password@,
            phc@,
        ),
        r is None ==> argon2_phc(password@, salt@) is None,
{
    match argon2::Argon2::default().hash_password(password, salt) {
        Ok(hash) => Some(hash.to_string()),
        Err(_) => None,
    }
}

/// The token of user `user` with secret `secret`.
pub open spec fn token_text(user: i64, secret: Seq<u8>) -> Seq<char> {
    signed_decimal(user as int) + seq!['.'] + base64_text(secret)
}

/// What a token names: the user id before the first dot, and the secret
/// decoded from what follows it up to the next dot; `None` when either is
/// malformed.
pub open spec fn token_parts(token: Seq<char>) -> Option<(i64, Seq<u8>)> {
    let pieces = split_char(token, '.');
    match parse_i64_spec(pieces[0]) {
        Some(id) => if pieces.len() > 1 {
            match base64_decoding(pieces[1]) {
                Some(secret) => Some((id, secret)),
                None => None,
            }
        } else {
            None
        },
        None => None,
    }
}

proof fn lemma_signed_decimal_lacks_dot(n: int)
    ensures
        lacks(signed_decimal(n), '.'),
{
    if n < 0 {
        lemma_decimal_digits((-n) as nat);
        let s = signed_decimal(n);
        assert forall|i: int| 0 <= i < s.len() implies #[trigger] s[i] != '.' by {
            if i > 0 {
                assert(s[i] == decimal((-n) as nat)[i - 1]);
                assert(is_digit(decimal((-n) as nat)[i - 1]));
            }
        }
    } else {
        lemma_decimal_digits(n as nat);
        let s = signed_decimal(n);
        assert forall|i: int| 0 <= i < s.len() implies #[trigger] s[i] != '.' by {
            assert(is_digit(s[i]));
        }
    }
}

/// Writes the token of user `user` for the secret `secret`. Reading the
/// token back gives the user and the secret.
pub fn format_token(user: i64, secret: &[u8]) -> (t: String)
    ensures
        t@ == token_text(user, secret@),
        token_parts(t@) == Some((user, secret@)),
{
    let mut t = i64_to_decimal(user);
    let encoded = base64_encode(secret);
    t.append(".");
    t.append(encoded.as_str());
    proof {
        reveal_strlit(".");
        let a = signed_decimal(user as int);
        let b = encoded@;
        assert(t@ =~= a + seq!['.'] + b);
        lemma_signed_decimal_lacks_dot(user as int);
        lemma_base64_text_alphabet(secret@);
        assert(lacks(b, '.')) by {
            assert forall|i: int| 0 <= i < b.len() implies #[trigger] b[i] != '.' by {
                assert(is_base64_char(b[i]));
            }
        }
        lemma_split_two(a, b, '.');
        lemma_parse_i64_signed_decimal(user);
    }
    t
}

/// Reads the user id and the secret out of a token.
pub fn parse_token(token: &str) -> (r: Option<(i64, Vec<u8>)>)
    ensures
        r matches Some(p) ==> token_parts(token@) == Some((p.0, p.1@)),
        r is None ==> token_parts(token@) is None,
{
    let pieces = split_on(token, '.');
    proof {
        crate::strings::lemma_split_char_nonempty(token@, '.');
        assert(pieces@[0]@ == split_char(token@, '.')[0]);
    }
    let id = match parse_i64(pieces[0].as_str()) {
        Some(id) => id,
        None => return None,
    };
    if pieces.len() < 2 {
        return None;
    }
    proof {
        assert(pieces@[1]@ == split_char(token@, '.')[1]);
    }
    match base64_decode(pieces[1].as_str()) {
        Some(secret) => Some((id, secret)),
        None => None,
    }
}

/// A stored login token: the PHC hash of its secret and its user.
pub struct TokenRecord {
    pub phc: String,
    pub user: i64,
}

/// What a presented token proves.
#[derive(Clone, Copy, Debug, PartialEq, Eq, Structural)]
pub enum TokenCheck {
    /// The token names another user than the record: no one is logged in.
    WrongUser,
    /// The secret matches: the user is logged in.
    Verified(i64),
    /// The secret does not match the hash: the token is refused.
    Rejected,
}

/// What a token naming `claimed_user` with secret `secret` proves against
/// a stored token of `user` whose hash is `phc`.
pub open spec fn token_check(claimed_user: i64, secret: Seq<u8>, phc: Seq<char>, user: i64) -> TokenCheck {
    if claimed_user != user {
        TokenCheck::WrongUser
    } else if argon2_accepts(secret, phc) {
        TokenCheck::Verified(user)
    } else {
        TokenCheck::Rejected
    }
}

/// Checks a token naming `claimed_user` with secret `secret` against the
/// stored `record`.
pub fn check_token(claimed_user: i64, secret: &[u8], record: &TokenRecord) -> (c: TokenCheck)
    ensures
        c == token_check(claimed_user, secret@, record.phc@, record.user),
{
    if claimed_user != record.user {
        return TokenCheck::WrongUser;
    }
    if argon2_verify(secret, record.phc.as_str()) {
        TokenCheck::Verified(record.user)
    } else {
        TokenCheck::Rejected
    }
}

/// What presenting a token does, given the stored tokens looked up for it.
#[derive(Clone, Copy, Debug, PartialEq, Eq, Structural)]
pub enum TokenLogin {
    /// No stored token belongs to the user the token names: no one is
    /// logged in.
    Unknown,
    /// The user has stored tokens and none accepts the secret: the token is
    /// refused.
    Refused,
    /// A stored token of the user accepts the secret.
    LoggedIn(i64),
}

/// The outcome of presenting a token naming `claimed_user` with `secret`
/// against the stored tokens `records`, taken in order: the first token of
/// that user that accepts the secret logs the user in; tokens of other
/// users are passed over.
pub open spec fn token_login_outcome(claimed_user: i64, secret: Seq<u8>, records: Seq<TokenRecord>) -> TokenLogin
    decreases records.len(),
{
    if records.len() == 0 {
        TokenLogin::Unknown
    } else {
        let first = records[0];
        match token_check(claimed_user, secret, first.phc@, first.user) {
            TokenCheck::Verified(u) => TokenLogin::LoggedIn(u),
            TokenCheck::WrongUser => token_login_outcome(claimed_user, secret, records.drop_first()),
            TokenCheck::Rejected => match token_login_outcome(claimed_user, secret, records.drop_first()) {
                TokenLogin::Unknown => TokenLogin::Refused,
                other => other,
            },
        }
    }
}

/// Some stored token of `user` accepts `secret`.
pub open spec fn some_token_accepts(records: Seq<TokenRecord>, user: i64, secret: Seq<u8>) -> bool {
    exists|i: int|
        0 <= i < records.len() && (#[trigger] records[i]).user == user && argon2_accepts(secret, records[i].phc@)
}

/// Some stored token belongs to `user`.
pub open spec fn has_token_of(records: Seq<TokenRecord>, user: i64) -> bool {
    exists|i: int| 0 <= i < records.len() && (#[trigger] records[i]).user == user
}

/// Presenting a token logs its user in exactly when one of the user's
/// stored tokens accepts the secret, whatever the other tokens are; it is
/// refused exactly when the user has stored tokens and none accepts it, and
/// no one is logged in when the user has no stored token.
pub proof fn lemma_token_login_outcome(claimed_user: i64, secret: Seq<u8>, records: Seq<TokenRecord>)
    ensures
        some_token_accepts(records, claimed_user, secret) ==> token_login_outcome(claimed_user, secret, records)
            == TokenLogin::LoggedIn(claimed_user),
        !some_token_accepts(records, claimed_user, secret) && has_token_of(records, claimed_user)
            ==> token_login_outcome(claimed_user, secret, records) == TokenLogin::Refused,
        !has_token_of(records, claimed_user) ==> token_login_outcome(claimed_user, secret, records)
            == TokenLogin::Unknown,
    decreases records.len(),
{
    if records.len() > 0 {
        let rest = records.drop_first();
        lemma_token_login_outcome(claimed_user, secret, rest);
        let first = records[0];
        assert forall|i: int| 0 <= i < rest.len() implies #[trigger] rest[i] == records[i + 1] by {}
        if some_token_accepts(records, claimed_user, secret) {
            let i = choose|i: int|
                0 <= i < records.len() && (#[trigger] records[i]).user == claimed_user && argon2_accepts(
                    secret,
                    records[i].phc@,
                );
            if i > 0 {
                assert(rest[i - 1] == records[i]);
                assert(some_token_accepts(rest, claimed_user, secret));
            }
        } else {
            if some_token_accepts(rest, claimed_user, secret) {
                let j = choose|j: int|
                    0 <= j < rest.len() && (#[trigger] rest[j]).user == claimed_user && argon2_accepts(
                        secret,
                        rest[j].phc@,
                    );
                assert(records[j + 1] == rest[j]);
                assert(false);
            }
            if has_token_of(records, claimed_user) {
                let i = choose|i: int| 0 <= i < records.len() && (#[trigger] records[i]).user == claimed_user;
                if i > 0 {
                    assert(rest[i - 1] == records[i]);
                    assert(has_token_of(rest, claimed_user));
                }
            } else {
                assert(records[0] == first);
                if has_token_of(rest, claimed_user) {
                    let j = choose|j: int| 0 <= j < rest.len() && (#[trigger] rest[j]).user == claimed_user;
                    assert(records[j + 1] == rest[j]);
                    assert(false);
                }
            }
        }
    }
}

fn token_login_from(claimed_user: i64, secret: &[u8], records: &Vec<TokenRecord>, i: usize) -> (r: TokenLogin)
    requires
        i <= records@.len(),
    ensures
        r == token_login_outcome(claimed_user, secret@, records@.skip(i as int)),
    decreases records@.len() - i,
{
    if i == records.len() {
        proof {
            assert(records@.skip(i as int).len() == 0);
        }
        return TokenLogin::Unknown;
    }
    proof {
        assert(records@.skip(i as int)[0] == records@[i as int]);
        assert(records@.skip(i as int).drop_first() =~= records@.skip(i + 1));
    }
    match check_token(claimed_user, secret, &records[i]) {
        TokenCheck::Verified(u) => TokenLogin::LoggedIn(u),
        TokenCheck::WrongUser => token_login_from(claimed_user, secret, records, i + 1),
        TokenCheck::Rejected => match token_login_from(claimed_user, secret, records, i + 1) {
            TokenLogin::Unknown => TokenLogin::Refused,
            other => other,
        },
    }
}

/// Decides what presenting a token naming `claimed_user` with `secret`
/// does, given the stored tokens looked up for it.
pub fn token_login(claimed_user: i64, secret: &[u8], records: &Vec<TokenRecord>) -> (r: TokenLogin)
    ensures
        r == token_login_outcome(claimed_user, secret@, records@),
{
    proof {
        assert(records@.skip(0) =~= records@);
    }
    token_login_from(claimed_user, secret, records, 0)
}

/// A newly issued login token: the hash of its secret, to store, and the
/// token, to hand to its user.
pub struct IssuedToken {
    pub phc: String,
    pub token: String,
}

/// Issues a token of user `user` for the secret `secret`, hashed with the
/// B64 salt `salt`; `None` when Argon2 refuses the salt. Reading the token
/// gives back the user and the secret, and checking that secret against
/// the stored hash verifies the user.
pub fn issue_token(user: i64, secret: &[u8], salt: &str) -> (r: Option<IssuedToken>)
    ensures
        r is Some <==> argon2_phc(secret@, salt@) is Some,
        r matches Some(t) ==> Some(t.phc@) == argon2_phc(secret@, salt@) && t.token@ == token_text(
            user,
            secret@,
        ),
        r matches Some(t) ==> token_parts(t.token@) == Some((user, secret@)),
        r matches Some(t) ==> token_check(user, secret@, t.phc@, user) == TokenCheck::Verified(user),
{
    match argon2_hash(secret, salt) {
        Some(phc) => Some(IssuedToken { phc, token: format_token(user, secret) }),
        None => None,
    }
}

/// A GitHub account as GitHub's user API describes it.
#[derive(Clone, Debug)]
pub struct GithubUser {
    pub login: String,
    pub id: i64,
    pub node_id: String,
    pub avatar_url: String,
    pub email: String,
}

/// A user of the archive, as stored.
#[derive(Clone, Debug)]
pub struct AuthenticatedUser {
    pub id: i64,
    pub github_name: String,
    pub email: String,
    pub is_admin: bool,
    pub profile_picture: String,
}

/// What registering a GitHub account does to the stored users.
pub enum Registration {
    /// The stored user is already up to date.
    Keep(AuthenticatedUser),
    /// The stored user's e-mail and picture are replaced.
    Update(AuthenticatedUser),
    /// A new user is stored.
    Insert(AuthenticatedUser),
}

/// `name` is one of `names`.
pub open spec fn listed(names: Seq<String>, name: Seq<char>) -> bool {
    exists|i: int| 0 <= i < names.len() && #[trigger] names[i]@ == name
}

fn is_listed(names: &Vec<String>, name: &String) -> (b: bool)
    ensures
        b == listed(names@, name@),
{
    let mut i: usize = 0;
    while i < names.len()
        invariant
            i <= names@.len(),
            forall|j: int| 0 <= j < i ==> #[trigger] names@[j]@ != name@,
        decreases names@.len() - i,
    {
        if names[i] == *name {
            return true;
        }
        i = i + 1;
    }
    false
}

/// The user a registration leaves stored.
pub open spec fn registered_user(r: Registration) -> AuthenticatedUser {
    match r {
        Registration::Keep(u) => u,
        Registration::Update(u) => u,
        Registration::Insert(u) => u,
    }
}

/// Registers the GitHub account `gh`: a stored user whose e-mail or picture
/// differ from GitHub's is updated to GitHub's, one that agrees is kept;
/// an account not stored yet becomes a new user, an administrator when its
/// login is among `admins`.
pub fn register_decision(gh: GithubUser, existing: Option<AuthenticatedUser>, admins: &Vec<String>) -> (r:
    Registration)
    ensures
        existing matches Some(m) ==> if gh.avatar_url@ != m.profile_picture@ || gh.email@ != m.email@ {
            r matches Registration::Update(u) && u.id == m.id && u.github_name == m.github_name
                && u.is_admin == m.is_admin && u.email@ == gh.email@ && u.profile_picture@
                == gh.avatar_url@
        } else {
            r matches Registration::Keep(u) && u.id == m.id && u.github_name == m.github_name
                && u.is_admin == m.is_admin && u.email == m.email && u.profile_picture
                == m.profile_picture
        },
        existing is None ==> (r matches Registration::Insert(u) && u.id == gh.id && u.github_name@
            == gh.login@ && u.email@ == gh.email@ && u.is_admin == listed(admins@, gh.login@)
            && u.profile_picture@ == gh.avatar_url@),
        registered_user(r).email@ == gh.email@,
        registered_user(r).profile_picture@ == gh.avatar_url@,
{
    match existing {
        Some(m) => {
            if gh.avatar_url != m.profile_picture || gh.email != m.email {
                let AuthenticatedUser { id, github_name, is_admin, .. } = m;
                Registration::Update(
                    AuthenticatedUser {
                        id,
                        github_name,
                        email: gh.email,
                        is_admin,
                        profile_picture: gh.avatar_url,
                    },
                )
            } else {
                Registration::Keep(m)
            }
        },
        None => {
            let admin = is_listed(admins, &gh.login);
            Registration::Insert(
                AuthenticatedUser {
                    id: gh.id,
                    github_name: gh.login,
                    email: gh.email,
                    is_admin: admin,
                    profile_picture: gh.avatar_url,
                },
            )
        },
    }
}

} // verus!
