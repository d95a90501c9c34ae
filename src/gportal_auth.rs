use vstd::prelude::*;

use crate::openid::Token;
use crate::time::UtcInstant;

verus! {

/// Client id sent with every grant.
pub const CLIENT_ID: &'static str = "website";

/// Scope requested by the password grant.
pub const SCOPE: &'static str = "openid email profile gportal";

/// The secret bytes that totp-rs decodes from base32 text (RFC 4648,
/// padding optional), or `None` where the text is not base32.
pub uninterp spec fn base32_secret_of(s: Seq<char>) -> Option<Seq<u8>>;

/// The 6-digit SHA-1 one-time code for a secret in a 30-second step (the
/// Unix time in seconds divided by 30).
pub uninterp spec fn totp_code_of(secret: Seq<u8>, step: u64) -> Seq<char>;

/// Six decimal digits.
pub open spec fn is_six_digits(c: Seq<char>) -> bool {
    c.len() == 6 && forall|i: int| 0 <= i < 6 ==> '0' <= #[trigger] c[i] <= '9'
}

/// Relies on `totp_rs::Secret::Encoded(..).to_bytes()`: the decoded bytes,
/// or `None` where the text is not base32.
#[verifier::external_body]
fn decode_secret(s: &str) -> (r: Option<Vec<u8>>)
    ensures
        match r {
            Some(b) => base32_secret_of(s@) == Some(b@),
            None => base32_secret_of(s@) is None,
        },
{
    totp_rs::Secret::Encoded(s.to_string()).to_bytes().ok()
}

/// Relies on `totp_rs::TOTP::new(Algorithm::SHA1, 6, 1, 30, secret)`, which
/// refuses a secret under 16 bytes, and `TOTP::generate`, which signs
/// `time / 30` only and writes the code zero-padded to six decimal digits.
#[verifier::external_body]
fn totp_sha1_six_digits(secret: Vec<u8>, time: u64) -> (r: Option<String>)
    ensures
        (r is None) == (secret@.len() < 16),
        r matches Some(c) ==> c@ == totp_code_of(secret@, time / 30) && c@.len() == 6
            && forall|i: int| 0 <= i < 6 ==> '0' <= #[trigger] c@[i] <= '9',
{
    match totp_rs::TOTP::new(totp_rs::Algorithm::SHA1, 6, 1, 30, secret) {
        Ok(t) => Some(t.generate(time)),
        Err(_) => None,
    }
}

/// The fields of a form as pairs of texts.
pub open spec fn form_view(f: Seq<(String, String)>) -> Seq<(Seq<char>, Seq<char>)> {
    f.map_values(|p: (String, String)| (p.0@, p.1@))
}

/// The form of the password grant.
pub fn password_grant_form(username: &str, password: &str, totp_code: &str) -> (r: Vec<(String, String)>)
    ensures
        form_view(r@) == seq![
            ("grant_type"@, "password"@),
            ("client_id"@, CLIENT_ID@),
            ("scope"@, SCOPE@),
            ("username"@, username@),
            ("password"@, password@),
            ("rememberMe"@, "on"@),
            ("totp"@, totp_code@),
        ],
{
    let r = vec![
        ("grant_type".to_owned(), "password".to_owned()),
        ("client_id".to_owned(), CLIENT_ID.to_owned()),
        ("scope".to_owned(), SCOPE.to_owned()),
        ("username".to_owned(), username.to_owned()),
        ("password".to_owned(), password.to_owned()),
        ("rememberMe".to_owned(), "on".to_owned()),
        ("totp".to_owned(), totp_code.to_owned()),
    ];
    assert(form_view(r@) =~= seq![
        ("grant_type"@, "password"@),
        ("client_id"@, CLIENT_ID@),
        ("scope"@, SCOPE@),
        ("username"@, username@),
        ("password"@, password@),
        ("rememberMe"@, "on"@),
        ("totp"@, totp_code@),
    ]);
    r
}

/// The form of the refresh-token grant.
pub fn refresh_grant_form(refresh_token: &str) -> (r: Vec<(String, String)>)
    ensures
        form_view(r@) == seq![
            ("grant_type"@, "refresh_token"@),
            ("client_id"@, CLIENT_ID@),
            ("scope"@, SCOPE@),
            ("refresh_token"@, refresh_token@),
        ],
{
    let r = vec![
        ("grant_type".to_owned(), "refresh_token".to_owned()),
        ("client_id".to_owned(), CLIENT_ID.to_owned()),
        ("scope".to_owned(), SCOPE.to_owned()),
        ("refresh_token".to_owned(), refresh_token.to_owned()),
    ];
    assert(form_view(r@) =~= seq![
        ("grant_type"@, "refresh_token"@),
        ("client_id"@, CLIENT_ID@),
        ("scope"@, SCOPE@),
        ("refresh_token"@, refresh_token@),
    ]);
    r
}

/// Why a credential operation failed.
pub enum AuthError {
    /// The TOTP secret is not base32 or is shorter than 16 bytes.
    InvalidTotpSecret,
    /// A one-time code is asked for at an instant before the Unix epoch.
    ClockBeforeEpoch,
    /// The token endpoint refused a grant; holds the response body.
    Rejected(String),
}

/// The one-time code for a base32 secret at a Unix time, if the secret is usable.
pub open spec fn totp_for(secret: Seq<char>, time: u64) -> Option<Seq<char>> {
    match base32_secret_of(secret) {
        Some(b) => if b.len() >= 16 {
            Some(totp_code_of(b, time / 30))
        } else {
            None
        },
        None => None,
    }
}

/// Two times in the same 30-second window give the same one-time code.
pub proof fn lemma_same_window_same_code(secret: Seq<char>, t1: u64, t2: u64)
    requires
        t1 / 30 == t2 / 30,
    ensures
        totp_for(secret, t1) == totp_for(secret, t2),
{
}

/// What to do to obtain a valid access token.
pub enum AuthStep {
    /// The stored access token is still valid: use it, no network call.
    Cached(String),
    /// Exchange this refresh token for a new token pair.
    Refresh(String),
    /// Log in with the password grant.
    Login { username: String, password: String, totp_code: String },
}

/// Manages one subject's credentials and its most recent token pair.
pub struct GPortalAuth {
    pub username: String,
    pub password: String,
    pub totp_secret: Option<String>,
    pub token: Option<Token>,
    pub fetch_time: Option<UtcInstant>,
}

impl GPortalAuth {
    /// The stored access token is unusable at `now`.
    pub open spec fn spec_access_expired(&self, now: UtcInstant) -> bool {
        match (self.token, self.fetch_time) {
            (Some(t), Some(f)) => now.spec_reached(f, t.expires_in),
            _ => true,
        }
    }

    /// The stored refresh token is unusable at `now`.
    pub open spec fn spec_refresh_expired(&self, now: UtcInstant) -> bool {
        match (self.token, self.fetch_time) {
            (Some(t), Some(f)) => now.spec_reached(f, t.refresh_expires_in),
            _ => true,
        }
    }

    /// A manager without a TOTP secret and without tokens.
    pub fn new(username: String, password: String) -> (r: Self)
        ensures
            r.username == username,
            r.password == password,
            r.totp_secret is None,
            r.token is None,
            r.fetch_time is None,
    {
        GPortalAuth { username, password, totp_secret: None, token: None, fetch_time: None }
    }

    /// A manager with a TOTP secret and without tokens.
    pub fn new_with_totp(username: String, password: String, totp_secret: String) -> (r: Self)
        ensures
            r.username == username,
            r.password == password,
            r.totp_secret == Some(totp_secret),
            r.token is None,
            r.fetch_time is None,
    {
        GPortalAuth {
            username,
            password,
            totp_secret: Some(totp_secret),
            token: None,
            fetch_time: None,
        }
    }

    /// The one-time code for a base32 secret at a Unix time in seconds.
    pub fn get_totp_code(totp_secret: &str, time: u64) -> (r: Result<String, AuthError>)
        ensures
            match totp_for(totp_secret@, time) {
                Some(c) => r matches Ok(s) && s@ == c && is_six_digits(s@),
                None => r matches Err(AuthError::InvalidTotpSecret),
            },
    {
        match decode_secret(totp_secret) {
            Some(bytes) => match totp_sha1_six_digits(bytes, time) {
                Some(code) => Ok(code),
                None => Err(AuthError::InvalidTotpSecret),
            },
            None => Err(AuthError::InvalidTotpSecret),
        }
    }

    /// Whether the access token is unusable at `now`.
    #[verifier::when_used_as_spec(spec_access_expired)]
    pub fn is_token_expired(&self, now: UtcInstant) -> (r: bool)
        ensures
            r == self.spec_access_expired(now),
    {
        match (&self.token, &self.fetch_time) {
            (Some(t), Some(f)) => now.reached(*f, t.expires_in),
            _ => true,
        }
    }

    /// Whether the refresh token is unusable at `now`.
    #[verifier::when_used_as_spec(spec_refresh_expired)]
    pub fn is_refresh_token_expired(&self, now: UtcInstant) -> (r: bool)
        ensures
            r == self.spec_refresh_expired(now),
    {
        match (&self.token, &self.fetch_time) {
            (Some(t), Some(f)) => now.reached(*f, t.refresh_expires_in),
            _ => true,
        }
    }

    /// Decides how to obtain a valid access token at `now`: the stored one
    /// while it lasts, else a refresh while the refresh token lasts, else a
    /// login, with a one-time code made now when a secret is configured and
    /// an empty one otherwise. Changes nothing.
    pub fn next_step(&self, now: UtcInstant) -> (r: Result<AuthStep, AuthError>)
        ensures
            !self.spec_access_expired(now) ==> r == Ok::<AuthStep, AuthError>(
                AuthStep::Cached(self.token->Some_0.access_token),
            ),
            self.spec_access_expired(now) && !self.spec_refresh_expired(now) ==> r == Ok::<
                AuthStep,
                AuthError,
            >(AuthStep::Refresh(self.token->Some_0.refresh_token)),
            self.spec_access_expired(now) && self.spec_refresh_expired(now) ==> match self.totp_secret {
                None => r matches Ok(AuthStep::Login { username, password, totp_code })
                    && username == self.username && password == self.password
                    && totp_code@.len() == 0,
                Some(s) => if now.secs < 0 {
                    r matches Err(AuthError::ClockBeforeEpoch)
                } else {
                    match totp_for(s@, now.secs as u64) {
                        Some(c) => r matches Ok(AuthStep::Login { username, password, totp_code })
                            && username == self.username && password == self.password
                            && totp_code@ == c,
                        None => r matches Err(AuthError::InvalidTotpSecret),
                    }
                },
            },
    {
        if !self.is_token_expired(now) {
            let t = self.token.as_ref().unwrap();
            return Ok(AuthStep::Cached(t.access_token.clone()));
        }
        if !self.is_refresh_token_expired(now) {
            let t = self.token.as_ref().unwrap();
            return Ok(AuthStep::Refresh(t.refresh_token.clone()));
        }
        let totp_code = match &self.totp_secret {
            None => String::new(),
            Some(s) => {
                if now.secs < 0 {
                    return Err(AuthError::ClockBeforeEpoch);
                }
                match GPortalAuth::get_totp_code(s.as_str(), now.secs as u64) {
                    Ok(c) => c,
                    Err(e) => return Err(e),
                }
            },
        };
        Ok(AuthStep::Login {
            username: self.username.clone(),
            password: self.password.clone(),
            totp_code,
        })
    }

    /// Stores a token pair accepted at `now` in place of the previous one and
    /// returns its access token.
    pub fn update_token(&mut self, token: Token, now: UtcInstant) -> (r: String)
        ensures
            r == token.access_token,
            final(self).token == Some(token),
            final(self).fetch_time == Some(now),
            final(self).username == old(self).username,
            final(self).password == old(self).password,
            final(self).totp_secret == old(self).totp_secret,
    {
        let access = token.access_token.clone();
        self.token = Some(token);
        self.fetch_time = Some(now);
        access
    }

    /// Takes the outcome of a grant made at `now`: a token pair is stored and
    /// its access token returned; a refusal, with the response body, changes
    /// nothing.
    pub fn finish_grant(&mut self, outcome: Result<Token, String>, now: UtcInstant) -> (r: Result<String, AuthError>)
        ensures
            match outcome {
                Ok(t) => r == Ok::<String, AuthError>(t.access_token)
                    && final(self).token == Some(t)
                    && final(self).fetch_time == Some(now)
                    && final(self).username == old(self).username
                    && final(self).password == old(self).password
                    && final(self).totp_secret == old(self).totp_secret,
                Err(body) => r == Err::<String, AuthError>(AuthError::Rejected(body))
                    && *final(self) == *old(self),
            },
    {
        match outcome {
            Ok(t) => Ok(self.update_token(t, now)),
            Err(body) => Err(AuthError::Rejected(body)),
        }
    }
}

} // verus!
