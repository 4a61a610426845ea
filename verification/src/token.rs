//! The token service's own decisions. Signing and validating the JWT wire
//! format runs through serde-driven machinery in the surrounding program;
//! what is decided here — the claims a user gets, the validity window, and
//! how each signing or validation outcome maps to a result — is verified.

use vstd::prelude::*;

use crate::errors::TokenError;
use crate::numeric::{i32_to_decimal, spec_i32_decimal};
use crate::payload::{TokenClaimsDto, TokenDto, UserDto};
use crate::settings::Settings;

verus! {

/// What validating a token came back with: claims accepted, the token's
/// window expired, or anything else wrong with it.
#[derive(Clone, Debug)]
pub enum TokenDecodeOutcome {
    Valid(TokenClaimsDto),
    Expired,
    Invalid,
}

/// Issues and reads bearer tokens: holds the signing secret and the token
/// lifetime in seconds, fixed at startup.
#[derive(Clone, Debug)]
pub struct TokenService {
    expiration: u64,
    secret: String,
}

impl TokenService {
    /// The configured token lifetime in seconds.
    pub closed spec fn spec_expiration(&self) -> u64 {
        self.expiration
    }

    /// The configured signing secret.
    pub closed spec fn spec_secret(&self) -> Seq<char> {
        self.secret@
    }

    /// Take the lifetime and secret from the settings object.
    pub fn new(settings: &Settings) -> (s: Self)
        ensures
            s.spec_expiration() == settings.auth.expiration,
            s.spec_secret() == settings.auth.secret@,
    {
        TokenService { expiration: settings.auth.expiration, secret: settings.auth.secret.clone() }
    }

    /// The configured token lifetime in seconds.
    pub fn expiration(&self) -> (r: u64)
        ensures
            r == self.spec_expiration(),
    {
        self.expiration
    }

    /// The configured signing secret.
    pub fn secret(&self) -> (r: &String)
        ensures
            r@ == self.spec_secret(),
    {
        &self.secret
    }

    /// The claims `user` is issued at time `iat`: the subject is the
    /// user's identifier in decimal, and the window closes the configured
    /// lifetime after `iat`. `None` exactly when the window's end does not
    /// fit a 64-bit count of seconds.
    pub fn make_claims(&self, user: &UserDto, iat: u64) -> (r: Option<TokenClaimsDto>)
        ensures
            match r {
                Some(c) => {
                    &&& iat + self.spec_expiration() <= u64::MAX
                    &&& c.sub@ == spec_i32_decimal(user.id as int)
                    &&& c.username@ == user.username@
                    &&& c.email@ == user.email@
                    &&& c.iat == iat
                    &&& c.exp == iat + self.spec_expiration()
                },
                None => iat + self.spec_expiration() > u64::MAX,
            },
    {
        match iat.checked_add(self.expiration) {
            Some(exp) => Some(
                TokenClaimsDto {
                    sub: i32_to_decimal(user.id),
                    username: user.username.clone(),
                    email: user.email.clone(),
                    iat,
                    exp,
                },
            ),
            None => None,
        }
    }

    /// What a signing outcome yields: the signed text becomes the token
    /// with its window, a signing fault becomes a creation error carrying
    /// the signer's message.
    pub fn token_from_encode(&self, encoded: Result<String, String>, iat: u64, exp: u64) -> (r:
        Result<TokenDto, TokenError>)
        ensures
            match r {
                Ok(t) => {
                    &&& encoded matches Ok(s) && t.token@ == s@
                    &&& t.iat == iat
                    &&& t.exp == exp
                },
                Err(e) => {
                    &&& encoded is Err
                    &&& e matches TokenError::TokenCreationError(m) && (encoded matches Err(s)
                        && m@ == s@)
                },
            },
    {
        match encoded {
            Ok(token) => Ok(TokenDto { token, iat, exp }),
            Err(message) => Err(TokenError::TokenCreationError(message)),
        }
    }

    /// What a validation outcome yields: accepted claims pass through, an
    /// expired window reports expiry, and anything else marks the token
    /// text itself invalid.
    pub fn claims_from_decode(&self, outcome: TokenDecodeOutcome, token: &str) -> (r: Result<
        TokenClaimsDto,
        TokenError,
    >)
        ensures
            match r {
                Ok(c) => outcome matches TokenDecodeOutcome::Valid(v) && c == v,
                Err(e) => match outcome {
                    TokenDecodeOutcome::Valid(_) => false,
                    TokenDecodeOutcome::Expired => e == TokenError::TokenExpired,
                    TokenDecodeOutcome::Invalid => e matches TokenError::InvalidToken(m) && m@
                        == token@,
                },
            },
    {
        match outcome {
            TokenDecodeOutcome::Valid(claims) => Ok(claims),
            TokenDecodeOutcome::Expired => Err(TokenError::TokenExpired),
            TokenDecodeOutcome::Invalid => Err(TokenError::InvalidToken(token.to_owned())),
        }
    }
}

} // verus!
