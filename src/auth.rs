//! The bot's credential: its identity, its stored OAuth material and the
//! live token obtained from it.

use vstd::prelude::*;

verus! {

/// A user access token as obtained from the auth service: the token pair,
/// whose it is, and how long it was valid for when it was read.
#[derive(Clone, Debug, PartialEq, Eq)]
pub struct LiveToken {
    pub access_token: String,
    pub refresh_token: Option<String>,
    pub user_id: String,
    pub login: String,
    pub expires_in_secs: u64,
}

/// Why the auth service did not hand out, refresh or confirm a token. The
/// kinds are told apart for logging only.
#[derive(Clone, Copy, Debug, PartialEq, Eq, Structural)]
pub enum TokenFailure {
    Transport,
    ResponseParse,
    NotAuthorized,
    InvalidToken,
    NoAccessToken,
    NoRefreshToken,
    NoClientSecret,
    NoExpiration,
    Other,
}

/// Why the credential has no live token.
#[derive(Clone, Copy, Debug, PartialEq, Eq, Structural)]
pub enum UserError {
    /// The stored credential holds neither token: a new grant is needed.
    NoTokens,
    /// The stored token pair is incomplete, or the auth service refused it.
    TokenError(TokenFailure),
}

/// The permissions the bot asks for.
#[derive(Clone, Copy, Debug, PartialEq, Eq, Structural)]
pub enum Scope {
    UserBot,
    ChannelBot,
    UserReadChat,
    UserWriteChat,
    ChatRead,
    ChatEdit,
    ModeratorManageAnnouncements,
    ModeratorManageChatMessages,
    UserReadModeratedChannels,
}

/// The bot's credential. `user_token` lives only while the process runs and
/// is never stored.
#[derive(Clone, Debug, PartialEq, Eq)]
pub struct User {
    pub user_id: String,
    pub twitch_name: String,
    pub access_token: Option<String>,
    pub refresh_token: Option<String>,
    pub expires_in: Option<u64>,
    pub user_token: Option<LiveToken>,
}

/// A list of credentials.
#[derive(Clone, Debug, Default, PartialEq, Eq)]
pub struct Streamers(pub Vec<User>);

/// What `ensure_token` asks of the auth service next.
#[derive(Clone, Debug, PartialEq, Eq)]
pub enum TokenStep {
    /// A live token is already held.
    Ready,
    /// Exchange the stored pair for a live token, refreshing it if needed.
    Retrieve { access_token: String, refresh_token: String },
}

/// The outcome of `ensure_token` on a credential.
pub open spec fn token_step_spec(u: User) -> Result<TokenStep, UserError> {
    if u.access_token is None && u.refresh_token is None {
        Err(UserError::NoTokens)
    } else if u.user_token is Some {
        Ok(TokenStep::Ready)
    } else if u.access_token is None {
        Err(UserError::TokenError(TokenFailure::NoAccessToken))
    } else if u.refresh_token is None {
        Err(UserError::TokenError(TokenFailure::NoRefreshToken))
    } else {
        Ok(
            TokenStep::Retrieve {
                access_token: u.access_token->Some_0,
                refresh_token: u.refresh_token->Some_0,
            },
        )
    }
}

/// The credential that a live token describes.
pub open spec fn user_of_token(t: LiveToken) -> User {
    User {
        user_id: t.user_id,
        twitch_name: t.login,
        access_token: Some(t.access_token),
        refresh_token: t.refresh_token,
        expires_in: Some(t.expires_in_secs),
        user_token: Some(t),
    }
}

/// A copy of an optional string.
pub fn copy_opt(s: &Option<String>) -> (r: Option<String>)
    ensures
        r == *s,
{
    match s {
        Some(v) => Some(v.clone()),
        None => None,
    }
}

impl LiveToken {
    /// A field-by-field copy.
    pub fn copied(&self) -> (r: LiveToken)
        ensures
            r == *self,
    {
        LiveToken {
            access_token: self.access_token.clone(),
            refresh_token: copy_opt(&self.refresh_token),
            user_id: self.user_id.clone(),
            login: self.login.clone(),
            expires_in_secs: self.expires_in_secs,
        }
    }
}

impl User {
    /// The scopes a broadcaster grants the bot.
    pub fn user_scopes() -> (r: Vec<Scope>)
        ensures
            r@ == seq![Scope::ChannelBot, Scope::ModeratorManageAnnouncements],
    {
        let mut v: Vec<Scope> = Vec::new();
        v.push(Scope::ChannelBot);
        v.push(Scope::ModeratorManageAnnouncements);
        v
    }

    /// The scopes the bot account holds for chatting.
    pub fn bot_scopes() -> (r: Vec<Scope>)
        ensures
            r@ == seq![
                Scope::UserReadChat,
                Scope::UserWriteChat,
                Scope::ChatRead,
                Scope::ChatEdit,
                Scope::ModeratorManageAnnouncements,
                Scope::ModeratorManageChatMessages,
            ],
    {
        let mut v: Vec<Scope> = Vec::new();
        v.push(Scope::UserReadChat);
        v.push(Scope::UserWriteChat);
        v.push(Scope::ChatRead);
        v.push(Scope::ChatEdit);
        v.push(Scope::ModeratorManageAnnouncements);
        v.push(Scope::ModeratorManageChatMessages);
        v
    }

    /// The scopes requested by the device-code grant that mints a new token.
    pub fn device_grant_scopes() -> (r: Vec<Scope>)
        ensures
            r@ == seq![
                Scope::UserBot,
                Scope::ChannelBot,
                Scope::UserReadChat,
                Scope::UserWriteChat,
                Scope::ModeratorManageAnnouncements,
                Scope::UserReadModeratedChannels,
            ],
    {
        let mut v: Vec<Scope> = Vec::new();
        v.push(Scope::UserBot);
        v.push(Scope::ChannelBot);
        v.push(Scope::UserReadChat);
        v.push(Scope::UserWriteChat);
        v.push(Scope::ModeratorManageAnnouncements);
        v.push(Scope::UserReadModeratedChannels);
        v
    }

    /// A credential with an identity and no token material, as built when
    /// nothing is stored yet.
    pub fn new(user_id: String, twitch_name: String) -> (r: User)
        ensures
            r == (User {
                user_id,
                twitch_name,
                access_token: None,
                refresh_token: None,
                expires_in: None,
                user_token: None,
            }),
    {
        User { user_id, twitch_name, access_token: None, refresh_token: None, expires_in: None, user_token: None }
    }

    /// The first half of ensuring a live token: fails with `NoTokens` when
    /// neither stored token is there; otherwise says that a live token is
    /// held already, or which pair to exchange for one, or names the missing
    /// half of an incomplete pair.
    pub fn ensure_token(&self) -> (r: Result<TokenStep, UserError>)
        ensures
            r == token_step_spec(*self),
    {
        match (&self.access_token, &self.refresh_token) {
            (None, None) => Err(UserError::NoTokens),
            _ if self.user_token.is_some() => Ok(TokenStep::Ready),
            (None, Some(_)) => Err(UserError::TokenError(TokenFailure::NoAccessToken)),
            (Some(_), None) => Err(UserError::TokenError(TokenFailure::NoRefreshToken)),
            (Some(a), Some(f)) => Ok(TokenStep::Retrieve { access_token: a.clone(), refresh_token: f.clone() }),
        }
    }

    /// The second half of ensuring a live token: takes the auth service's
    /// answer to a `Retrieve` step. A token becomes the live token; a
    /// failure leaves the credential as it was and is reported.
    pub fn accept_token(&mut self, answer: Result<LiveToken, TokenFailure>) -> (r: Result<(), UserError>)
        ensures
            match answer {
                Ok(t) => r is Ok && *final(self) == (User { user_token: Some(t), ..*old(self) }),
                Err(f) => r == Err::<(), UserError>(UserError::TokenError(f)) && *final(self) == *old(self),
            },
    {
        match answer {
            Ok(t) => {
                self.user_token = Some(t);
                Ok(())
            },
            Err(f) => Err(UserError::TokenError(f)),
        }
    }

    /// Keeps the token pair of a freshly granted token, so that a later
    /// `ensure_token` exchanges it.
    pub fn adopt_granted_token(&mut self, token: &LiveToken)
        ensures
            *final(self) == (User {
                access_token: Some(token.access_token),
                refresh_token: token.refresh_token,
                ..*old(self)
            }),
    {
        self.access_token = Some(token.access_token.clone());
        self.refresh_token = copy_opt(&token.refresh_token);
    }
}

impl From<LiveToken> for User {
    fn from(token: LiveToken) -> Self {
        User {
            user_id: token.user_id.clone(),
            twitch_name: token.login.clone(),
            access_token: Some(token.access_token.clone()),
            refresh_token: copy_opt(&token.refresh_token),
            expires_in: Some(token.expires_in_secs),
            user_token: Some(token),
        }
    }
}

impl vstd::std_specs::convert::FromSpecImpl<LiveToken> for User {
    open spec fn obeys_from_spec() -> bool {
        true
    }

    open spec fn from_spec(v: LiveToken) -> Self {
        user_of_token(v)
    }
}

} // verus!
