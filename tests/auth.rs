use tiltify_bot::auth::{LiveToken, Scope, TokenFailure, TokenStep, User, UserError};

fn token() -> LiveToken {
    LiveToken {
        access_token: "acc".to_string(),
        refresh_token: Some("ref".to_string()),
        user_id: "99".to_string(),
        login: "botty".to_string(),
        expires_in_secs: 14000,
    }
}

#[test]
fn credential_without_tokens_needs_a_grant() {
    let u = User::new("99".to_string(), "botty".to_string());
    assert_eq!(u.ensure_token(), Err(UserError::NoTokens));
    let mut live = u.clone();
    live.user_token = Some(token());
    assert_eq!(live.ensure_token(), Err(UserError::NoTokens));
}

#[test]
fn incomplete_stored_pair_names_the_missing_half() {
    let mut only_access = User::new("99".to_string(), "botty".to_string());
    only_access.access_token = Some("acc".to_string());
    assert_eq!(
        only_access.ensure_token(),
        Err(UserError::TokenError(TokenFailure::NoRefreshToken))
    );
    let mut only_refresh = User::new("99".to_string(), "botty".to_string());
    only_refresh.refresh_token = Some("ref".to_string());
    assert_eq!(
        only_refresh.ensure_token(),
        Err(UserError::TokenError(TokenFailure::NoAccessToken))
    );
    only_refresh.user_token = Some(token());
    assert_eq!(only_refresh.ensure_token(), Ok(TokenStep::Ready));
}

#[test]
fn stored_pair_is_exchanged_and_kept() {
    let mut u = User::new("99".to_string(), "botty".to_string());
    u.adopt_granted_token(&token());
    assert_eq!(u.access_token, Some("acc".to_string()));
    assert_eq!(u.refresh_token, Some("ref".to_string()));
    assert_eq!(
        u.ensure_token(),
        Ok(TokenStep::Retrieve { access_token: "acc".to_string(), refresh_token: "ref".to_string() })
    );
    assert_eq!(u.accept_token(Ok(token())), Ok(()));
    assert_eq!(u.user_token, Some(token()));
    assert_eq!(u.ensure_token(), Ok(TokenStep::Ready));
}

#[test]
fn refused_pair_is_reported_and_changes_nothing() {
    let mut u = User::new("99".to_string(), "botty".to_string());
    u.adopt_granted_token(&token());
    let before = u.clone();
    assert_eq!(
        u.accept_token(Err(TokenFailure::NotAuthorized)),
        Err(UserError::TokenError(TokenFailure::NotAuthorized))
    );
    assert_eq!(u, before);
}

#[test]
fn credential_from_live_token() {
    let u = User::from(token());
    assert_eq!(u.user_id, "99");
    assert_eq!(u.twitch_name, "botty");
    assert_eq!(u.access_token, Some("acc".to_string()));
    assert_eq!(u.refresh_token, Some("ref".to_string()));
    assert_eq!(u.expires_in, Some(14000));
    assert_eq!(u.user_token, Some(token()));
    assert_eq!(token().copied(), token());
}

#[test]
fn scope_lists() {
    assert_eq!(User::user_scopes(), vec![Scope::ChannelBot, Scope::ModeratorManageAnnouncements]);
    assert_eq!(User::bot_scopes().len(), 6);
    assert_eq!(User::bot_scopes()[0], Scope::UserReadChat);
    assert_eq!(User::bot_scopes()[5], Scope::ModeratorManageChatMessages);
    assert_eq!(User::device_grant_scopes()[0], Scope::UserBot);
    assert_eq!(User::device_grant_scopes()[5], Scope::UserReadModeratedChannels);
}
