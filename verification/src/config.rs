//! The bot's settings, and what is derived from them.
use vstd::prelude::*;

verus! {

/// The settings the bot needs: its token and the channel it watches.
pub struct Cfg {
    pub token: String,
    pub target_channel_id: String,
}

/// A setting that the settings file does not provide.
#[derive(Debug)]
pub enum CfgError {
    MissingToken,
    MissingTargetChannelId,
}

/// The text that reports `error`.
pub open spec fn cfg_error_text(error: CfgError) -> Seq<char> {
    match error {
        CfgError::MissingToken => "Token wasn't provided in env file"@,
        CfgError::MissingTargetChannelId => "Target Channel Id wasn't provided in env file"@,
    }
}

impl CfgError {
    /// The text that reports this error.
    pub fn message(&self) -> (text: String)
        ensures
            text@ == cfg_error_text(*self),
    {
        match self {
            CfgError::MissingToken => String::from_str("Token wasn't provided in env file"),
            CfgError::MissingTargetChannelId => String::from_str(
                "Target Channel Id wasn't provided in env file",
            ),
        }
    }
}

impl Cfg {
    /// The settings made of the values found for `token` and
    /// `target_channel_id`; the token is looked for first.
    pub fn from_settings(token: Option<String>, target_channel_id: Option<String>) -> (cfg: Result<Cfg, CfgError>)
        ensures
            token is None ==> cfg matches Err(CfgError::MissingToken),
            token is Some && target_channel_id is None ==> cfg matches Err(
                CfgError::MissingTargetChannelId,
            ),
            token matches Some(t) ==> (target_channel_id matches Some(c) ==> (cfg matches Ok(found)
                && found.token == t && found.target_channel_id == c)),
    {
        match token {
            None => Err(CfgError::MissingToken),
            Some(token) => match target_channel_id {
                None => Err(CfgError::MissingTargetChannelId),
                Some(target_channel_id) => Ok(Cfg { token, target_channel_id }),
            },
        }
    }
}

/// The `Authorization` header value that signs requests made with `token`.
pub fn get_header(token: &str) -> (header: String)
    ensures
        header@ == "Bot "@ + token@,
{
    let mut header = String::from_str("Bot ");
    header.append(token);
    header
}

} // verus!
