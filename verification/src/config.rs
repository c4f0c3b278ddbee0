//! The credentials that the process needs. They are read from the
//! environment when the process starts; a missing one stops it.

use crate::api::ErrorKind;
use crate::text::opt_text;
use vstd::prelude::*;

verus! {

/// A variable of the environment that holds a credential.
#[derive(Clone, Copy, Debug, PartialEq, Eq, Structural)]
pub enum Variable {
    DiscordToken,
    OpenAiKey,
    RiotToken,
}

impl Variable {
    /// The name of the variable.
    pub open spec fn name_text(self) -> Seq<char> {
        match self {
            Variable::DiscordToken => "DISCORD_TOKEN"@,
            Variable::OpenAiKey => "OPENAI_API_KEY"@,
            Variable::RiotToken => "RIOT_TOKEN"@,
        }
    }

    /// What is said when the variable is not set.
    pub open spec fn complaint_text(self) -> Seq<char> {
        match self {
            Variable::DiscordToken => "Expected a token in the environment"@,
            Variable::OpenAiKey => "Expected a token in the environment"@,
            Variable::RiotToken => "No riot token in .env"@,
        }
    }

    /// The name of the variable.
    pub fn name(self) -> (r: &'static str)
        ensures
            r@ == self.name_text(),
    {
        match self {
            Variable::DiscordToken => "DISCORD_TOKEN",
            Variable::OpenAiKey => "OPENAI_API_KEY",
            Variable::RiotToken => "RIOT_TOKEN",
        }
    }

    /// What is said when the variable is not set.
    pub fn complaint(self) -> (r: &'static str)
        ensures
            r@ == self.complaint_text(),
    {
        match self {
            Variable::DiscordToken => "Expected a token in the environment",
            Variable::OpenAiKey => "Expected a token in the environment",
            Variable::RiotToken => "No riot token in .env",
        }
    }
}

/// The credentials, as a mathematical value.
pub struct CredentialsValue {
    pub discord_token: Seq<char>,
    pub openai_key: Seq<char>,
    pub riot_token: Seq<char>,
}

/// The credentials of the process.
#[derive(Debug, PartialEq, Eq)]
pub struct Credentials {
    pub discord_token: String,
    pub openai_key: String,
    pub riot_token: String,
}

impl View for Credentials {
    type V = CredentialsValue;

    open spec fn view(&self) -> CredentialsValue {
        CredentialsValue {
            discord_token: self.discord_token@,
            openai_key: self.openai_key@,
            riot_token: self.riot_token@,
        }
    }
}

/// A credential is missing.
#[derive(Clone, Copy, Debug, PartialEq, Eq, Structural)]
pub enum ConfigError {
    Missing(Variable),
}

impl ConfigError {
    /// The kind of failure that a missing credential is.
    pub fn kind(self) -> (k: ErrorKind)
        ensures
            k == ErrorKind::Unauthorized,
    {
        ErrorKind::Unauthorized
    }
}

/// The credentials that three variables give, or the first of them, in the
/// order bot, language model, game statistics, that is not set.
pub open spec fn credentials_of(
    discord: Option<Seq<char>>,
    openai: Option<Seq<char>>,
    riot: Option<Seq<char>>,
) -> Result<CredentialsValue, ConfigError> {
    match discord {
        None => Err(ConfigError::Missing(Variable::DiscordToken)),
        Some(d) => match openai {
            None => Err(ConfigError::Missing(Variable::OpenAiKey)),
            Some(o) => match riot {
                None => Err(ConfigError::Missing(Variable::RiotToken)),
                Some(r) => Ok(CredentialsValue { discord_token: d, openai_key: o, riot_token: r }),
            },
        },
    }
}

/// Checks that every credential is there, given what each variable of the
/// environment holds.
pub fn load_credentials(discord: Option<String>, openai: Option<String>, riot: Option<String>) -> (r:
    Result<Credentials, ConfigError>)
    ensures
        match r {
            Ok(c) => credentials_of(opt_text(discord), opt_text(openai), opt_text(riot))
                == Ok::<CredentialsValue, ConfigError>(c@),
            Err(e) => credentials_of(opt_text(discord), opt_text(openai), opt_text(riot))
                == Err::<CredentialsValue, ConfigError>(e),
        },
{
    let discord_token = match discord {
        Some(token) => token,
        None => {
            return Err(ConfigError::Missing(Variable::DiscordToken));
        },
    };
    let openai_key = match openai {
        Some(token) => token,
        None => {
            return Err(ConfigError::Missing(Variable::OpenAiKey));
        },
    };
    let riot_token = match riot {
        Some(token) => token,
        None => {
            return Err(ConfigError::Missing(Variable::RiotToken));
        },
    };
    Ok(Credentials { discord_token, openai_key, riot_token })
}

} // verus!
