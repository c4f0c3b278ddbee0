use botcore::api::ErrorKind;
use botcore::config::{load_credentials, ConfigError, Credentials, Variable};

fn some(s: &str) -> Option<String> {
    Some(s.to_string())
}

#[test]
fn all_three_credentials_are_loaded() {
    assert_eq!(
        load_credentials(some("d"), some("o"), some("r")),
        Ok(Credentials {
            discord_token: "d".to_string(),
            openai_key: "o".to_string(),
            riot_token: "r".to_string(),
        })
    );
}

#[test]
fn the_first_missing_credential_is_named() {
    assert_eq!(
        load_credentials(None, some("o"), some("r")),
        Err(ConfigError::Missing(Variable::DiscordToken))
    );
    assert_eq!(
        load_credentials(some("d"), None, some("r")),
        Err(ConfigError::Missing(Variable::OpenAiKey))
    );
    assert_eq!(
        load_credentials(some("d"), some("o"), None),
        Err(ConfigError::Missing(Variable::RiotToken))
    );
    assert_eq!(load_credentials(None, None, None), Err(ConfigError::Missing(Variable::DiscordToken)));
    assert_eq!(load_credentials(some("d"), None, None), Err(ConfigError::Missing(Variable::OpenAiKey)));
}

#[test]
fn a_missing_credential_is_unauthorized() {
    assert_eq!(ConfigError::Missing(Variable::RiotToken).kind(), ErrorKind::Unauthorized);
}

#[test]
fn the_variables_have_their_names_and_complaints() {
    assert_eq!(Variable::DiscordToken.name(), "DISCORD_TOKEN");
    assert_eq!(Variable::OpenAiKey.name(), "OPENAI_API_KEY");
    assert_eq!(Variable::RiotToken.name(), "RIOT_TOKEN");
    assert_eq!(Variable::DiscordToken.complaint(), "Expected a token in the environment");
    assert_eq!(Variable::OpenAiKey.complaint(), "Expected a token in the environment");
    assert_eq!(Variable::RiotToken.complaint(), "No riot token in .env");
}
