//! The planner's settings: access to the Copilot API and the family served.
use vstd::prelude::*;

verus! {

/// All settings.
#[derive(Debug, Clone)]
pub struct Config {
    pub ai: AiConfig,
    pub family: FamilyConfig,
}

/// Access to the Copilot chat API.
#[derive(Debug, Clone)]
pub struct AiConfig {
    /// GitHub token for Copilot API access
    pub github_token: Option<String>,
    /// GitHub Copilot API endpoint (default: https://api.githubcopilot.com)
    pub copilot_api_url: String,
    /// Model to use (default: gpt-4o)
    pub model: String,
}

/// The family that the plans are made for.
#[derive(Debug, Clone)]
pub struct FamilyConfig {
    pub adults_count: u8,
    pub kids_count: u8,
    pub infant_count: u8,
    pub cuisine: String,
    pub region: String,
    pub protein_preferences: Vec<String>,
}

impl Default for AiConfig {
    /// No token, the public Copilot endpoint and the `gpt-4o` model.
    fn default() -> (r: AiConfig)
        ensures
            r.github_token is None,
            r.copilot_api_url@ == "https://api.githubcopilot.com"@,
            r.model@ == "gpt-4o"@,
    {
        AiConfig {
            github_token: None,
            copilot_api_url: String::from_str("https://api.githubcopilot.com"),
            model: String::from_str("gpt-4o"),
        }
    }
}

/// The protein sources that the family eats.
pub open spec fn default_proteins() -> Seq<Seq<char>> {
    seq!["egg"@, "fish"@, "chicken"@, "mutton"@]
}

impl Default for FamilyConfig {
    /// Four adults, two children and one infant, eating South Indian food,
    /// Chennai style, with egg, fish, chicken and mutton.
    fn default() -> (r: FamilyConfig)
        ensures
            r.adults_count == 4,
            r.kids_count == 2,
            r.infant_count == 1,
            r.cuisine@ == "South Indian"@,
            r.region@ == "Chennai"@,
            r.protein_preferences@.map_values(|p: String| p@) == default_proteins(),
    {
        let protein_preferences = vec![
            String::from_str("egg"),
            String::from_str("fish"),
            String::from_str("chicken"),
            String::from_str("mutton"),
        ];
        assert(protein_preferences@.map_values(|p: String| p@) =~= default_proteins());
        FamilyConfig {
            adults_count: 4,
            kids_count: 2,
            infant_count: 1,
            cuisine: String::from_str("South Indian"),
            region: String::from_str("Chennai"),
            protein_preferences,
        }
    }
}

impl Default for Config {
    /// The default AI settings and the default family.
    fn default() -> (r: Config)
        ensures
            r.ai.github_token is None,
            r.ai.copilot_api_url@ == "https://api.githubcopilot.com"@,
            r.ai.model@ == "gpt-4o"@,
            r.family.adults_count == 4,
            r.family.kids_count == 2,
            r.family.infant_count == 1,
            r.family.cuisine@ == "South Indian"@,
            r.family.region@ == "Chennai"@,
            r.family.protein_preferences@.map_values(|p: String| p@) == default_proteins(),
    {
        Config { ai: AiConfig::default(), family: FamilyConfig::default() }
    }
}

/// The GitHub token in effect: the one in the settings, else the one from
/// the environment.
pub open spec fn effective_token(config: Config, env_token: Option<String>) -> Option<String> {
    match config.ai.github_token {
        Some(t) => Some(t),
        None => env_token,
    }
}

/// The settings after the command line has given a token, an API URL and a
/// model, each perhaps absent.
pub open spec fn updated_config(
    config: Config,
    token: Option<String>,
    api_url: Option<String>,
    model: Option<String>,
) -> Config {
    Config {
        ai: AiConfig {
            github_token: if token is Some {
                token
            } else {
                config.ai.github_token
            },
            copilot_api_url: match api_url {
                Some(u) => u,
                None => config.ai.copilot_api_url,
            },
            model: match model {
                Some(m) => m,
                None => config.ai.model,
            },
        },
        family: config.family,
    }
}

impl Config {
    /// The GitHub token: the one in the settings, else the one from the
    /// `GITHUB_TOKEN` environment variable (`env_token`, read by the caller).
    pub fn get_token(&self, env_token: Option<String>) -> (r: Option<String>)
        ensures
            r == effective_token(*self, env_token),
    {
        match &self.ai.github_token {
            Some(t) => Some(t.clone()),
            None => env_token,
        }
    }

    /// Applies the settings given on the command line; true when any was given.
    pub fn update(
        &mut self,
        token: Option<String>,
        api_url: Option<String>,
        model: Option<String>,
    ) -> (changed: bool)
        ensures
            changed == (token is Some || api_url is Some || model is Some),
            *final(self) == updated_config(*old(self), token, api_url, model),
            api_url matches Some(u) ==> final(self).ai.copilot_api_url == u,
            api_url is None ==> final(self).ai.copilot_api_url == old(self).ai.copilot_api_url,
            model matches Some(m) ==> final(self).ai.model == m,
            model is None ==> final(self).ai.model == old(self).ai.model,
            token is Some ==> final(self).ai.github_token == token,
            token is None ==> final(self).ai.github_token == old(self).ai.github_token,
            final(self).family == old(self).family,
    {
        let mut changed = false;
        if let Some(t) = token {
            self.ai.github_token = Some(t);
            changed = true;
        }
        if let Some(url) = api_url {
            self.ai.copilot_api_url = url;
            changed = true;
        }
        if let Some(m) = model {
            self.ai.model = m;
            changed = true;
        }
        changed
    }
}

/// A token given on the command line is the token in effect afterwards,
/// whatever the environment holds; settings given nothing stay as they were.
pub proof fn law_given_token_is_used(
    config: Config,
    token: String,
    api_url: Option<String>,
    model: Option<String>,
    env_token: Option<String>,
)
    ensures
        effective_token(updated_config(config, Some(token), api_url, model), env_token) == Some(
            token,
        ),
        updated_config(config, None, None, None) == config,
{
}

/// Each setting given on the command line becomes that setting, and each
/// setting not given keeps its value; the family settings never change.
pub proof fn law_update_sets_given_settings(
    config: Config,
    token: Option<String>,
    api_url: Option<String>,
    model: Option<String>,
)
    ensures
        ({
            let c = updated_config(config, token, api_url, model);
            &&& (api_url matches Some(u) ==> c.ai.copilot_api_url == u)
            &&& (api_url is None ==> c.ai.copilot_api_url == config.ai.copilot_api_url)
            &&& (model matches Some(m) ==> c.ai.model == m)
            &&& (model is None ==> c.ai.model == config.ai.model)
            &&& (token matches Some(t) ==> c.ai.github_token == Some(t))
            &&& (token is None ==> c.ai.github_token == config.ai.github_token)
            &&& c.family == config.family
        }),
{
}

/// Where the GitHub token comes from.
#[derive(Debug, Clone, Copy, PartialEq, Eq, Structural)]
pub enum TokenSource {
    /// The settings file holds one.
    Configured,
    /// Only the `GITHUB_TOKEN` environment variable holds one.
    Environment,
    /// Neither does: plans come from the offline templates.
    Missing,
}

impl Config {
    /// Where the token comes from, given whether `GITHUB_TOKEN` is set.
    pub fn token_source(&self, env_token_set: bool) -> (r: TokenSource)
        ensures
            self.ai.github_token is Some ==> r == TokenSource::Configured,
            self.ai.github_token is None && env_token_set ==> r == TokenSource::Environment,
            self.ai.github_token is None && !env_token_set ==> r == TokenSource::Missing,
    {
        if self.ai.github_token.is_some() {
            TokenSource::Configured
        } else if env_token_set {
            TokenSource::Environment
        } else {
            TokenSource::Missing
        }
    }
}

} // verus!
