//! Client configuration: the set of configured providers and global knobs.
//!
//! Reading keys from the process environment is transport-layer work and
//! happens outside the library; here a fresh configuration starts with an
//! OpenAI entry whose key is empty until the caller fills it in.

use vstd::prelude::*;
use crate::provider::ProviderConfig;
use crate::strmap::StringMap;

verus! {

pub struct Config {
    pub providers: StringMap<ProviderConfig>,
    pub default_provider: String,
    pub timeout_secs: u64,
    pub max_retries: u32,
}

impl Config {
    pub fn new() -> (r: Config)
        ensures
            r.providers.wf(),
            r.providers@.contains_key("openai"@),
            r.providers@.dom() =~= Set::empty().insert("openai"@),
            r.default_provider@ == "openai"@,
            r.timeout_secs == 120,
            r.max_retries == 3,
    {
        let mut providers: StringMap<ProviderConfig> = StringMap::new();
        let openai = ProviderConfig {
            api_key: String::new(),
            base_url: String::from_str("https://api.openai.com/v1"),
            model: String::from_str("gpt-4"),
            organization: None,
            max_tokens: None,
            headers: Vec::new(),
        };
        providers.insert("openai", openai);
        proof {
            assert(providers@.dom() =~= Set::empty().insert("openai"@));
        }
        Config {
            providers,
            default_provider: String::from_str("openai"),
            timeout_secs: 120,
            max_retries: 3,
        }
    }

    pub fn with_provider(self, name: &str, config: ProviderConfig) -> (r: Config)
        requires
            self.providers.wf(),
        ensures
            r.providers.wf(),
            r.providers@ == self.providers@.insert(name@, config),
            r.default_provider == self.default_provider,
            r.timeout_secs == self.timeout_secs,
            r.max_retries == self.max_retries,
    {
        let mut c = self;
        c.providers.insert(name, config);
        c
    }

    pub fn with_default_provider(self, provider: &str) -> (r: Config)
        ensures
            r.providers == self.providers,
            r.default_provider@ == provider@,
            r.timeout_secs == self.timeout_secs,
            r.max_retries == self.max_retries,
    {
        Config { default_provider: provider.to_owned(), ..self }
    }

    pub fn get_provider(&self, name: &str) -> (r: Option<&ProviderConfig>)
        requires
            self.providers.wf(),
        ensures
            match r {
                Some(c) => self.providers@.contains_key(name@) && *c == self.providers@[name@],
                None => !self.providers@.contains_key(name@),
            },
    {
        self.providers.get(name)
    }
}

impl Default for Config {
    fn default() -> (r: Config)
        ensures
            r.providers.wf(),
            r.providers@.contains_key("openai"@),
            r.default_provider@ == "openai"@,
            r.timeout_secs == 120,
            r.max_retries == 3,
    {
        Config::new()
    }
}

} // verus!
