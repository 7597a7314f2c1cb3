//! Provider identities, their configuration, and the per-provider-type
//! authentication header table.

use vstd::prelude::*;
use crate::text::{eq_ignore_case, str_eq_ignore_case, is_ascii_space};

verus! {

/// The kind of remote provider, which fixes endpoint and header scheme.
#[derive(Clone, Copy, Debug, PartialEq, Eq, Hash, Structural)]
pub enum ProviderType {
    OpenAI,
    Anthropic,
    Google,
    Azure,
    Custom,
}

/// The provider type a textual name denotes; unknown names are custom.
pub open spec fn spec_provider_type_of(s: Seq<char>) -> ProviderType {
    if eq_ignore_case(s, "openai"@) {
        ProviderType::OpenAI
    } else if eq_ignore_case(s, "anthropic"@) {
        ProviderType::Anthropic
    } else if eq_ignore_case(s, "google"@) {
        ProviderType::Google
    } else if eq_ignore_case(s, "azure"@) {
        ProviderType::Azure
    } else {
        ProviderType::Custom
    }
}

impl From<&str> for ProviderType {
    fn from(s: &str) -> (r: ProviderType)
        ensures
            r == spec_provider_type_of(s@),
    {
        if str_eq_ignore_case(s, "openai") {
            ProviderType::OpenAI
        } else if str_eq_ignore_case(s, "anthropic") {
            ProviderType::Anthropic
        } else if str_eq_ignore_case(s, "google") {
            ProviderType::Google
        } else if str_eq_ignore_case(s, "azure") {
            ProviderType::Azure
        } else {
            ProviderType::Custom
        }
    }
}

impl vstd::std_specs::convert::FromSpecImpl<&str> for ProviderType {
    open spec fn obeys_from_spec() -> bool {
        true
    }

    open spec fn from_spec(s: &str) -> ProviderType {
        spec_provider_type_of(s@)
    }
}

/// The text `ProviderType::to_string` renders.
pub open spec fn spec_provider_type_name(t: ProviderType) -> Seq<char> {
    match t {
        ProviderType::OpenAI => "openai"@,
        ProviderType::Anthropic => "anthropic"@,
        ProviderType::Google => "google"@,
        ProviderType::Azure => "azure"@,
        ProviderType::Custom => "custom"@,
    }
}

impl ProviderType {
    /// The lower-case name of the provider type.
    pub fn to_string(&self) -> (r: String)
        ensures
            r@ == spec_provider_type_name(*self),
    {
        match self {
            ProviderType::OpenAI => String::from_str("openai"),
            ProviderType::Anthropic => String::from_str("anthropic"),
            ProviderType::Google => String::from_str("google"),
            ProviderType::Azure => String::from_str("azure"),
            ProviderType::Custom => String::from_str("custom"),
        }
    }
}

/// Connection settings for one provider. Sampling knobs carried as floats
/// live with the transport layer, outside the library.
#[derive(Clone, Debug)]
pub struct ProviderConfig {
    pub api_key: String,
    pub base_url: String,
    pub model: String,
    pub organization: Option<String>,
    pub max_tokens: Option<u32>,
    pub headers: Vec<(String, String)>,
}

impl ProviderConfig {
    pub fn empty() -> (r: ProviderConfig)
        ensures
            r.api_key@.len() == 0,
            r.base_url@.len() == 0,
            r.model@.len() == 0,
            r.organization is None,
            r.max_tokens is None,
            r.headers@.len() == 0,
    {
        ProviderConfig {
            api_key: String::new(),
            base_url: String::new(),
            model: String::new(),
            organization: None,
            max_tokens: None,
            headers: Vec::new(),
        }
    }
}

impl Default for ProviderConfig {
    fn default() -> (r: ProviderConfig)
        ensures
            r.api_key@.len() == 0,
            r.base_url@.len() == 0,
            r.model@.len() == 0,
            r.organization is None,
            r.max_tokens is None,
            r.headers@.len() == 0,
    {
        ProviderConfig::empty()
    }
}

/// A configured provider.
#[derive(Clone, Debug)]
pub struct Provider {
    pub name: String,
    pub provider_type: ProviderType,
    pub config: ProviderConfig,
}

/// A character sequence with its trailing `/` characters removed.
pub open spec fn trim_end_slashes(s: Seq<char>) -> Seq<char>
    decreases s.len(),
{
    if s.len() > 0 && s.last() == '/' {
        trim_end_slashes(s.drop_last())
    } else {
        s
    }
}

/// A character sequence with its leading `/` characters removed.
pub open spec fn trim_start_slashes(s: Seq<char>) -> Seq<char>
    decreases s.len(),
{
    if s.len() > 0 && s[0] == '/' {
        trim_start_slashes(s.drop_first())
    } else {
        s
    }
}

proof fn lemma_trim_end_slashes(s: Seq<char>, k: int)
    requires
        0 <= k <= s.len(),
        forall|j: int| k <= j < s.len() ==> s[j] == '/',
        k > 0 ==> s[k - 1] != '/',
    ensures
        trim_end_slashes(s) == s.subrange(0, k),
    decreases s.len(),
{
    if s.len() > 0 && s.last() == '/' {
        assert(k < s.len());
        assert(s.drop_last() =~= s.subrange(0, s.len() - 1));
        lemma_trim_end_slashes(s.drop_last(), k);
        assert(s.drop_last().subrange(0, k) =~= s.subrange(0, k));
    } else {
        assert(k == s.len());
        assert(s.subrange(0, k) =~= s);
    }
}

proof fn lemma_trim_start_slashes(s: Seq<char>, k: int)
    requires
        0 <= k <= s.len(),
        forall|j: int| 0 <= j < k ==> s[j] == '/',
        k < s.len() ==> s[k] != '/',
    ensures
        trim_start_slashes(s) == s.subrange(k, s.len() as int),
    decreases s.len(),
{
    if s.len() > 0 && s[0] == '/' {
        assert(k > 0);
        assert(s.drop_first() =~= s.subrange(1, s.len() as int));
        lemma_trim_start_slashes(s.drop_first(), k - 1);
        assert(s.drop_first().subrange(k - 1, s.drop_first().len() as int) =~= s.subrange(
            k,
            s.len() as int,
        ));
    } else {
        assert(k == 0);
        assert(s.subrange(0, s.len() as int) =~= s);
    }
}

/// The authentication headers the provider type requires; the key header
/// scheme is a fixed per-type table.
pub open spec fn spec_auth_headers(p: Provider) -> Seq<(Seq<char>, Seq<char>)> {
    match p.provider_type {
        ProviderType::OpenAI => seq![("Authorization"@, "Bearer "@ + p.config.api_key@)] + (
        match p.config.organization {
            Some(org) => seq![("OpenAI-Organization"@, org@)],
            None => Seq::empty(),
        }),
        ProviderType::Anthropic => seq![
            ("x-api-key"@, p.config.api_key@),
            ("anthropic-version"@, "2023-06-01"@),
        ],
        ProviderType::Google => seq![("x-goog-api-key"@, p.config.api_key@)],
        ProviderType::Azure => seq![("api-key"@, p.config.api_key@)],
        ProviderType::Custom => seq![("Authorization"@, "Bearer "@ + p.config.api_key@)],
    }
}

/// Every header of a request to the provider, in the order they are set:
/// the content type, the authentication headers, then the configured
/// extras.
pub open spec fn spec_headers(p: Provider) -> Seq<(Seq<char>, Seq<char>)> {
    seq![("Content-Type"@, "application/json"@)] + spec_auth_headers(p)
        + p.config.headers@.map_values(|h: (String, String)| (h.0@, h.1@))
}

/// The views of a header list.
pub open spec fn header_views(hs: Seq<(String, String)>) -> Seq<(Seq<char>, Seq<char>)> {
    hs.map_values(|h: (String, String)| (h.0@, h.1@))
}

impl Provider {
    pub fn new(name: &str, provider_type: ProviderType, config: ProviderConfig) -> (r: Provider)
        ensures
            r.name@ == name@,
            r.provider_type == provider_type,
            r.config == config,
    {
        Provider { name: name.to_owned(), provider_type, config }
    }

    /// The URL of an endpoint under this provider's base URL: both sides
    /// are joined with exactly one `/`.
    pub fn get_endpoint(&self, path: &str) -> (r: String)
        ensures
            r@ == trim_end_slashes(self.config.base_url@) + "/"@ + trim_start_slashes(path@),
    {
        let base = &self.config.base_url;
        let bl = base.as_str().unicode_len();
        let mut end: usize = bl;
        while end > 0 && base.as_str().get_char(end - 1) == '/'
            invariant
                bl == base@.len(),
                end <= bl,
                forall|j: int| end <= j < bl ==> base@[j] == '/',
            decreases end,
        {
            end -= 1;
        }
        let pl = path.unicode_len();
        let mut start: usize = 0;
        while start < pl && path.get_char(start) == '/'
            invariant
                pl == path@.len(),
                start <= pl,
                forall|j: int| 0 <= j < start ==> path@[j] == '/',
            decreases pl - start,
        {
            start += 1;
        }
        proof {
            lemma_trim_end_slashes(base@, end as int);
            lemma_trim_start_slashes(path@, start as int);
        }
        let mut r = base.as_str().substring_char(0, end).to_owned();
        r.append("/");
        let tail = path.substring_char(start, pl);
        r.append(tail);
        r
    }

    /// The request headers for this provider, per the authentication table.
    pub fn get_headers(&self) -> (r: Vec<(String, String)>)
        ensures
            header_views(r@) == spec_headers(*self),
    {
        let mut r: Vec<(String, String)> = Vec::new();
        r.push((String::from_str("Content-Type"), String::from_str("application/json")));
        match self.provider_type {
            ProviderType::OpenAI => {
                let bearer = String::from_str("Bearer ").concat(self.config.api_key.as_str());
                r.push((String::from_str("Authorization"), bearer));
                match &self.config.organization {
                    Some(org) => {
                        r.push((String::from_str("OpenAI-Organization"), org.clone()));
                    },
                    None => {},
                }
            },
            ProviderType::Anthropic => {
                r.push((String::from_str("x-api-key"), self.config.api_key.clone()));
                r.push((String::from_str("anthropic-version"), String::from_str("2023-06-01")));
            },
            ProviderType::Google => {
                r.push((String::from_str("x-goog-api-key"), self.config.api_key.clone()));
            },
            ProviderType::Azure => {
                r.push((String::from_str("api-key"), self.config.api_key.clone()));
            },
            ProviderType::Custom => {
                let bearer = String::from_str("Bearer ").concat(self.config.api_key.as_str());
                r.push((String::from_str("Authorization"), bearer));
            },
        }
        let ghost auth_len = r@.len();
        proof {
            assert(header_views(r@) =~= seq![("Content-Type"@, "application/json"@)]
                + spec_auth_headers(*self));
        }
        let n = self.config.headers.len();
        let mut i: usize = 0;
        while i < n
            invariant
                n == self.config.headers@.len(),
                i <= n,
                r@.len() == auth_len + i,
                header_views(r@) =~= (seq![("Content-Type"@, "application/json"@)]
                    + spec_auth_headers(*self) + header_views(self.config.headers@.take(i as int))),
            decreases n - i,
        {
            let ghost r_before = r@;
            let k = self.config.headers[i].0.clone();
            let v = self.config.headers[i].1.clone();
            r.push((k, v));
            proof {
                assert(r@ == r_before.push((k, v)));
                assert(header_views(r@) =~= header_views(r_before).push((k@, v@)));
                assert(k@ == self.config.headers@[i as int].0@);
                assert(v@ == self.config.headers@[i as int].1@);
                assert(header_views(self.config.headers@.take(i + 1)) =~= header_views(
                    self.config.headers@.take(i as int),
                ).push((self.config.headers@[i as int].0@, self.config.headers@[i as int].1@)));
                assert(header_views(r@) =~= (seq![("Content-Type"@, "application/json"@)]
                    + spec_auth_headers(*self) + header_views(
                    self.config.headers@.take(i + 1),
                )));
            }
            i += 1;
        }
        proof {
            assert(self.config.headers@.take(n as int) =~= self.config.headers@);
            assert(header_views(r@) =~= spec_headers(*self));
        }
        r
    }

    /// Whether the provider type offers streaming completions.
    pub fn supports_streaming(&self) -> (r: bool)
        ensures
            r == (self.provider_type == ProviderType::OpenAI || self.provider_type
                == ProviderType::Anthropic || self.provider_type == ProviderType::Google),
    {
        matches!(
            self.provider_type,
            ProviderType::OpenAI | ProviderType::Anthropic | ProviderType::Google
        )
    }

    /// Whether the provider type offers tool calling.
    pub fn supports_tools(&self) -> (r: bool)
        ensures
            r == (self.provider_type == ProviderType::OpenAI || self.provider_type
                == ProviderType::Anthropic),
    {
        matches!(self.provider_type, ProviderType::OpenAI | ProviderType::Anthropic)
    }
}

} // verus!
