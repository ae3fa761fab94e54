//! The project configuration: database, sign-in providers, media storage and content types.

use vstd::prelude::*;
use crate::schema::field::TypeDef;

verus! {

/// The whole configuration a project's config file evaluates to.
pub struct TinyCmsConfig {
    pub database: DatabaseConfig,
    pub auth: Option<AuthConfig>,
    pub storage: Option<StorageConfig>,
    pub runtime: Option<String>,
    pub types: Vec<TypeDef>,
}

/// Where the database is.
#[derive(Clone)]
pub struct DatabaseConfig {
    pub db_type: Option<String>,
    pub url: String,
}

/// The sign-in providers that are enabled.
#[derive(Clone)]
pub struct AuthConfig {
    pub providers: Vec<ProviderConfig>,
}

/// One sign-in provider.
#[derive(Clone)]
pub enum ProviderConfig {
    GitHub { client_id: Option<String>, client_secret: Option<String> },
    Google { client_id: Option<String>, client_secret: Option<String> },
    Credentials,
}

/// The S3-compatible bucket media is stored in.
#[derive(Clone)]
pub struct StorageConfig {
    pub bucket: String,
    pub region: Option<String>,
    pub access_key_id: Option<String>,
    pub secret_access_key: Option<String>,
    pub endpoint: Option<String>,
}

/// The two OAuth providers.
#[derive(Clone, Copy, Debug, PartialEq, Eq, Structural)]
pub enum OAuthProvider {
    GitHub,
    Google,
}

/// The client id and secret of a provider entry of the given kind, when it has both.
pub open spec fn provider_pair(p: ProviderConfig, which: OAuthProvider) -> Option<(Seq<char>, Seq<char>)> {
    match (p, which) {
        (ProviderConfig::GitHub { client_id: Some(id), client_secret: Some(secret) }, OAuthProvider::GitHub) => Some(
            (id@, secret@),
        ),
        (ProviderConfig::Google { client_id: Some(id), client_secret: Some(secret) }, OAuthProvider::Google) => Some(
            (id@, secret@),
        ),
        _ => None,
    }
}

/// The pair of the first entry from position `i` on that has one.
pub open spec fn first_pair(ps: Seq<ProviderConfig>, which: OAuthProvider, i: int) -> Option<(Seq<char>, Seq<char>)>
    decreases ps.len() - i,
{
    if i < 0 || i >= ps.len() {
        None
    } else {
        match provider_pair(ps[i], which) {
            Some(pair) => Some(pair),
            None => first_pair(ps, which, i + 1),
        }
    }
}

/// The credentials of the first configured entry of a provider that has both its client
/// id and its secret.
pub open spec fn oauth_client(schema: TinyCmsConfig, which: OAuthProvider) -> Option<(Seq<char>, Seq<char>)> {
    match schema.auth {
        Some(a) => first_pair(a.providers@, which, 0),
        None => None,
    }
}

/// Whether sign-in with email and password is enabled.
pub open spec fn spec_credentials_enabled(schema: TinyCmsConfig) -> bool {
    match schema.auth {
        Some(a) => exists|k: int| 0 <= k < a.providers@.len() && #[trigger] a.providers@[k] is Credentials,
        None => false,
    }
}

/// An optional pair of strings with its texts as characters.
pub open spec fn pair_view(p: Option<(String, String)>) -> Option<(Seq<char>, Seq<char>)> {
    match p {
        Some((a, b)) => Some((a@, b@)),
        None => None,
    }
}

/// The client id and secret of an entry of the given kind, when it has both.
fn entry_pair(p: &ProviderConfig, which: OAuthProvider) -> (r: Option<(String, String)>)
    ensures
        pair_view(r) == provider_pair(*p, which),
{
    match (p, which) {
        (ProviderConfig::GitHub { client_id: Some(id), client_secret: Some(secret) }, OAuthProvider::GitHub) => Some(
            (id.clone(), secret.clone()),
        ),
        (ProviderConfig::Google { client_id: Some(id), client_secret: Some(secret) }, OAuthProvider::Google) => Some(
            (id.clone(), secret.clone()),
        ),
        _ => None,
    }
}

/// The credentials of the first usable entry of a provider.
pub fn find_oauth_client(schema: &TinyCmsConfig, which: OAuthProvider) -> (r: Option<(String, String)>)
    ensures
        pair_view(r) == oauth_client(*schema, which),
{
    match &schema.auth {
        None => None,
        Some(a) => {
            let mut i: usize = 0;
            while i < a.providers.len()
                invariant
                    schema.auth == Some(*a),
                    i <= a.providers@.len(),
                    first_pair(a.providers@, which, 0) == first_pair(a.providers@, which, i as int),
                decreases a.providers@.len() - i,
            {
                let found = entry_pair(&a.providers[i], which);
                if found.is_some() {
                    assert(first_pair(a.providers@, which, i as int) == provider_pair(a.providers@[i as int], which));
                    return found;
                }
                i = i + 1;
            }
            None
        },
    }
}

/// The client id and secret of the first GitHub entry that has both.
pub fn find_github_config(schema: &TinyCmsConfig) -> (r: Option<(String, String)>)
    ensures
        pair_view(r) == oauth_client(*schema, OAuthProvider::GitHub),
{
    find_oauth_client(schema, OAuthProvider::GitHub)
}

/// The client id and secret of the first Google entry that has both.
pub fn find_google_config(schema: &TinyCmsConfig) -> (r: Option<(String, String)>)
    ensures
        pair_view(r) == oauth_client(*schema, OAuthProvider::Google),
{
    find_oauth_client(schema, OAuthProvider::Google)
}

/// Whether sign-in with email and password is enabled.
pub fn credentials_enabled(schema: &TinyCmsConfig) -> (r: bool)
    ensures
        r == spec_credentials_enabled(*schema),
{
    match &schema.auth {
        None => false,
        Some(a) => {
            let mut i: usize = 0;
            while i < a.providers.len()
                invariant
                    schema.auth == Some(*a),
                    i <= a.providers@.len(),
                    forall|k: int| 0 <= k < i ==> !(#[trigger] a.providers@[k] is Credentials),
                decreases a.providers@.len() - i,
            {
                match &a.providers[i] {
                    ProviderConfig::Credentials => {
                        assert(a.providers@[i as int] is Credentials);
                        return true;
                    },
                    _ => {},
                }
                i = i + 1;
            }
            false
        },
    }
}

} // verus!
