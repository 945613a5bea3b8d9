//! The settings of the web server.
use vstd::prelude::*;
use vstd::string::StringSliceAdditionalSpecFns;

verus! {

/// Whether users may log in with a password.
#[derive(Clone, Copy, PartialEq, Eq, Debug, Default)]
pub struct PasswordAuthConfig {
    pub enabled: bool,
}

/// An OpenID Connect provider users may log in through.
pub struct OAuthConfig {
    pub enabled: bool,
    pub discovery_uri: String,
    pub client_id: String,
    pub client_secret: String,
}

/// How users may log in: with a password, and through each provider by
/// its name.
pub struct AuthConfig {
    pub password: PasswordAuthConfig,
    pub oauth: Vec<(String, OAuthConfig)>,
}

/// The command-line options of the web server.
pub struct Opts {
    /// How often `-v` was given.
    pub verbose: i32,
    /// The path of the configuration file.
    pub config: String,
}

/// Why the encryption key was refused.
#[derive(Clone, Copy, PartialEq, Eq, Structural, Debug)]
pub enum KeyError {
    /// The key is not 32 bytes long.
    WrongLength,
}

impl KeyError {
    /// The message answered for the error.
    pub fn message(&self) -> (r: &'static str)
        ensures
            r@ == "encryption_key must be 32 bytes"@,
    {
        "encryption_key must be 32 bytes"
    }
}

/// The key states are sealed with, from the bytes of the configured text,
/// which must be exactly 32.
pub fn deserialize_encryption_key(key: &str) -> (r: Result<[u8; 32], KeyError>)
    ensures
        key.spec_bytes().len() == 32 ==> (r matches Ok(k) && k@ == key.spec_bytes()),
        key.spec_bytes().len() != 32 ==> r == Err::<[u8; 32], KeyError>(KeyError::WrongLength),
{
    let bytes = key.as_bytes();
    if bytes.len() != 32 {
        return Err(KeyError::WrongLength);
    }
    let mut k = [0u8; 32];
    let mut i: usize = 0;
    while i < 32
        invariant
            i <= 32,
            bytes@.len() == 32,
            k@.len() == 32,
            forall|j: int| 0 <= j < i ==> k@[j] == bytes@[j],
        decreases 32 - i,
    {
        k[i] = bytes[i];
        i = i + 1;
    }
    assert(k@ =~= bytes@);
    Ok(k)
}

/// The names of the providers that are enabled, in order.
pub open spec fn enabled_providers(oauth: Seq<(String, OAuthConfig)>) -> Seq<Seq<char>>
    decreases oauth.len(),
{
    if oauth.len() == 0 {
        seq![]
    } else if oauth.last().1.enabled {
        enabled_providers(oauth.drop_last()).push(oauth.last().0@)
    } else {
        enabled_providers(oauth.drop_last())
    }
}

/// The providers offered are the enabled ones, in order: none of no
/// configs, and adding a provider adds its name at the end exactly when it
/// is enabled.
pub proof fn lemma_enabled_providers_step(oauth: Seq<(String, OAuthConfig)>, p: (String, OAuthConfig))
    ensures
        enabled_providers(Seq::<(String, OAuthConfig)>::empty()) == Seq::<Seq<char>>::empty(),
        p.1.enabled ==> enabled_providers(oauth.push(p)) == enabled_providers(oauth).push(p.0@),
        !p.1.enabled ==> enabled_providers(oauth.push(p)) == enabled_providers(oauth),
{
    assert(oauth.push(p).drop_last() =~= oauth);
}

/// Every provider offered is one whose configuration is enabled, and every
/// enabled provider is offered.
pub proof fn lemma_enabled_providers_members(oauth: Seq<(String, OAuthConfig)>)
    ensures
        forall|j: int|
            #![trigger enabled_providers(oauth)[j]]
            0 <= j < enabled_providers(oauth).len() ==> exists|i: int|
                0 <= i < oauth.len() && oauth[i].1.enabled && #[trigger] oauth[i].0@
                    == enabled_providers(oauth)[j],
        forall|i: int|
            0 <= i < oauth.len() && oauth[i].1.enabled ==> enabled_providers(oauth).contains(
                #[trigger] oauth[i].0@,
            ),
        enabled_providers(oauth).len() <= oauth.len(),
    decreases oauth.len(),
{
    if oauth.len() > 0 {
        let init = oauth.drop_last();
        lemma_enabled_providers_members(init);
        let e = enabled_providers(init);
        let r = enabled_providers(oauth);
        let last = oauth.last();
        if last.1.enabled {
            assert(r == e.push(last.0@));
        } else {
            assert(r == e);
        }
        assert forall|j: int| #![trigger r[j]] 0 <= j < r.len() implies exists|i: int|
            0 <= i < oauth.len() && oauth[i].1.enabled && #[trigger] oauth[i].0@ == r[j] by {
            if j < e.len() {
                assert(r[j] == e[j]);
                assert(e[j] == enabled_providers(init)[j]);
                let i = choose|i: int|
                    0 <= i < init.len() && init[i].1.enabled && #[trigger] init[i].0@ == e[j];
                assert(oauth[i] == init[i]);
                assert(oauth[i].1.enabled && oauth[i].0@ == r[j]);
            } else {
                let i = oauth.len() - 1;
                assert(oauth[i] == last);
                assert(oauth[i].1.enabled && oauth[i].0@ == r[j]);
            }
        }
        assert forall|i: int| 0 <= i < oauth.len() && oauth[i].1.enabled implies r.contains(
            #[trigger] oauth[i].0@,
        ) by {
            if i < init.len() {
                assert(oauth[i] == init[i]);
                assert(e.contains(init[i].0@));
                let k = choose|k: int| 0 <= k < e.len() && e[k] == init[i].0@;
                assert(r[k] == e[k]);
            } else {
                assert(r[r.len() - 1] == oauth[i].0@);
            }
        }
    }
}

impl AuthConfig {
    /// The names of the providers that are enabled, which users may log in
    /// through.
    pub fn enabled_providers(&self) -> (r: Vec<String>)
        ensures
            r@.map_values(|n: String| n@) == enabled_providers(self.oauth@),
    {
        let mut r: Vec<String> = Vec::new();
        let mut i: usize = 0;
        while i < self.oauth.len()
            invariant
                i <= self.oauth@.len(),
                r@.map_values(|n: String| n@) == enabled_providers(self.oauth@.take(i as int)),
            decreases self.oauth@.len() - i,
        {
            assert(self.oauth@.take(i + 1).drop_last() =~= self.oauth@.take(i as int));
            if self.oauth[i].1.enabled {
                let ghost before = r@;
                r.push(self.oauth[i].0.clone());
                assert(r@.map_values(|n: String| n@) =~= before.map_values(|n: String| n@).push(
                    self.oauth@[i as int].0@,
                ));
            }
            i = i + 1;
        }
        assert(self.oauth@.take(self.oauth@.len() as int) =~= self.oauth@);
        r
    }
}

} // verus!
