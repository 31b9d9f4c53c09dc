//! The repository's configuration file: an immutable section (signing
//! secrets, tool paths) and a public section that editors may change.

use vstd::prelude::*;

use crate::general::opt_view;

verus! {

/// The whole configuration file.
#[derive(Clone, Debug)]
pub struct ConfigFile {
    pub sdk_path: String,
    pub repo_keyalias: String,
    pub keystore: String,
    pub keystorepass: String,
    pub keypass: String,
    pub keydname: String,
    pub repo_url: Option<String>,
    pub repo_name: Option<String>,
    pub repo_icon: Option<String>,
    pub repo_description: Option<String>,
    pub apksigner: Option<String>,
    pub archive_url: Option<String>,
    pub archive_name: Option<String>,
    pub archive_icon: Option<String>,
    pub archive_description: Option<String>,
    pub archive_older: Option<u8>,
}

/// The part of the configuration that may be changed.
#[derive(Clone, Debug)]
pub struct PublicConfig {
    pub repo_url: Option<String>,
    pub repo_name: Option<String>,
    pub repo_icon: Option<String>,
    pub repo_description: Option<String>,
    pub archive_url: Option<String>,
    pub archive_name: Option<String>,
    pub archive_icon: Option<String>,
    pub archive_description: Option<String>,
    pub archive_older: Option<u8>,
}

pub struct ConfigFileView {
    pub sdk_path: Seq<char>,
    pub repo_keyalias: Seq<char>,
    pub keystore: Seq<char>,
    pub keystorepass: Seq<char>,
    pub keypass: Seq<char>,
    pub keydname: Seq<char>,
    pub repo_url: Option<Seq<char>>,
    pub repo_name: Option<Seq<char>>,
    pub repo_icon: Option<Seq<char>>,
    pub repo_description: Option<Seq<char>>,
    pub apksigner: Option<Seq<char>>,
    pub archive_url: Option<Seq<char>>,
    pub archive_name: Option<Seq<char>>,
    pub archive_icon: Option<Seq<char>>,
    pub archive_description: Option<Seq<char>>,
    pub archive_older: Option<u8>,
}

pub struct PublicConfigView {
    pub repo_url: Option<Seq<char>>,
    pub repo_name: Option<Seq<char>>,
    pub repo_icon: Option<Seq<char>>,
    pub repo_description: Option<Seq<char>>,
    pub archive_url: Option<Seq<char>>,
    pub archive_name: Option<Seq<char>>,
    pub archive_icon: Option<Seq<char>>,
    pub archive_description: Option<Seq<char>>,
    pub archive_older: Option<u8>,
}

impl View for ConfigFile {
    type V = ConfigFileView;

    open spec fn view(&self) -> ConfigFileView {
        ConfigFileView {
            sdk_path: self.sdk_path@,
            repo_keyalias: self.repo_keyalias@,
            keystore: self.keystore@,
            keystorepass: self.keystorepass@,
            keypass: self.keypass@,
            keydname: self.keydname@,
            repo_url: opt_view(self.repo_url),
            repo_name: opt_view(self.repo_name),
            repo_icon: opt_view(self.repo_icon),
            repo_description: opt_view(self.repo_description),
            apksigner: opt_view(self.apksigner),
            archive_url: opt_view(self.archive_url),
            archive_name: opt_view(self.archive_name),
            archive_icon: opt_view(self.archive_icon),
            archive_description: opt_view(self.archive_description),
            archive_older: self.archive_older,
        }
    }
}

impl View for PublicConfig {
    type V = PublicConfigView;

    open spec fn view(&self) -> PublicConfigView {
        PublicConfigView {
            repo_url: opt_view(self.repo_url),
            repo_name: opt_view(self.repo_name),
            repo_icon: opt_view(self.repo_icon),
            repo_description: opt_view(self.repo_description),
            archive_url: opt_view(self.archive_url),
            archive_name: opt_view(self.archive_name),
            archive_icon: opt_view(self.archive_icon),
            archive_description: opt_view(self.archive_description),
            archive_older: self.archive_older,
        }
    }
}

/// The public part of a configuration.
pub open spec fn public_part(c: ConfigFileView) -> PublicConfigView {
    PublicConfigView {
        repo_url: c.repo_url,
        repo_name: c.repo_name,
        repo_icon: c.repo_icon,
        repo_description: c.repo_description,
        archive_url: c.archive_url,
        archive_name: c.archive_name,
        archive_icon: c.archive_icon,
        archive_description: c.archive_description,
        archive_older: c.archive_older,
    }
}

/// A configuration whose public part is replaced by `p`.
pub open spec fn merged(c: ConfigFileView, p: PublicConfigView) -> ConfigFileView {
    ConfigFileView {
        repo_url: p.repo_url,
        repo_name: p.repo_name,
        repo_icon: p.repo_icon,
        repo_description: p.repo_description,
        archive_url: p.archive_url,
        archive_name: p.archive_name,
        archive_icon: p.archive_icon,
        archive_description: p.archive_description,
        archive_older: p.archive_older,
        ..c
    }
}

/// Two configurations agree on the immutable section: SDK path, key alias,
/// keystore path and password, key password, distinguished name and signer.
pub open spec fn same_secrets(a: ConfigFileView, b: ConfigFileView) -> bool {
    &&& a.sdk_path == b.sdk_path
    &&& a.repo_keyalias == b.repo_keyalias
    &&& a.keystore == b.keystore
    &&& a.keystorepass == b.keystorepass
    &&& a.keypass == b.keypass
    &&& a.keydname == b.keydname
    &&& a.apksigner == b.apksigner
}

pub(crate) fn clone_opt(o: &Option<String>) -> (r: Option<String>)
    ensures
        opt_view(r) == opt_view(*o),
{
    match o {
        Some(s) => Some(s.clone()),
        None => None,
    }
}

impl ConfigFile {
    /// The configuration with its public part replaced by `public`; the
    /// immutable section is this file's own.
    pub fn merge_with_public(&self, public: &PublicConfig) -> (r: ConfigFile)
        ensures
            r@ == merged(self@, public@),
            same_secrets(r@, self@),
    {
        ConfigFile {
            sdk_path: self.sdk_path.clone(),
            repo_keyalias: self.repo_keyalias.clone(),
            keystore: self.keystore.clone(),
            keystorepass: self.keystorepass.clone(),
            keypass: self.keypass.clone(),
            keydname: self.keydname.clone(),
            apksigner: clone_opt(&self.apksigner),
            repo_url: clone_opt(&public.repo_url),
            repo_name: clone_opt(&public.repo_name),
            repo_icon: clone_opt(&public.repo_icon),
            archive_icon: clone_opt(&public.archive_icon),
            repo_description: clone_opt(&public.repo_description),
            archive_description: clone_opt(&public.archive_description),
            archive_name: clone_opt(&public.archive_name),
            archive_older: public.archive_older,
            archive_url: clone_opt(&public.archive_url),
        }
    }

    /// This configuration naming `icon` as the repository icon.
    pub fn with_icon(&self, icon: String) -> (r: ConfigFile)
        ensures
            r@ == (ConfigFileView { repo_icon: Some(icon@), ..self@ }),
    {
        ConfigFile {
            sdk_path: self.sdk_path.clone(),
            repo_keyalias: self.repo_keyalias.clone(),
            keystore: self.keystore.clone(),
            keystorepass: self.keystorepass.clone(),
            keypass: self.keypass.clone(),
            keydname: self.keydname.clone(),
            apksigner: clone_opt(&self.apksigner),
            repo_url: clone_opt(&self.repo_url),
            repo_name: clone_opt(&self.repo_name),
            repo_icon: Some(icon),
            archive_icon: clone_opt(&self.archive_icon),
            repo_description: clone_opt(&self.repo_description),
            archive_description: clone_opt(&self.archive_description),
            archive_name: clone_opt(&self.archive_name),
            archive_older: self.archive_older,
            archive_url: clone_opt(&self.archive_url),
        }
    }

    /// The public part of this configuration.
    pub fn public_config(&self) -> (r: PublicConfig)
        ensures
            r@ == public_part(self@),
    {
        PublicConfig {
            repo_url: clone_opt(&self.repo_url),
            repo_name: clone_opt(&self.repo_name),
            repo_icon: clone_opt(&self.repo_icon),
            repo_description: clone_opt(&self.repo_description),
            archive_url: clone_opt(&self.archive_url),
            archive_name: clone_opt(&self.archive_name),
            archive_icon: clone_opt(&self.archive_icon),
            archive_description: clone_opt(&self.archive_description),
            archive_older: self.archive_older,
        }
    }
}

impl From<ConfigFile> for PublicConfig {
    fn from(value: ConfigFile) -> PublicConfig {
        PublicConfig {
            repo_url: value.repo_url,
            repo_name: value.repo_name,
            repo_icon: value.repo_icon,
            repo_description: value.repo_description,
            archive_url: value.archive_url,
            archive_name: value.archive_name,
            archive_icon: value.archive_icon,
            archive_description: value.archive_description,
            archive_older: value.archive_older,
        }
    }
}

impl vstd::std_specs::convert::FromSpecImpl<ConfigFile> for PublicConfig {
    open spec fn obeys_from_spec() -> bool {
        true
    }

    open spec fn from_spec(value: ConfigFile) -> PublicConfig {
        PublicConfig {
            repo_url: value.repo_url,
            repo_name: value.repo_name,
            repo_icon: value.repo_icon,
            repo_description: value.repo_description,
            archive_url: value.archive_url,
            archive_name: value.archive_name,
            archive_icon: value.archive_icon,
            archive_description: value.archive_description,
            archive_older: value.archive_older,
        }
    }
}

/// The public part of a configuration file.
pub fn get_public_config(config: &ConfigFile) -> (r: PublicConfig)
    ensures
        r@ == public_part(config@),
{
    config.public_config()
}

/// The configuration to write back when `public` is set: the public part
/// comes from `public`, the immutable section from `config`.
pub fn set_config(config: &ConfigFile, public: &PublicConfig) -> (r: ConfigFile)
    ensures
        r@ == merged(config@, public@),
        same_secrets(r@, config@),
{
    config.merge_with_public(public)
}

/// Setting a public configuration and reading the public part back yields
/// that configuration, and setting it a second time changes nothing more.
pub proof fn lemma_config_round_trip(config: ConfigFile, public: PublicConfig)
    ensures
        public_part(merged(config@, public@)) == public@,
        merged(merged(config@, public@), public@) == merged(config@, public@),
{
}

/// Setting a public configuration never changes the immutable section,
/// whatever the public configuration holds.
pub proof fn lemma_config_keeps_secrets(config: ConfigFile, public: PublicConfig)
    ensures
        same_secrets(merged(config@, public@), config@),
{
}

} // verus!
