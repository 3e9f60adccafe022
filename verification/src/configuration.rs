//! What is persisted about identities: the global default and, per identity,
//! the delegation of its key to a hardware module.

use vstd::prelude::*;

verus! {

/// The name of the identity that is created on first use.
pub const DEFAULT_IDENTITY_NAME: &'static str = "default";

/// The name that stands for unauthenticated access; no identity may bear it.
pub const ANONYMOUS_IDENTITY_NAME: &'static str = "anonymous";

/// The file that holds an identity's private key.
pub const IDENTITY_PEM: &'static str = "identity.pem";

/// The file that holds the global configuration and, inside an identity's
/// directory, that identity's own configuration.
pub const IDENTITY_JSON: &'static str = "identity.json";

/// The process-wide configuration: which identity is used by default.
#[derive(Clone, Debug, PartialEq, Eq)]
pub struct Configuration {
    pub default: String,
}

pub struct ConfigurationView {
    pub default: Seq<char>,
}

impl View for Configuration {
    type V = ConfigurationView;

    open spec fn view(&self) -> ConfigurationView {
        ConfigurationView { default: self.default@ }
    }
}

impl Default for Configuration {
    /// The configuration that names no identity.
    fn default() -> (configuration: Configuration)
        ensures
            configuration@ == (ConfigurationView { default: Seq::empty() }),
    {
        Configuration { default: String::new() }
    }
}

/// The default identity's name, for a configuration that names none.
pub fn default_identity() -> (name: String)
    ensures
        name@ == DEFAULT_IDENTITY_NAME@,
{
    DEFAULT_IDENTITY_NAME.to_owned()
}

impl Configuration {
    /// The configuration that a stored document stands for: its `default`
    /// entry, or the default identity's name where the entry is missing.
    pub fn new(default: Option<String>) -> (configuration: Configuration)
        ensures
            configuration.default@ == match default {
                Some(name) => name@,
                None => DEFAULT_IDENTITY_NAME@,
            },
    {
        match default {
            Some(name) => Configuration { default: name },
            None => Configuration { default: default_identity() },
        }
    }

    /// A copy of this configuration.
    pub fn duplicate(&self) -> (copy: Configuration)
        ensures
            copy@ == self@,
    {
        Configuration { default: self.default.clone() }
    }
}

/// Where a hardware module keeps an identity's key.
#[derive(Clone, Debug, PartialEq, Eq)]
pub struct HardwareIdentityConfiguration {
    /// The file path to the opensc-pkcs11 library, e.g. "/usr/local/lib/opensc-pkcs11.so"
    pub pkcs11_lib_path: String,
    /// A sequence of pairs of hex digits
    pub key_id: String,
}

pub struct HardwareIdentityConfigurationView {
    pub pkcs11_lib_path: Seq<char>,
    pub key_id: Seq<char>,
}

impl View for HardwareIdentityConfiguration {
    type V = HardwareIdentityConfigurationView;

    open spec fn view(&self) -> HardwareIdentityConfigurationView {
        HardwareIdentityConfigurationView {
            pkcs11_lib_path: self.pkcs11_lib_path@,
            key_id: self.key_id@,
        }
    }
}

impl Default for HardwareIdentityConfiguration {
    /// The configuration with an empty path and an empty key id.
    fn default() -> (configuration: HardwareIdentityConfiguration)
        ensures
            configuration@ == (HardwareIdentityConfigurationView {
                pkcs11_lib_path: Seq::empty(),
                key_id: Seq::empty(),
            }),
    {
        HardwareIdentityConfiguration { pkcs11_lib_path: String::new(), key_id: String::new() }
    }
}

impl HardwareIdentityConfiguration {
    /// A copy of this configuration.
    pub fn duplicate(&self) -> (copy: HardwareIdentityConfiguration)
        ensures
            copy@ == self@,
    {
        HardwareIdentityConfiguration {
            pkcs11_lib_path: self.pkcs11_lib_path.clone(),
            key_id: self.key_id.clone(),
        }
    }
}

/// An identity's own configuration. Without an `hsm` entry the identity's key
/// is a PEM file.
#[derive(Clone, Debug, PartialEq, Eq)]
pub struct IdentityConfiguration {
    pub hsm: Option<HardwareIdentityConfiguration>,
}

pub struct IdentityConfigurationView {
    pub hsm: Option<HardwareIdentityConfigurationView>,
}

impl View for IdentityConfiguration {
    type V = IdentityConfigurationView;

    open spec fn view(&self) -> IdentityConfigurationView {
        IdentityConfigurationView {
            hsm: match self.hsm {
                Some(hsm) => Some(hsm@),
                None => None,
            },
        }
    }
}

impl Default for IdentityConfiguration {
    /// The configuration of a software identity: it delegates to no module.
    fn default() -> (configuration: IdentityConfiguration)
        ensures
            configuration@ == (IdentityConfigurationView { hsm: None }),
    {
        IdentityConfiguration { hsm: None }
    }
}

} // verus!
