//! One identity and its key: a software key, held as the PKCS#8 document that
//! was loaded from the identity's key file, or a key that a hardware module
//! holds and that is known by its locator alone.

use vstd::prelude::*;
use crate::configuration::{
    HardwareIdentityConfiguration,
    HardwareIdentityConfigurationView,
    IdentityConfiguration,
    IdentityConfigurationView,
};
use crate::error::{IdentityError, IdentityErrorView};
use crate::identity_manager::{get_dfx_hsm_pin, IdentityFiles, IdentityManager, MISSING_HSM_PIN};
use crate::keys::{
    ed25519_public_key,
    ed25519_signature,
    pem_parse,
    pem_parsed,
    pkcs8_accepted,
    public_key_of,
    sign_with,
    PUBLIC_KEY_LENGTH,
    SIGNATURE_LENGTH,
};
use crate::layout::dir_path;

verus! {

/// What was read from disk for an identity.
#[derive(Debug, PartialEq, Eq)]
pub enum KeyMaterial {
    /// The contents of the identity's key file.
    Pem(Vec<u8>),
    /// The identity's own configuration.
    Configuration(IdentityConfiguration),
}

pub enum KeyMaterialView {
    Pem(Seq<u8>),
    Configuration(IdentityConfigurationView),
}

impl View for KeyMaterial {
    type V = KeyMaterialView;

    open spec fn view(&self) -> KeyMaterialView {
        match self {
            KeyMaterial::Pem(contents) => KeyMaterialView::Pem(contents@),
            KeyMaterial::Configuration(configuration) => KeyMaterialView::Configuration(
                configuration@,
            ),
        }
    }
}

/// The key of an identity, in one of its two forms. It is never printed: a
/// software key's document holds the private key.
pub enum IdentityKey {
    /// The PKCS#8 document of the identity's key file, and the public key of
    /// the key pair that it holds.
    Software { document: Vec<u8>, public_key: Vec<u8> },
    /// A key that never leaves a hardware module.
    Hardware(HardwareIdentityConfiguration),
}

pub enum IdentityKeyView {
    /// The PKCS#8 document that holds the key pair.
    Software { document: Seq<u8> },
    Hardware(HardwareIdentityConfigurationView),
}

impl View for IdentityKey {
    type V = IdentityKeyView;

    open spec fn view(&self) -> IdentityKeyView {
        match self {
            IdentityKey::Software { document, public_key } => IdentityKeyView::Software {
                document: document@,
            },
            IdentityKey::Hardware(hsm) => IdentityKeyView::Hardware(hsm@),
        }
    }
}

/// A signature together with the public key under which it verifies.
#[derive(Clone, Debug, PartialEq, Eq)]
pub struct Signature {
    pub public_key: Vec<u8>,
    pub signature: Vec<u8>,
}

/// A request to a hardware module to sign a message.
#[derive(Clone, Debug, PartialEq, Eq)]
pub struct HardwareSigningRequest {
    pub pkcs11_lib_path: String,
    pub key_id: String,
    pub pin: String,
    pub message: Vec<u8>,
}

pub struct HardwareSigningRequestView {
    pub pkcs11_lib_path: Seq<char>,
    pub key_id: Seq<char>,
    pub pin: Seq<char>,
    pub message: Seq<u8>,
}

impl View for HardwareSigningRequest {
    type V = HardwareSigningRequestView;

    open spec fn view(&self) -> HardwareSigningRequestView {
        HardwareSigningRequestView {
            pkcs11_lib_path: self.pkcs11_lib_path@,
            key_id: self.key_id@,
            pin: self.pin@,
            message: self.message@,
        }
    }
}

/// What signing with an identity comes to.
#[derive(Debug, PartialEq, Eq)]
pub enum Signing {
    /// The signature, made with the identity's software key.
    Signed(Signature),
    /// The request that the identity's hardware module has to serve.
    Delegated(HardwareSigningRequest),
}

/// A named credential and its key.
///
/// The document of a software identity is one that `ring` accepts, and the
/// public key that is kept beside it is that of the document.
pub struct Identity {
    name: String,
    dir: String,
    key: IdentityKey,
}

pub struct IdentityView {
    pub name: Seq<char>,
    /// The directory that the identity alone owns.
    pub dir: Seq<char>,
    pub key: IdentityKeyView,
}

impl View for Identity {
    type V = IdentityView;

    closed spec fn view(&self) -> IdentityView {
        IdentityView { name: self.name@, dir: self.dir@, key: self.key@ }
    }
}

/// The software identity that a PKCS#8 document makes: one that holds the
/// document, where `ring` accepts it as an Ed25519 key.
pub open spec fn keyed(
    root: Seq<char>,
    name: Seq<char>,
    document: Seq<u8>,
) -> Result<IdentityView, IdentityErrorView> {
    if pkcs8_accepted(document) {
        Ok(
            IdentityView {
                name,
                dir: dir_path(root, name),
                key: IdentityKeyView::Software { document },
            },
        )
    } else {
        Err(IdentityErrorView::KeyRejected(name))
    }
}

/// The software identity that a key file makes: it must hold a PEM block, and
/// the block an Ed25519 key in PKCS#8 v2. The identity holds the document of
/// the block.
pub open spec fn software(
    root: Seq<char>,
    name: Seq<char>,
    contents: Seq<u8>,
) -> Result<IdentityView, IdentityErrorView> {
    match pem_parsed(contents) {
        Some((_, document)) => keyed(root, name, document),
        None => Err(IdentityErrorView::CorruptKeyFile(name)),
    }
}

/// The hardware identity that a configuration makes: it must name the
/// module.
pub open spec fn hardware(
    root: Seq<char>,
    name: Seq<char>,
    configuration: IdentityConfigurationView,
) -> Result<IdentityView, IdentityErrorView> {
    match configuration.hsm {
        Some(hsm) => Ok(
            IdentityView { name, dir: dir_path(root, name), key: IdentityKeyView::Hardware(hsm) },
        ),
        None => Err(IdentityErrorView::NoHardwareConfiguration(name)),
    }
}

/// The identity that key material stands for, under the registry's root.
///
/// The files decide the form: where the identity has a configuration of its
/// own, it is a hardware identity and the material must be that
/// configuration; where it has none, it is a software identity and the
/// material must be its key file. Material of the other form is refused.
pub open spec fn loading(
    root: Seq<char>,
    name: Seq<char>,
    files: IdentityFiles,
    material: KeyMaterialView,
) -> Result<IdentityView, IdentityErrorView> {
    match material {
        KeyMaterialView::Configuration(configuration) => if files.json {
            hardware(root, name, configuration)
        } else {
            Err(IdentityErrorView::UnexpectedKeyMaterial(name))
        },
        KeyMaterialView::Pem(contents) => if files.json {
            Err(IdentityErrorView::UnexpectedKeyMaterial(name))
        } else {
            software(root, name, contents)
        },
    }
}

/// Whether `identity` is the result `expected`, seen through its view.
pub open spec fn stands_for(
    identity: Result<Identity, IdentityError>,
    expected: Result<IdentityView, IdentityErrorView>,
) -> bool {
    match identity {
        Ok(loaded) => expected == Ok::<IdentityView, IdentityErrorView>(loaded@),
        Err(error) => expected == Err::<IdentityView, IdentityErrorView>(error@),
    }
}

/// What signing a message with a key comes to, given the PIN at hand: the
/// signature and the public key of a software key's document; for a hardware
/// key the request to its module, which needs the PIN.
pub open spec fn signed(
    signing: Result<Signing, IdentityError>,
    key: IdentityKeyView,
    message: Seq<u8>,
    pin: Option<String>,
) -> bool {
    match key {
        IdentityKeyView::Software { document } => {
            &&& signing matches Ok(Signing::Signed(made))
            &&& made.signature@ == ed25519_signature(document, message)
            &&& made.public_key@ == ed25519_public_key(document)
            &&& made.signature@.len() == SIGNATURE_LENGTH
            &&& made.public_key@.len() == PUBLIC_KEY_LENGTH
        },
        IdentityKeyView::Hardware(hsm) => match pin {
            Some(given) => {
                &&& signing matches Ok(Signing::Delegated(request))
                &&& request@ == (HardwareSigningRequestView {
                    pkcs11_lib_path: hsm.pkcs11_lib_path,
                    key_id: hsm.key_id,
                    pin: given@,
                    message,
                })
            },
            None => {
                &&& signing matches Err(error)
                &&& error@ == IdentityErrorView::MissingHsmPin(MISSING_HSM_PIN@)
            },
        },
    }
}

impl Identity {
    #[verifier::type_invariant]
    spec fn well_formed(self) -> bool {
        match self.key {
            IdentityKey::Software { document, public_key } => {
                &&& pkcs8_accepted(document@)
                &&& public_key@ == ed25519_public_key(document@)
                &&& public_key@.len() == PUBLIC_KEY_LENGTH
            },
            IdentityKey::Hardware(_) => true,
        }
    }

    /// Loads an identity of the manager's registry from what was read for
    /// it, given which of its files exist.
    pub fn load(
        manager: &IdentityManager,
        name: &str,
        files: IdentityFiles,
        material: KeyMaterial,
    ) -> (identity: Result<Identity, IdentityError>)
        ensures
            stands_for(identity, loading(manager@.identity_root_path, name@, files, material@)),
    {
        match material {
            KeyMaterial::Configuration(configuration) => {
                if files.json {
                    Identity::from_configuration(manager, name, configuration)
                } else {
                    Err(IdentityError::UnexpectedKeyMaterial(name.to_owned()))
                }
            },
            KeyMaterial::Pem(contents) => {
                if files.json {
                    Err(IdentityError::UnexpectedKeyMaterial(name.to_owned()))
                } else {
                    Identity::from_key_file(manager, name, contents.as_slice())
                }
            },
        }
    }

    /// The hardware identity that a configuration stands for. A
    /// configuration that names no module stands for none.
    pub fn from_configuration(
        manager: &IdentityManager,
        name: &str,
        configuration: IdentityConfiguration,
    ) -> (identity: Result<Identity, IdentityError>)
        ensures
            stands_for(identity, hardware(manager@.identity_root_path, name@, configuration@)),
    {
        match configuration.hsm {
            Some(hsm) => Ok(
                Identity {
                    name: name.to_owned(),
                    dir: manager.get_identity_dir_path(name),
                    key: IdentityKey::Hardware(hsm),
                },
            ),
            None => Err(IdentityError::NoHardwareConfiguration(name.to_owned())),
        }
    }

    /// The software identity that the contents of a key file stand for.
    pub fn from_key_file(
        manager: &IdentityManager,
        name: &str,
        contents: &[u8],
    ) -> (identity: Result<Identity, IdentityError>)
        ensures
            stands_for(identity, software(manager@.identity_root_path, name@, contents@)),
    {
        let block = pem_parse(contents);
        Identity::from_pem_block(manager, name, block)
    }

    /// The software identity that the PEM block of a key file stands for,
    /// given what parsing the file came to: a file without a block is
    /// corrupt, and a block must hold an Ed25519 key in PKCS#8 v2.
    pub fn from_pem_block(
        manager: &IdentityManager,
        name: &str,
        block: Result<(String, Vec<u8>), pem::PemError>,
    ) -> (identity: Result<Identity, IdentityError>)
        ensures
            stands_for(
                identity,
                match block {
                    Ok((_, document)) => keyed(manager@.identity_root_path, name@, document@),
                    Err(_) => Err(IdentityErrorView::CorruptKeyFile(name@)),
                },
            ),
    {
        match block {
            Ok((_, document)) => {
                let public_key = public_key_of(document.as_slice());
                Identity::from_document(manager, name, document, public_key)
            },
            Err(_) => Err(IdentityError::CorruptKeyFile(name.to_owned())),
        }
    }

    /// The software identity that holds a PKCS#8 document, given what `ring`
    /// made of the document: its public key, or its rejection, which makes
    /// no identity.
    pub fn from_document(
        manager: &IdentityManager,
        name: &str,
        document: Vec<u8>,
        public_key: Result<Vec<u8>, ring::error::KeyRejected>,
    ) -> (identity: Result<Identity, IdentityError>)
        requires
            public_key is Ok <==> pkcs8_accepted(document@),
            public_key matches Ok(bytes) ==> (bytes@ == ed25519_public_key(document@)
                && bytes@.len() == PUBLIC_KEY_LENGTH),
        ensures
            stands_for(identity, keyed(manager@.identity_root_path, name@, document@)),
    {
        match public_key {
            Ok(public_key) => Ok(
                Identity {
                    name: name.to_owned(),
                    dir: manager.get_identity_dir_path(name),
                    key: IdentityKey::Software { document, public_key },
                },
            ),
            Err(_) => Err(IdentityError::KeyRejected(name.to_owned())),
        }
    }

    /// The identity's name.
    pub fn name(&self) -> (name: &String)
        ensures
            name@ == self@.name,
    {
        &self.name
    }

    /// The directory that the identity alone owns.
    pub fn dir(&self) -> (dir: &String)
        ensures
            dir@ == self@.dir,
    {
        &self.dir
    }

    /// Whether a hardware module holds the identity's key. Only then is a
    /// PIN needed for signing.
    pub fn is_hardware(&self) -> (hardware: bool)
        ensures
            hardware == (self@.key is Hardware),
    {
        match &self.key {
            IdentityKey::Software { .. } => false,
            IdentityKey::Hardware(_) => true,
        }
    }

    /// The public key of a software identity: that of the key pair in its
    /// document. A hardware identity's public key is known to its module
    /// alone.
    pub fn public_key(&self) -> (key: Option<Vec<u8>>)
        ensures
            match self@.key {
                IdentityKeyView::Software { document } => key matches Some(bytes) && bytes@
                    == ed25519_public_key(document) && bytes@.len() == PUBLIC_KEY_LENGTH,
                IdentityKeyView::Hardware(_) => key is None,
            },
    {
        proof {
            use_type_invariant(self);
        }
        match &self.key {
            IdentityKey::Software { document, public_key } => Some(public_key.clone()),
            IdentityKey::Hardware(_) => None,
        }
    }

    /// Signs a message. A software identity signs with the key pair of its
    /// document and needs no PIN. A hardware identity hands the message on
    /// to its module, together with the PIN, and fails where no PIN was
    /// given.
    pub fn sign(
        &self,
        message: &[u8],
        pin: Option<String>,
    ) -> (signing: Result<Signing, IdentityError>)
        ensures
            signed(signing, self@.key, message@, pin),
    {
        proof {
            use_type_invariant(self);
        }
        match &self.key {
            IdentityKey::Software { document, public_key } => {
                match sign_with(document.as_slice(), message) {
                    Ok(signature) => Ok(
                        Signing::Signed(Signature { public_key: public_key.clone(), signature }),
                    ),
                    Err(_) => vstd::pervasive::unreached(),
                }
            },
            IdentityKey::Hardware(hsm) => match get_dfx_hsm_pin(pin) {
                Ok(pin) => Ok(
                    Signing::Delegated(
                        HardwareSigningRequest {
                            pkcs11_lib_path: hsm.pkcs11_lib_path.clone(),
                            key_id: hsm.key_id.clone(),
                            pin,
                            message: vstd::slice::slice_to_vec(message),
                        },
                    ),
                ),
                Err(reason) => Err(IdentityError::MissingHsmPin(reason)),
            },
        }
    }
}

} // verus!
