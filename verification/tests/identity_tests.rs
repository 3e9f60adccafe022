use dfx::configuration::{Configuration, HardwareIdentityConfiguration, IdentityConfiguration};
use dfx::error::IdentityError;
use dfx::identity::{HardwareSigningRequest, Identity, KeyMaterial, Signing};
use dfx::identity_manager::{IdentityCreationParameters, IdentityFiles, IdentityManager};
use dfx::key_file::generate_key;
use dfx::key_file::encode_pem_private_key;
use dfx::plan::FsAction;

fn manager() -> IdentityManager {
    IdentityManager::new(
        "/cfg",
        Configuration::new(None),
        None,
        IdentityFiles { pem: false, json: false },
    )
    .unwrap()
}

fn generated_key_file() -> Vec<u8> {
    let plan = generate_key("/cfg/identity/alice/identity.pem");
    assert_eq!(plan.outcome, Ok(()));
    match &plan.actions[0] {
        FsAction::WriteKeyFile { contents, .. } => contents.clone().into_bytes(),
        other => panic!("unexpected action {:?}", other),
    }
}

fn hsm() -> HardwareIdentityConfiguration {
    HardwareIdentityConfiguration {
        pkcs11_lib_path: "/usr/lib/opensc-pkcs11.so".to_string(),
        key_id: "0a0b".to_string(),
    }
}

const PEM: IdentityFiles = IdentityFiles { pem: true, json: false };
const JSON: IdentityFiles = IdentityFiles { pem: false, json: true };
const NONE: IdentityFiles = IdentityFiles { pem: false, json: false };

#[test]
fn generated_key_signs_and_verifies_under_its_own_public_key() {
    let manager = manager();
    let identity =
        Identity::load(&manager, "alice", PEM, KeyMaterial::Pem(generated_key_file())).unwrap();
    assert_eq!(identity.name(), "alice");
    assert_eq!(identity.dir(), "/cfg/identity/alice");
    assert!(!identity.is_hardware());
    let message = b"a request to sign";
    let signed = match identity.sign(message, None).unwrap() {
        Signing::Signed(signed) => signed,
        other => panic!("unexpected signing {:?}", other),
    };
    assert_eq!(signed.signature.len(), 64);
    assert_eq!(signed.public_key.len(), 32);
    assert_eq!(identity.public_key(), Some(signed.public_key.clone()));
    let key = ring::signature::UnparsedPublicKey::new(&ring::signature::ED25519, &signed.public_key);
    assert!(key.verify(message, &signed.signature).is_ok());
    assert!(key.verify(b"another request", &signed.signature).is_err());
}

#[test]
fn generated_keys_differ() {
    assert_ne!(generated_key_file(), generated_key_file());
}

#[test]
fn generated_document_loads_again_from_its_pem_form() {
    let rng = ring::rand::SystemRandom::new();
    let document = ring::signature::Ed25519KeyPair::generate_pkcs8(&rng).unwrap();
    let text = encode_pem_private_key(document.as_ref());
    let parsed = pem::parse(text.as_bytes()).unwrap();
    assert_eq!(parsed.tag, "PRIVATE KEY");
    assert_eq!(parsed.contents, document.as_ref());
    let manager = manager();
    let identity = Identity::load(&manager, "bob", PEM, KeyMaterial::Pem(text.into_bytes())).unwrap();
    let expected = ring::signature::Ed25519KeyPair::from_pkcs8(document.as_ref()).unwrap();
    assert_eq!(
        identity.public_key().unwrap(),
        ring::signature::KeyPair::public_key(&expected).as_ref()
    );
    match identity.sign(b"m", None).unwrap() {
        Signing::Signed(signed) => assert_eq!(signed.signature, expected.sign(b"m").as_ref()),
        other => panic!("unexpected signing {:?}", other),
    }
}

#[test]
fn software_identity_ignores_a_pin() {
    let manager = manager();
    let identity =
        Identity::load(&manager, "alice", PEM, KeyMaterial::Pem(generated_key_file())).unwrap();
    assert!(matches!(identity.sign(b"m", Some("1234".to_string())), Ok(Signing::Signed(_))));
}

#[test]
fn key_file_without_a_pem_block_is_corrupt() {
    let manager = manager();
    let truncated = b"SECRET-REDACTED".to_vec();
    assert_eq!(
        Identity::load(&manager, "alice", PEM, KeyMaterial::Pem(truncated)).err().unwrap(),
        IdentityError::CorruptKeyFile("alice".to_string())
    );
    assert_eq!(
        Identity::load(&manager, "alice", PEM, KeyMaterial::Pem(Vec::new())).err().unwrap(),
        IdentityError::CorruptKeyFile("alice".to_string())
    );
    assert_eq!(
        Identity::from_pem_block(&manager, "alice", Err(pem::PemError::MalformedFraming))
            .err().unwrap(),
        IdentityError::CorruptKeyFile("alice".to_string())
    );
}

#[test]
fn pem_block_without_a_key_is_rejected() {
    let manager = manager();
    let text = encode_pem_private_key(&[1, 2, 3]);
    assert_eq!(
        Identity::load(&manager, "alice", PEM, KeyMaterial::Pem(text.into_bytes())).err().unwrap(),
        IdentityError::KeyRejected("alice".to_string())
    );
    assert_eq!(
        Identity::from_pem_block(&manager, "alice", Ok(("PRIVATE KEY".to_string(), vec![0u8; 4])))
            .err().unwrap(),
        IdentityError::KeyRejected("alice".to_string())
    );
}

#[test]
fn configuration_with_a_module_makes_a_hardware_identity() {
    let manager = manager();
    let identity = Identity::load(
        &manager,
        "card",
        JSON,
        KeyMaterial::Configuration(IdentityConfiguration { hsm: Some(hsm()) }),
    )
    .unwrap();
    assert!(identity.is_hardware());
    assert_eq!(identity.name(), "card");
    assert_eq!(identity.dir(), "/cfg/identity/card");
    assert_eq!(identity.public_key(), None);
}

#[test]
fn configuration_without_a_module_makes_no_identity() {
    let manager = manager();
    assert_eq!(
        Identity::load(
            &manager,
            "card",
            JSON,
            KeyMaterial::Configuration(IdentityConfiguration { hsm: None })
        )
        .err().unwrap(),
        IdentityError::NoHardwareConfiguration("card".to_string())
    );
}

#[test]
fn hardware_identity_delegates_with_the_pin() {
    let manager = manager();
    let identity =
        Identity::from_configuration(&manager, "card", IdentityConfiguration { hsm: Some(hsm()) })
            .unwrap();
    assert_eq!(
        identity.sign(b"msg", Some("1234".to_string())),
        Ok(Signing::Delegated(HardwareSigningRequest {
            pkcs11_lib_path: "/usr/lib/opensc-pkcs11.so".to_string(),
            key_id: "0a0b".to_string(),
            pin: "1234".to_string(),
            message: b"msg".to_vec(),
        }))
    );
}

#[test]
fn hardware_identity_without_a_pin_reports_the_missing_pin() {
    let manager = manager();
    let identity =
        Identity::from_configuration(&manager, "card", IdentityConfiguration { hsm: Some(hsm()) })
            .unwrap();
    assert_eq!(
        identity.sign(b"msg", None),
        Err(IdentityError::MissingHsmPin(
            "There is no DFX_HSM_PIN environment variable.".to_string()
        ))
    );
}

#[test]
fn instantiate_refuses_an_identity_that_does_not_exist() {
    let manager = manager();
    let refused = manager.instantiate_identity_from_name(
        "ghost",
        NONE,
        KeyMaterial::Pem(generated_key_file()),
    );
    assert_eq!(
        refused.err().unwrap(),
        IdentityError::IdentityDoesNotExist(
            "ghost".to_string(),
            "/cfg/identity/ghost/identity.pem".to_string()
        )
    );
}

#[test]
fn instantiate_loads_the_named_and_the_selected_identity() {
    let manager = IdentityManager::new(
        "/cfg",
        Configuration::new(Some("alice".to_string())),
        Some("card".to_string()),
        JSON,
    )
    .unwrap();
    let named = manager
        .instantiate_identity_from_name("alice", PEM, KeyMaterial::Pem(generated_key_file()))
        .unwrap();
    assert_eq!(named.name(), "alice");
    assert!(!named.is_hardware());
    let selected = manager
        .instantiate_selected_identity(
            JSON,
            KeyMaterial::Configuration(IdentityConfiguration { hsm: Some(hsm()) }),
        )
        .unwrap();
    assert_eq!(selected.name(), "card");
    assert!(selected.is_hardware());
}

#[test]
fn key_material_of_the_other_form_is_refused() {
    let manager = manager();
    let configuration = || KeyMaterial::Configuration(IdentityConfiguration { hsm: Some(hsm()) });
    assert_eq!(
        Identity::load(&manager, "alice", PEM, configuration()).err().unwrap(),
        IdentityError::UnexpectedKeyMaterial("alice".to_string())
    );
    for files in [JSON, IdentityFiles { pem: true, json: true }] {
        assert_eq!(
            Identity::load(&manager, "card", files, KeyMaterial::Pem(generated_key_file()))
                .err()
                .unwrap(),
            IdentityError::UnexpectedKeyMaterial("card".to_string())
        );
        assert!(Identity::load(&manager, "card", files, configuration()).unwrap().is_hardware());
    }
    assert_eq!(
        manager.instantiate_identity_from_name("alice", PEM, configuration()).err().unwrap(),
        IdentityError::UnexpectedKeyMaterial("alice".to_string())
    );
}

#[test]
fn created_identity_loads_with_the_key_that_was_written_for_it() {
    let manager = manager();
    let plan = manager.create_new_identity("carol", IdentityCreationParameters::Pem());
    assert_eq!(plan.outcome, Ok(()));
    let written = match &plan.actions[1] {
        FsAction::WriteKeyFile { path, contents } => {
            assert_eq!(path, "/cfg/identity/carol/identity.pem");
            contents.clone().into_bytes()
        }
        other => panic!("unexpected action {:?}", other),
    };
    let document = pem::parse(&written).unwrap().contents;
    let pair = ring::signature::Ed25519KeyPair::from_pkcs8(&document).unwrap();
    let identity = manager
        .instantiate_identity_from_name("carol", PEM, KeyMaterial::Pem(written))
        .unwrap();
    let key = ring::signature::KeyPair::public_key(&pair).as_ref().to_vec();
    assert_eq!(identity.public_key(), Some(key.clone()));
    for message in [&b""[..], &b"m"[..], &[0u8; 300][..]] {
        match identity.sign(message, None).unwrap() {
            Signing::Signed(signed) => {
                assert_eq!(signed.public_key, key);
                assert_eq!(signed.signature, pair.sign(message).as_ref());
                let verifier =
                    ring::signature::UnparsedPublicKey::new(&ring::signature::ED25519, &key);
                assert!(verifier.verify(message, &signed.signature).is_ok());
            }
            other => panic!("unexpected signing {:?}", other),
        }
    }
}

#[test]
fn two_identities_sign_with_their_own_keys() {
    let manager = manager();
    let one = Identity::load(&manager, "one", PEM, KeyMaterial::Pem(generated_key_file())).unwrap();
    let two = Identity::load(&manager, "two", PEM, KeyMaterial::Pem(generated_key_file())).unwrap();
    assert_ne!(one.public_key(), two.public_key());
    assert_ne!(one.sign(b"m", None), two.sign(b"m", None));
    assert_eq!(one.sign(b"m", None), one.sign(b"m", None));
}
