use program_metadata_http_service::hashing::{program_hash, HASH_LEN};
use program_metadata_http_service::metadata::{extract_metadata, EntropyProgramMetadata, JsonValue};

fn text(s: &str) -> JsonValue {
    JsonValue::String(s.to_string())
}

fn object(members: Vec<(&str, JsonValue)>) -> JsonValue {
    JsonValue::Object(members.into_iter().map(|(k, v)| (k.to_string(), v)).collect())
}

fn package_metadata(section: Vec<(&str, JsonValue)>) -> JsonValue {
    object(vec![("entropy-program", object(section))])
}

fn no_settings() -> EntropyProgramMetadata {
    EntropyProgramMetadata {
        docker_image: None,
        configuration_schema: None,
        auxiliary_data_schema: None,
        oracle_data_pointer: None,
        version_number: None,
    }
}

#[test]
fn extracts_every_setting() {
    let m = extract_metadata(&package_metadata(vec![
        ("docker-image", text("peg997/build-entropy-programs:version0.1")),
        ("configuration-schema", text("cfg")),
        ("auxiliary-data-schema", text("aux")),
        ("oracle-data-pointer", text("oracle")),
        ("version-number", JsonValue::Number(Some(3))),
    ]));
    assert_eq!(m.docker_image.as_deref(), Some("peg997/build-entropy-programs:version0.1"));
    assert_eq!(m.configuration_schema.as_deref(), Some("cfg"));
    assert_eq!(m.auxiliary_data_schema.as_deref(), Some("aux"));
    assert_eq!(m.oracle_data_pointer.as_deref(), Some("oracle"));
    assert_eq!(m.version_number, Some(3));
}

#[test]
fn absent_section_gives_no_settings() {
    let m = extract_metadata(&JsonValue::Null);
    assert!(m.docker_image.is_none() && m.configuration_schema.is_none() && m.version_number.is_none());
    let m = extract_metadata(&object(vec![("other-tool", object(vec![("docker-image", text("x"))]))]));
    assert!(m.docker_image.is_none());
    let m = extract_metadata(&object(vec![("entropy-program", text("not an object"))]));
    assert!(m.docker_image.is_none());
}

#[test]
fn wrongly_typed_settings_are_left_unset() {
    let m = extract_metadata(&package_metadata(vec![
        ("docker-image", JsonValue::Number(Some(1))),
        ("configuration-schema", JsonValue::Bool(true)),
        ("version-number", text("3")),
    ]));
    assert!(m.docker_image.is_none());
    assert!(m.configuration_schema.is_none());
    assert!(m.version_number.is_none());
}

#[test]
fn version_number_must_fit_in_a_byte() {
    let m = extract_metadata(&package_metadata(vec![("version-number", JsonValue::Number(Some(255)))]));
    assert_eq!(m.version_number, Some(255));
    let m = extract_metadata(&package_metadata(vec![("version-number", JsonValue::Number(Some(256)))]));
    assert_eq!(m.version_number, None);
    let m = extract_metadata(&package_metadata(vec![("version-number", JsonValue::Number(None))]));
    assert_eq!(m.version_number, None);
}

#[test]
fn settings_encoding_is_length_prefixed() {
    let mut m = no_settings();
    m.configuration_schema = Some("ab".to_string());
    m.version_number = Some(7);
    m.docker_image = Some("ignored".to_string());
    let mut expected = vec![2, 0, 0, 0, 0, 0, 0, 0, b'a', b'b'];
    expected.extend_from_slice(&[0; 8]);
    expected.extend_from_slice(&[0; 8]);
    expected.push(7);
    assert_eq!(m.to_bytes(), expected);
    assert_eq!(no_settings().to_bytes(), {
        let mut v = vec![0u8; 24];
        v.push(0);
        v
    });
}

#[test]
fn hash_is_blake2_256_of_the_canonical_input() {
    let binary = b"\0asm-binary".to_vec();
    let m = no_settings();
    let mut input = (binary.len() as u64).to_le_bytes().to_vec();
    input.extend_from_slice(&binary);
    input.extend_from_slice(&m.to_bytes());
    let h = program_hash(&binary, &m);
    assert_eq!(h.len(), HASH_LEN);
    assert_eq!(h, sp_crypto_hashing::blake2_256(&input));
}

#[test]
fn identical_inputs_hash_identically() {
    let binary = vec![1u8, 2, 3, 4];
    let mut a = no_settings();
    a.oracle_data_pointer = Some("ptr".to_string());
    let mut b = no_settings();
    b.oracle_data_pointer = Some("ptr".to_string());
    b.docker_image = Some("another-image".to_string());
    assert_eq!(program_hash(&binary, &a), program_hash(&binary, &a));
    assert_eq!(program_hash(&binary, &a), program_hash(&binary, &b));
}

#[test]
fn absent_and_empty_settings_hash_alike() {
    let binary = vec![9u8; 10];
    let mut a = no_settings();
    a.configuration_schema = Some(String::new());
    a.version_number = Some(0);
    assert_eq!(program_hash(&binary, &a), program_hash(&binary, &no_settings()));
}

#[test]
fn different_settings_hash_differently() {
    let binary = vec![5u8; 16];
    let mut a = no_settings();
    a.configuration_schema = Some("ab".to_string());
    let mut b = no_settings();
    b.configuration_schema = Some("a".to_string());
    b.auxiliary_data_schema = Some("b".to_string());
    let mut c = no_settings();
    c.version_number = Some(1);
    assert_ne!(program_hash(&binary, &a), program_hash(&binary, &b));
    assert_ne!(program_hash(&binary, &no_settings()), program_hash(&binary, &c));
    assert_ne!(program_hash(&binary, &a), program_hash(&[5u8; 15], &a));
}
