//! The package metadata read from a manifest: a plain model of JSON values and
//! the extraction of the program's build settings from the vendor section.

use vstd::prelude::*;

verus! {

/// A JSON value, holding what the build logic reads of it.
pub enum JsonValue {
    Null,
    Bool(bool),
    /// A number: its value where it is a non-negative integer that fits in 64
    /// bits, `None` for every other number.
    Number(Option<u64>),
    String(String),
    Array(Vec<JsonValue>),
    /// The members of an object, in order, with distinct keys.
    Object(Vec<(String, JsonValue)>),
}

/// The value stored under `key` in the members of an object: the first member
/// with that key.
pub open spec fn object_lookup(members: Seq<(String, JsonValue)>, key: Seq<char>) -> Option<JsonValue>
    decreases members.len(),
{
    if members.len() == 0 {
        None
    } else if members[0].0@ == key {
        Some(members[0].1)
    } else {
        object_lookup(members.drop_first(), key)
    }
}

/// Finds the member of an object stored under `key`.
pub fn object_get<'a>(members: &'a Vec<(String, JsonValue)>, key: &String) -> (r: Option<&'a JsonValue>)
    ensures
        match r {
            Some(v) => object_lookup(members@, key@) == Some(*v),
            None => object_lookup(members@, key@) is None,
        },
{
    let mut i: usize = 0;
    assert(members@.skip(0) =~= members@);
    while i < members.len()
        invariant
            0 <= i <= members@.len(),
            object_lookup(members@, key@) == object_lookup(members@.skip(i as int), key@),
        decreases members@.len() - i,
    {
        assert(members@.skip(i as int).drop_first() =~= members@.skip(i as int + 1));
        if members[i].0 == *key {
            return Some(&members[i].1);
        }
        i = i + 1;
    }
    None
}

/// The build settings that a program declares in the `entropy-program`
/// section of its package metadata. An absent setting is `None`.
pub struct EntropyProgramMetadata {
    /// The image that the build runs in, where the default is overridden.
    pub docker_image: Option<String>,
    pub configuration_schema: Option<String>,
    pub auxiliary_data_schema: Option<String>,
    pub oracle_data_pointer: Option<String>,
    pub version_number: Option<u8>,
}

/// The view of an optional string.
pub open spec fn opt_view(o: Option<String>) -> Option<Seq<char>> {
    match o {
        Some(s) => Some(s@),
        None => None,
    }
}

/// The members of the `entropy-program` section of package metadata, where the
/// metadata is an object that holds such a section as an object.
pub open spec fn program_section(metadata: JsonValue) -> Option<Seq<(String, JsonValue)>> {
    match metadata {
        JsonValue::Object(m) => match object_lookup(m@, "entropy-program"@) {
            Some(JsonValue::Object(p)) => Some(p@),
            _ => None,
        },
        _ => None,
    }
}

/// The text stored under `key` in the members of an object, where it is a string.
pub open spec fn text_member(members: Seq<(String, JsonValue)>, key: Seq<char>) -> Option<Seq<char>> {
    match object_lookup(members, key) {
        Some(JsonValue::String(s)) => Some(s@),
        _ => None,
    }
}

/// The byte stored under `key` in the members of an object, where it is a
/// non-negative integer of at most 255.
pub open spec fn byte_member(members: Seq<(String, JsonValue)>, key: Seq<char>) -> Option<u8> {
    match object_lookup(members, key) {
        Some(JsonValue::Number(Some(n))) => if n <= 255 {
            Some(n as u8)
        } else {
            None
        },
        _ => None,
    }
}

/// A text setting of the `entropy-program` section.
pub open spec fn text_setting(metadata: JsonValue, key: Seq<char>) -> Option<Seq<char>> {
    match program_section(metadata) {
        Some(p) => text_member(p, key),
        None => None,
    }
}

/// The version setting of the `entropy-program` section.
pub open spec fn version_setting(metadata: JsonValue) -> Option<u8> {
    match program_section(metadata) {
        Some(p) => byte_member(p, "version-number"@),
        None => None,
    }
}

/// Whether `m` holds exactly the build settings that `metadata` declares.
pub open spec fn settings_of(m: EntropyProgramMetadata, metadata: JsonValue) -> bool {
    &&& opt_view(m.docker_image) == text_setting(metadata, "docker-image"@)
    &&& opt_view(m.configuration_schema) == text_setting(metadata, "configuration-schema"@)
    &&& opt_view(m.auxiliary_data_schema) == text_setting(metadata, "auxiliary-data-schema"@)
    &&& opt_view(m.oracle_data_pointer) == text_setting(metadata, "oracle-data-pointer"@)
    &&& m.version_number == version_setting(metadata)
}

/// Reads the string stored under `key` in the members of an object.
fn get_text(members: &Vec<(String, JsonValue)>, key: &str) -> (r: Option<String>)
    ensures
        opt_view(r) == text_member(members@, key@),
{
    let key = String::from_str(key);
    match object_get(members, &key) {
        Some(JsonValue::String(s)) => Some(s.clone()),
        _ => None,
    }
}

/// Reads the byte stored under `key` in the members of an object.
fn get_byte(members: &Vec<(String, JsonValue)>, key: &str) -> (r: Option<u8>)
    ensures
        r == byte_member(members@, key@),
{
    let key = String::from_str(key);
    match object_get(members, &key) {
        Some(JsonValue::Number(Some(n))) => if *n <= 255 {
            Some(*n as u8)
        } else {
            None
        },
        _ => None,
    }
}

/// Reads the build settings from a package's metadata. A setting that is
/// absent, or of another JSON type than expected, is left unset; this never
/// fails.
pub fn extract_metadata(metadata: &JsonValue) -> (r: EntropyProgramMetadata)
    ensures
        settings_of(r, *metadata),
{
    let mut settings = EntropyProgramMetadata {
        docker_image: None,
        configuration_schema: None,
        auxiliary_data_schema: None,
        oracle_data_pointer: None,
        version_number: None,
    };
    if let JsonValue::Object(m) = metadata {
        let section_key = String::from_str("entropy-program");
        if let Some(JsonValue::Object(p)) = object_get(m, &section_key) {
            settings.docker_image = get_text(p, "docker-image");
            settings.configuration_schema = get_text(p, "configuration-schema");
            settings.auxiliary_data_schema = get_text(p, "auxiliary-data-schema");
            settings.oracle_data_pointer = get_text(p, "oracle-data-pointer");
            settings.version_number = get_byte(p, "version-number");
        }
    }
    settings
}

} // verus!
