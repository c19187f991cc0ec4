//! What the service answers about the stored programs: the list of their
//! hashes, the record of one of them, and the front page.

use crate::metadata::opt_view;
use crate::output::decode_text;
use vstd::prelude::*;
use vstd::string::*;
use vstd::utf8::{decode_utf8, valid_utf8};

verus! {

#[verifier::external_type_specification]
#[verifier::external_body]
pub struct ExJsonError(serde_json::Error);

#[verifier::external_type_specification]
#[verifier::external_body]
pub struct ExSledError(sled::Error);

#[verifier::external_type_specification]
#[verifier::external_body]
pub struct ExFromHexError(hex::FromHexError);

/// Why a request to the service failed.
pub enum AppError {
    Json(serde_json::Error),
    Utf8(std::str::Utf8Error),
    Db(sled::Error),
    Hex(hex::FromHexError),
    ProgramNotFound,
    /// The build mailbox is full.
    QueueFull,
}

/// The lower-case hex digit of a value below 16.
pub open spec fn hex_digit(n: u8) -> char {
    if n < 10 {
        ((n + 48) as u8) as char
    } else {
        ((n + 87) as u8) as char
    }
}

/// Two lower-case hex digits for each byte, in order.
pub open spec fn hex_of(b: Seq<u8>) -> Seq<char>
    decreases b.len(),
{
    if b.len() == 0 {
        Seq::empty()
    } else {
        seq![hex_digit(b[0] / 16), hex_digit(b[0] % 16)] + hex_of(b.drop_first())
    }
}

/// The value of a hex digit of either case.
pub open spec fn hex_value(c: char) -> Option<u8> {
    let n = c as u32;
    if 48 <= n <= 57 {
        Some((n - 48) as u8)
    } else if 97 <= n <= 102 {
        Some((n - 87) as u8)
    } else if 65 <= n <= 70 {
        Some((n - 55) as u8)
    } else {
        None
    }
}

/// Whether a text is an even number of hex digits.
pub open spec fn is_hex_text(t: Seq<char>) -> bool {
    t.len() % 2 == 0 && forall|i: int| 0 <= i < t.len() ==> #[trigger] hex_value(t[i]) is Some
}

/// The bytes that a text of hex digits spells, two digits each.
pub open spec fn hex_bytes(t: Seq<char>) -> Seq<u8> {
    Seq::new(
        t.len() / 2,
        |i: int| (hex_value(t[2 * i])->0 * 16 + hex_value(t[2 * i + 1])->0) as u8,
    )
}

/// Relies on `hex::encode`: two lower-case hex digits for each byte, in order.
#[verifier::external_body]
fn encode_hex(bytes: &[u8]) -> (r: String)
    ensures
        r@ == hex_of(bytes@),
{
    hex::encode(bytes)
}

/// Relies on `hex::decode`: it accepts exactly the texts of an even number of
/// hex digits of either case, and turns each pair of digits into a byte.
#[verifier::external_body]
fn decode_hex(text: &str) -> (r: Result<Vec<u8>, hex::FromHexError>)
    ensures
        match r {
            Ok(b) => is_hex_text(text@) && b@ == hex_bytes(text@),
            Err(_) => !is_hex_text(text@),
        },
{
    hex::decode(text)
}

/// Whether a text is printable ASCII without a quote or a backslash: JSON
/// writes such a string between quotes as it is.
pub open spec fn is_plain_text(s: Seq<char>) -> bool {
    forall|i: int|
        0 <= i < s.len() ==> 32 <= #[trigger] (s[i] as u32) <= 126 && s[i] != '"' && s[i] != '\\'
}

/// A string in JSON, where it is plain text.
pub open spec fn json_quoted(s: Seq<char>) -> Seq<char> {
    seq!['"'] + s + seq!['"']
}

/// The strings of a JSON array, separated by commas.
pub open spec fn json_items(items: Seq<Seq<char>>) -> Seq<char>
    decreases items.len(),
{
    if items.len() == 0 {
        Seq::empty()
    } else if items.len() == 1 {
        json_quoted(items[0])
    } else {
        json_items(items.drop_last()) + seq![','] + json_quoted(items.last())
    }
}

/// A compact JSON array of strings.
pub open spec fn json_array(items: Seq<Seq<char>>) -> Seq<char> {
    seq!['['] + json_items(items) + seq![']']
}

/// The views of a sequence of strings.
pub open spec fn views(items: Seq<String>) -> Seq<Seq<char>> {
    items.map_values(|s: String| s@)
}

/// Relies on `serde_json::to_string` for a list of strings: it fails only
/// where a `Serialize` impl fails or a map has non-string keys, neither of
/// which a list of strings has; the result is a compact JSON array, each
/// string between quotes, escaped only where it holds a quote, a backslash or
/// a control character.
#[verifier::external_body]
fn strings_to_json(items: &Vec<String>) -> (r: Result<String, serde_json::Error>)
    ensures
        r is Ok,
        r matches Ok(s) ==> ((forall|i: int| 0 <= i < items@.len() ==> is_plain_text(#[trigger] items@[i]@))
            ==> s@ == json_array(views(items@))),
{
    serde_json::to_string(items)
}

/// Hex digits are plain text.
proof fn lemma_hex_plain(b: Seq<u8>)
    ensures
        is_plain_text(hex_of(b)),
    decreases b.len(),
{
    if b.len() > 0 {
        lemma_hex_plain(b.drop_first());
        let h = hex_of(b);
        let d = seq![hex_digit(b[0] / 16), hex_digit(b[0] % 16)];
        assert forall|i: int| 0 <= i < h.len() implies 32 <= #[trigger] (h[i] as u32) <= 126 && h[i] != '"' && h[i]
            != '\\' by {
            if i >= 2 {
                assert(h[i] == hex_of(b.drop_first())[i - 2]);
            }
        }
    }
}

/// The hex text of each of `keys`.
pub open spec fn hex_keys(keys: Seq<Vec<u8>>) -> Seq<Seq<char>> {
    keys.map_values(|k: Vec<u8>| hex_of(k@))
}

/// The list of stored programs as a JSON array of their hashes in hex, in the
/// order in which the store gave them. This always succeeds.
pub fn list_programs_json(keys: &Vec<Vec<u8>>) -> (r: Result<String, AppError>)
    ensures
        r matches Ok(s) && s@ == json_array(hex_keys(keys@)),
{
    let mut hashes: Vec<String> = Vec::new();
    let mut i: usize = 0;
    while i < keys.len()
        invariant
            0 <= i <= keys@.len(),
            hashes@.len() == i,
            forall|j: int| 0 <= j < i ==> (#[trigger] hashes@[j])@ == hex_of(keys@[j]@),
        decreases keys@.len() - i,
    {
        hashes.push(encode_hex(keys[i].as_slice()));
        i = i + 1;
    }
    proof {
        assert forall|j: int| 0 <= j < hashes@.len() implies is_plain_text(#[trigger] hashes@[j]@) by {
            lemma_hex_plain(keys@[j]@);
        }
        assert(views(hashes@) =~= hex_keys(keys@));
    }
    match strings_to_json(&hashes) {
        Ok(s) => Ok(s),
        Err(e) => Err(AppError::Json(e)),
    }
}

/// Reads the hash of a program from its hex text.
pub fn decode_program_hash(text: &str) -> (r: Result<Vec<u8>, AppError>)
    ensures
        is_hex_text(text@) <==> r is Ok,
        r matches Ok(b) ==> b@ == hex_bytes(text@),
        r matches Err(e) ==> e is Hex,
{
    match decode_hex(text) {
        Ok(b) => Ok(b),
        Err(e) => Err(AppError::Hex(e)),
    }
}

/// The record of a program as the store gave it: its text, where it is
/// UTF-8; a program that the store does not hold is not found.
pub fn program_record(stored: Option<Vec<u8>>) -> (r: Result<String, AppError>)
    ensures
        stored is None ==> (r matches Err(e) && e is ProgramNotFound),
        stored matches Some(b) ==> (valid_utf8(b@) <==> r is Ok),
        stored matches Some(b) ==> (r matches Ok(s) ==> s@ == decode_utf8(b@)),
        stored is Some ==> (r matches Err(e) ==> e is Utf8),
{
    match stored {
        None => Err(AppError::ProgramNotFound),
        Some(b) => match decode_text(b.as_slice()) {
            Ok(s) => Ok(s),
            Err(e) => Err(AppError::Utf8(e)),
        },
    }
}

/// The name of the package that a JSON text describes, where the text parses
/// as a package's metadata.
pub uninterp spec fn package_name_of(json: Seq<u8>) -> Option<Seq<char>>;

/// Relies on `serde_json::from_slice` into `cargo_metadata::Package`: whether
/// the bytes parse as a package, and the package's name, depend on the bytes
/// alone.
#[verifier::external_body]
fn package_name(json: &[u8]) -> (r: Option<String>)
    ensures
        opt_view(r) == package_name_of(json@),
{
    serde_json::from_slice::<cargo_metadata::Package>(json).ok().map(|p| p.name)
}

/// The line of the front page that links to a program.
pub open spec fn program_item(hash: Seq<char>, name: Seq<char>) -> Seq<char> {
    "<li><a href=\"program/"@ + hash + "\">"@ + name + " <code>"@ + hash + "</code></a></li>"@
}

/// The lines of the front page for the stored `(hash, record)` pairs whose
/// record parses as a package, in order.
pub open spec fn program_items(entries: Seq<(Vec<u8>, Vec<u8>)>) -> Seq<Seq<char>>
    decreases entries.len(),
{
    if entries.len() == 0 {
        Seq::empty()
    } else {
        let rest = program_items(entries.drop_last());
        match package_name_of(entries.last().1@) {
            Some(name) => rest.push(program_item(hex_of(entries.last().0@), name)),
            None => rest,
        }
    }
}

/// Lines joined by line breaks.
pub open spec fn joined_lines(lines: Seq<Seq<char>>) -> Seq<char>
    decreases lines.len(),
{
    if lines.len() == 0 {
        Seq::empty()
    } else if lines.len() == 1 {
        lines[0]
    } else {
        joined_lines(lines.drop_last()) + "\n"@ + lines.last()
    }
}

/// The front page: a list of the stored programs, each linking to its record.
pub open spec fn front_page_html(entries: Seq<(Vec<u8>, Vec<u8>)>) -> Seq<char> {
    "\n        <!doctype html>\n        <html>\n            <head></head>\n            <body>\n                <h1>Program metadata http service</h1>\n                <ul>"@
        + joined_lines(program_items(entries)) + "</ul>\n            </body>\n        </html>\n        "@
}

/// Renders the front page from the stored `(hash, record)` pairs. A record
/// that does not parse as a package is left out.
pub fn front_page(entries: &Vec<(Vec<u8>, Vec<u8>)>) -> (r: String)
    ensures
        r@ == front_page_html(entries@),
{
    let mut lines = String::new();
    let mut listed: bool = false;
    let mut i: usize = 0;
    while i < entries.len()
        invariant
            0 <= i <= entries@.len(),
            lines@ == joined_lines(program_items(entries@.subrange(0, i as int))),
            listed == (program_items(entries@.subrange(0, i as int)).len() > 0),
        decreases entries@.len() - i,
    {
        let ghost before = entries@.subrange(0, i as int);
        let ghost after = entries@.subrange(0, i as int + 1);
        assert(after.drop_last() =~= before);
        let (key, value) = &entries[i];
        match package_name(value.as_slice()) {
            Some(name) => {
                let hash = encode_hex(key.as_slice());
                let item = String::from_str("<li><a href=\"program/").concat(hash.as_str()).concat("\">").concat(
                    name.as_str(),
                ).concat(" <code>").concat(hash.as_str()).concat("</code></a></li>");
                assert(item@ =~= program_item(hash@, name@));
                let ghost prev = program_items(before);
                assert(after.last() == entries@[i as int]);
                assert(program_items(after) == prev.push(item@));
                assert(prev.push(item@).drop_last() =~= prev);
                if listed {
                    lines = lines.concat("\n").concat(item.as_str());
                } else {
                    lines = item;
                }
                listed = true;
            },
            None => {
                assert(after.last() == entries@[i as int]);
                assert(program_items(after) == program_items(before));
            },
        }
        i = i + 1;
    }
    assert(entries@.subrange(0, entries@.len() as int) =~= entries@);
    String::from_str(
        "\n        <!doctype html>\n        <html>\n            <head></head>\n            <body>\n                <h1>Program metadata http service</h1>\n                <ul>",
    ).concat(lines.as_str()).concat("</ul>\n            </body>\n        </html>\n        ")
}

} // verus!
