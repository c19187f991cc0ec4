//! What the build leaves behind: text decoded from its output streams, the
//! tail of its error stream, and the artifact in its output directory.

use vstd::prelude::*;
use vstd::string::*;
use vstd::utf8::{decode_utf8, valid_utf8};

verus! {

#[verifier::external_type_specification]
#[verifier::external_body]
pub struct ExUtf8Error(std::str::Utf8Error);

/// Relies on `std::str::from_utf8`: it accepts exactly the byte strings that
/// are valid UTF-8, and the text is the characters that they encode.
#[verifier::external_body]
pub(crate) fn decode_text(bytes: &[u8]) -> (r: Result<String, std::str::Utf8Error>)
    ensures
        match r {
            Ok(s) => valid_utf8(bytes@) && s@ == decode_utf8(bytes@),
            Err(_) => !valid_utf8(bytes@),
        },
{
    std::str::from_utf8(bytes).map(|s| s.to_string())
}

/// The number of characters of the build's error output kept to explain a
/// failed build.
pub const STDERR_TAIL_CHARS: usize = 2000;

/// The last `STDERR_TAIL_CHARS` characters of a text, or all of it where it is
/// shorter.
pub open spec fn tail_of(s: Seq<char>) -> Seq<char> {
    if s.len() <= STDERR_TAIL_CHARS {
        s
    } else {
        s.subrange(s.len() - STDERR_TAIL_CHARS, s.len() as int)
    }
}

/// Keeping the tail of a tail as more text arrives keeps the tail of all of it.
pub proof fn lemma_tail_of_append(a: Seq<char>, b: Seq<char>)
    ensures
        tail_of(tail_of(a) + b) == tail_of(a + b),
{
    if a.len() > STDERR_TAIL_CHARS {
        let k = STDERR_TAIL_CHARS as int;
        let t = tail_of(a) + b;
        let u = a + b;
        assert(tail_of(a).len() == k);
        if t.len() == k {
            assert(t =~= u.subrange(u.len() - k, u.len() as int));
        } else {
            assert(t.subrange(t.len() - k, t.len() as int) =~= u.subrange(u.len() - k, u.len() as int));
        }
    }
}

/// The tail of `tail` followed by `text`.
pub fn append_tail(tail: &String, text: &String) -> (r: String)
    ensures
        r@ == tail_of(tail@ + text@),
{
    let all = tail.clone().concat(text.as_str());
    let n = all.as_str().unicode_len();
    if n <= STDERR_TAIL_CHARS {
        all
    } else {
        String::from_str(all.as_str().substring_char(n - STDERR_TAIL_CHARS, n))
    }
}

/// Whether a file name has the extension `wasm`: it ends in `.wasm` after a
/// non-empty stem.
pub open spec fn is_wasm_name(name: Seq<char>) -> bool {
    name.len() > 5 && name.subrange(name.len() - 5, name.len() as int) == seq!['.', 'w', 'a', 's', 'm']
}

/// Whether a file name has the extension `wasm`.
pub fn has_wasm_extension(name: &String) -> (r: bool)
    ensures
        r == is_wasm_name(name@),
{
    let s = name.as_str();
    let n = s.unicode_len();
    if n <= 5 {
        return false;
    }
    let r = s.get_char(n - 5) == '.' && s.get_char(n - 4) == 'w' && s.get_char(n - 3) == 'a'
        && s.get_char(n - 2) == 's' && s.get_char(n - 1) == 'm';
    assert(r == (name@.subrange(n - 5, n as int) =~= seq!['.', 'w', 'a', 's', 'm']));
    r
}

/// Whether `i` is the one entry of `names` that names an artifact.
pub open spec fn is_unique_artifact(names: Seq<String>, i: int) -> bool {
    &&& 0 <= i < names.len()
    &&& is_wasm_name(names[i]@)
    &&& forall|j: int| 0 <= j < names.len() && j != i ==> !is_wasm_name(#[trigger] names[j]@)
}

/// Finds the artifact among the names of the files in the build's output
/// directory: the one name with the extension `wasm`. Where none or several
/// have it, there is no artifact to take.
pub fn locate_artifact(names: &Vec<String>) -> (r: Option<usize>)
    ensures
        match r {
            Some(i) => is_unique_artifact(names@, i as int),
            None => forall|i: int| !is_unique_artifact(names@, i),
        },
{
    let mut found: Option<usize> = None;
    let mut i: usize = 0;
    while i < names.len()
        invariant
            0 <= i <= names@.len(),
            match found {
                Some(k) => k < i && is_wasm_name(names@[k as int]@) && forall|j: int|
                    0 <= j < i && j != k ==> !is_wasm_name(#[trigger] names@[j]@),
                None => forall|j: int| 0 <= j < i ==> !is_wasm_name(#[trigger] names@[j]@),
            },
        decreases names@.len() - i,
    {
        if has_wasm_extension(&names[i]) {
            if found.is_some() {
                let k = found.unwrap();
                assert(!is_unique_artifact(names@, k as int));
                assert forall|m: int| !is_unique_artifact(names@, m) by {
                    if is_unique_artifact(names@, m) {
                        assert(m == k || m == i);
                    }
                }
                return None;
            }
            found = Some(i);
        }
        i = i + 1;
    }
    found
}

} // verus!
