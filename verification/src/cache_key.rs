//! The cache key of an invocation, the seed it stands in for, and the name
//! of the record that holds the generated text.

use crate::digest::{
    absorb, absorb_bytes, differ_in_one_byte, lemma_absorb_in_two_parts,
    lemma_one_byte_changes_state, mix, mix_byte, DIGEST_BASIS, PART_SEPARATOR,
};
use vstd::prelude::*;
use vstd::string::{StringExecFns, StringSliceAdditionalSpecFns};

verus! {

/// The largest seed the generation service takes.
pub const SEED_MAX: u64 = 0x7fff_ffff_ffff_ffff;

/// Name of the directory, below the project's root, that holds the records.
pub const CACHE_DIRECTORY: &'static str = "gpt_responses";

/// Number of characters in a record name.
pub const RECORD_NAME_LENGTH: usize = 16;

/// Identifies one pair of enclosing file and invocation.
#[derive(Clone, Copy, Debug, PartialEq, Eq, Structural)]
pub struct CacheKey {
    pub digest: u64,
}

/// The bytes a key is computed over: the enclosing file, the name of the
/// entry point and the text of the arguments, with a separator between them.
pub open spec fn key_input(file: Seq<u8>, label: Seq<u8>, arguments: Seq<u8>) -> Seq<u8> {
    file + seq![PART_SEPARATOR] + label + seq![PART_SEPARATOR] + arguments
}

/// The digest of a key's input.
pub open spec fn key_digest(file: Seq<u8>, label: Seq<u8>, arguments: Seq<u8>) -> u64 {
    absorb(DIGEST_BASIS, key_input(file, label, arguments))
}

/// The seed used where the invocation names none: the digest without its
/// top bit.
pub open spec fn seed_of_digest(digest: u64) -> u64 {
    digest & SEED_MAX
}

/// The hexadecimal digit for a value below sixteen.
pub open spec fn hex_digit(value: u64) -> char {
    if value == 0 {
        '0'
    } else if value == 1 {
        '1'
    } else if value == 2 {
        '2'
    } else if value == 3 {
        '3'
    } else if value == 4 {
        '4'
    } else if value == 5 {
        '5'
    } else if value == 6 {
        '6'
    } else if value == 7 {
        '7'
    } else if value == 8 {
        '8'
    } else if value == 9 {
        '9'
    } else if value == 10 {
        'a'
    } else if value == 11 {
        'b'
    } else if value == 12 {
        'c'
    } else if value == 13 {
        'd'
    } else if value == 14 {
        'e'
    } else {
        'f'
    }
}

/// The four bits of `digest` that the character at `position` of the record
/// name shows; position 0 shows the highest four.
pub open spec fn nibble_at(digest: u64, position: int) -> u64 {
    (digest >> ((60 - 4 * position) as u64)) & 0xf
}

/// The record name of a digest: its sixteen hexadecimal digits in lower case,
/// highest first.
pub open spec fn record_name(digest: u64) -> Seq<char> {
    Seq::new(16, |position: int| hex_digit(nibble_at(digest, position)))
}

/// Derives the key from the three parts as bytes.
pub fn derive_cache_key_from_bytes(file: &[u8], label: &[u8], arguments: &[u8]) -> (key: CacheKey)
    ensures
        key.digest == key_digest(file@, label@, arguments@),
{
    let after_file = absorb_bytes(DIGEST_BASIS, file);
    let at_label = mix_byte(after_file, PART_SEPARATOR);
    let after_label = absorb_bytes(at_label, label);
    let at_arguments = mix_byte(after_label, PART_SEPARATOR);
    let digest = absorb_bytes(at_arguments, arguments);
    proof {
        lemma_key_digest_by_parts(file@, label@, arguments@);
    }
    CacheKey { digest }
}

/// Derives the key of an invocation from the text of the enclosing file, the
/// name of the entry point used and the text of the invocation's arguments.
pub fn derive_cache_key(file: &str, label: &str, arguments: &str) -> (key: CacheKey)
    ensures
        key.digest == key_digest(file.spec_bytes(), label.spec_bytes(), arguments.spec_bytes()),
{
    derive_cache_key_from_bytes(file.as_bytes(), label.as_bytes(), arguments.as_bytes())
}

/// The seed that stands in where the invocation names none.
pub fn default_seed(key: CacheKey) -> (seed: u64)
    ensures
        seed == seed_of_digest(key.digest),
        seed <= SEED_MAX,
        key.digest <= SEED_MAX ==> seed == key.digest,
{
    let digest = key.digest;
    let seed = digest & SEED_MAX;
    assert(digest & 0x7fff_ffff_ffff_ffff <= 0x7fff_ffff_ffff_ffff) by (bit_vector);
    assert(digest <= 0x7fff_ffff_ffff_ffff ==> digest & 0x7fff_ffff_ffff_ffff == digest)
        by (bit_vector);
    seed
}

/// The text of one hexadecimal digit.
fn hex_digit_text(value: u64) -> (text: &'static str)
    requires
        value < 16,
    ensures
        text@ == seq![hex_digit(value)],
{
    proof {
        reveal_strlit("0");
        reveal_strlit("1");
        reveal_strlit("2");
        reveal_strlit("3");
        reveal_strlit("4");
        reveal_strlit("5");
        reveal_strlit("6");
        reveal_strlit("7");
        reveal_strlit("8");
        reveal_strlit("9");
        reveal_strlit("a");
        reveal_strlit("b");
        reveal_strlit("c");
        reveal_strlit("d");
        reveal_strlit("e");
        reveal_strlit("f");
    }
    let text = if value == 0 {
        "0"
    } else if value == 1 {
        "1"
    } else if value == 2 {
        "2"
    } else if value == 3 {
        "3"
    } else if value == 4 {
        "4"
    } else if value == 5 {
        "5"
    } else if value == 6 {
        "6"
    } else if value == 7 {
        "7"
    } else if value == 8 {
        "8"
    } else if value == 9 {
        "9"
    } else if value == 10 {
        "a"
    } else if value == 11 {
        "b"
    } else if value == 12 {
        "c"
    } else if value == 13 {
        "d"
    } else if value == 14 {
        "e"
    } else {
        "f"
    };
    assert(text@ =~= seq![hex_digit(value)]);
    text
}

/// The name of the record that holds the text generated for `key`.
pub fn cache_file_name(key: CacheKey) -> (name: String)
    ensures
        name@ == record_name(key.digest),
{
    let digest = key.digest;
    let mut name = String::new();
    let mut position: usize = 0;
    while position < RECORD_NAME_LENGTH
        invariant
            position <= 16,
            name@.len() == position,
            forall|i: int| 0 <= i < position ==> name@[i] == hex_digit(nibble_at(digest, i)),
        decreases 16 - position,
    {
        let shift: u64 = 60 - 4 * (position as u64);
        let nibble: u64 = (digest >> shift) & 0xf;
        assert((digest >> shift) & 0xf < 16) by (bit_vector);
        name.append(hex_digit_text(nibble));
        position = position + 1;
    }
    assert(name@ =~= record_name(digest));
    name
}

/// The digest of a key's input is reached by feeding the file, a separator,
/// the label, a separator and the arguments in turn.
pub proof fn lemma_key_digest_by_parts(file: Seq<u8>, label: Seq<u8>, arguments: Seq<u8>)
    ensures
        key_digest(file, label, arguments) == absorb(
            mix(
                absorb(
                    mix(absorb(DIGEST_BASIS, file), PART_SEPARATOR),
                    label,
                ),
                PART_SEPARATOR,
            ),
            arguments,
        ),
{
    let separator = seq![PART_SEPARATOR];
    let upto_label = file + separator + label;
    lemma_absorb_in_two_parts(DIGEST_BASIS, upto_label + separator, arguments);
    lemma_absorb_in_two_parts(DIGEST_BASIS, upto_label, separator);
    lemma_absorb_in_two_parts(DIGEST_BASIS, file + separator, label);
    lemma_absorb_in_two_parts(DIGEST_BASIS, file, separator);
    assert forall|state: u64| absorb(state, separator) == mix(
        state,
        PART_SEPARATOR,
    ) by {
        assert(separator.drop_last() =~= Seq::<u8>::empty());
        assert(absorb(state, separator.drop_last()) == state);
    }
}

/// Whether the separator byte occurs nowhere in `part`.
pub open spec fn free_of_separator(part: Seq<u8>) -> bool {
    forall|i: int| 0 <= i < part.len() ==> part[i] != PART_SEPARATOR
}

/// The input of a key tells its three parts apart: where neither the file
/// nor the label holds the separator byte, equal inputs come from equal
/// parts.
pub proof fn lemma_parts_stay_apart(
    file: Seq<u8>,
    label: Seq<u8>,
    arguments: Seq<u8>,
    other_file: Seq<u8>,
    other_label: Seq<u8>,
    other_arguments: Seq<u8>,
)
    requires
        free_of_separator(file),
        free_of_separator(label),
        free_of_separator(other_file),
        free_of_separator(other_label),
        key_input(file, label, arguments) == key_input(other_file, other_label, other_arguments),
    ensures
        file == other_file,
        label == other_label,
        arguments == other_arguments,
{
    let input = key_input(file, label, arguments);
    let other = key_input(other_file, other_label, other_arguments);
    assert(input.len() == file.len() + label.len() + arguments.len() + 2);
    assert(other.len() == other_file.len() + other_label.len() + other_arguments.len() + 2);
    assert(input[file.len() as int] == PART_SEPARATOR);
    assert(other[other_file.len() as int] == PART_SEPARATOR);
    if file.len() < other_file.len() {
        assert(other[file.len() as int] == other_file[file.len() as int]);
    }
    if other_file.len() < file.len() {
        assert(input[other_file.len() as int] == file[other_file.len() as int]);
    }
    assert(file.len() == other_file.len());
    assert forall|i: int| 0 <= i < file.len() implies file[i] == other_file[i] by {
        assert(input[i] == file[i]);
        assert(other[i] == other_file[i]);
    }
    assert(file =~= other_file);
    let start: int = (file.len() + 1) as int;
    assert(input[start + label.len()] == PART_SEPARATOR);
    assert(other[start + other_label.len()] == PART_SEPARATOR);
    if label.len() < other_label.len() {
        assert(other[start + label.len()] == other_label[label.len() as int]);
    }
    if other_label.len() < label.len() {
        assert(input[start + other_label.len()] == label[other_label.len() as int]);
    }
    assert(label.len() == other_label.len());
    assert forall|i: int| 0 <= i < label.len() implies label[i] == other_label[i] by {
        assert(input[start + i] == label[i]);
        assert(other[start + i] == other_label[i]);
    }
    assert(label =~= other_label);
    let rest: int = start + label.len() + 1;
    assert forall|i: int| 0 <= i < arguments.len() implies arguments[i] == other_arguments[i] by {
        assert(input[rest + i] == arguments[i]);
        assert(other[rest + i] == other_arguments[i]);
    }
    assert(arguments =~= other_arguments);
}

/// Equal inputs give equal keys and equal default seeds.
pub proof fn lemma_equal_inputs_equal_keys(
    file: Seq<u8>,
    label: Seq<u8>,
    arguments: Seq<u8>,
    other_file: Seq<u8>,
    other_label: Seq<u8>,
    other_arguments: Seq<u8>,
)
    requires
        file == other_file,
        label == other_label,
        arguments == other_arguments,
    ensures
        key_digest(file, label, arguments) == key_digest(other_file, other_label, other_arguments),
        seed_of_digest(key_digest(file, label, arguments)) == seed_of_digest(
            key_digest(other_file, other_label, other_arguments),
        ),
{
}

/// A file that differs from another in exactly one byte has a different key
/// under the same entry point and arguments.
pub proof fn lemma_one_changed_byte_changes_key(
    file: Seq<u8>,
    changed: Seq<u8>,
    at: int,
    label: Seq<u8>,
    arguments: Seq<u8>,
)
    requires
        differ_in_one_byte(file, changed, at),
    ensures
        key_digest(file, label, arguments) != key_digest(changed, label, arguments),
{
    let first = key_input(file, label, arguments);
    let second = key_input(changed, label, arguments);
    assert(differ_in_one_byte(first, second, at));
    lemma_one_byte_changes_state(DIGEST_BASIS, first, second, at);
}

} // verus!
