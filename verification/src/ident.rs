//! The recording identifier grammar and the per-stage identifier formatter.
//!
//! The grammar check is the sole defense against argument and path injection
//! into the privileged invocation: an identifier is used to build the child
//! command line only after it has been accepted here.

use vstd::prelude::*;

use crate::stage::RecordingStage;

verus! {

/// A lowercase hexadecimal digit.
pub open spec fn is_lower_hex(c: char) -> bool {
    ('a' <= c && c <= 'f') || ('0' <= c && c <= '9')
}

/// An ASCII decimal digit.
pub open spec fn is_decimal(c: char) -> bool {
    '0' <= c && c <= '9'
}

/// The recording identifier grammar: exactly 40 lowercase hexadecimal
/// characters, one literal hyphen, then one or more decimal digits, and
/// nothing else — the whole string must match.
pub open spec fn valid_recording_id(s: Seq<char>) -> bool {
    &&& s.len() >= 42
    &&& forall|i: int| 0 <= i < 40 ==> is_lower_hex(#[trigger] s[i])
    &&& s[40] == '-'
    &&& forall|i: int| 41 <= i < s.len() ==> is_decimal(#[trigger] s[i])
}

fn is_lower_hex_exec(c: char) -> (r: bool)
    ensures
        r == is_lower_hex(c),
{
    ('a' <= c && c <= 'f') || ('0' <= c && c <= '9')
}

fn is_decimal_exec(c: char) -> (r: bool)
    ensures
        r == is_decimal(c),
{
    '0' <= c && c <= '9'
}

/// Whether `id` matches the recording identifier grammar.
pub fn validate_bbb_id(id: &str) -> (r: bool)
    ensures
        r == valid_recording_id(id@),
{
    let len = id.unicode_len();
    if len < 42 {
        return false;
    }
    for i in 0..40usize
        invariant
            len == id@.len(),
            len >= 42,
            forall|j: int| 0 <= j < i ==> is_lower_hex(#[trigger] id@[j]),
    {
        if !is_lower_hex_exec(id.get_char(i)) {
            return false;
        }
    }
    if id.get_char(40) != '-' {
        return false;
    }
    for i in 41..len
        invariant
            len == id@.len(),
            len >= 42,
            forall|j: int| 41 <= j < i ==> is_decimal(#[trigger] id@[j]),
    {
        if !is_decimal_exec(id.get_char(i)) {
            return false;
        }
    }
    true
}

/// The identifier as it is handed to the sandboxed command: unchanged in the
/// process stage, with the fixed capture marker appended in the publish stage.
pub open spec fn formatted_id(stage: RecordingStage, s: Seq<char>) -> Seq<char> {
    match stage {
        RecordingStage::PROCESS => s,
        RecordingStage::PUBLISH => s + "-capture"@,
    }
}

/// Formats a validated identifier for the given stage. An identity transform
/// in the process stage; append-only in the publish stage: the identifier
/// itself is never altered or truncated.
pub fn format_bbb_id(stage: RecordingStage, id: String) -> (r: String)
    ensures
        r@ == formatted_id(stage, id@),
{
    match stage {
        RecordingStage::PROCESS => id,
        RecordingStage::PUBLISH => id.concat("-capture"),
    }
}

/// Every character of a valid recording identifier is a lowercase hex digit,
/// a decimal digit, or a hyphen. In particular no valid identifier contains a
/// path separator or a dot, so no path-traversal sequence — `..`, `/`, or a
/// trailing segment holding either — survives validation.
pub proof fn lemma_valid_id_has_no_path_chars(s: Seq<char>)
    requires
        valid_recording_id(s),
    ensures
        forall|i: int| 0 <= i < s.len() ==>
            (is_lower_hex(#[trigger] s[i]) || is_decimal(s[i]) || s[i] == '-'),
        forall|i: int| 0 <= i < s.len() ==> #[trigger] s[i] != '/',
        forall|i: int| 0 <= i < s.len() ==> #[trigger] s[i] != '.',
{
}

/// A string that holds a path separator or a dot anywhere — embedded, or as
/// part of a segment appended after an otherwise well-formed prefix — never
/// passes validation.
pub proof fn lemma_id_with_traversal_char_rejected(s: Seq<char>, i: int)
    requires
        0 <= i < s.len(),
        s[i] == '/' || s[i] == '.',
    ensures
        !valid_recording_id(s),
{
    if valid_recording_id(s) {
        lemma_valid_id_has_no_path_chars(s);
    }
}

/// Formatting never disturbs the validated identifier: for either stage the
/// formatted string begins with the identifier itself, and in the process
/// stage it is exactly the identifier.
pub proof fn lemma_format_preserves_id(stage: RecordingStage, s: Seq<char>)
    ensures
        formatted_id(stage, s).len() >= s.len(),
        formatted_id(stage, s).subrange(0, s.len() as int) == s,
        stage == RecordingStage::PROCESS ==> formatted_id(stage, s) == s,
        stage == RecordingStage::PUBLISH ==> formatted_id(stage, s) == s + "-capture"@,
{
    assert(formatted_id(stage, s).subrange(0, s.len() as int) =~= s);
}

} // verus!
