//! The calls this library makes into outside code whose results it cannot
//! compute itself: digests, the clock, random identifiers and JSON patches.

use vstd::prelude::*;

verus! {

/// The lower-case hexadecimal SHA-256 digest of the UTF-8 bytes of a text.
pub uninterp spec fn sha256_hex_of(text: Seq<char>) -> Seq<char>;

/// SHA-256 of the UTF-8 bytes of `text` (`sha2::Sha256::digest`), written
/// in lower-case hexadecimal: two digits for each of the digest's 32
/// bytes. The contract names the result (it depends on the text alone) and
/// states its length.
#[verifier::external_body]
pub(crate) fn sha256_hex(text: &str) -> (r: String)
    ensures
        r@ == sha256_hex_of(text@),
        r@.len() == 64,
{
    format!("{:x}", <sha2::Sha256 as sha2::Digest>::digest(text.as_bytes()))
}

/// The current UTC time in RFC 3339 form (`chrono::Utc::now().to_rfc3339()`).
/// Nothing is stated of the result: it depends on the clock.
#[verifier::external_body]
pub(crate) fn utc_now_rfc3339() -> (r: String) {
    chrono::Utc::now().to_rfc3339()
}

/// A fresh random identifier (`uuid::Uuid::new_v4().to_string()`): its
/// hyphenated form, 36 characters, hyphens at positions 8, 13, 18 and 23
/// and lower-case hexadecimal digits elsewhere. Which digits is not stated:
/// they depend on chance.
#[verifier::external_body]
pub(crate) fn new_uuid_v4() -> (r: String)
    ensures
        r@.len() == 36,
        forall|i: int|
            0 <= i < 36 ==> if i == 8 || i == 13 || i == 18 || i == 23 {
                r@[i] == '-'
            } else {
                ('0' <= #[trigger] r@[i] <= '9') || ('a' <= r@[i] <= 'f')
            },
{
    uuid::Uuid::new_v4().to_string()
}

/// The operations of the JSON Patch that turns the value written as text
/// `observed` into the value written as `expected`, each operation as JSON
/// text; a text that does not parse stands for `null`.
pub uninterp spec fn json_patch_ops_of(observed: Seq<char>, expected: Seq<char>) -> Seq<Seq<char>>;

/// `json_patch::diff` on the two values parsed from JSON text (a text that
/// does not parse counts as `null`, as `unwrap_or_default` gives), each
/// operation of the patch written back as JSON text. The contract names the
/// result: it depends on the two texts alone.
#[verifier::external_body]
pub(crate) fn json_patch_ops(observed: &str, expected: &str) -> (r: Vec<String>)
    ensures
        r@.map_values(|s: String| s@) == json_patch_ops_of(observed@, expected@),
{
    let a: serde_json::Value = serde_json::from_str(observed).unwrap_or_default();
    let b: serde_json::Value = serde_json::from_str(expected).unwrap_or_default();
    let patch = json_patch::diff(&a, &b);
    patch.0.iter().map(|op| serde_json::to_string(op).unwrap_or_default()).collect()
}

/// The `Debug` rendering of the JSON value written as a text (`null` where
/// the text does not parse).
pub uninterp spec fn json_debug_of(text: Seq<char>) -> Seq<char>;

/// The `Debug` rendering of a `serde_json::Value` parsed from JSON text (a
/// text that does not parse counts as `null`). The contract names the
/// result: it depends on the text alone.
#[verifier::external_body]
pub(crate) fn json_debug(text: &str) -> (r: String)
    ensures
        r@ == json_debug_of(text@),
{
    let v: serde_json::Value = serde_json::from_str(text).unwrap_or_default();
    format!("{:?}", v)
}

/// The error that `regex::Regex::new` gives for a pattern, as text; `None`
/// where the pattern compiles.
pub uninterp spec fn regex_error_of(pattern: Seq<char>) -> Option<Seq<char>>;

/// Whether the compiled pattern matches somewhere in a text
/// (`regex::Regex::is_match`).
pub uninterp spec fn regex_match_of(pattern: Seq<char>, text: Seq<char>) -> bool;

/// Compile a pattern with `regex::Regex::new`: the error's text where it
/// does not compile. The contract names the outcome: it depends on the
/// pattern alone.
#[verifier::external_body]
pub(crate) fn regex_error(pattern: &str) -> (r: Option<String>)
    ensures
        match r {
            Some(e) => regex_error_of(pattern@) == Some(e@),
            None => regex_error_of(pattern@) is None,
        },
{
    match regex::Regex::new(pattern) {
        Ok(_) => None,
        Err(e) => Some(e.to_string()),
    }
}

/// Whether a pattern that compiles matches somewhere in `text`
/// (`regex::Regex::is_match`). The contract names the result: it depends on
/// the pattern and the text alone.
#[verifier::external_body]
pub(crate) fn regex_is_match(pattern: &str, text: &str) -> (r: bool)
    requires
        regex_error_of(pattern@) is None,
    ensures
        r == regex_match_of(pattern@, text@),
{
    regex::Regex::new(pattern).map_or(false, |re| re.is_match(text))
}

/// The outcome of validating the JSON text `data` against the JSON Schema
/// text `schema` under draft 7 (`jsonschema::JSONSchema` with
/// `Draft::Draft7`): the error of compiling the schema, or each validation
/// error's message and instance path, in order.
pub uninterp spec fn schema_errors_of(schema: Seq<char>, data: Seq<char>) -> Result<Seq<(Seq<char>, Seq<char>)>, Seq<char>>;

/// Validate JSON text against a JSON Schema text under draft 7. The
/// contract names the outcome: it depends on the two texts alone.
#[verifier::external_body]
pub(crate) fn schema_errors(schema: &str, data: &str) -> (r: Result<Vec<(String, String)>, String>)
    ensures
        match r {
            Ok(v) => schema_errors_of(schema@, data@) == Ok::<Seq<(Seq<char>, Seq<char>)>, Seq<char>>(
                v@.map_values(|e: (String, String)| (e.0@, e.1@)),
            ),
            Err(e) => schema_errors_of(schema@, data@) == Err::<Seq<(Seq<char>, Seq<char>)>, Seq<char>>(e@),
        },
{
    let schema: serde_json::Value = serde_json::from_str(schema).map_err(|e| e.to_string())?;
    let data: serde_json::Value = serde_json::from_str(data).map_err(|e| e.to_string())?;
    let compiled = jsonschema::JSONSchema::options()
        .with_draft(jsonschema::Draft::Draft7)
        .compile(&schema)
        .map_err(|e| e.to_string())?;
    let mut out = Vec::new();
    if let Err(errors) = compiled.validate(&data) {
        for e in errors {
            out.push((e.to_string(), e.instance_path.to_string()));
        }
    }
    Ok(out)
}

/// Whether a character is alphanumeric in Unicode's sense: alphabetic or
/// numeric by the Unicode character database.
pub uninterp spec fn unicode_alphanumeric_of(c: char) -> bool;

/// `char::is_alphanumeric`. The contract names the result: it depends on
/// the character alone, through Unicode's tables. Among ASCII characters,
/// the letters and digits are alphanumeric and no others are.
#[verifier::external_body]
pub(crate) fn is_alphanumeric(c: char) -> (r: bool)
    ensures
        r == unicode_alphanumeric_of(c),
        ('a' <= c <= 'z' || 'A' <= c <= 'Z' || '0' <= c <= '9') ==> r,
        c < '\u{80}' && !('a' <= c <= 'z' || 'A' <= c <= 'Z' || '0' <= c <= '9') ==> !r,
{
    c.is_alphanumeric()
}

/// The lower-case form of a text by Unicode's case mapping.
pub uninterp spec fn lowercase_of(text: Seq<char>) -> Seq<char>;

/// `str::to_lowercase`. The contract names the result: it depends on the
/// text alone, through Unicode's tables.
#[verifier::external_body]
pub(crate) fn to_lowercase(text: &str) -> (r: String)
    ensures
        r@ == lowercase_of(text@),
{
    text.to_lowercase()
}

/// The `Debug` rendering of a path given as text: the text quoted, with
/// the escapes `Debug` writes.
pub uninterp spec fn path_debug_of(path: Seq<char>) -> Seq<char>;

/// `format!("{:?}", Path::new(path))`. The contract names the result: it
/// depends on the text alone.
#[verifier::external_body]
pub(crate) fn path_debug(path: &str) -> (r: String)
    ensures
        r@ == path_debug_of(path@),
{
    format!("{:?}", std::path::Path::new(path))
}

/// The outcome of applying JSON Patch operations (each as JSON text) to
/// the value written as JSON text: the patched value as JSON text, or the
/// error's text.
pub uninterp spec fn json_patched_of(value: Seq<char>, ops: Seq<Seq<char>>) -> Result<Seq<char>, Seq<char>>;

/// `json_patch::patch` on the value parsed from `value` with the
/// operations parsed from `ops`, the result written back as JSON text; a
/// text that does not parse, or a patch that does not apply, gives the
/// error's text. The contract names the outcome: it depends on the texts
/// alone.
#[verifier::external_body]
pub(crate) fn json_patch_apply(value: &str, ops: &Vec<String>) -> (r: Result<String, String>)
    ensures
        match r {
            Ok(s) => json_patched_of(value@, ops@.map_values(|o: String| o@)) == Ok::<Seq<char>, Seq<char>>(s@),
            Err(e) => json_patched_of(value@, ops@.map_values(|o: String| o@)) == Err::<Seq<char>, Seq<char>>(e@),
        },
{
    let mut doc: serde_json::Value = serde_json::from_str(value).map_err(|e| e.to_string())?;
    let mut list = Vec::new();
    for op in ops {
        list.push(serde_json::from_str::<json_patch::PatchOperation>(op).map_err(|e| e.to_string())?);
    }
    json_patch::patch(&mut doc, &json_patch::Patch(list)).map_err(|e| e.to_string())?;
    Ok(doc.to_string())
}

} // verus!

verus! {

/// A point in time of the monotonic clock.
#[verifier::external_type_specification]
#[verifier::external_body]
pub struct ExInstant(std::time::Instant);

/// The current instant (`std::time::Instant::now`). Nothing is stated of
/// the result: it depends on the clock.
#[verifier::external_body]
pub(crate) fn instant_now() -> (r: std::time::Instant) {
    std::time::Instant::now()
}

/// The whole microseconds elapsed since `start` (`Instant::elapsed`, then
/// `as_micros`, cut to 64 bits). Nothing is stated of the result: it
/// depends on the clock.
#[verifier::external_body]
pub(crate) fn elapsed_micros(start: &std::time::Instant) -> (r: u64) {
    start.elapsed().as_micros() as u64
}

/// The seconds since the Unix epoch (`SystemTime::now` against
/// `UNIX_EPOCH`; zero where the clock is set before the epoch). Nothing is
/// stated of the result: it depends on the clock.
#[verifier::external_body]
pub(crate) fn unix_now_secs() -> (r: u64) {
    match std::time::SystemTime::now().duration_since(std::time::UNIX_EPOCH) {
        Ok(d) => d.as_secs(),
        Err(_) => 0,
    }
}

} // verus!
