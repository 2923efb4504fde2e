//! Contract validation: contracts with a JSON Schema and validation rules
//! (patterns, file sizes, file extensions), the report of validating data
//! against a contract, and the note that records a validation.

use vstd::prelude::*;
use vstd::utf8::{encode_utf8, decode_utf8, is_char_boundary};
use vstd::string::StringSliceAdditionalSpecFns;
use crate::json::{JsonValue, JsonView, json_view, items_view, fields_view, member, json_text, find_member};
use crate::text::{decimal_text, push_decimal, chars_of, push_char, str_eq};
use crate::outside::{
    sha256_hex, sha256_hex_of, regex_error, regex_error_of, regex_is_match, regex_match_of, schema_errors,
    schema_errors_of, utc_now_rfc3339,
};
use crate::hierarchical_validation::{all_digits, digits_value};

verus! {

/// The version this library reports itself under.
pub const TOOL_VERSION: &'static str = "0.1.0";

/// A validation error with detailed information.
#[derive(Debug, Clone)]
pub struct ValidationError {
    /// Error code
    pub code: String,
    /// Error message
    pub message: String,
    /// Path to the error in the data
    pub path: Option<String>,
    /// Additional error details
    pub details: Option<JsonValue>,
}

/// A validation warning with detailed information.
#[derive(Debug, Clone)]
pub struct ValidationWarning {
    /// Warning code
    pub code: String,
    /// Warning message
    pub message: String,
    /// Path to the warning in the data
    pub path: Option<String>,
    /// Additional warning details
    pub details: Option<JsonValue>,
}

/// A finding as plain values: code, message, path and details.
pub type FindingView = (Seq<char>, Seq<char>, Option<Seq<char>>, Option<JsonView>);

/// Optional text as a plain value.
pub open spec fn opt_text(o: Option<String>) -> Option<Seq<char>> {
    match o {
        Some(s) => Some(s@),
        None => None,
    }
}

/// An optional JSON value as a plain value.
pub open spec fn opt_json(o: Option<JsonValue>) -> Option<JsonView> {
    match o {
        Some(v) => Some(json_view(v)),
        None => None,
    }
}

/// An error as plain values.
pub open spec fn error_view(e: ValidationError) -> FindingView {
    (e.code@, e.message@, opt_text(e.path), opt_json(e.details))
}

/// A warning as plain values.
pub open spec fn warning_view(w: ValidationWarning) -> FindingView {
    (w.code@, w.message@, opt_text(w.path), opt_json(w.details))
}

/// Errors as plain values, in order.
pub open spec fn errors_view(v: Seq<ValidationError>) -> Seq<FindingView> {
    v.map_values(|e: ValidationError| error_view(e))
}

/// Warnings as plain values, in order.
pub open spec fn warnings_view(v: Seq<ValidationWarning>) -> Seq<FindingView> {
    v.map_values(|w: ValidationWarning| warning_view(w))
}

/// The result of validating data against a contract.
#[derive(Debug, Clone)]
pub struct ContractValidationResult {
    /// Whether the validation passed
    pub is_valid: bool,
    /// Validation errors if any
    pub errors: Vec<ValidationError>,
    /// Validation warnings if any
    pub warnings: Vec<ValidationWarning>,
    /// Schema hash for verification
    pub schema_hash: String,
    /// Content hash for verification
    pub content_hash: String,
    /// Timestamp of validation
    pub timestamp: String,
    /// Tool that performed validation
    pub validated_by: String,
    /// Contract type being validated
    pub contract_type: String,
    /// Validation metadata, in key order
    pub metadata: Vec<(String, JsonValue)>,
}

/// Types of validation rules.
#[derive(Debug, Clone, Copy, PartialEq, Eq, Structural)]
pub enum RuleType {
    /// JSON Schema validation
    JsonSchema,
    /// Pattern matching (regex)
    Pattern,
    /// File size limits
    FileSize,
    /// File extension validation
    FileExtension,
    /// Custom validation function
    Custom,
}

/// Severity levels for validation rules.
#[derive(Debug, Clone, Copy, PartialEq, Eq, Structural)]
pub enum RuleSeverity {
    /// Information only
    Info,
    /// Warning
    Warning,
    /// Error
    Error,
    /// Critical error
    Critical,
}

/// A validation rule for contract enforcement.
#[derive(Debug, Clone)]
pub struct ValidationRule {
    /// Rule name
    pub name: String,
    /// Rule description
    pub description: Option<String>,
    /// Rule type
    pub rule_type: RuleType,
    /// Rule parameters, in key order
    pub parameters: Vec<(String, JsonValue)>,
    /// Whether rule is required
    pub required: bool,
    /// Rule severity
    pub severity: RuleSeverity,
}

/// A contract definition with its schema and validation rules.
#[derive(Debug, Clone)]
pub struct ContractDefinition {
    /// Contract name/identifier
    pub name: String,
    /// Contract version
    pub version: String,
    /// Contract description
    pub description: Option<String>,
    /// JSON Schema for validation
    pub schema: JsonValue,
    /// Validation rules
    pub rules: Vec<ValidationRule>,
    /// Contract metadata, in key order
    pub metadata: Vec<(String, JsonValue)>,
}

/// The number a JSON value holds as an unsigned 64-bit integer, if it holds
/// one: decimal digits whose value fits.
pub open spec fn json_u64(v: JsonView) -> Option<u64> {
    match v {
        JsonView::Number(t) => if t.len() > 0 && all_digits(t) && digits_value(t) <= u64::MAX {
            Some(digits_value(t) as u64)
        } else {
            None
        },
        _ => None,
    }
}

/// The path's components, as `Path::components` gives the named ones: its
/// non-empty parts between `/`, without `.`.
pub open spec fn path_parts(p: Seq<char>, cur: Seq<char>) -> Seq<Seq<char>>
    decreases p.len(),
{
    if p.len() == 0 {
        if cur.len() == 0 || cur == "."@ {
            Seq::empty()
        } else {
            seq![cur]
        }
    } else if p[0] == '/' {
        (if cur.len() == 0 || cur == "."@ {
            Seq::<Seq<char>>::empty()
        } else {
            seq![cur]
        }) + path_parts(p.drop_first(), Seq::empty())
    } else {
        path_parts(p.drop_first(), cur.push(p[0]))
    }
}

/// The last place of `c` in `s`, if any.
pub open spec fn last_index_of(s: Seq<char>, c: char) -> Option<int>
    decreases s.len(),
{
    if s.len() == 0 {
        None
    } else if s.last() == c {
        Some(s.len() - 1)
    } else {
        last_index_of(s.drop_last(), c)
    }
}

/// The extension of a path, as `Path::extension` gives it: what follows
/// the last `.` of the file name, where the name has a `.` that is not its
/// first character and is not `..`.
pub open spec fn path_extension(p: Seq<char>) -> Option<Seq<char>> {
    let parts = path_parts(p, Seq::empty());
    if parts.len() == 0 || parts.last() == ".."@ {
        None
    } else {
        let name = parts.last();
        match last_index_of(name, '.') {
            Some(k) => if k == 0 {
                None
            } else {
                Some(name.skip(k + 1))
            },
            None => None,
        }
    }
}

/// The byte count of a content preview: at most the first hundred bytes.
pub open spec fn preview_len(content: Seq<char>) -> int {
    if encode_utf8(content).len() < 100 {
        encode_utf8(content).len() as int
    } else {
        100
    }
}

/// The preview of a text: its first (at most a hundred) UTF-8 bytes.
pub open spec fn preview(content: Seq<char>) -> Seq<char> {
    decode_utf8(encode_utf8(content).take(preview_len(content)))
}

/// A finding of a rule: code, message and details.
pub type Finding = (Seq<char>, Seq<char>, JsonView);

/// The texts a pattern rule checks: string data itself, or the string
/// members of object data, in key order.
pub open spec fn pattern_targets(data: JsonView) -> Seq<Seq<char>> {
    match data {
        JsonView::Str(c) => seq![c],
        JsonView::Object(fields) => string_members(fields),
        _ => Seq::empty(),
    }
}

/// The string values among object members, in order.
pub open spec fn string_members(fields: Seq<(Seq<char>, JsonView)>) -> Seq<Seq<char>>
    decreases fields.len(),
{
    if fields.len() == 0 {
        Seq::empty()
    } else {
        string_members(fields.drop_last()) + match fields.last().1 {
            JsonView::Str(c) => seq![c],
            _ => Seq::empty(),
        }
    }
}

/// The finding of a text that does not match pattern `p`.
pub open spec fn mismatch(p: Seq<char>, content: Seq<char>) -> Finding {
    (
        "PATTERN_MISMATCH"@,
        "Content does not match pattern: "@ + p,
        JsonView::Object(seq![("content_preview"@, JsonView::Str(preview(content))), ("pattern"@, JsonView::Str(p))]),
    )
}

/// The findings of checking `targets` against pattern `p`, in order: one
/// for each text that does not match.
pub open spec fn pattern_findings(p: Seq<char>, targets: Seq<Seq<char>>) -> Seq<Finding>
    decreases targets.len(),
{
    if targets.len() == 0 {
        Seq::empty()
    } else {
        pattern_findings(p, targets.drop_last()) + if regex_match_of(p, targets.last()) {
            Seq::empty()
        } else {
            seq![mismatch(p, targets.last())]
        }
    }
}

/// What a rule finds about `data` at `path`, whose file (where it could be
/// read) has `size` bytes: its findings in order, or the error of a
/// pattern that does not compile.
pub open spec fn rule_finding(rule: ValidationRule, data: JsonView, path: Seq<char>, size: Option<u64>) -> Result<
    Seq<Finding>,
    Seq<char>,
> {
    let params = fields_view(rule.parameters@);
    match rule.rule_type {
        RuleType::Pattern => match member(params, "pattern"@) {
            Some(JsonView::Str(p)) => match regex_error_of(p) {
                Some(e) => Err(e),
                None => Ok(pattern_findings(p, pattern_targets(data))),
            },
            _ => Ok(Seq::empty()),
        },
        RuleType::FileSize => match member(params, "max_size"@) {
            Some(v) => match (json_u64(v), size) {
                (Some(max), Some(s)) => if s > max {
                    Ok(
                        seq![
                            (
                                "FILE_SIZE_EXCEEDED"@,
                                "File size "@ + decimal_text(s as nat) + " exceeds maximum "@ + decimal_text(max as nat),
                                JsonView::Object(
                                    seq![
                                        ("file_size"@, JsonView::Number(decimal_text(s as nat))),
                                        ("max_size"@, JsonView::Number(decimal_text(max as nat))),
                                    ],
                                ),
                            ),
                        ],
                    )
                } else {
                    Ok(Seq::empty())
                },
                _ => Ok(Seq::empty()),
            },
            None => Ok(Seq::empty()),
        },
        RuleType::FileExtension => match member(params, "extensions"@) {
            Some(JsonView::Array(items)) => match path_extension(path) {
                Some(ext) => if items.contains(JsonView::Str(ext)) {
                    Ok(Seq::empty())
                } else {
                    Ok(
                        seq![
                            (
                                "INVALID_FILE_EXTENSION"@,
                                "File extension '"@ + ext + "' not allowed"@,
                                JsonView::Object(
                                    seq![
                                        ("allowed_extensions"@, JsonView::Array(items)),
                                        ("extension"@, JsonView::Str(ext)),
                                    ],
                                ),
                            ),
                        ],
                    )
                },
                None => Ok(Seq::empty()),
            },
            _ => Ok(Seq::empty()),
        },
        _ => Ok(Seq::empty()),
    }
}

/// A report in progress: validity, errors and warnings.
pub type Report = (bool, Seq<FindingView>, Seq<FindingView>);

/// A report with a finding recorded at `severity`: an error (which makes
/// the report invalid) for an error or a critical rule, a warning for a
/// warning rule, nothing for an information rule.
pub open spec fn record_finding(rep: Report, severity: RuleSeverity, f: Finding) -> Report {
    let v: FindingView = (f.0, f.1, None, Some(f.2));
    match severity {
        RuleSeverity::Error | RuleSeverity::Critical => (false, rep.1.push(v), rep.2),
        RuleSeverity::Warning => (rep.0, rep.1, rep.2.push(v)),
        RuleSeverity::Info => rep,
    }
}

/// A report with findings recorded in turn at `severity`.
pub open spec fn record_findings(rep: Report, severity: RuleSeverity, fs: Seq<Finding>) -> Report
    decreases fs.len(),
{
    if fs.len() == 0 {
        rep
    } else {
        record_finding(record_findings(rep, severity, fs.drop_last()), severity, fs.last())
    }
}

/// The report after applying `rules` in turn, or the first rule error.
pub open spec fn apply_rules(rules: Seq<ValidationRule>, data: JsonView, path: Seq<char>, size: Option<u64>, rep: Report) -> Result<
    Report,
    Seq<char>,
>
    decreases rules.len(),
{
    if rules.len() == 0 {
        Ok(rep)
    } else {
        match apply_rules(rules.drop_last(), data, path, size, rep) {
            Ok(r) => match rule_finding(rules.last(), data, path, size) {
                Ok(fs) => Ok(record_findings(r, rules.last().severity, fs)),
                Err(e) => Err(e),
            },
            Err(e) => Err(e),
        }
    }
}

/// The errors of a schema validation, as findings.
pub open spec fn schema_findings(errs: Seq<(Seq<char>, Seq<char>)>) -> Seq<FindingView> {
    errs.map_values(
        |e: (Seq<char>, Seq<char>)|
            (
                "JSON_SCHEMA_ERROR"@,
                e.0,
                Some(e.1),
                Some(JsonView::Object(seq![("error"@, JsonView::Str(e.0)), ("instance_path"@, JsonView::Str(e.1))])),
            ),
    )
}

/// The report of validating `data` against the contract `c`, at `path`
/// with file size `size`: the schema's errors (which make it invalid), then
/// what each rule finds; or the error of a schema or pattern that does not
/// compile.
pub open spec fn contract_report(c: ContractDefinition, data: JsonView, path: Seq<char>, size: Option<u64>) -> Result<
    Report,
    Seq<char>,
> {
    match schema_errors_of(json_text(json_view(c.schema)), json_text(data)) {
        Ok(errs) => apply_rules(c.rules@, data, path, size, (errs.len() == 0, schema_findings(errs), Seq::empty())),
        Err(e) => Err(e),
    }
}

/// `r` reports `rep` for contract `name` with the given hashes.
pub open spec fn result_is(r: ContractValidationResult, rep: Report, name: Seq<char>, schema_hash: Seq<char>, content_hash: Seq<char>) -> bool {
    &&& r.is_valid == rep.0
    &&& errors_view(r.errors@) == rep.1
    &&& warnings_view(r.warnings@) == rep.2
    &&& r.schema_hash@ == schema_hash
    &&& r.content_hash@ == content_hash
    &&& r.validated_by@ == "hooksmith "@ + TOOL_VERSION@
    &&& r.contract_type@ == name
    &&& r.metadata@.len() == 0
}

/// The hash of a JSON value's text.
pub open spec fn json_hash(v: JsonView) -> Seq<char> {
    "sha256:"@ + sha256_hex_of(json_text(v))
}

/// Where the texts a pattern rule checks can be previewed: the cut after
/// the first hundred bytes of each falls between characters.
pub open spec fn targets_previewable(data: JsonView) -> bool {
    forall|k: int|
        0 <= k < pattern_targets(data).len() ==> is_char_boundary(
            encode_utf8(#[trigger] pattern_targets(data)[k]),
            preview_len(pattern_targets(data)[k]),
        )
}

/// Where every pattern rule among `rules` can preview what it checks.
pub open spec fn previews_defined(rules: Seq<ValidationRule>, data: JsonView) -> bool {
    forall|i: int| 0 <= i < rules.len() ==> (#[trigger] rules[i]).rule_type == RuleType::Pattern ==> targets_previewable(data)
}

/// The contract definitions by name, in the order they were first
/// registered.
pub open spec fn contract_entries(v: Seq<(String, ContractDefinition)>) -> Seq<(Seq<char>, ContractDefinition)> {
    v.map_values(|e: (String, ContractDefinition)| (e.0@, e.1))
}

/// A finding as an error.
fn error_of(code: &str, message: String, details: JsonValue) -> (r: ValidationError)
    ensures
        error_view(r) == (code@, message@, None::<Seq<char>>, Some(details@)),
{
    ValidationError { code: code.to_owned(), message, path: None, details: Some(details) }
}

/// Record a finding at a rule's severity.
fn record(result: &mut ContractValidationResult, severity: RuleSeverity, code: &str, message: String, details: JsonValue)
    ensures
        ({
            let before: Report = (old(result).is_valid, errors_view(old(result).errors@), warnings_view(old(result).warnings@));
            let after: Report = (final(result).is_valid, errors_view(final(result).errors@), warnings_view(final(result).warnings@));
            after == record_finding(before, severity, (code@, message@, details@))
        }),
        final(result).schema_hash == old(result).schema_hash,
        final(result).content_hash == old(result).content_hash,
        final(result).validated_by == old(result).validated_by,
        final(result).contract_type == old(result).contract_type,
        final(result).metadata == old(result).metadata,
{
    let ghost e0 = result.errors@;
    let ghost w0 = result.warnings@;
    match severity {
        RuleSeverity::Error | RuleSeverity::Critical => {
            let e = error_of(code, message, details);
            result.errors.push(e);
            result.is_valid = false;
            assert(errors_view(result.errors@) =~= errors_view(e0).push(error_view(e)));
        },
        RuleSeverity::Warning => {
            let w = ValidationWarning { code: code.to_owned(), message, path: None, details: Some(details) };
            result.warnings.push(w);
            assert(warnings_view(result.warnings@) =~= warnings_view(w0).push(warning_view(w)));
        },
        RuleSeverity::Info => {},
    }
}

/// The number a JSON value holds as an unsigned 64-bit integer, if any.
pub fn as_u64(v: &JsonValue) -> (r: Option<u64>)
    ensures
        r == json_u64(v@),
{
    match v {
        JsonValue::Number(t) => {
            let cs = chars_of(t.as_str());
            if cs.len() == 0 {
                return None;
            }
            let mut value: u64 = 0;
            let mut i: usize = 0;
            assert(v@ == JsonView::Number(t@));
            while i < cs.len()
                invariant
                    i <= cs@.len(),
                    cs@ == t@,
                    cs@.len() > 0,
                    v@ == JsonView::Number(t@),
                    value == digits_value(t@.take(i as int)),
                    all_digits(t@.take(i as int)),
                decreases cs@.len() - i,
            {
                let c = cs[i];
                assert(t@.take(i + 1).drop_last() =~= t@.take(i as int));
                assert(t@.take(i + 1).last() == c);
                if c < '0' || c > '9' {
                    assert(!('0' <= t@[i as int] <= '9'));
                    return None;
                }
                let d: u64 = (c as u32 - '0' as u32) as u64;
                match value.checked_mul(10) {
                    Some(v10) => match v10.checked_add(d) {
                        Some(n) => {
                            value = n;
                        },
                        None => {
                            proof {
                                if all_digits(t@) {
                                    crate::hierarchical_validation::lemma_digits_value_grows(t@, i + 1);
                                }
                            }
                            return None;
                        },
                    },
                    None => {
                        proof {
                            if all_digits(t@) {
                                crate::hierarchical_validation::lemma_digits_value_grows(t@, i + 1);
                            }
                        }
                        return None;
                    },
                }
                i = i + 1;
            }
            assert(t@.take(i as int) =~= t@);
            Some(value)
        },
        _ => None,
    }
}

/// The named components of a path.
fn path_parts_of(p: &str) -> (r: Vec<String>)
    ensures
        crate::sarif::texts(r@) == path_parts(p@, Seq::empty()),
{
    let cs = chars_of(p);
    let mut out: Vec<String> = Vec::new();
    let mut cur = String::new();
    let mut i: usize = 0;
    assert(p@.subrange(0, p@.len() as int) =~= p@);
    assert(crate::sarif::texts(out@) =~= Seq::<Seq<char>>::empty());
    assert(cur@ =~= Seq::<char>::empty());
    assert(crate::sarif::texts(out@) + path_parts(p@, cur@) =~= path_parts(p@, Seq::empty()));
    while i < cs.len()
        invariant
            i <= cs@.len(),
            cs@ == p@,
            crate::sarif::texts(out@) + path_parts(p@.subrange(i as int, p@.len() as int), cur@) == path_parts(
                p@,
                Seq::empty(),
            ),
        decreases cs@.len() - i,
    {
        let ghost rest = p@.subrange(i as int, p@.len() as int);
        assert(rest[0] == cs@[i as int]);
        assert(rest.drop_first() =~= p@.subrange(i + 1, p@.len() as int));
        let ghost before = crate::sarif::texts(out@);
        let ghost old_cur = cur@;
        if cs[i] == '/' {
            if cur.unicode_len() > 0 && !str_eq(cur.as_str(), ".") {
                let w = cur;
                out.push(w);
                assert(crate::sarif::texts(out@) =~= before + seq![old_cur]);
            } else {
                assert(before + Seq::<Seq<char>>::empty() =~= before);
            }
            cur = String::new();
            assert(crate::sarif::texts(out@) + path_parts(rest.drop_first(), cur@) =~= before + path_parts(rest, old_cur));
        } else {
            push_char(&mut cur, cs[i]);
            assert(path_parts(rest, old_cur) == path_parts(rest.drop_first(), cur@));
        }
        i = i + 1;
    }
    assert(p@.subrange(p@.len() as int, p@.len() as int) =~= Seq::<char>::empty());
    if cur.unicode_len() > 0 && !str_eq(cur.as_str(), ".") {
        let ghost before = crate::sarif::texts(out@);
        let ghost last = cur@;
        out.push(cur);
        assert(crate::sarif::texts(out@) =~= before + seq![last]);
    } else {
        assert(crate::sarif::texts(out@) + Seq::<Seq<char>>::empty() =~= crate::sarif::texts(out@));
    }
    out
}

/// The last place of `c` in `s`, if any.
fn last_index(s: &Vec<char>, c: char) -> (r: Option<usize>)
    ensures
        match r {
            Some(k) => last_index_of(s@, c) == Some(k as int) && k < s@.len(),
            None => last_index_of(s@, c) is None,
        },
{
    let mut n: usize = s.len();
    assert(s@.take(n as int) =~= s@);
    while n > 0
        invariant
            n <= s@.len(),
            last_index_of(s@, c) == last_index_of(s@.take(n as int), c),
        decreases n,
    {
        let ghost pre = s@.take(n as int);
        assert(pre.last() == s@[n - 1]);
        assert(pre.drop_last() =~= s@.take(n - 1));
        if s[n - 1] == c {
            return Some(n - 1);
        }
        n = n - 1;
    }
    None
}

/// The extension of a path, as `Path::extension` gives it.
pub fn file_extension(path: &str) -> (r: Option<String>)
    ensures
        opt_text(r) == path_extension(path@),
{
    let parts = path_parts_of(path);
    if parts.len() == 0 {
        return None;
    }
    let name = &parts[parts.len() - 1];
    assert(crate::sarif::texts(parts@).last() == name@);
    if str_eq(name.as_str(), "..") {
        return None;
    }
    let cs = chars_of(name.as_str());
    match last_index(&cs, '.') {
        Some(k) => {
            if k == 0 {
                return None;
            }
            assert(k < cs.len());
            let mut ext = String::new();
            let mut j: usize = k + 1;
            while j < cs.len()
                invariant
                    k + 1 <= j <= cs@.len(),
                    ext@ == cs@.subrange(k + 1, j as int),
                decreases cs@.len() - j,
            {
                push_char(&mut ext, cs[j]);
                assert(ext@ =~= cs@.subrange(k + 1, j + 1));
                j = j + 1;
            }
            assert(ext@ =~= name@.skip(k + 1));
            Some(ext)
        },
        None => None,
    }
}

/// The preview of a text: its first (at most a hundred) UTF-8 bytes.
pub fn content_preview(content: &str) -> (r: String)
    requires
        is_char_boundary(encode_utf8(content@), preview_len(content@)),
    ensures
        r@ == preview(content@),
{
    let n = content.as_bytes().len();
    let cut: usize = if n < 100 {
        n
    } else {
        100
    };
    let (head, _) = content.split_at(cut);
    proof {
        vstd::utf8::encode_utf8_decode_utf8(head@);
        assert(head.spec_bytes() =~= encode_utf8(content@).take(preview_len(content@)));
    }
    head.to_owned()
}

/// Whether the preview of a text cuts it between characters.
pub fn preview_cut_ok(content: &str) -> (r: bool)
    ensures
        r == is_char_boundary(encode_utf8(content@), preview_len(content@)),
{
    let n = content.as_bytes().len();
    let cut: usize = if n < 100 {
        n
    } else {
        100
    };
    proof {
        vstd::utf8::encode_utf8_decode_utf8(content@);
    }
    content.is_char_boundary(cut)
}

/// Whether every text a pattern rule would check in `data` can be
/// previewed.
pub fn data_previewable(data: &JsonValue) -> (r: bool)
    ensures
        r == targets_previewable(data@),
{
    match data {
        JsonValue::Str(content) => {
            assert(pattern_targets(data@) =~= seq![content@]);
            assert(pattern_targets(data@)[0] == content@);
            preview_cut_ok(content.as_str())
        },
        JsonValue::Object(fields) => {
            let ghost fv = fields_view(fields@);
            proof {
                crate::json::lemma_fields_view(fields@);
                lemma_string_members_prefix(fv, fv.len() as int);
            }
            assert(fv.take(fv.len() as int) =~= fv);
            assert(data@ == JsonView::Object(fv));
            let mut j: usize = 0;
            while j < fields.len()
                invariant
                    j <= fields@.len(),
                    fv == fields_view(fields@),
                    fv.len() == fields@.len(),
                    forall|m: int| 0 <= m < fields@.len() ==> #[trigger] fv[m] == (fields@[m].0@, json_view(fields@[m].1)),
                    pattern_targets(data@) == string_members(fv),
                    forall|k: int|
                        0 <= k < string_members(fv.take(j as int)).len() ==> is_char_boundary(
                            encode_utf8(#[trigger] string_members(fv.take(j as int))[k]),
                            preview_len(string_members(fv.take(j as int))[k]),
                        ),
                decreases fields@.len() - j,
            {
                let ghost pre = string_members(fv.take(j as int));
                assert(fv.take(j + 1).drop_last() =~= fv.take(j as int));
                assert(fv.take(j + 1).last() == fv[j as int]);
                match &fields[j].1 {
                    JsonValue::Str(c) => {
                        assert(string_members(fv.take(j + 1)) =~= pre.push(c@));
                        proof {
                            lemma_string_members_prefix(fv, j + 1);
                            assert(string_members(fv.take(j + 1))[pre.len() as int] == c@);
                        }
                        if !preview_cut_ok(c.as_str()) {
                            assert(string_members(fv)[pre.len() as int] == c@);
                            return false;
                        }
                    },
                    _ => {
                        assert(string_members(fv.take(j + 1)) =~= pre);
                    },
                }
                j = j + 1;
            }
            true
        },
        _ => {
            assert(pattern_targets(data@) =~= Seq::<Seq<char>>::empty());
            true
        },
    }
}

/// Whether every pattern rule among `rules` can preview what it checks in
/// `data`.
pub fn rules_previewable(rules: &Vec<ValidationRule>, data: &JsonValue) -> (r: bool)
    ensures
        r == previews_defined(rules@, data@),
{
    let mut i: usize = 0;
    while i < rules.len()
        invariant
            i <= rules@.len(),
            forall|k: int| 0 <= k < i ==> (#[trigger] rules@[k]).rule_type != RuleType::Pattern,
        decreases rules@.len() - i,
    {
        match rules[i].rule_type {
            RuleType::Pattern => {
                return data_previewable(data);
            },
            _ => {},
        }
        i = i + 1;
    }
    true
}

/// Whether `ext` is among the string items.
fn lists_extension(items: &Vec<JsonValue>, ext: &String) -> (r: bool)
    ensures
        r == items_view(items@).contains(JsonView::Str(ext@)),
{
    proof {
        crate::json::lemma_items_view(items@);
    }
    let ghost iv = items_view(items@);
    let mut i: usize = 0;
    while i < items.len()
        invariant
            i <= items@.len(),
            iv == items_view(items@),
            iv.len() == items@.len(),
            forall|j: int| 0 <= j < items@.len() ==> #[trigger] iv[j] == json_view(items@[j]),
            forall|j: int| 0 <= j < i ==> iv[j] != JsonView::Str(ext@),
        decreases items@.len() - i,
    {
        match &items[i] {
            JsonValue::Str(e) => {
                if str_eq(e.as_str(), ext.as_str()) {
                    assert(iv[i as int] == JsonView::Str(ext@));
                    return true;
                }
            },
            _ => {},
        }
        i = i + 1;
    }
    false
}


/// The string members of a prefix of the members come first among those
/// of the whole.
proof fn lemma_string_members_prefix(fields: Seq<(Seq<char>, JsonView)>, n: int)
    requires
        0 <= n <= fields.len(),
    ensures
        string_members(fields.take(n)).len() <= string_members(fields).len(),
        forall|k: int|
            0 <= k < string_members(fields.take(n)).len() ==> #[trigger] string_members(fields.take(n))[k]
                == string_members(fields)[k],
    decreases fields.len() - n,
{
    if n < fields.len() {
        lemma_string_members_prefix(fields, n + 1);
        let a = fields.take(n);
        let b = fields.take(n + 1);
        assert(b.drop_last() =~= a);
        assert forall|k: int| 0 <= k < string_members(a).len() implies #[trigger] string_members(a)[k] == string_members(
            fields,
        )[k] by {
            assert(string_members(b)[k] == string_members(a)[k]);
        }
    } else {
        assert(fields.take(n) =~= fields);
    }
}

/// Recording one finding.
proof fn lemma_record_one(rep: Report, severity: RuleSeverity, f: Finding)
    ensures
        record_findings(rep, severity, seq![f]) == record_finding(rep, severity, f),
        record_findings(rep, severity, Seq::empty()) == rep,
{
    reveal_with_fuel(record_findings, 2);
    assert(seq![f].drop_last() =~= Seq::<Finding>::empty());
    assert(seq![f].last() == f);
    assert(record_findings(rep, severity, Seq::empty()) == rep);
}

/// Checking one text against a pattern.
proof fn lemma_pattern_one(p: Seq<char>, c: Seq<char>)
    ensures
        pattern_findings(p, seq![c]) == if regex_match_of(p, c) {
            Seq::<Finding>::empty()
        } else {
            seq![mismatch(p, c)]
        },
{
    reveal_with_fuel(pattern_findings, 2);
    assert(seq![c].drop_last() =~= Seq::<Seq<char>>::empty());
    assert(seq![c].last() == c);
    assert(pattern_findings(p, Seq::empty()) == Seq::<Finding>::empty());
    assert(Seq::<Finding>::empty() + seq![mismatch(p, c)] =~= seq![mismatch(p, c)]);
    assert(Seq::<Finding>::empty() + Seq::<Finding>::empty() =~= Seq::<Finding>::empty());
}

/// Check one text against a compiled pattern, recording a mismatch at
/// `severity`.
fn check_pattern(result: &mut ContractValidationResult, severity: RuleSeverity, p: &String, content: &String)
    requires
        regex_error_of(p@) is None,
        is_char_boundary(encode_utf8(content@), preview_len(content@)),
    ensures
        ({
            let before: Report = (old(result).is_valid, errors_view(old(result).errors@), warnings_view(old(result).warnings@));
            let after: Report = (final(result).is_valid, errors_view(final(result).errors@), warnings_view(final(result).warnings@));
            after == if regex_match_of(p@, content@) {
                before
            } else {
                record_finding(before, severity, mismatch(p@, content@))
            }
        }),
        final(result).schema_hash == old(result).schema_hash,
        final(result).content_hash == old(result).content_hash,
        final(result).validated_by == old(result).validated_by,
        final(result).contract_type == old(result).contract_type,
        final(result).metadata == old(result).metadata,
{
    if !regex_is_match(p.as_str(), content.as_str()) {
        let mut message = "Content does not match pattern: ".to_owned();
        message.append(p.as_str());
        let details = crate::json::object_of_two(
            "content_preview",
            JsonValue::Str(content_preview(content.as_str())),
            "pattern",
            JsonValue::Str(crate::sarif::copy_string(p)),
        );
        record(result, severity, "PATTERN_MISMATCH", message, details);
    }
}

/// Apply a rule to data at a path whose file (where it could be read) has
/// `file_size` bytes: record what the rule finds at its severity, or fail
/// with the error of a pattern that does not compile.
pub fn apply_validation_rule(
    rule: &ValidationRule,
    data: &JsonValue,
    file_path: &str,
    file_size: Option<u64>,
    result: &mut ContractValidationResult,
) -> (r: Result<(), String>)
    requires
        rule.rule_type == RuleType::Pattern ==> targets_previewable(data@),
    ensures
        final(result).schema_hash == old(result).schema_hash,
        final(result).content_hash == old(result).content_hash,
        final(result).validated_by == old(result).validated_by,
        final(result).contract_type == old(result).contract_type,
        final(result).metadata == old(result).metadata,
        ({
            let before: Report = (old(result).is_valid, errors_view(old(result).errors@), warnings_view(old(result).warnings@));
            let after: Report = (final(result).is_valid, errors_view(final(result).errors@), warnings_view(final(result).warnings@));
            match rule_finding(*rule, data@, file_path@, file_size) {
                Ok(fs) => r is Ok && after == record_findings(before, rule.severity, fs),
                Err(e) => r matches Err(m) && m@ == e && after == before,
            }
        }),
{
    let ghost params = fields_view(rule.parameters@);
    match rule.rule_type {
        RuleType::Pattern => {
            match find_member(&rule.parameters, "pattern") {
                Some(JsonValue::Str(p)) => {
                    match regex_error(p.as_str()) {
                        Some(e) => {
                            return Err(e);
                        },
                        None => {},
                    }
                    let ghost before: Report = (result.is_valid, errors_view(result.errors@), warnings_view(result.warnings@));
                    match data {
                        JsonValue::Str(content) => {
                            assert(data@ == JsonView::Str(content@));
                            assert(pattern_targets(data@)[0] == content@);
                            check_pattern(result, rule.severity, p, content);
                            proof {
                                lemma_pattern_one(p@, content@);
                                lemma_record_one(before, rule.severity, mismatch(p@, content@));
                            }
                        },
                        JsonValue::Object(fields) => {
                            let ghost fv = fields_view(fields@);
                            proof {
                                crate::json::lemma_fields_view(fields@);
                            }
                            assert(data@ == JsonView::Object(fv));
                            let mut j: usize = 0;
                            assert(fv.take(0) =~= Seq::<(Seq<char>, JsonView)>::empty());
                            while j < fields.len()
                                invariant
                                    j <= fields@.len(),
                                    fv == fields_view(fields@),
                                    fv.len() == fields@.len(),
                                    forall|m: int| 0 <= m < fields@.len() ==> #[trigger] fv[m] == (fields@[m].0@, json_view(fields@[m].1)),
                                    data@ == JsonView::Object(fv),
                                    regex_error_of(p@) is None,
                                    targets_previewable(data@),
                                    (result.is_valid, errors_view(result.errors@), warnings_view(result.warnings@)) == record_findings(
                                        before,
                                        rule.severity,
                                        pattern_findings(p@, string_members(fv.take(j as int))),
                                    ),
                                    result.schema_hash == old(result).schema_hash,
                                    result.content_hash == old(result).content_hash,
                                    result.validated_by == old(result).validated_by,
                                    result.contract_type == old(result).contract_type,
                                    result.metadata == old(result).metadata,
                                decreases fields@.len() - j,
                            {
                                let ghost pre = string_members(fv.take(j as int));
                                assert(fv.take(j + 1).drop_last() =~= fv.take(j as int));
                                assert(fv.take(j + 1).last() == fv[j as int]);
                                match &fields[j].1 {
                                    JsonValue::Str(c) => {
                                        assert(string_members(fv.take(j + 1)) =~= pre.push(c@));
                                        proof {
                                            lemma_string_members_prefix(fv, j + 1);
                                            let t = pattern_targets(data@);
                                            assert(string_members(fv.take(j + 1))[pre.len() as int] == c@);
                                            assert(t[pre.len() as int] == c@);
                                        }
                                        check_pattern(result, rule.severity, p, c);
                                        assert(pre.push(c@).drop_last() =~= pre);
                                        proof {
                                            let fs0 = pattern_findings(p@, pre);
                                            if !regex_match_of(p@, c@) {
                                                assert(pattern_findings(p@, pre.push(c@)) =~= fs0.push(mismatch(p@, c@)));
                                                assert(fs0.push(mismatch(p@, c@)).drop_last() =~= fs0);
                                            } else {
                                                assert(pattern_findings(p@, pre.push(c@)) =~= fs0);
                                            }
                                        }
                                    },
                                    _ => {
                                        assert(string_members(fv.take(j + 1)) =~= pre);
                                    },
                                }
                                j = j + 1;
                            }
                            assert(fv.take(fields@.len() as int) =~= fv);
                        },
                        _ => {
                            assert(pattern_targets(data@) =~= Seq::<Seq<char>>::empty());
                        },
                    }
                },
                _ => {},
            }
        },
        RuleType::FileSize => {
            match find_member(&rule.parameters, "max_size") {
                Some(v) => {
                    match (as_u64(v), file_size) {
                        (Some(max), Some(size)) => {
                            if size > max {
                                let mut message = "File size ".to_owned();
                                push_decimal(&mut message, size);
                                message.append(" exceeds maximum ");
                                push_decimal(&mut message, max);
                                let details = crate::json::object_of_two(
                                    "file_size",
                                    JsonValue::Number(crate::text::decimal_string(size)),
                                    "max_size",
                                    JsonValue::Number(crate::text::decimal_string(max)),
                                );
                                let ghost before: Report = (result.is_valid, errors_view(result.errors@), warnings_view(result.warnings@));
                                let ghost f: Finding = ("FILE_SIZE_EXCEEDED"@, message@, details@);
                                record(result, rule.severity, "FILE_SIZE_EXCEEDED", message, details);
                                proof {
                                    lemma_record_one(before, rule.severity, f);
                                }
                            }
                        },
                        _ => {},
                    }
                },
                None => {},
            }
        },
        RuleType::FileExtension => {
            match find_member(&rule.parameters, "extensions") {
                Some(v) => {
                    match v {
                        JsonValue::Array(items) => {
                            assert(v@ == JsonView::Array(items_view(items@)));
                            match file_extension(file_path) {
                                Some(ext) => {
                                    if !lists_extension(items, &ext) {
                                        let mut message = "File extension '".to_owned();
                                        message.append(ext.as_str());
                                        message.append("' not allowed");
                                        let details = crate::json::object_of_two(
                                            "allowed_extensions",
                                            v.duplicate(),
                                            "extension",
                                            JsonValue::Str(ext),
                                        );
                                        let ghost before: Report = (result.is_valid, errors_view(result.errors@), warnings_view(result.warnings@));
                                        let ghost f: Finding = ("INVALID_FILE_EXTENSION"@, message@, details@);
                                record(result, rule.severity, "INVALID_FILE_EXTENSION", message, details);
                                        proof {
                                            lemma_record_one(before, rule.severity, f);
                                        }
                                    }
                                },
                                None => {},
                            }
                        },
                        _ => {},
                    }
                },
                None => {},
            }
        },
        _ => {},
    }
    Ok(())
}


/// A rule error ends the whole application: once some prefix of the rules
/// fails, all of them fail with that error.
proof fn lemma_rule_error_stays(
    rules: Seq<ValidationRule>,
    k: int,
    data: JsonView,
    path: Seq<char>,
    size: Option<u64>,
    rep: Report,
    e: Seq<char>,
)
    requires
        0 <= k <= rules.len(),
        apply_rules(rules.take(k), data, path, size, rep) == Err::<Report, Seq<char>>(e),
    ensures
        apply_rules(rules, data, path, size, rep) == Err::<Report, Seq<char>>(e),
    decreases rules.len() - k,
{
    if k < rules.len() {
        assert(rules.take(k + 1).drop_last() =~= rules.take(k));
        lemma_rule_error_stays(rules, k + 1, data, path, size, rep, e);
    } else {
        assert(rules.take(k) =~= rules);
    }
}

/// `r` reports the error `e` of a schema or pattern.
pub open spec fn failed_with(r: Result<ContractValidationResult, String>, e: Seq<char>) -> bool {
    r matches Err(m) && m@ == e
}

/// The outcome of validating `data` at `path` (of file size `size`)
/// against the contract named `name` among `contracts`.
pub open spec fn validation_outcome(
    contracts: Seq<(Seq<char>, ContractDefinition)>,
    name: Seq<char>,
    data: JsonView,
    path: Seq<char>,
    size: Option<u64>,
    r: Result<ContractValidationResult, String>,
) -> bool {
    match crate::sarif_roles::first_key_index(contracts, name) {
        None => failed_with(r, "Contract '"@ + name + "' not found"@),
        Some(i) => {
            let c = contracts[i].1;
            match contract_report(c, data, path, size) {
                Ok(rep) => r matches Ok(res) && result_is(res, rep, name, json_hash(json_view(c.schema)), json_hash(data)),
                Err(e) => failed_with(r, e),
            }
        },
    }
}

/// The JSON Schema errors as findings, appended to `result`'s errors; any
/// error makes the result invalid.
fn push_schema_errors(result: &mut ContractValidationResult, errs: Vec<(String, String)>)
    ensures
        ({
            let ev: Seq<(Seq<char>, Seq<char>)> = errs@.map_values(|e: (String, String)| (e.0@, e.1@));
            &&& final(result).is_valid == (old(result).is_valid && ev.len() == 0)
            &&& errors_view(final(result).errors@) == errors_view(old(result).errors@) + schema_findings(ev)
        }),
        final(result).warnings == old(result).warnings,
        final(result).schema_hash == old(result).schema_hash,
        final(result).content_hash == old(result).content_hash,
        final(result).validated_by == old(result).validated_by,
        final(result).contract_type == old(result).contract_type,
        final(result).metadata == old(result).metadata,
{
    let ghost ev: Seq<(Seq<char>, Seq<char>)> = errs@.map_values(|e: (String, String)| (e.0@, e.1@));
    let ghost e0 = errors_view(result.errors@);
    if errs.len() > 0 {
        result.is_valid = false;
    }
    let mut i: usize = 0;
    while i < errs.len()
        invariant
            i <= errs@.len(),
            ev == errs@.map_values(|e: (String, String)| (e.0@, e.1@)),
            errors_view(result.errors@) == e0 + schema_findings(ev.take(i as int)),
            result.is_valid == (old(result).is_valid && ev.len() == 0),
            result.warnings == old(result).warnings,
            result.schema_hash == old(result).schema_hash,
            result.content_hash == old(result).content_hash,
            result.validated_by == old(result).validated_by,
            result.contract_type == old(result).contract_type,
            result.metadata == old(result).metadata,
        decreases errs@.len() - i,
    {
        let message = crate::sarif::copy_string(&errs[i].0);
        let path = crate::sarif::copy_string(&errs[i].1);
        let details = crate::json::object_of_two(
            "error",
            JsonValue::Str(crate::sarif::copy_string(&errs[i].0)),
            "instance_path",
            JsonValue::Str(crate::sarif::copy_string(&errs[i].1)),
        );
        let e = ValidationError { code: "JSON_SCHEMA_ERROR".to_owned(), message, path: Some(path), details: Some(details) };
        let ghost before = result.errors@;
        result.errors.push(e);
        assert(ev.take(i + 1) =~= ev.take(i as int).push(ev[i as int]));
        assert(errors_view(result.errors@) =~= errors_view(before).push(error_view(e)));
        assert(schema_findings(ev.take(i + 1)) =~= schema_findings(ev.take(i as int)).push(error_view(e)));
        i = i + 1;
    }
    assert(ev.take(errs@.len() as int) =~= ev);
}

/// Contract validator: contract definitions by name, each with its JSON
/// Schema and validation rules.
pub struct ContractValidator {
    contracts: Vec<(String, ContractDefinition)>,
}

impl ContractValidator {
    /// The registered contracts, by name.
    pub closed spec fn contracts(&self) -> Seq<(Seq<char>, ContractDefinition)> {
        contract_entries(self.contracts@)
    }

    /// A validator with no contracts.
    pub fn new() -> (r: Self)
        ensures
            r.contracts().len() == 0,
    {
        let r = ContractValidator { contracts: Vec::new() };
        assert(contract_entries(r.contracts@) =~= Seq::<(Seq<char>, ContractDefinition)>::empty());
        r
    }

    /// Register a contract under its name, replacing one of the same name.
    pub fn register_contract(&mut self, contract: ContractDefinition) -> (r: Result<(), String>)
        ensures
            r is Ok,
            final(self).contracts() == crate::sarif_roles::upsert(old(self).contracts(), contract.name@, contract),
    {
        let ghost before = contract_entries(self.contracts@);
        let ghost t = contract;
        let mut i: usize = 0;
        while i < self.contracts.len()
            invariant
                i <= self.contracts@.len(),
                contract_entries(self.contracts@) == before,
                before == old(self).contracts(),
                crate::sarif_roles::first_key_index(before.subrange(0, i as int), contract.name@) is None,
                t == contract,
            decreases self.contracts@.len() - i,
        {
            assert(before.subrange(0, i + 1).drop_last() =~= before.subrange(0, i as int));
            if str_eq(self.contracts[i].0.as_str(), contract.name.as_str()) {
                proof {
                    assert(before[i as int].0 == contract.name@);
                    assert(crate::sarif_roles::first_key_index(before.subrange(0, i + 1), contract.name@) == Some(i as int));
                    crate::sarif_roles::lemma_first_key_prefix(before, contract.name@, i + 1);
                }
                let name = crate::sarif::copy_string(&contract.name);
                let mut contracts = Vec::new();
                std::mem::swap(&mut contracts, &mut self.contracts);
                contracts.set(i, (name, contract));
                self.contracts = contracts;
                assert(contract_entries(self.contracts@) =~= before.update(i as int, (t.name@, t)));
                return Ok(());
            }
            i = i + 1;
        }
        assert(before.subrange(0, before.len() as int) =~= before);
        let name = crate::sarif::copy_string(&contract.name);
        self.contracts.push((name, contract));
        assert(contract_entries(self.contracts@) =~= before.push((t.name@, t)));
        Ok(())
    }

    /// The contract registered under `name`, if any.
    fn find_contract(&self, name: &str) -> (r: Option<&ContractDefinition>)
        ensures
            match crate::sarif_roles::first_key_index(self.contracts(), name@) {
                Some(i) => r == Some(&self.contracts()[i].1),
                None => r is None,
            },
    {
        let ghost cv = self.contracts();
        let mut i: usize = 0;
        while i < self.contracts.len()
            invariant
                i <= self.contracts@.len(),
                cv == self.contracts(),
                crate::sarif_roles::first_key_index(cv.subrange(0, i as int), name@) is None,
            decreases self.contracts@.len() - i,
        {
            assert(cv.subrange(0, i + 1).drop_last() =~= cv.subrange(0, i as int));
            if str_eq(self.contracts[i].0.as_str(), name) {
                proof {
                    assert(cv[i as int].0 == name@);
                    assert(crate::sarif_roles::first_key_index(cv.subrange(0, i + 1), name@) == Some(i as int));
                    crate::sarif_roles::lemma_first_key_prefix(cv, name@, i + 1);
                }
                return Some(&self.contracts[i].1);
            }
            i = i + 1;
        }
        assert(cv.subrange(0, cv.len() as int) =~= cv);
        None
    }

    /// The hash of a JSON value's text.
    fn compute_hash(v: &JsonValue) -> (r: String)
        ensures
            r@ == json_hash(v@),
    {
        let text = v.to_json_text();
        let digest = sha256_hex(text.as_str());
        let mut r = "sha256:".to_owned();
        r.append(digest.as_str());
        r
    }

    /// Validate as `validate_contract` does where every text a pattern rule
    /// of the contract checks can be previewed; `None` where one cannot (a
    /// preview would cut a character).
    pub fn validate_contract_checked(&self, contract_name: &str, data: &JsonValue, file_path: &str, file_size: Option<
        u64,
    >) -> (r: Option<Result<ContractValidationResult, String>>)
        ensures
            r is None <==> match crate::sarif_roles::first_key_index(self.contracts(), contract_name@) {
                Some(i) => !previews_defined(self.contracts()[i].1.rules@, data@),
                None => false,
            },
            r matches Some(res) ==> validation_outcome(self.contracts(), contract_name@, data@, file_path@, file_size, res),
    {
        match self.find_contract(contract_name) {
            Some(c) => {
                if !rules_previewable(&c.rules, data) {
                    return None;
                }
            },
            None => {},
        }
        Some(self.validate_contract(contract_name, data, file_path, file_size))
    }

    /// Validate `data` at `file_path` against the contract `contract_name`,
    /// where the file (if it could be read) has `file_size` bytes: the
    /// contract's JSON Schema errors, then what each of its rules finds.
    /// An error where no such contract is registered, or where its schema or
    /// a rule's pattern does not compile.
    pub fn validate_contract(&self, contract_name: &str, data: &JsonValue, file_path: &str, file_size: Option<u64>) -> (r:
        Result<ContractValidationResult, String>)
        requires
            match crate::sarif_roles::first_key_index(self.contracts(), contract_name@) {
                Some(i) => previews_defined(self.contracts()[i].1.rules@, data@),
                None => true,
            },
        ensures
            validation_outcome(self.contracts(), contract_name@, data@, file_path@, file_size, r),
    {
        let contract = match self.find_contract(contract_name) {
            Some(c) => c,
            None => {
                let mut m = "Contract '".to_owned();
                m.append(contract_name);
                m.append("' not found");
                return Err(m);
            },
        };
        let mut validated_by = "hooksmith ".to_owned();
        validated_by.append(TOOL_VERSION);
        let mut result = ContractValidationResult {
            is_valid: true,
            errors: Vec::new(),
            warnings: Vec::new(),
            schema_hash: Self::compute_hash(&contract.schema),
            content_hash: Self::compute_hash(data),
            timestamp: utc_now_rfc3339(),
            validated_by,
            contract_type: contract_name.to_owned(),
            metadata: Vec::new(),
        };
        assert(errors_view(result.errors@) =~= Seq::<FindingView>::empty());
        assert(warnings_view(result.warnings@) =~= Seq::<FindingView>::empty());
        let schema_text = contract.schema.to_json_text();
        let data_text = data.to_json_text();
        match schema_errors(schema_text.as_str(), data_text.as_str()) {
            Err(e) => {
                return Err(e);
            },
            Ok(errs) => {
                push_schema_errors(&mut result, errs);
            },
        }
        let ghost rep0: Report = (result.is_valid, errors_view(result.errors@), warnings_view(result.warnings@));
        let rules = &contract.rules;
        assert(contract_report(*contract, data@, file_path@, file_size) == apply_rules(rules@, data@, file_path@, file_size, rep0));
        let mut i: usize = 0;
        assert(apply_rules(rules@.take(0), data@, file_path@, file_size, rep0) == Ok::<Report, Seq<char>>(rep0));
        while i < rules.len()
            invariant
                i <= rules@.len(),
                previews_defined(rules@, data@),
                rules@ == contract.rules@,
                contract_report(*contract, data@, file_path@, file_size) == apply_rules(rules@, data@, file_path@, file_size, rep0),
                match crate::sarif_roles::first_key_index(self.contracts(), contract_name@) {
                    Some(j) => self.contracts()[j].1 == *contract,
                    None => false,
                },
                apply_rules(rules@.take(i as int), data@, file_path@, file_size, rep0) == Ok::<Report, Seq<char>>(
                    (result.is_valid, errors_view(result.errors@), warnings_view(result.warnings@)),
                ),
                result.schema_hash@ == json_hash(contract.schema@),
                result.content_hash@ == json_hash(data@),
                result.validated_by@ == "hooksmith "@ + TOOL_VERSION@,
                result.contract_type@ == contract_name@,
                result.metadata@.len() == 0,
            decreases rules@.len() - i,
        {
            assert(rules@.take(i + 1).drop_last() =~= rules@.take(i as int));
            assert(rules@.take(i + 1).last() == rules@[i as int]);
            assert(rules@[i as int].rule_type == RuleType::Pattern ==> targets_previewable(data@));
            match apply_validation_rule(&rules[i], data, file_path, file_size, &mut result) {
                Ok(()) => {},
                Err(e) => {
                    proof {
                        lemma_rule_error_stays(rules@, i + 1, data@, file_path@, file_size, rep0, e@);
                    }
                    return Err(e);
                },
            }
            i = i + 1;
        }
        assert(rules@.take(rules@.len() as int) =~= rules@);
        Ok(result)
    }

    /// The note that records a validation of `file` at `scope`, for a file
    /// in `state` after `event`, with content hash `hash`.
    pub fn create_validation_note(
        &self,
        file: &str,
        scope: crate::hierarchical_validation::ValidationScope,
        state: &crate::contract_state_machine::ContractState,
        event: &crate::contract_state_machine::TransitionEvent,
        hash: &str,
        validation_result: &ContractValidationResult,
    ) -> (r: crate::hierarchical_validation::ValidationNote)
        ensures
            r.scope@ == scope.kind_name_text(),
            r.file@ == file@,
            r.range is None,
            r.hash@ == hash@,
            r.parent_scope is None,
            r.parent_hash is None,
            r.child_scopes@.len() == 0,
            r.validated == validation_result.is_valid,
            r.validation_errors@.len() == validation_result.errors@.len(),
            forall|i: int|
                0 <= i < r.validation_errors@.len() ==> (#[trigger] r.validation_errors@[i]).message@
                    == validation_result.errors@[i].message@ && r.validation_errors@[i].severity@ == "error"@
                    && r.validation_errors@[i].line is None && r.validation_errors@[i].char is None,
            r.contract_type@ == validation_result.contract_type@,
            r.tool@ == validation_result.validated_by@,
            r.commit_hash is None,
            r.validation_duration_ms == 0,
            fields_view(r.metadata@) == seq![
                ("contract_type"@, JsonView::Str(validation_result.contract_type@)),
                ("event"@, JsonView::Str(event.name_text())),
                ("schema_hash"@, JsonView::Str(validation_result.schema_hash@)),
                ("state"@, JsonView::Str(state.name_text())),
                ("validated_by"@, JsonView::Str(validation_result.validated_by@)),
            ],
    {
        let mut metadata: Vec<(String, JsonValue)> = Vec::new();
        metadata.push(("contract_type".to_owned(), JsonValue::Str(crate::sarif::copy_string(&validation_result.contract_type))));
        metadata.push(("event".to_owned(), JsonValue::Str(event.name().to_owned())));
        metadata.push(("schema_hash".to_owned(), JsonValue::Str(crate::sarif::copy_string(&validation_result.schema_hash))));
        metadata.push(("state".to_owned(), JsonValue::Str(state.name().to_owned())));
        metadata.push(("validated_by".to_owned(), JsonValue::Str(crate::sarif::copy_string(&validation_result.validated_by))));
        proof {
            crate::json::lemma_fields_view(metadata@);
        }
        let mut errors: Vec<crate::hierarchical_validation::ValidationError> = Vec::new();
        let mut i: usize = 0;
        while i < validation_result.errors.len()
            invariant
                i <= validation_result.errors@.len(),
                errors@.len() == i,
                forall|j: int|
                    0 <= j < i ==> (#[trigger] errors@[j]).message@ == validation_result.errors@[j].message@
                        && errors@[j].severity@ == "error"@ && errors@[j].line is None && errors@[j].char is None,
            decreases validation_result.errors@.len() - i,
        {
            errors.push(
                crate::hierarchical_validation::ValidationError {
                    message: crate::sarif::copy_string(&validation_result.errors[i].message),
                    severity: "error".to_owned(),
                    line: None,
                    char: None,
                },
            );
            i = i + 1;
        }
        let r = crate::hierarchical_validation::ValidationNote {
            scope: scope.kind_name().to_owned(),
            file: file.to_owned(),
            range: None,
            hash: hash.to_owned(),
            parent_scope: None,
            parent_hash: None,
            child_scopes: Vec::new(),
            validated: validation_result.is_valid,
            validation_errors: errors,
            contract_type: crate::sarif::copy_string(&validation_result.contract_type),
            tool: crate::sarif::copy_string(&validation_result.validated_by),
            timestamp: utc_now_rfc3339(),
            commit_hash: None,
            validation_duration_ms: 0,
            metadata,
        };
        assert(fields_view(r.metadata@) =~= seq![
            ("contract_type"@, JsonView::Str(validation_result.contract_type@)),
            ("event"@, JsonView::Str(event.name_text())),
            ("schema_hash"@, JsonView::Str(validation_result.schema_hash@)),
            ("state"@, JsonView::Str(state.name_text())),
            ("validated_by"@, JsonView::Str(validation_result.validated_by@)),
        ]);
        r
    }
}

/// Git notes of validations, kept per file.
pub struct GitNotesManager {
    repo_path: String,
}

impl GitNotesManager {
    /// The repository the notes belong to.
    pub closed spec fn repo(&self) -> Seq<char> {
        self.repo_path@
    }

    /// A notes manager for the repository at a path.
    pub fn new(repo_path: String) -> (r: Self)
        ensures
            r.repo() == repo_path@,
    {
        GitNotesManager { repo_path }
    }

    /// The notes reference of a file: `/` in its path written as `_`.
    pub fn note_ref(&self, file_path: &str) -> (r: String)
        ensures
            r@ == crate::agreement_manager::note_ref_of("refs/notes/validation"@, file_path@),
    {
        crate::agreement_manager::note_ref("refs/notes/validation", file_path)
    }

    /// Add a note for a file: the line the operation reports.
    pub fn add_note(&self, file_path: &str, content: &str) -> (r: Result<String, String>)
        ensures
            r matches Ok(line) && line@ == "Would add Git note for "@ + file_path@ + ": "@ + content@,
    {
        let mut line = "Would add Git note for ".to_owned();
        line.append(file_path);
        line.append(": ");
        line.append(content);
        Ok(line)
    }

    /// The note of a file: an empty JSON object, as notes are not read yet.
    pub fn get_note(&self, file_path: &str) -> (r: Result<String, String>)
        ensures
            r matches Ok(note) && note@ == "{}"@,
    {
        Ok("{}".to_owned())
    }
}

} // verus!
