//! Hierarchical contract validation: the nested scopes Char → Line → Chunk
//! → File → Directory → Repository, the parsing of diff hunk headers into
//! changed line ranges, the content hashes that key each validation, the
//! content of a scope, and the bottom-up validation of changes.

use vstd::prelude::*;
use crate::text::{decimal_text, push_decimal, chars_of, push_char};
use crate::outside::{sha256_hex, sha256_hex_of};
use vstd::utf8::{encode_utf8, decode_utf8, is_char_boundary, valid_utf8};
use vstd::string::StringSliceAdditionalSpecFns;

verus! {

/// Validation scope levels in hierarchical order.
#[derive(Debug, Clone, Copy, PartialEq, Eq, Structural, Ord)]
pub enum ValidationScope {
    /// Character-level validation scope
    Char,
    /// Line-level validation scope
    Line,
    /// Chunk-level validation scope (function/block)
    Chunk,
    /// File-level validation scope
    File,
    /// Directory-level validation scope
    Directory,
    /// Repository-level validation scope
    Repository,
}

/// All scopes, bottom-up.
pub open spec fn scope_order() -> Seq<ValidationScope> {
    seq![
        ValidationScope::Char,
        ValidationScope::Line,
        ValidationScope::Chunk,
        ValidationScope::File,
        ValidationScope::Directory,
        ValidationScope::Repository,
    ]
}

impl ValidationScope {
    /// The scope's place in the hierarchy, from 0 for `Char`.
    pub open spec fn rank(self) -> nat {
        match self {
            ValidationScope::Char => 0,
            ValidationScope::Line => 1,
            ValidationScope::Chunk => 2,
            ValidationScope::File => 3,
            ValidationScope::Directory => 4,
            ValidationScope::Repository => 5,
        }
    }

    /// The scope below, if any.
    pub open spec fn parent_spec(self) -> Option<ValidationScope> {
        match self {
            ValidationScope::Char => None,
            ValidationScope::Line => Some(ValidationScope::Char),
            ValidationScope::Chunk => Some(ValidationScope::Line),
            ValidationScope::File => Some(ValidationScope::Chunk),
            ValidationScope::Directory => Some(ValidationScope::File),
            ValidationScope::Repository => Some(ValidationScope::Directory),
        }
    }

    /// The scope above, if any.
    pub open spec fn child_spec(self) -> Option<ValidationScope> {
        match self {
            ValidationScope::Char => Some(ValidationScope::Line),
            ValidationScope::Line => Some(ValidationScope::Chunk),
            ValidationScope::Chunk => Some(ValidationScope::File),
            ValidationScope::File => Some(ValidationScope::Directory),
            ValidationScope::Directory => Some(ValidationScope::Repository),
            ValidationScope::Repository => None,
        }
    }

    /// The contract type of the scope, as text.
    pub open spec fn contract_text(self) -> Seq<char> {
        match self {
            ValidationScope::Char => "char_contract"@,
            ValidationScope::Line => "line_contract"@,
            ValidationScope::Chunk => "blob_contract"@,
            ValidationScope::File => "tree_contract"@,
            ValidationScope::Directory => "tree_filename_chars_contract"@,
            ValidationScope::Repository => "repo_contract"@,
        }
    }

    /// The scope's name in lower case, as text.
    pub open spec fn name_text(self) -> Seq<char> {
        match self {
            ValidationScope::Char => "char"@,
            ValidationScope::Line => "line"@,
            ValidationScope::Chunk => "chunk"@,
            ValidationScope::File => "file"@,
            ValidationScope::Directory => "directory"@,
            ValidationScope::Repository => "repository"@,
        }
    }

    /// The scope below this one, if any.
    pub fn parent(&self) -> (r: Option<ValidationScope>)
        ensures
            r == self.parent_spec(),
    {
        match self {
            ValidationScope::Char => None,
            ValidationScope::Line => Some(ValidationScope::Char),
            ValidationScope::Chunk => Some(ValidationScope::Line),
            ValidationScope::File => Some(ValidationScope::Chunk),
            ValidationScope::Directory => Some(ValidationScope::File),
            ValidationScope::Repository => Some(ValidationScope::Directory),
        }
    }

    /// The scope above this one, if any.
    pub fn child(&self) -> (r: Option<ValidationScope>)
        ensures
            r == self.child_spec(),
    {
        match self {
            ValidationScope::Char => Some(ValidationScope::Line),
            ValidationScope::Line => Some(ValidationScope::Chunk),
            ValidationScope::Chunk => Some(ValidationScope::File),
            ValidationScope::File => Some(ValidationScope::Directory),
            ValidationScope::Directory => Some(ValidationScope::Repository),
            ValidationScope::Repository => None,
        }
    }

    /// All scopes in hierarchical order, bottom-up.
    pub fn hierarchy() -> (r: Vec<ValidationScope>)
        ensures
            r@ == scope_order(),
    {
        let r = vec![
            ValidationScope::Char,
            ValidationScope::Line,
            ValidationScope::Chunk,
            ValidationScope::File,
            ValidationScope::Directory,
            ValidationScope::Repository,
        ];
        assert(r@ =~= scope_order());
        r
    }

    /// The contract type of the scope.
    pub fn contract_type(&self) -> (r: &'static str)
        ensures
            r@ == self.contract_text(),
    {
        match self {
            ValidationScope::Char => "char_contract",
            ValidationScope::Line => "line_contract",
            ValidationScope::Chunk => "blob_contract",
            ValidationScope::File => "tree_contract",
            ValidationScope::Directory => "tree_filename_chars_contract",
            ValidationScope::Repository => "repo_contract",
        }
    }

    /// The scope's name in lower case.
    pub fn name(&self) -> (r: &'static str)
        ensures
            r@ == self.name_text(),
    {
        match self {
            ValidationScope::Char => "char",
            ValidationScope::Line => "line",
            ValidationScope::Chunk => "chunk",
            ValidationScope::File => "file",
            ValidationScope::Directory => "directory",
            ValidationScope::Repository => "repository",
        }
    }


    /// The scope's name as written in the type, as text.
    pub open spec fn kind_name_text(self) -> Seq<char> {
        match self {
            ValidationScope::Char => "Char"@,
            ValidationScope::Line => "Line"@,
            ValidationScope::Chunk => "Chunk"@,
            ValidationScope::File => "File"@,
            ValidationScope::Directory => "Directory"@,
            ValidationScope::Repository => "Repository"@,
        }
    }

    /// The scope's name as written in the type.
    pub fn kind_name(&self) -> (r: &'static str)
        ensures
            r@ == self.kind_name_text(),
    {
        match self {
            ValidationScope::Char => "Char",
            ValidationScope::Line => "Line",
            ValidationScope::Chunk => "Chunk",
            ValidationScope::File => "File",
            ValidationScope::Directory => "Directory",
            ValidationScope::Repository => "Repository",
        }
    }

    /// The scope's place in the hierarchy, from 0 for `Char`.
    pub fn rank_of(&self) -> (r: u8)
        ensures
            r == self.rank(),
    {
        match self {
            ValidationScope::Char => 0,
            ValidationScope::Line => 1,
            ValidationScope::Chunk => 2,
            ValidationScope::File => 3,
            ValidationScope::Directory => 4,
            ValidationScope::Repository => 5,
        }
    }
}

/// Content range for validation.
#[derive(Debug, Clone, Copy, PartialEq, Eq, Structural)]
pub struct ContentRange {
    /// Starting line number (1-indexed)
    pub start_line: usize,
    /// Ending line number (1-indexed)
    pub end_line: usize,
    /// Starting character position (0-indexed)
    pub start_char: Option<usize>,
    /// Ending character position (0-indexed)
    pub end_char: Option<usize>,
}

/// A whitespace character, as Unicode's White_Space property has it.
pub open spec fn is_space(c: char) -> bool {
    ||| c == ' '
    ||| '\t' <= c <= '\r'
    ||| c == '\u{85}'
    ||| c == '\u{a0}'
    ||| c == '\u{1680}'
    ||| '\u{2000}' <= c <= '\u{200a}'
    ||| c == '\u{2028}'
    ||| c == '\u{2029}'
    ||| c == '\u{202f}'
    ||| c == '\u{205f}'
    ||| c == '\u{3000}'
}

/// Whether a character is whitespace.
pub fn char_is_space(c: char) -> (r: bool)
    ensures
        r == is_space(c),
{
    c == ' ' || ('\t' <= c && c <= '\r') || c == '\u{85}' || c == '\u{a0}' || c == '\u{1680}' || ('\u{2000}' <= c && c
        <= '\u{200a}') || c == '\u{2028}' || c == '\u{2029}' || c == '\u{202f}' || c == '\u{205f}' || c == '\u{3000}'
}

/// The whitespace-separated words of `s`, where `cur` is the word read so
/// far.
pub open spec fn words_from(s: Seq<char>, cur: Seq<char>) -> Seq<Seq<char>>
    decreases s.len(),
{
    if s.len() == 0 {
        if cur.len() == 0 {
            Seq::empty()
        } else {
            seq![cur]
        }
    } else if is_space(s[0]) {
        (if cur.len() == 0 {
            Seq::<Seq<char>>::empty()
        } else {
            seq![cur]
        }) + words_from(s.drop_first(), Seq::empty())
    } else {
        words_from(s.drop_first(), cur.push(s[0]))
    }
}

/// The whitespace-separated words of `s`, in order.
pub open spec fn words(s: Seq<char>) -> Seq<Seq<char>> {
    words_from(s, Seq::empty())
}

/// The words of a text, in order.
pub fn split_words(s: &str) -> (r: Vec<String>)
    ensures
        crate::sarif::texts(r@) == words(s@),
{
    let cs = chars_of(s);
    let mut out: Vec<String> = Vec::new();
    let mut cur = String::new();
    let mut i: usize = 0;
    assert(s@.subrange(0, s@.len() as int) =~= s@);
    assert(crate::sarif::texts(out@) =~= Seq::<Seq<char>>::empty());
    assert(cur@ =~= Seq::<char>::empty());
    assert(crate::sarif::texts(out@) + words(s@) =~= words(s@));
    while i < cs.len()
        invariant
            i <= cs@.len(),
            cs@ == s@,
            crate::sarif::texts(out@) + words_from(s@.subrange(i as int, s@.len() as int), cur@) == words(s@),
        decreases cs@.len() - i,
    {
        let ghost rest = s@.subrange(i as int, s@.len() as int);
        assert(rest[0] == cs@[i as int]);
        assert(rest.drop_first() =~= s@.subrange(i + 1, s@.len() as int));
        let ghost before = crate::sarif::texts(out@);
        let ghost old_cur = cur@;
        if char_is_space(cs[i]) {
            if cur.unicode_len() > 0 {
                let w = cur;
                out.push(w);
                cur = String::new();
                assert(crate::sarif::texts(out@) =~= before + seq![old_cur]);
            } else {
                cur = String::new();
            }
            assert(crate::sarif::texts(out@) + words_from(rest.drop_first(), cur@) =~= before + words_from(rest, old_cur));
        } else {
            push_char(&mut cur, cs[i]);
            assert(words_from(rest, old_cur) == words_from(rest.drop_first(), cur@));
        }
        i = i + 1;
    }
    assert(s@.subrange(s@.len() as int, s@.len() as int) =~= Seq::<char>::empty());
    if cur.unicode_len() > 0 {
        let ghost before = crate::sarif::texts(out@);
        out.push(cur);
        assert(crate::sarif::texts(out@) =~= before + seq![out@[out@.len() - 1]@]);
    } else {
        assert(crate::sarif::texts(out@) + Seq::<Seq<char>>::empty() =~= crate::sarif::texts(out@));
    }
    out
}

/// Whether every character of `s` is an ASCII digit.
pub open spec fn all_digits(s: Seq<char>) -> bool {
    forall|i: int| 0 <= i < s.len() ==> '0' <= #[trigger] s[i] <= '9'
}

/// The number that the decimal digits `s` write.
pub open spec fn digits_value(s: Seq<char>) -> nat
    decreases s.len(),
{
    if s.len() == 0 {
        0
    } else {
        digits_value(s.drop_last()) * 10 + ((s.last() as int - '0' as int) as nat)
    }
}

/// The unsigned number a text parses to, as `usize::from_str` reads it: an
/// optional `+`, then one or more decimal digits, of a value that fits.
pub open spec fn parse_usize_spec(s: Seq<char>) -> Option<usize> {
    let d = if s.len() > 0 && s[0] == '+' {
        s.drop_first()
    } else {
        s
    };
    if d.len() == 0 || !all_digits(d) || digits_value(d) > usize::MAX {
        None
    } else {
        Some(digits_value(d) as usize)
    }
}

/// A longer run of digits writes no smaller a number.
pub(crate) proof fn lemma_digits_value_grows(s: Seq<char>, k: int)
    requires
        0 <= k <= s.len(),
        all_digits(s),
    ensures
        digits_value(s.take(k)) <= digits_value(s),
    decreases s.len() - k,
{
    if k < s.len() {
        lemma_digits_value_grows(s, k + 1);
        assert(s.take(k + 1).drop_last() =~= s.take(k));
        assert(s.take(k + 1).last() == s[k]);
    } else {
        assert(s.take(k) =~= s);
    }
}

/// Parse an unsigned number as `usize::from_str` does.
pub fn parse_usize(s: &str) -> (r: Option<usize>)
    ensures
        r == parse_usize_spec(s@),
{
    let cs = chars_of(s);
    let start: usize = if cs.len() > 0 && cs[0] == '+' {
        1
    } else {
        0
    };
    let ghost d = if s@.len() > 0 && s@[0] == '+' {
        s@.drop_first()
    } else {
        s@
    };
    assert(d =~= s@.subrange(start as int, s@.len() as int));
    if start == cs.len() {
        assert(d.len() == 0);
        return None;
    }
    let mut value: usize = 0;
    let mut i: usize = start;
    while i < cs.len()
        invariant
            start <= i <= cs@.len(),
            cs@ == s@,
            d == s@.subrange(start as int, s@.len() as int),
            d == (if s@.len() > 0 && s@[0] == '+' {
                s@.drop_first()
            } else {
                s@
            }),
            value == digits_value(d.take(i - start)),
            all_digits(d.take(i - start)),
        decreases cs@.len() - i,
    {
        let c = cs[i];
        assert(d[i - start] == c);
        assert(d.take(i - start + 1).drop_last() =~= d.take(i - start));
        assert(d.take(i - start + 1).last() == c);
        if c < '0' || c > '9' {
            assert(!('0' <= d[i - start] <= '9'));
            assert(!all_digits(d));
            return None;
        }
        let digit: usize = (c as u32 - '0' as u32) as usize;
        let next = match value.checked_mul(10) {
            Some(v) => v.checked_add(digit),
            None => None,
        };
        match next {
            Some(v) => {
                value = v;
            },
            None => {
                proof {
                    assert(digits_value(d.take(i - start + 1)) > usize::MAX);
                    if all_digits(d) {
                        lemma_digits_value_grows(d, i - start + 1);
                    }
                }
                return None;
            },
        }
        i = i + 1;
    }
    assert(d.take(i - start) =~= d);
    Some(value)
}

/// The first place of `c` in `s`, if any.
pub open spec fn first_index_of(s: Seq<char>, c: char) -> Option<int>
    decreases s.len(),
{
    if s.len() == 0 {
        None
    } else if s[0] == c {
        Some(0)
    } else {
        match first_index_of(s.drop_first(), c) {
            Some(k) => Some(k + 1),
            None => None,
        }
    }
}

/// The numbers of a hunk header's new-file range (`+start,count` or
/// `+start`, the header's third word), where they parse.
pub open spec fn hunk_numbers(h: Seq<char>) -> Option<(usize, Option<usize>)> {
    let w = words(h);
    if w.len() < 3 || w[2].len() == 0 || w[2][0] != '+' {
        None
    } else {
        let rs = w[2].drop_first();
        match first_index_of(rs, ',') {
            Some(k) => match (parse_usize_spec(rs.take(k)), parse_usize_spec(rs.skip(k + 1))) {
                (Some(a), Some(c)) => Some((a, Some(c))),
                _ => None,
            },
            None => match parse_usize_spec(rs) {
                Some(a) => Some((a, None)),
                None => None,
            },
        }
    }
}

/// A hunk header whose range ends within the machine's numbers: a start and
/// count that add up to at least one and at most `usize::MAX`.
pub open spec fn hunk_fits(h: Seq<char>) -> bool {
    match hunk_numbers(h) {
        Some((a, Some(c))) => 1 <= a + c <= usize::MAX,
        _ => true,
    }
}

/// The line range a hunk header gives, if it parses.
pub open spec fn hunk_range(h: Seq<char>) -> Option<ContentRange> {
    match hunk_numbers(h) {
        Some((a, Some(c))) => Some(
            ContentRange { start_line: a, end_line: (a + c - 1) as usize, start_char: None, end_char: None },
        ),
        Some((a, None)) => Some(ContentRange { start_line: a, end_line: a, start_char: None, end_char: None }),
        None => None,
    }
}

/// The first place of `c` in `s`, if any.
fn find_char(s: &Vec<char>, c: char) -> (r: Option<usize>)
    ensures
        match r {
            Some(k) => first_index_of(s@, c) == Some(k as int) && k < s@.len(),
            None => first_index_of(s@, c) is None,
        },
{
    let mut i: usize = 0;
    assert(s@.subrange(0, s@.len() as int) =~= s@);
    while i < s.len()
        invariant
            i <= s@.len(),
            first_index_of(s@, c) == match first_index_of(s@.subrange(i as int, s@.len() as int), c) {
                Some(k) => Some(k + i),
                None => None::<int>,
            },
        decreases s@.len() - i,
    {
        let ghost rest = s@.subrange(i as int, s@.len() as int);
        assert(rest[0] == s@[i as int]);
        assert(rest.drop_first() =~= s@.subrange(i + 1, s@.len() as int));
        if s[i] == c {
            return Some(i);
        }
        i = i + 1;
    }
    None
}

/// The text of `cs` from `from` up to `to`.
fn text_between(cs: &Vec<char>, from: usize, to: usize) -> (r: String)
    requires
        from <= to <= cs@.len(),
    ensures
        r@ == cs@.subrange(from as int, to as int),
{
    let mut r = String::new();
    let mut i: usize = from;
    while i < to
        invariant
            from <= i <= to,
            to <= cs@.len(),
            r@ == cs@.subrange(from as int, i as int),
        decreases to - i,
    {
        push_char(&mut r, cs[i]);
        assert(r@ =~= cs@.subrange(from as int, i + 1));
        i = i + 1;
    }
    r
}

/// Parse a hunk header such as `@@ -42,1 +42,1 @@` into the range of new
/// lines it covers: from the start to start + count - 1, or the one start
/// line where no count is given.
pub fn parse_hunk_header(header: &str) -> (r: Option<ContentRange>)
    requires
        hunk_fits(header@),
    ensures
        r == hunk_range(header@),
{
    let parts = split_words(header);
    if parts.len() < 3 {
        return None;
    }
    let nr = chars_of(parts[2].as_str());
    assert(nr@ == words(header@)[2]);
    if nr.len() == 0 || nr[0] != '+' {
        return None;
    }
    let ghost rs = nr@.drop_first();
    let range_chars = text_between(&nr, 1, nr.len());
    assert(range_chars@ =~= rs);
    let rc = chars_of(range_chars.as_str());
    assert(rc@ == rs);
    assert(words(header@).len() >= 3 && words(header@)[2] == nr@);
    match find_char(&rc, ',') {
        Some(k) => {
            let first = text_between(&rc, 0, k);
            let second = text_between(&rc, k + 1, rc.len());
            assert(first@ =~= rs.take(k as int));
            assert(second@ =~= rs.skip(k + 1));
            let start_line = match parse_usize(first.as_str()) {
                Some(a) => a,
                None => {
                    return None;
                },
            };
            let count = match parse_usize(second.as_str()) {
                Some(c) => c,
                None => {
                    return None;
                },
            };
            assert(hunk_numbers(header@) == Some((start_line, Some(count))));
            Some(ContentRange { start_line, end_line: start_line + count - 1, start_char: None, end_char: None })
        },
        None => {
            match parse_usize(range_chars.as_str()) {
                Some(a) => Some(ContentRange { start_line: a, end_line: a, start_char: None, end_char: None }),
                None => None,
            }
        },
    }
}

/// The text a range adds to hashed content: its lines and characters,
/// with 0 for a character position that is absent.
pub open spec fn range_suffix(range: Option<ContentRange>) -> Seq<char> {
    match range {
        Some(r) => decimal_text(r.start_line as nat) + ":"@ + decimal_text(r.end_line as nat) + ":"@ + decimal_text(
            (match r.start_char {
                Some(c) => c,
                None => 0,
            }) as nat,
        ) + ":"@ + decimal_text(
            (match r.end_char {
                Some(c) => c,
                None => 0,
            }) as nat,
        ),
        None => Seq::empty(),
    }
}

/// The hash that keys validated content: `sha256:` and the SHA-256 of the
/// content followed by its range.
pub open spec fn content_hash(content: Seq<char>, range: Option<ContentRange>) -> Seq<char> {
    "sha256:"@ + sha256_hex_of(content + range_suffix(range))
}

/// The hash of content within a range.
pub fn get_content_hash(content: &str, range: &Option<ContentRange>) -> (r: String)
    ensures
        r@ == content_hash(content@, *range),
        r@.len() == 71,
{
    let mut text = content.to_owned();
    match range {
        Some(rg) => {
            push_decimal(&mut text, rg.start_line as u64);
            text.append(":");
            push_decimal(&mut text, rg.end_line as u64);
            text.append(":");
            let sc: usize = match rg.start_char {
                Some(c) => c,
                None => 0,
            };
            let ec: usize = match rg.end_char {
                Some(c) => c,
                None => 0,
            };
            push_decimal(&mut text, sc as u64);
            text.append(":");
            push_decimal(&mut text, ec as u64);
        },
        None => {},
    }
    assert(text@ =~= content@ + range_suffix(*range));
    let digest = sha256_hex(text.as_str());
    let mut r = "sha256:".to_owned();
    r.append(digest.as_str());
    proof {
        reveal_strlit("sha256:");
    }
    r
}

/// A line as `str::lines` gives it: without its `\n`, and without a `\r`
/// just before that.
pub open spec fn strip_cr(line: Seq<char>) -> Seq<char> {
    if line.len() > 0 && line.last() == '\r' {
        line.drop_last()
    } else {
        line
    }
}

/// The lines of `s`, where `cur` is the line read so far.
pub open spec fn lines_from(s: Seq<char>, cur: Seq<char>) -> Seq<Seq<char>>
    decreases s.len(),
{
    if s.len() == 0 {
        if cur.len() == 0 {
            Seq::empty()
        } else {
            seq![cur]
        }
    } else if s[0] == '\n' {
        seq![strip_cr(cur)] + lines_from(s.drop_first(), Seq::empty())
    } else {
        lines_from(s.drop_first(), cur.push(s[0]))
    }
}

/// The lines of a text, as `str::lines` gives them.
pub open spec fn text_lines(s: Seq<char>) -> Seq<Seq<char>> {
    lines_from(s, Seq::empty())
}

/// The lines of a text.
pub fn split_lines(s: &str) -> (r: Vec<String>)
    ensures
        crate::sarif::texts(r@) == text_lines(s@),
{
    let cs = chars_of(s);
    let mut out: Vec<String> = Vec::new();
    let mut cur = String::new();
    let mut i: usize = 0;
    assert(s@.subrange(0, s@.len() as int) =~= s@);
    assert(crate::sarif::texts(out@) =~= Seq::<Seq<char>>::empty());
    assert(cur@ =~= Seq::<char>::empty());
    assert(crate::sarif::texts(out@) + text_lines(s@) =~= text_lines(s@));
    while i < cs.len()
        invariant
            i <= cs@.len(),
            cs@ == s@,
            crate::sarif::texts(out@) + lines_from(s@.subrange(i as int, s@.len() as int), cur@) == text_lines(s@),
        decreases cs@.len() - i,
    {
        let ghost rest = s@.subrange(i as int, s@.len() as int);
        assert(rest[0] == cs@[i as int]);
        assert(rest.drop_first() =~= s@.subrange(i + 1, s@.len() as int));
        let ghost before = crate::sarif::texts(out@);
        let ghost old_cur = cur@;
        if cs[i] == '\n' {
            let cc = chars_of(cur.as_str());
            let line = if cc.len() > 0 && cc[cc.len() - 1] == '\r' {
                text_between(&cc, 0, cc.len() - 1)
            } else {
                cur
            };
            assert(line@ =~= strip_cr(old_cur));
            out.push(line);
            cur = String::new();
            assert(crate::sarif::texts(out@) =~= before + seq![strip_cr(old_cur)]);
            assert(crate::sarif::texts(out@) + lines_from(rest.drop_first(), cur@) =~= before + lines_from(rest, old_cur));
        } else {
            push_char(&mut cur, cs[i]);
            assert(lines_from(rest, old_cur) == lines_from(rest.drop_first(), cur@));
        }
        i = i + 1;
    }
    assert(s@.subrange(s@.len() as int, s@.len() as int) =~= Seq::<char>::empty());
    if cur.unicode_len() > 0 {
        let ghost before = crate::sarif::texts(out@);
        let ghost last = cur@;
        out.push(cur);
        assert(crate::sarif::texts(out@) =~= before + seq![last]);
    } else {
        assert(crate::sarif::texts(out@) + Seq::<Seq<char>>::empty() =~= crate::sarif::texts(out@));
    }
    out
}

/// Lines joined with `\n` between them.
pub open spec fn join_lines(ls: Seq<Seq<char>>) -> Seq<char>
    decreases ls.len(),
{
    if ls.len() == 0 {
        Seq::empty()
    } else if ls.len() == 1 {
        ls[0]
    } else {
        join_lines(ls.drop_last()) + seq!['\n'] + ls.last()
    }
}

/// The line and byte positions a character range selects, where it selects
/// one: a range with both character positions, whose start line exists,
/// and whose positions lie within that line's UTF-8 bytes (the start before
/// the end of the line).
pub open spec fn char_selection(content: Seq<char>, range: Option<ContentRange>) -> Option<(Seq<char>, int, int)> {
    match range {
        Some(r) => match (r.start_char, r.end_char) {
            (Some(st), Some(en)) => {
                let ls = text_lines(content);
                if 1 <= r.start_line <= ls.len() {
                    let line = ls[r.start_line - 1];
                    let n = encode_utf8(line).len();
                    if st < n && en <= n {
                        Some((line, st as int, en as int))
                    } else {
                        None
                    }
                } else {
                    None
                }
            },
            _ => None,
        },
        None => None,
    }
}

/// The lines a line range selects, where it selects them: a range whose
/// start and end lines both exist.
pub open spec fn line_selection(content: Seq<char>, range: Option<ContentRange>) -> Option<Seq<char>> {
    match range {
        Some(r) => {
            let ls = text_lines(content);
            if r.start_line <= ls.len() && r.end_line <= ls.len() {
                Some(join_lines(ls.subrange(r.start_line - 1, r.end_line as int)))
            } else {
                None
            }
        },
        None => None,
    }
}

/// The inputs on which taking a scope's content is defined: a character
/// range starts on a line from 1 and selects whole characters, start
/// before end; a line range starts on a line from 1, no later than one past
/// its end.
pub open spec fn scope_content_defined(content: Seq<char>, range: Option<ContentRange>, scope: ValidationScope) -> bool {
    match scope {
        ValidationScope::Char => match range {
            Some(r) => match (r.start_char, r.end_char) {
                (Some(st), Some(en)) => r.start_line <= text_lines(content).len() ==> (r.start_line >= 1 && (match char_selection(content, range) {
                    Some((line, a, b)) => a <= b && is_char_boundary(encode_utf8(line), a) && is_char_boundary(encode_utf8(line), b),
                    None => true,
                })),
                _ => true,
            },
            None => true,
        },
        ValidationScope::Line => match range {
            Some(r) => r.start_line <= text_lines(content).len() && r.end_line <= text_lines(content).len() ==> 1 <= r.start_line <= r.end_line + 1,
            None => true,
        },
        _ => true,
    }
}

/// The content of a scope: the selected characters of a line, the selected
/// lines, or else the whole content.
pub open spec fn scope_content(content: Seq<char>, range: Option<ContentRange>, scope: ValidationScope) -> Seq<char> {
    match scope {
        ValidationScope::Char => match char_selection(content, range) {
            Some((line, a, b)) => decode_utf8(encode_utf8(line).subrange(a, b)),
            None => content,
        },
        ValidationScope::Line => match line_selection(content, range) {
            Some(t) => t,
            None => content,
        },
        _ => content,
    }
}

/// A boundary inside a prefix that ends on a boundary is a boundary of the
/// whole.
proof fn lemma_prefix_boundary(bytes: Seq<u8>, a: int, b: int)
    requires
        valid_utf8(bytes),
        0 <= a <= b <= bytes.len(),
        is_char_boundary(bytes, a),
        is_char_boundary(bytes, b),
    ensures
        valid_utf8(bytes.subrange(0, b)),
        is_char_boundary(bytes.subrange(0, b), a),
{
    let p = bytes.subrange(0, b);
    vstd::utf8::valid_utf8_split(bytes, b);
    if a < b {
        vstd::utf8::is_char_boundary_iff_not_is_continuation_byte(bytes, a);
        vstd::utf8::is_char_boundary_iff_not_is_continuation_byte(p, a);
        assert(p[a] == bytes[a]);
    } else {
        vstd::utf8::is_char_boundary_start_end_of_seq(p);
    }
}

/// The lines `from` to `to` joined with `\n`.
fn join_range(ls: &Vec<String>, from: usize, to: usize) -> (r: String)
    requires
        from <= to <= ls@.len(),
    ensures
        r@ == join_lines(crate::sarif::texts(ls@).subrange(from as int, to as int)),
{
    let mut r = String::new();
    let mut i: usize = from;
    while i < to
        invariant
            from <= i <= to,
            to <= ls@.len(),
            r@ == join_lines(crate::sarif::texts(ls@).subrange(from as int, i as int)),
        decreases to - i,
    {
        let ghost t = crate::sarif::texts(ls@);
        assert(t.subrange(from as int, i + 1).drop_last() =~= t.subrange(from as int, i as int));
        if i > from {
            push_char(&mut r, '\n');
        }
        r.append(ls[i].as_str());
        assert(r@ =~= join_lines(t.subrange(from as int, i + 1)));
        i = i + 1;
    }
    r
}

/// The content of a scope: for a character scope the range's characters on
/// its start line, for a line scope the range's lines joined with `\n`,
/// where the range selects them; otherwise the whole content.
pub fn extract_scope_content(content: &str, range: &Option<ContentRange>, scope: ValidationScope) -> (r: String)
    requires
        scope_content_defined(content@, *range, scope),
    ensures
        r@ == scope_content(content@, *range, scope),
{
    match scope {
        ValidationScope::Char => {
            match range {
                Some(rg) => {
                    match (rg.start_char, rg.end_char) {
                        (Some(start), Some(end)) => {
                            let lines = split_lines(content);
                            if rg.start_line <= lines.len() {
                                let line = lines[rg.start_line - 1].as_str();
                                let n = line.as_bytes().len();
                                assert(line@ == text_lines(content@)[rg.start_line - 1]);
                                if start < n && end <= n {
                                    proof {
                                        vstd::utf8::encode_utf8_valid_utf8(line@);
                                        lemma_prefix_boundary(encode_utf8(line@), start as int, end as int);
                                    }
                                    let (head, _) = line.split_at(end);
                                    let (_, part) = head.split_at(start);
                                    proof {
                                        vstd::utf8::encode_utf8_decode_utf8(part@);
                                        assert(part.spec_bytes() =~= encode_utf8(line@).subrange(start as int, end as int));
                                    }
                                    return part.to_owned();
                                }
                                assert(n == encode_utf8(line@).len());
                                assert(char_selection(content@, *range) is None);
                            } else {
                                assert(char_selection(content@, *range) is None);
                            }
                            content.to_owned()
                        },
                        _ => content.to_owned(),
                    }
                },
                None => content.to_owned(),
            }
        },
        ValidationScope::Line => {
            match range {
                Some(rg) => {
                    let lines = split_lines(content);
                    if rg.start_line <= lines.len() && rg.end_line <= lines.len() {
                        return join_range(&lines, rg.start_line - 1, rg.end_line);
                    }
                    content.to_owned()
                },
                None => content.to_owned(),
            }
        },
        _ => content.to_owned(),
    }
}

/// Validation error information.
#[derive(Debug, Clone)]
pub struct ValidationError {
    /// Error message
    pub message: String,
    /// Error severity level
    pub severity: String,
    /// Line number where error occurred
    pub line: Option<usize>,
    /// Character position where error occurred
    pub char: Option<usize>,
}

/// Child scope reference in the validation hierarchy.
#[derive(Debug, Clone)]
pub struct ChildScope {
    /// The scope type
    pub scope: String,
    /// SHA256 hash of the child scope content
    pub hash: String,
}

/// A validation record, as stored in Git notes.
#[derive(Debug, Clone)]
pub struct ValidationNote {
    /// The validation scope level
    pub scope: String,
    /// The file path relative to repository root
    pub file: String,
    /// The range of content being validated
    pub range: Option<ContentRange>,
    /// SHA256 hash of the validated content
    pub hash: String,
    /// The parent scope that contains this scope
    pub parent_scope: Option<String>,
    /// SHA256 hash of the parent scope content
    pub parent_hash: Option<String>,
    /// Child scope hashes that contribute to this scope
    pub child_scopes: Vec<ChildScope>,
    /// Whether the content passed validation
    pub validated: bool,
    /// Validation errors if validation failed
    pub validation_errors: Vec<ValidationError>,
    /// Type of contract being validated
    pub contract_type: String,
    /// Name and version of the validation tool
    pub tool: String,
    /// ISO 8601 timestamp of when validation was performed
    pub timestamp: String,
    /// Git commit hash where this validation was performed
    pub commit_hash: Option<String>,
    /// Time taken for validation in milliseconds
    pub validation_duration_ms: u64,
    /// Additional metadata about the validation, in key order
    pub metadata: Vec<(String, crate::json::JsonValue)>,
}

/// A detected change: the smallest scope it affects.
#[derive(Debug, Clone)]
pub struct ChangeScope {
    /// The file that was changed
    pub file: String,
    /// The scope level of the change
    pub scope: ValidationScope,
    /// The range of content that was changed
    pub range: Option<ContentRange>,
    /// The content of the changed file
    pub content: String,
}

/// The result of validating a scope, with the result of the scope below.
#[derive(Debug)]
pub struct ValidationResult {
    /// The scope that was validated
    pub scope: ValidationScope,
    /// The file that was validated
    pub file: String,
    /// The range of content that was validated
    pub range: Option<ContentRange>,
    /// SHA256 hash of the validated content
    pub hash: String,
    /// Whether the validation passed
    pub validated: bool,
    /// List of validation errors
    pub errors: Vec<ValidationError>,
    /// Time taken for validation in milliseconds
    pub duration_ms: u64,
    /// Results from child scope validations
    pub child_results: Vec<ValidationResult>,
}

/// The scope at a place in the hierarchy.
pub open spec fn scope_of_rank(r: nat) -> ValidationScope {
    if r == 0 {
        ValidationScope::Char
    } else if r == 1 {
        ValidationScope::Line
    } else if r == 2 {
        ValidationScope::Chunk
    } else if r == 3 {
        ValidationScope::File
    } else if r == 4 {
        ValidationScope::Directory
    } else {
        ValidationScope::Repository
    }
}

/// The key under which a change's scope of rank `rank` is validated: the
/// file, the rank and the hash of the change's content and range.
pub open spec fn change_key(c: ChangeScope, rank: nat) -> Seq<char> {
    c.file@ + ":"@ + decimal_text(rank) + ":"@ + content_hash(c.content@, c.range)
}

/// The rank at which a change's walk up the hierarchy from rank `r` stops:
/// the first whose key was already validated, or 6 past the top.
pub open spec fn stop_rank(c: ChangeScope, seen: Seq<Seq<char>>, r: nat) -> nat
    decreases 6 - r,
{
    if r >= 6 {
        6
    } else if seen.contains(change_key(c, r)) {
        r
    } else {
        stop_rank(c, seen, r + 1)
    }
}

/// The rank a change's walk starts at: the scope above the change's.
pub open spec fn start_rank(c: ChangeScope) -> nat {
    c.scope.rank() + 1
}

/// The keys of a change's scopes from rank `lo` up to `hi`.
pub open spec fn keys_of(c: ChangeScope, lo: nat, hi: nat) -> Seq<Seq<char>> {
    Seq::new((hi - lo) as nat, |k: int| change_key(c, (lo + k) as nat))
}

/// The keys validated by the first `i` changes, in order.
pub open spec fn seen_keys(cs: Seq<ChangeScope>, i: nat) -> Seq<Seq<char>>
    decreases i,
{
    if i == 0 {
        Seq::empty()
    } else {
        let prev = seen_keys(cs, (i - 1) as nat);
        let c = cs[i - 1];
        prev + keys_of(c, start_rank(c), stop_rank(c, prev, start_rank(c)))
    }
}

/// The rank past the top scope that change `i` validates.
pub open spec fn top_rank(cs: Seq<ChangeScope>, i: nat) -> nat {
    stop_rank(cs[i as int], seen_keys(cs, i), start_rank(cs[i as int]))
}

/// The changes among the first `i` that validate some scope, in order.
pub open spec fn walked(cs: Seq<ChangeScope>, i: nat) -> Seq<int>
    decreases i,
{
    if i == 0 {
        Seq::empty()
    } else {
        walked(cs, (i - 1) as nat) + if top_rank(cs, (i - 1) as nat) > start_rank(cs[i - 1]) {
            seq![i - 1]
        } else {
            Seq::empty()
        }
    }
}

/// The scopes validated for the first `i` changes, in order: each change's
/// index and the scope's rank.
pub open spec fn validated_scopes(cs: Seq<ChangeScope>, i: nat) -> Seq<(int, nat)>
    decreases i,
{
    if i == 0 {
        Seq::empty()
    } else {
        let c = cs[i - 1];
        let lo = start_rank(c);
        let hi = top_rank(cs, (i - 1) as nat);
        validated_scopes(cs, (i - 1) as nat) + Seq::new((hi - lo) as nat, |k: int| (i - 1, (lo + k) as nat))
    }
}

/// `r` is the result of validating change `c` from rank `lo` up to the
/// scope below `hi`: the top scope, each holding the result of the scope
/// below, all passing with the hash of the change's content and range.
pub open spec fn chain_matches(r: ValidationResult, c: ChangeScope, lo: nat, hi: nat) -> bool
    decreases hi,
{
    &&& hi > lo
    &&& r.scope == scope_of_rank((hi - 1) as nat)
    &&& r.file@ == c.file@
    &&& r.range == c.range
    &&& r.hash@ == content_hash(c.content@, c.range)
    &&& r.validated
    &&& r.errors@.len() == 0
    &&& if hi == lo + 1 {
        r.child_results@.len() == 0
    } else {
        r.child_results@.len() == 1 && chain_matches(r.child_results@[0], c, lo, (hi - 1) as nat)
    }
}

/// The scope's name, if any, as text.
pub open spec fn scope_name_opt(s: Option<ValidationScope>) -> Option<Seq<char>> {
    match s {
        Some(x) => Some(x.name_text()),
        None => None,
    }
}

/// `n` is the note of validating `scope` of content `content` in `range` of
/// `file`, by `tool` at commit `commit`: it passes, with the hash of the
/// scope's content and range.
pub open spec fn note_matches(
    n: ValidationNote,
    file: Seq<char>,
    content: Seq<char>,
    range: Option<ContentRange>,
    scope: ValidationScope,
    tool: Seq<char>,
    commit: Seq<char>,
) -> bool {
    &&& n.scope@ == scope.name_text()
    &&& n.file@ == file
    &&& n.range == range
    &&& n.hash@ == content_hash(scope_content(content, range, scope), range)
    &&& (match n.parent_scope {
        Some(p) => scope.parent_spec() matches Some(ps) && p@ == ps.name_text(),
        None => scope.parent_spec() is None,
    })
    &&& n.parent_hash is None
    &&& n.child_scopes@.len() == 0
    &&& n.validated
    &&& n.validation_errors@.len() == 0
    &&& n.contract_type@ == scope.contract_text()
    &&& n.tool@ == tool
    &&& (n.commit_hash matches Some(h) && h@ == commit)
    &&& n.metadata@.len() == 0
}

/// Every change that starts from the character scope selects its line
/// range without fault.
pub open spec fn changes_defined(cs: Seq<ChangeScope>) -> bool {
    forall|i: int|
        0 <= i < cs.len() ==> (#[trigger] cs[i]).scope == ValidationScope::Char ==> scope_content_defined(
            cs[i].content@,
            cs[i].range,
            ValidationScope::Line,
        )
}

/// Whether the line range of a change selects its lines without fault.
pub fn line_selection_defined(content: &str, range: &Option<ContentRange>) -> (r: bool)
    ensures
        r == scope_content_defined(content@, *range, ValidationScope::Line),
{
    match range {
        None => true,
        Some(rg) => {
            let n = split_lines(content).len();
            if rg.start_line <= n && rg.end_line <= n {
                1 <= rg.start_line && rg.start_line - 1 <= rg.end_line
            } else {
                true
            }
        },
    }
}

/// Whether every change that starts from the character scope selects its
/// line range without fault.
pub fn changes_are_defined(changes: &Vec<ChangeScope>) -> (r: bool)
    ensures
        r == changes_defined(changes@),
{
    let mut i: usize = 0;
    while i < changes.len()
        invariant
            i <= changes@.len(),
            forall|j: int|
                0 <= j < i ==> (#[trigger] changes@[j]).scope == ValidationScope::Char ==> scope_content_defined(
                    changes@[j].content@,
                    changes@[j].range,
                    ValidationScope::Line,
                ),
        decreases changes@.len() - i,
    {
        let c = &changes[i];
        if c.scope == ValidationScope::Char && !line_selection_defined(c.content.as_str(), &c.range) {
            return false;
        }
        i = i + 1;
    }
    true
}

/// A one-digit number is written as its digit.
proof fn lemma_one_digit(r: nat)
    requires
        r < 10,
    ensures
        decimal_text(r) == seq![crate::text::digit_char(r as int)],
{
    reveal_with_fuel(decimal_text, 2);
}

/// Keys of different ranks of one change differ.
proof fn lemma_keys_differ(c: ChangeScope, a: nat, b: nat)
    requires
        a < 6,
        b < 6,
        a != b,
    ensures
        change_key(c, a) != change_key(c, b),
{
    lemma_one_digit(a);
    lemma_one_digit(b);
    let p = c.file@ + ":"@;
    assert(change_key(c, a)[p.len() as int] == crate::text::digit_char(a as int));
    assert(change_key(c, b)[p.len() as int] == crate::text::digit_char(b as int));
}

/// The walk stops at the same rank from any rank it passed.
proof fn lemma_stop_rank_from(c: ChangeScope, seen: Seq<Seq<char>>, lo: nat, r: nat)
    requires
        lo <= r <= stop_rank(c, seen, lo),
    ensures
        stop_rank(c, seen, lo) == stop_rank(c, seen, r),
    decreases r - lo,
{
    if lo < r {
        assert(stop_rank(c, seen, lo) == stop_rank(c, seen, lo + 1));
        lemma_stop_rank_from(c, seen, lo + 1, r);
    }
}

/// The walk stops at a rank from 1 to 6.
proof fn lemma_stop_rank_range(c: ChangeScope, seen: Seq<Seq<char>>, r: nat)
    requires
        r <= 6,
    ensures
        r <= stop_rank(c, seen, r) <= 6,
    decreases 6 - r,
{
    if r < 6 && !seen.contains(change_key(c, r)) {
        lemma_stop_rank_range(c, seen, r + 1);
    }
}

/// The outcome of the contract validator of a scope: pass, with no error.
fn run_contract_validator(scope: ValidationScope, content: &str) -> (r: (bool, Vec<ValidationError>))
    ensures
        r.0,
        r.1@.len() == 0,
{
    (true, Vec::new())
}

/// Hierarchical contract validator.
pub struct HierarchicalValidator {
    repo_path: String,
    tool_version: String,
}

impl HierarchicalValidator {
    /// The repository path, as text.
    pub closed spec fn repo(&self) -> Seq<char> {
        self.repo_path@
    }

    /// The validation tool's name and version, as text.
    pub closed spec fn tool(&self) -> Seq<char> {
        self.tool_version@
    }

    /// A validator of the repository at `repo_path`.
    pub fn new(repo_path: &str) -> (r: Self)
        ensures
            r.repo() == repo_path@,
            r.tool() == "xtask-contract-validate 0.1.0"@,
    {
        HierarchicalValidator { repo_path: repo_path.to_owned(), tool_version: "xtask-contract-validate 0.1.0".to_owned() }
    }

    /// The repository path.
    pub fn repo_path(&self) -> (r: &str)
        ensures
            r@ == self.repo(),
    {
        self.repo_path.as_str()
    }

    /// The scope above `current` in the hierarchy, if any.
    pub fn get_next_scope(&self, current: ValidationScope) -> (r: Option<ValidationScope>)
        ensures
            r == current.child_spec(),
    {
        current.child()
    }

    /// Validate one scope of a file's content at commit `commit_hash`: the
    /// note that records it.
    pub fn validate_scope(
        &self,
        scope: ValidationScope,
        file: &str,
        range: &Option<ContentRange>,
        content: &str,
        commit_hash: &str,
    ) -> (r: ValidationNote)
        requires
            scope_content_defined(content@, *range, scope),
        ensures
            note_matches(r, file@, content@, *range, scope, self.tool(), commit_hash@),
    {
        let start = crate::outside::instant_now();
        let scope_content = extract_scope_content(content, range, scope);
        let hash = get_content_hash(scope_content.as_str(), range);
        let (validated, errors) = run_contract_validator(scope, scope_content.as_str());
        let duration = crate::outside::elapsed_micros(&start) / 1000;
        let parent_scope = match scope.parent() {
            Some(p) => Some(p.name().to_owned()),
            None => None,
        };
        ValidationNote {
            scope: scope.name().to_owned(),
            file: file.to_owned(),
            range: *range,
            hash,
            parent_scope,
            parent_hash: None,
            child_scopes: Vec::new(),
            validated,
            validation_errors: errors,
            contract_type: scope.contract_type().to_owned(),
            tool: crate::sarif::copy_string(&self.tool_version),
            timestamp: crate::outside::utc_now_rfc3339(),
            commit_hash: Some(commit_hash.to_owned()),
            validation_duration_ms: duration,
            metadata: Vec::new(),
        }
    }

    /// Validate as `validate_hierarchically` does where every change that
    /// starts from the character scope selects its line range without
    /// fault; `None` where one does not.
    pub fn validate_hierarchically_checked(&self, changes: Vec<ChangeScope>, commit_hash: &str) -> (r: Option<(
        Vec<ValidationResult>,
        Vec<ValidationNote>,
    )>)
        ensures
            r is None <==> !changes_defined(changes@),
            r matches Some(out) ==> out.0@.len() == walked(changes@, changes@.len()).len(),
            r matches Some(out) ==> forall|k: int|
                0 <= k < out.0@.len() ==> {
                    let i = walked(changes@, changes@.len())[k];
                    chain_matches(#[trigger] out.0@[k], changes@[i], start_rank(changes@[i]), top_rank(changes@, i as nat))
                },
            r matches Some(out) ==> out.1@.len() == validated_scopes(changes@, changes@.len()).len(),
            r matches Some(out) ==> forall|k: int|
                0 <= k < out.1@.len() ==> {
                    let (i, rank) = validated_scopes(changes@, changes@.len())[k];
                    note_matches(
                        #[trigger] out.1@[k],
                        changes@[i].file@,
                        changes@[i].content@,
                        changes@[i].range,
                        scope_of_rank(rank),
                        self.tool(),
                        commit_hash@,
                    )
                },
    {
        if !changes_are_defined(&changes) {
            return None;
        }
        Some(self.validate_hierarchically(changes, commit_hash))
    }

    /// Validate changes bottom-up: from the scope above each change's, each
    /// scope of the hierarchy in turn up to the repository, stopping at a
    /// scope whose key (file, scope and hash of the change's content and
    /// range) an earlier change already validated, or at a failure. Each
    /// walk yields the result of its top scope, which holds the results
    /// below; each validated scope yields a note, at commit `commit_hash`,
    /// for the caller to store in order.
    pub fn validate_hierarchically(&self, changes: Vec<ChangeScope>, commit_hash: &str) -> (r: (
        Vec<ValidationResult>,
        Vec<ValidationNote>,
    ))
        requires
            changes_defined(changes@),
        ensures
            r.0@.len() == walked(changes@, changes@.len()).len(),
            forall|k: int|
                0 <= k < r.0@.len() ==> {
                    let i = walked(changes@, changes@.len())[k];
                    chain_matches(#[trigger] r.0@[k], changes@[i], start_rank(changes@[i]), top_rank(changes@, i as nat))
                },
            r.1@.len() == validated_scopes(changes@, changes@.len()).len(),
            forall|k: int|
                0 <= k < r.1@.len() ==> {
                    let (i, rank) = validated_scopes(changes@, changes@.len())[k];
                    note_matches(
                        #[trigger] r.1@[k],
                        changes@[i].file@,
                        changes@[i].content@,
                        changes@[i].range,
                        scope_of_rank(rank),
                        self.tool(),
                        commit_hash@,
                    )
                },
    {
        let mut seen: Vec<String> = Vec::new();
        let mut results: Vec<ValidationResult> = Vec::new();
        let mut notes: Vec<ValidationNote> = Vec::new();
        let mut i: usize = 0;
        assert(crate::sarif::texts(seen@) =~= seen_keys(changes@, 0));
        while i < changes.len()
            invariant
                i <= changes@.len(),
                changes_defined(changes@),
                crate::sarif::texts(seen@) == seen_keys(changes@, i as nat),
                results@.len() == walked(changes@, i as nat).len(),
                forall|k: int|
                    0 <= k < results@.len() ==> {
                        let ci = walked(changes@, i as nat)[k];
                        chain_matches(#[trigger] results@[k], changes@[ci], start_rank(changes@[ci]), top_rank(changes@, ci as nat))
                    },
                notes@.len() == validated_scopes(changes@, i as nat).len(),
                forall|k: int|
                    0 <= k < notes@.len() ==> {
                        let (ci, rank) = validated_scopes(changes@, i as nat)[k];
                        note_matches(
                            #[trigger] notes@[k],
                            changes@[ci].file@,
                            changes@[ci].content@,
                            changes@[ci].range,
                            scope_of_rank(rank),
                            self.tool(),
                            commit_hash@,
                        )
                    },
            decreases changes@.len() - i,
        {
            let change = &changes[i];
            let ghost c = changes@[i as int];
            let ghost prev = seen_keys(changes@, i as nat);
            let ghost lo = start_rank(c);
            let ghost notes0 = notes@;
            let ghost results0 = results@;
            let ghost vs0 = validated_scopes(changes@, i as nat);
            assert(forall|k: int|
                0 <= k < notes0.len() ==> {
                    let (ci, rank) = vs0[k];
                    note_matches(
                        #[trigger] notes0[k],
                        changes@[ci].file@,
                        changes@[ci].content@,
                        changes@[ci].range,
                        scope_of_rank(rank),
                        self.tool(),
                        commit_hash@,
                    )
                });
            let base_hash = get_content_hash(change.content.as_str(), &change.range);
            let mut current_scope = change.scope;
            let mut current_result: Option<ValidationResult> = None;
            proof {
                lemma_stop_rank_range(c, prev, lo);
                assert(keys_of(c, lo, lo) =~= Seq::<Seq<char>>::empty());
                assert(prev + keys_of(c, lo, lo) =~= prev);
            }
            loop
                invariant
                    *change == c,
                    c == changes@[i as int],
                    i < changes@.len(),
                    changes_defined(changes@),
                    base_hash@ == content_hash(c.content@, c.range),
                    lo == start_rank(c),
                    lo <= current_scope.rank() + 1 <= stop_rank(c, prev, lo),
                    stop_rank(c, prev, lo) <= 6,
                    stop_rank(c, prev, lo) == stop_rank(c, prev, current_scope.rank() + 1),
                    crate::sarif::texts(seen@) == prev + keys_of(c, lo, current_scope.rank() + 1),
                    match current_result {
                        Some(res) => current_scope.rank() + 1 > lo && chain_matches(res, c, lo, current_scope.rank() + 1),
                        None => current_scope.rank() + 1 == lo,
                    },
                    current_scope.rank() + 1 == lo ==> current_scope == c.scope,
                    notes@.len() == notes0.len() + (current_scope.rank() + 1 - lo),
                    forall|k: int| 0 <= k < notes0.len() ==> notes@[k] == notes0[k],
                    forall|k: int|
                        0 <= k < current_scope.rank() + 1 - lo ==> note_matches(
                            #[trigger] notes@[notes0.len() + k],
                            c.file@,
                            c.content@,
                            c.range,
                            scope_of_rank((lo + k) as nat),
                            self.tool(),
                            commit_hash@,
                        ),
                    results@ == results0,
                ensures
                    current_scope.rank() + 1 == stop_rank(c, prev, lo),
                decreases 6 - current_scope.rank(),
            {
                match self.get_next_scope(current_scope) {
                    None => {
                        break;
                    },
                    Some(scope) => {
                        let ghost r = current_scope.rank() + 1;
                        assert(scope.rank() == r);
                        let mut key = crate::sarif::copy_string(&change.file);
                        key.append(":");
                        push_decimal(&mut key, scope.rank_of() as u64);
                        key.append(":");
                        key.append(base_hash.as_str());
                        assert(key@ =~= change_key(c, r));
                        if crate::sarif::contains_text(&seen, &key) {
                            proof {
                                let all = prev + keys_of(c, lo, r);
                                let j = choose|j: int| 0 <= j < all.len() && all[j] == key@;
                                if j >= prev.len() {
                                    lemma_keys_differ(c, r, (lo + (j - prev.len())) as nat);
                                    assert(false);
                                }
                                assert(prev.contains(change_key(c, r)));
                            }
                            break;
                        }
                        proof {
                            assert(!prev.contains(change_key(c, r))) by {
                                if prev.contains(change_key(c, r)) {
                                    let j = choose|j: int| 0 <= j < prev.len() && prev[j] == change_key(c, r);
                                    assert((prev + keys_of(c, lo, r))[j] == key@);
                                }
                            }
                            lemma_stop_rank_range(c, prev, r + 1);
                        }
                        let t0 = crate::outside::instant_now();
                        let note = self.validate_scope(
                            scope,
                            change.file.as_str(),
                            &change.range,
                            change.content.as_str(),
                            commit_hash,
                        );
                        let duration_ms = crate::outside::elapsed_micros(&t0) / 1000;
                        let validated = note.validated;
                        let mut child_results: Vec<ValidationResult> = Vec::new();
                        match current_result {
                            Some(below) => {
                                child_results.push(below);
                            },
                            None => {},
                        }
                        let result = ValidationResult {
                            scope,
                            file: crate::sarif::copy_string(&change.file),
                            range: change.range,
                            hash: crate::sarif::copy_string(&base_hash),
                            validated,
                            errors: Vec::new(),
                            duration_ms,
                            child_results,
                        };
                        assert(scope_of_rank(r) == scope);
                        assert(chain_matches(result, c, lo, r + 1));
                        let ghost seen_before = crate::sarif::texts(seen@);
                        notes.push(note);
                        seen.push(key);
                        assert(crate::sarif::texts(seen@) =~= seen_before.push(change_key(c, r)));
                        assert(keys_of(c, lo, r + 1) =~= keys_of(c, lo, r).push(change_key(c, r)));
                        assert(prev + keys_of(c, lo, r + 1) =~= (prev + keys_of(c, lo, r)).push(change_key(c, r)));
                        current_result = Some(result);
                        if !validated {
                            break;
                        }
                        current_scope = scope;
                    },
                }
            }
            let ghost hi = current_scope.rank() + 1;
            assert(top_rank(changes@, i as nat) == hi);
            let ghost len0 = results@.len();
            match current_result {
                Some(res) => {
                    results.push(res);
                },
                None => {},
            }
            proof {
                assert(seen_keys(changes@, (i + 1) as nat) == prev + keys_of(c, lo, hi));
                assert(changes@[(i + 1) - 1] == c);
                let vs1 = validated_scopes(changes@, (i + 1) as nat);
                assert(vs1 =~= vs0 + Seq::new((hi - lo) as nat, |k: int| (i as int, (lo + k) as nat)));
                assert forall|k: int| 0 <= k < notes@.len() implies {
                    let (ci, rank) = vs1[k];
                    note_matches(
                        #[trigger] notes@[k],
                        changes@[ci].file@,
                        changes@[ci].content@,
                        changes@[ci].range,
                        scope_of_rank(rank),
                        self.tool(),
                        commit_hash@,
                    )
                } by {
                    if k < notes0.len() {
                        assert(notes@[k] == notes0[k]);
                        assert(vs1[k] == vs0[k]);
                    } else {
                        let kk = k - notes0.len();
                        assert(vs1[k] == (i as int, (lo + kk) as nat));
                        assert(notes@[notes0.len() + kk] == notes@[k]);
                    }
                }
                let w0 = walked(changes@, i as nat);
                if hi > lo {
                    assert(walked(changes@, (i + 1) as nat) =~= w0 + seq![i as int]);
                } else {
                    assert(walked(changes@, (i + 1) as nat) =~= w0);
                }
            }
            i = i + 1;
        }
        (results, notes)
    }
}

/// Whether a line opens a diff hunk: it starts with `@@`.
pub open spec fn is_hunk_line(line: Seq<char>) -> bool {
    line.len() >= 2 && line[0] == '@' && line[1] == '@'
}

/// The line ranges of the hunk headers among `lines` that parse, in order.
pub open spec fn hunk_ranges(lines: Seq<Seq<char>>) -> Seq<ContentRange>
    decreases lines.len(),
{
    if lines.len() == 0 {
        Seq::empty()
    } else {
        hunk_ranges(lines.drop_last()) + if is_hunk_line(lines.last()) {
            match hunk_range(lines.last()) {
                Some(r) => seq![r],
                None => Seq::empty(),
            }
        } else {
            Seq::empty()
        }
    }
}

/// Every hunk header of a diff has a range within the machine's numbers.
pub open spec fn diff_fits(diff: Seq<char>) -> bool {
    forall|i: int|
        0 <= i < text_lines(diff).len() ==> is_hunk_line(#[trigger] text_lines(diff)[i]) ==> hunk_fits(text_lines(diff)[i])
}

/// The changes a word diff of `file` shows: a line change for each hunk
/// header that parses, or else one change of the whole file.
pub open spec fn file_changes_of(file: Seq<char>, content: Seq<char>, diff: Seq<char>, r: Seq<ChangeScope>) -> bool {
    let ranges = hunk_ranges(text_lines(diff));
    if ranges.len() == 0 {
        r.len() == 1 && r[0].file@ == file && r[0].scope == ValidationScope::File && r[0].range is None && r[0].content@
            == content
    } else {
        r.len() == ranges.len() && forall|k: int|
            0 <= k < r.len() ==> (#[trigger] r[k]).file@ == file && r[k].scope == ValidationScope::Line && r[k].range
                == Some(ranges[k]) && r[k].content@ == content
    }
}

/// The changes that a porcelain word diff of `file`, whose content is
/// `content`, shows.
pub fn changes_from_word_diff(file: &str, content: &str, word_diff: &str) -> (r: Vec<ChangeScope>)
    requires
        diff_fits(word_diff@),
    ensures
        file_changes_of(file@, content@, word_diff@, r@),
{
    let lines = split_lines(word_diff);
    let ghost ls = crate::sarif::texts(lines@);
    let mut changes: Vec<ChangeScope> = Vec::new();
    let mut i: usize = 0;
    while i < lines.len()
        invariant
            i <= lines@.len(),
            ls == crate::sarif::texts(lines@),
            ls == text_lines(word_diff@),
            diff_fits(word_diff@),
            changes@.len() == hunk_ranges(ls.subrange(0, i as int)).len(),
            forall|k: int|
                0 <= k < changes@.len() ==> (#[trigger] changes@[k]).file@ == file@ && changes@[k].scope
                    == ValidationScope::Line && changes@[k].range == Some(hunk_ranges(ls.subrange(0, i as int))[k])
                    && changes@[k].content@ == content@,
        decreases lines@.len() - i,
    {
        assert(ls.subrange(0, i + 1).drop_last() =~= ls.subrange(0, i as int));
        assert(ls.subrange(0, i + 1).last() == lines@[i as int]@);
        let cs = chars_of(lines[i].as_str());
        let ghost before = hunk_ranges(ls.subrange(0, i as int));
        if cs.len() >= 2 && cs[0] == '@' && cs[1] == '@' {
            assert(is_hunk_line(ls[i as int]));
            match parse_hunk_header(lines[i].as_str()) {
                Some(range) => {
                    changes.push(
                        ChangeScope {
                            file: file.to_owned(),
                            scope: ValidationScope::Line,
                            range: Some(range),
                            content: content.to_owned(),
                        },
                    );
                    assert(hunk_ranges(ls.subrange(0, i + 1)) =~= before.push(range));
                },
                None => {
                    assert(hunk_ranges(ls.subrange(0, i + 1)) =~= before);
                },
            }
        } else {
            assert(!is_hunk_line(ls[i as int]));
            assert(hunk_ranges(ls.subrange(0, i + 1)) =~= before);
        }
        i = i + 1;
    }
    assert(ls.subrange(0, lines@.len() as int) =~= ls);
    if changes.len() == 0 {
        changes.push(
            ChangeScope { file: file.to_owned(), scope: ValidationScope::File, range: None, content: content.to_owned() },
        );
    }
    changes
}

/// The non-empty lines of `output`, each joined under `repo`.
pub open spec fn changed_paths(repo: Seq<char>, lines: Seq<Seq<char>>) -> Seq<Seq<char>>
    decreases lines.len(),
{
    if lines.len() == 0 {
        Seq::empty()
    } else {
        changed_paths(repo, lines.drop_last()) + if lines.last().len() == 0 {
            Seq::empty()
        } else {
            seq![crate::git_bindings::path_join(repo, lines.last())]
        }
    }
}

/// The first note with hash `h`, if any.
pub open spec fn first_note_with_hash(notes: Seq<ValidationNote>, h: Seq<char>) -> Option<int>
    decreases notes.len(),
{
    if notes.len() == 0 {
        None
    } else {
        match first_note_with_hash(notes.drop_last(), h) {
            Some(j) => Some(j),
            None => if notes.last().hash@ == h {
                Some(notes.len() - 1)
            } else {
                None
            },
        }
    }
}

/// Whether note `n` lists a child with hash `h`.
pub open spec fn lists_child(n: ValidationNote, h: Seq<char>) -> bool {
    exists|k: int| 0 <= k < n.child_scopes@.len() && (#[trigger] n.child_scopes@[k]).hash@ == h
}

/// The integrity fault of the `i`-th note, if any: a parent hash that no
/// note has, or a parent (the first note with that hash) that does not list
/// the note as its child.
pub open spec fn chain_fault(notes: Seq<ValidationNote>, i: int) -> Option<Seq<char>> {
    match notes[i].parent_hash {
        Some(ph) => match first_note_with_hash(notes, ph@) {
            Some(j) => if lists_child(notes[j], notes[i].hash@) {
                None
            } else {
                Some(
                    "Validation chain integrity error: note "@ + notes[i].hash@ + " not found as child of parent "@ + ph@,
                )
            },
            None => Some("Validation chain integrity error: parent note "@ + ph@ + " not found"@),
        },
        None => None,
    }
}

/// The first integrity fault among the notes from the `i`-th on, if any.
pub open spec fn first_chain_fault(notes: Seq<ValidationNote>, i: int) -> Option<Seq<char>>
    decreases notes.len() - i,
{
    if i >= notes.len() || i < 0 {
        None
    } else {
        match chain_fault(notes, i) {
            Some(m) => Some(m),
            None => first_chain_fault(notes, i + 1),
        }
    }
}

/// The first note with hash `h`, if any.
fn find_note(notes: &[ValidationNote], h: &String) -> (r: Option<usize>)
    ensures
        match r {
            Some(j) => first_note_with_hash(notes@, h@) == Some(j as int) && j < notes@.len(),
            None => first_note_with_hash(notes@, h@) is None,
        },
{
    let mut j: usize = 0;
    while j < notes.len()
        invariant
            j <= notes@.len(),
            first_note_with_hash(notes@.subrange(0, j as int), h@) is None,
        decreases notes@.len() - j,
    {
        assert(notes@.subrange(0, j + 1).drop_last() =~= notes@.subrange(0, j as int));
        if crate::text::str_eq(notes[j].hash.as_str(), h.as_str()) {
            proof {
                assert(first_note_with_hash(notes@.subrange(0, j + 1), h@) == Some(j as int));
                lemma_first_note_prefix(notes@, h@, j + 1);
            }
            return Some(j);
        }
        j = j + 1;
    }
    assert(notes@.subrange(0, notes@.len() as int) =~= notes@);
    None
}

/// A note found in a prefix is found at the same place in the whole.
proof fn lemma_first_note_prefix(notes: Seq<ValidationNote>, h: Seq<char>, n: int)
    requires
        0 <= n <= notes.len(),
        first_note_with_hash(notes.subrange(0, n), h) is Some,
    ensures
        first_note_with_hash(notes, h) == first_note_with_hash(notes.subrange(0, n), h),
    decreases notes.len() - n,
{
    if n < notes.len() {
        assert(notes.subrange(0, n + 1).drop_last() =~= notes.subrange(0, n));
        lemma_first_note_prefix(notes, h, n + 1);
    } else {
        assert(notes.subrange(0, n) =~= notes);
    }
}

/// Whether note `n` lists a child with hash `h`.
fn has_child(n: &ValidationNote, h: &String) -> (r: bool)
    ensures
        r == lists_child(*n, h@),
{
    let mut k: usize = 0;
    while k < n.child_scopes.len()
        invariant
            k <= n.child_scopes@.len(),
            forall|m: int| 0 <= m < k ==> (#[trigger] n.child_scopes@[m]).hash@ != h@,
        decreases n.child_scopes@.len() - k,
    {
        if crate::text::str_eq(n.child_scopes[k].hash.as_str(), h.as_str()) {
            return true;
        }
        k = k + 1;
    }
    false
}

impl HierarchicalValidator {
    /// The files a `git diff --name-only` output names: its non-empty lines,
    /// each under the repository.
    pub fn changed_files(&self, name_only: &str) -> (r: Vec<String>)
        ensures
            crate::sarif::texts(r@) == changed_paths(self.repo(), text_lines(name_only@)),
    {
        let lines = split_lines(name_only);
        let ghost ls = crate::sarif::texts(lines@);
        let mut files: Vec<String> = Vec::new();
        let mut i: usize = 0;
        while i < lines.len()
            invariant
                i <= lines@.len(),
                ls == crate::sarif::texts(lines@),
                crate::sarif::texts(files@) == changed_paths(self.repo(), ls.subrange(0, i as int)),
            decreases lines@.len() - i,
        {
            assert(ls.subrange(0, i + 1).drop_last() =~= ls.subrange(0, i as int));
            assert(ls.subrange(0, i + 1).last() == lines@[i as int]@);
            let ghost before = crate::sarif::texts(files@);
            if lines[i].unicode_len() > 0 {
                let p = crate::git_bindings::join_path(self.repo_path.as_str(), lines[i].as_str());
                files.push(p);
                assert(crate::sarif::texts(files@) =~= before.push(p@));
            } else {
                assert(changed_paths(self.repo(), ls.subrange(0, i + 1)) =~= before);
            }
            i = i + 1;
        }
        assert(ls.subrange(0, lines@.len() as int) =~= ls);
        files
    }

    /// Check that the validation notes of a commit form a consistent chain:
    /// each note with a parent hash has that parent among the notes (the
    /// first with the hash), listing the note as its child. The error is
    /// the integrity fault of the first note that breaks this.
    pub fn verify_validation_chain(&self, notes: &[ValidationNote]) -> (r: Result<(), String>)
        ensures
            match first_chain_fault(notes@, 0) {
                Some(m) => r matches Err(e) && e@ == m,
                None => r is Ok,
            },
    {
        let mut i: usize = 0;
        while i < notes.len()
            invariant
                i <= notes@.len(),
                first_chain_fault(notes@, 0) == first_chain_fault(notes@, i as int),
            decreases notes@.len() - i,
        {
            match &notes[i].parent_hash {
                Some(ph) => {
                    match find_note(notes, ph) {
                        Some(j) => {
                            if !has_child(&notes[j], &notes[i].hash) {
                                let mut m = "Validation chain integrity error: note ".to_owned();
                                m.append(notes[i].hash.as_str());
                                m.append(" not found as child of parent ");
                                m.append(ph.as_str());
                                return Err(m);
                            }
                        },
                        None => {
                            let mut m = "Validation chain integrity error: parent note ".to_owned();
                            m.append(ph.as_str());
                            m.append(" not found");
                            return Err(m);
                        },
                    }
                },
                None => {},
            }
            i = i + 1;
        }
        Ok(())
    }
}

/// Going down a scope and back up returns to it, and so does going up and
/// back down: `parent` and `child` are inverse where defined.
pub proof fn law_parent_child_inverse(s: ValidationScope)
    ensures
        s.child_spec() matches Some(c) ==> c.parent_spec() == Some(s),
        s.parent_spec() matches Some(p) ==> p.child_spec() == Some(s),
        s.child_spec() is None <==> s == ValidationScope::Repository,
        s.parent_spec() is None <==> s == ValidationScope::Char,
{
}

/// The hierarchy lists every scope once, bottom-up: the scope at each place
/// has that rank, and each scope's child is the next one.
pub proof fn law_hierarchy_is_ordered(s: ValidationScope)
    ensures
        scope_order().len() == 6,
        scope_order()[s.rank() as int] == s,
        forall|i: int| 0 <= i < 6 ==> (#[trigger] scope_order()[i]).rank() == i,
        forall|i: int| 0 <= i < 5 ==> (#[trigger] scope_order()[i]).child_spec() == Some(scope_order()[i + 1]),
{
}

/// A walk does not reach a key already seen.
proof fn lemma_walk_unseen(c: ChangeScope, seen: Seq<Seq<char>>, lo: nat, r: nat)
    requires
        lo <= r < stop_rank(c, seen, lo),
    ensures
        !seen.contains(change_key(c, r)),
        r < 6,
    decreases r - lo,
{
    if lo < r {
        lemma_walk_unseen(c, seen, lo + 1, r);
    }
}

/// No scope key is validated twice: over all changes, the keys of the
/// validated scopes are distinct.
pub proof fn law_each_key_validated_once(cs: Seq<ChangeScope>, n: nat)
    requires
        n <= cs.len(),
    ensures
        seen_keys(cs, n).no_duplicates(),
    decreases n,
{
    if n > 0 {
        let i = (n - 1) as nat;
        law_each_key_validated_once(cs, i);
        let prev = seen_keys(cs, i);
        let c = cs[i as int];
        let lo = start_rank(c);
        let hi = stop_rank(c, prev, lo);
        let ks = keys_of(c, lo, hi);
        lemma_stop_rank_range(c, prev, lo);
        assert forall|a: int, b: int| 0 <= a < b < ks.len() implies ks[a] != ks[b] by {
            lemma_walk_unseen(c, prev, lo, (lo + a) as nat);
            lemma_walk_unseen(c, prev, lo, (lo + b) as nat);
            lemma_keys_differ(c, (lo + a) as nat, (lo + b) as nat);
        }
        assert forall|a: int| 0 <= a < ks.len() implies !prev.contains(#[trigger] ks[a]) by {
            lemma_walk_unseen(c, prev, lo, (lo + a) as nat);
        }
        let all = prev + ks;
        assert(seen_keys(cs, n) == all);
        assert forall|a: int, b: int| 0 <= a < b < all.len() implies all[a] != all[b] by {
            if b < prev.len() {
            } else if a >= prev.len() {
                assert(all[a] == ks[a - prev.len()]);
                assert(all[b] == ks[b - prev.len()]);
            } else {
                assert(all[b] == ks[b - prev.len()]);
                assert(prev.contains(all[a]));
            }
        }
    }
}

/// The lines of a notes text that may hold a note: those that start with
/// `{` once leading and trailing whitespace is removed.
pub open spec fn note_candidates(lines: Seq<Seq<char>>) -> Seq<Seq<char>>
    decreases lines.len(),
{
    if lines.len() == 0 {
        Seq::empty()
    } else {
        let rest = note_candidates(lines.drop_last());
        let t = crate::crate_contract_mapper::trimmed(lines.last());
        if t.len() > 0 && t[0] == '{' {
            rest.push(lines.last())
        } else {
            rest
        }
    }
}

/// The lines of a notes text that may hold a note, in order.
pub fn note_lines(notes_text: &str) -> (r: Vec<String>)
    ensures
        crate::sarif::texts(r@) == note_candidates(text_lines(notes_text@)),
{
    let lines = split_lines(notes_text);
    let ghost ls = text_lines(notes_text@);
    let mut out: Vec<String> = Vec::new();
    let mut i: usize = 0;
    while i < lines.len()
        invariant
            i <= lines@.len(),
            crate::sarif::texts(lines@) == ls,
            ls == text_lines(notes_text@),
            crate::sarif::texts(out@) == note_candidates(ls.take(i as int)),
        decreases lines@.len() - i,
    {
        assert(ls.take(i + 1).drop_last() =~= ls.take(i as int));
        assert(ls.take(i + 1).last() == lines@[i as int]@);
        let t = crate::crate_contract_mapper::trim_text(lines[i].as_str());
        let tc = chars_of(t.as_str());
        if tc.len() > 0 && tc[0] == '{' {
            let ghost before = crate::sarif::texts(out@);
            out.push(lines[i].clone());
            assert(crate::sarif::texts(out@) =~= before.push(lines@[i as int]@));
        }
        i = i + 1;
    }
    assert(ls.take(ls.len() as int) =~= ls);
    out
}

/// Whether a hunk header's range ends within the machine's numbers.
pub fn hunk_header_fits(header: &str) -> (r: bool)
    ensures
        r == hunk_fits(header@),
{
    let parts = split_words(header);
    if parts.len() < 3 {
        return true;
    }
    let nr = chars_of(parts[2].as_str());
    assert(nr@ == words(header@)[2]);
    if nr.len() == 0 || nr[0] != '+' {
        return true;
    }
    let ghost rs = nr@.drop_first();
    let range_chars = text_between(&nr, 1, nr.len());
    assert(range_chars@ =~= rs);
    let rc = chars_of(range_chars.as_str());
    assert(words(header@).len() >= 3 && words(header@)[2] == nr@);
    match find_char(&rc, ',') {
        Some(k) => {
            let first = text_between(&rc, 0, k);
            let second = text_between(&rc, k + 1, rc.len());
            assert(first@ =~= rs.take(k as int));
            assert(second@ =~= rs.skip(k + 1));
            match (parse_usize(first.as_str()), parse_usize(second.as_str())) {
                (Some(a), Some(c)) => {
                    assert(hunk_numbers(header@) == Some((a, Some(c))));
                    1 <= a as u128 + c as u128 && a as u128 + c as u128 <= usize::MAX as u128
                },
                _ => true,
            }
        },
        None => true,
    }
}

/// Whether every hunk header of a word diff ends within the machine's
/// numbers.
pub fn word_diff_fits(diff: &str) -> (r: bool)
    ensures
        r == diff_fits(diff@),
{
    let lines = split_lines(diff);
    let ghost ls = text_lines(diff@);
    let mut i: usize = 0;
    while i < lines.len()
        invariant
            i <= lines@.len(),
            crate::sarif::texts(lines@) == ls,
            ls == text_lines(diff@),
            forall|j: int| 0 <= j < i ==> is_hunk_line(#[trigger] ls[j]) ==> hunk_fits(ls[j]),
        decreases lines@.len() - i,
    {
        assert(ls[i as int] == lines@[i as int]@);
        let cs = chars_of(lines[i].as_str());
        let hunk = cs.len() >= 2 && cs[0] == '@' && cs[1] == '@';
        if hunk && !hunk_header_fits(lines[i].as_str()) {
            assert(is_hunk_line(ls[i as int]) && !hunk_fits(ls[i as int]));
            return false;
        }
        i = i + 1;
    }
    true
}

} // verus!
