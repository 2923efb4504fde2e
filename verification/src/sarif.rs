//! SARIF logs as the library models them, and the merging of several logs
//! into one: grouping, de-duplication and ordering of results.

use vstd::prelude::*;
use crate::text::{str_eq, seq_le, str_le};

verus! {

/// A SARIF result: one finding.
#[derive(Debug, Clone, PartialEq, Eq)]
pub struct SarifResult {
    /// Rule identifier
    pub rule_id: String,
    /// Level: "error", "warning" or "note"
    pub level: String,
    /// Message text
    pub message: String,
    /// Location URIs
    pub locations: Vec<String>,
    /// Named properties (the first entry with a name is the one that counts)
    pub properties: Vec<(String, String)>,
}

/// A SARIF result as plain values.
pub struct ResultView {
    pub rule_id: Seq<char>,
    pub level: Seq<char>,
    pub message: Seq<char>,
    pub locations: Seq<Seq<char>>,
    pub properties: Seq<(Seq<char>, Seq<char>)>,
}

/// A SARIF run: the results of one tool.
#[derive(Debug, Clone, PartialEq, Eq)]
pub struct SarifRun {
    /// Tool name
    pub tool_name: String,
    /// Tool version
    pub tool_version: String,
    /// Results
    pub results: Vec<SarifResult>,
}

/// A SARIF log.
#[derive(Debug, Clone, PartialEq, Eq)]
pub struct SarifLog {
    /// SARIF version
    pub version: String,
    /// Runs
    pub runs: Vec<SarifRun>,
}

/// The texts of a sequence of strings.
pub open spec fn texts(v: Seq<String>) -> Seq<Seq<char>> {
    v.map_values(|s: String| s@)
}

/// The texts of a sequence of string pairs.
pub open spec fn text_pairs(v: Seq<(String, String)>) -> Seq<(Seq<char>, Seq<char>)> {
    v.map_values(|p: (String, String)| (p.0@, p.1@))
}

impl View for SarifResult {
    type V = ResultView;

    open spec fn view(&self) -> ResultView {
        ResultView {
            rule_id: self.rule_id@,
            level: self.level@,
            message: self.message@,
            locations: texts(self.locations@),
            properties: text_pairs(self.properties@),
        }
    }
}

/// The views of a sequence of results.
pub open spec fn result_views(v: Seq<SarifResult>) -> Seq<ResultView> {
    v.map_values(|r: SarifResult| r@)
}

/// The value of the first property named `key`, if any.
pub open spec fn lookup(props: Seq<(Seq<char>, Seq<char>)>, key: Seq<char>) -> Option<Seq<char>>
    decreases props.len(),
{
    if props.len() == 0 {
        None
    } else if props[0].0 == key {
        Some(props[0].1)
    } else {
        lookup(props.drop_first(), key)
    }
}

/// The group a result belongs to under property `prop`: its value, or "unknown".
pub open spec fn group_key(r: ResultView, prop: Seq<char>) -> Seq<char> {
    match lookup(r.properties, prop) {
        Some(v) => v,
        None => "unknown"@,
    }
}

/// Copy a string with its text.
pub(crate) fn copy_string(s: &String) -> (r: String)
    ensures
        r@ == s@,
{
    s.clone()
}

/// Copy a list of strings with their texts.
pub(crate) fn copy_strings(v: &Vec<String>) -> (r: Vec<String>)
    ensures
        texts(r@) == texts(v@),
{
    let mut r: Vec<String> = Vec::new();
    let mut i: usize = 0;
    while i < v.len()
        invariant
            i <= v@.len(),
            r@.len() == i,
            forall|k: int| 0 <= k < i ==> #[trigger] r@[k]@ == v@[k]@,
        decreases v@.len() - i,
    {
        r.push(copy_string(&v[i]));
        i = i + 1;
    }
    assert(texts(r@) =~= texts(v@));
    r
}

/// Copy a list of string pairs with their texts.
fn copy_pairs(v: &Vec<(String, String)>) -> (r: Vec<(String, String)>)
    ensures
        text_pairs(r@) == text_pairs(v@),
{
    let mut r: Vec<(String, String)> = Vec::new();
    let mut i: usize = 0;
    while i < v.len()
        invariant
            i <= v@.len(),
            r@.len() == i,
            forall|k: int| 0 <= k < i ==> #[trigger] r@[k].0@ == v@[k].0@ && r@[k].1@ == v@[k].1@,
        decreases v@.len() - i,
    {
        r.push((copy_string(&v[i].0), copy_string(&v[i].1)));
        i = i + 1;
    }
    assert(text_pairs(r@) =~= text_pairs(v@));
    r
}

impl SarifResult {
    /// A copy of this result with the same contents.
    pub fn duplicate(&self) -> (r: Self)
        ensures
            r@ == self@,
    {
        SarifResult {
            rule_id: copy_string(&self.rule_id),
            level: copy_string(&self.level),
            message: copy_string(&self.message),
            locations: copy_strings(&self.locations),
            properties: copy_pairs(&self.properties),
        }
    }

    /// The value of the first property named `key`.
    pub fn property(&self, key: &str) -> (r: Option<&String>)
        ensures
            match r {
                Some(v) => lookup(self@.properties, key@) == Some(v@),
                None => lookup(self@.properties, key@) is None,
            },
    {
        let mut i: usize = 0;
        assert(self@.properties.subrange(0, self@.properties.len() as int) =~= self@.properties);
        while i < self.properties.len()
            invariant
                i <= self.properties@.len(),
                lookup(self@.properties, key@) == lookup(self@.properties.subrange(i as int, self@.properties.len() as int), key@),
            decreases self.properties@.len() - i,
        {
            let ghost rest = self@.properties.subrange(i as int, self@.properties.len() as int);
            assert(rest[0] == (self.properties@[i as int].0@, self.properties@[i as int].1@));
            if str_eq(self.properties[i].0.as_str(), key) {
                return Some(&self.properties[i].1);
            }
            assert(rest.drop_first() =~= self@.properties.subrange(i + 1, self@.properties.len() as int));
            i = i + 1;
        }
        None
    }

    /// The group of this result under property `prop`.
    fn group_of(&self, prop: &str) -> (r: String)
        ensures
            r@ == group_key(self@, prop@),
    {
        match self.property(prop) {
            Some(v) => copy_string(v),
            None => "unknown".to_owned(),
        }
    }
}

/// Copy a list of results with their contents.
pub fn copy_results(v: &Vec<SarifResult>) -> (r: Vec<SarifResult>)
    ensures
        result_views(r@) == result_views(v@),
{
    let mut r: Vec<SarifResult> = Vec::new();
    let mut i: usize = 0;
    while i < v.len()
        invariant
            i <= v@.len(),
            r@.len() == i,
            forall|k: int| 0 <= k < i ==> #[trigger] r@[k]@ == v@[k]@,
        decreases v@.len() - i,
    {
        r.push(v[i].duplicate());
        i = i + 1;
    }
    assert(result_views(r@) =~= result_views(v@));
    r
}

proof fn lemma_result_views_add(a: Seq<SarifResult>, b: Seq<SarifResult>)
    ensures
        result_views(a + b) == result_views(a) + result_views(b),
{
    assert(result_views(a + b) =~= result_views(a) + result_views(b));
}

/// Append to `out` all results of the runs, run after run.
pub(crate) fn append_run_results(runs: &Vec<SarifRun>, out: &mut Vec<SarifResult>)
    ensures
        result_views(final(out)@) == result_views(old(out)@) + run_results(runs@),
{
    let ghost before = result_views(out@);
    let mut i: usize = 0;
    while i < runs.len()
        invariant
            i <= runs@.len(),
            result_views(out@) == before + run_results(runs@.subrange(0, i as int)),
        decreases runs@.len() - i,
    {
        let mut c = copy_results(&runs[i].results);
        let ghost m = out@;
        let ghost cv = c@;
        out.append(&mut c);
        proof {
            lemma_result_views_add(m, cv);
            assert(runs@.subrange(0, i + 1).drop_last() =~= runs@.subrange(0, i as int));
        }
        i = i + 1;
    }
    assert(runs@.subrange(0, runs@.len() as int) =~= runs@);
}

/// All results of the logs, log after log.
fn collect_log_results(logs: &Vec<SarifLog>) -> (r: Vec<SarifResult>)
    ensures
        result_views(r@) == log_results(logs@),
{
    let mut out: Vec<SarifResult> = Vec::new();
    let mut i: usize = 0;
    while i < logs.len()
        invariant
            i <= logs@.len(),
            result_views(out@) == log_results(logs@.subrange(0, i as int)),
        decreases logs@.len() - i,
    {
        append_run_results(&logs[i].runs, &mut out);
        assert(logs@.subrange(0, i + 1).drop_last() =~= logs@.subrange(0, i as int));
        i = i + 1;
    }
    assert(logs@.subrange(0, logs@.len() as int) =~= logs@);
    out
}

/// The position of a string of `v` with the text of `s`, if there is one.
pub(crate) fn index_of_text(v: &Vec<String>, s: &String) -> (r: Option<usize>)
    ensures
        match r {
            Some(i) => i < v@.len() && v@[i as int]@ == s@,
            None => !texts(v@).contains(s@),
        },
{
    let mut i: usize = 0;
    while i < v.len()
        invariant
            i <= v@.len(),
            forall|k: int| 0 <= k < i ==> (#[trigger] v@[k])@ != s@,
        decreases v@.len() - i,
    {
        if str_eq(v[i].as_str(), s.as_str()) {
            return Some(i);
        }
        i = i + 1;
    }
    proof {
        if texts(v@).contains(s@) {
            let k = choose|k: int| 0 <= k < texts(v@).len() && texts(v@)[k] == s@;
            assert(v@[k]@ == s@);
        }
    }
    None
}

/// The label `prefix (name)`.
fn make_label(prefix: &str, name: &str) -> (r: String)
    ensures
        r@ == validator_label(prefix@, name@),
{
    let mut r = prefix.to_owned();
    r.append(" (");
    r.append(name);
    r.append(")");
    r
}

/// A log of one run of tool `tool`, version "1.0.0", with the given results.
fn single_run(tool: String, results: Vec<SarifResult>) -> (r: SarifLog)
    ensures
        r.version@ == "2.1.0"@,
        r.runs@.len() == 1,
        r.runs@[0].tool_name == tool,
        r.runs@[0].tool_version@ == "1.0.0"@,
        r.runs@[0].results == results,
{
    let run = SarifRun { tool_name: tool, tool_version: "1.0.0".to_owned(), results };
    let mut runs: Vec<SarifRun> = Vec::new();
    runs.push(run);
    SarifLog { version: "2.1.0".to_owned(), runs }
}

/// Whether some string of `v` has the text of `s`.
pub(crate) fn contains_text(v: &Vec<String>, s: &String) -> (r: bool)
    ensures
        r == texts(v@).contains(s@),
{
    let mut i: usize = 0;
    while i < v.len()
        invariant
            i <= v@.len(),
            forall|k: int| 0 <= k < i ==> (#[trigger] v@[k])@ != s@,
        decreases v@.len() - i,
    {
        if str_eq(v[i].as_str(), s.as_str()) {
            assert(texts(v@)[i as int] == s@);
            return true;
        }
        i = i + 1;
    }
    proof {
        if texts(v@).contains(s@) {
            let k = choose|k: int| 0 <= k < texts(v@).len() && texts(v@)[k] == s@;
            assert(v@[k]@ == s@);
        }
    }
    false
}

/// The distinct values of `keys`, in the order of their first appearance.
pub open spec fn first_appearances(keys: Seq<Seq<char>>) -> Seq<Seq<char>>
    decreases keys.len(),
{
    if keys.len() == 0 {
        Seq::empty()
    } else {
        let d = first_appearances(keys.drop_last());
        if d.contains(keys.last()) {
            d
        } else {
            d.push(keys.last())
        }
    }
}

/// The groups of the results under property `prop`.
pub open spec fn group_keys(rs: Seq<ResultView>, prop: Seq<char>) -> Seq<Seq<char>> {
    rs.map_values(|r: ResultView| group_key(r, prop))
}

/// The results in group `k` under property `prop`.
pub open spec fn in_group(prop: Seq<char>, k: Seq<char>) -> spec_fn(ResultView) -> bool {
    |r: ResultView| group_key(r, prop) == k
}

/// The results of each group of `keys` in turn, each group in input order.
pub open spec fn grouped(rs: Seq<ResultView>, keys: Seq<Seq<char>>, prop: Seq<char>) -> Seq<ResultView>
    decreases keys.len(),
{
    if keys.len() == 0 {
        Seq::empty()
    } else {
        grouped(rs, keys.drop_last(), prop) + rs.filter(in_group(prop, keys.last()))
    }
}

/// The results grouped by property `prop`, groups in order of first appearance.
pub open spec fn merged_by_property(rs: Seq<ResultView>, prop: Seq<char>) -> Seq<ResultView> {
    grouped(rs, first_appearances(group_keys(rs, prop)), prop)
}

/// The results at level `level`.
pub open spec fn at_level(level: Seq<char>) -> spec_fn(ResultView) -> bool {
    |r: ResultView| r.level == level
}

/// The error results, then the warnings, then the notes; other levels are left out.
pub open spec fn merged_by_severity(rs: Seq<ResultView>) -> Seq<ResultView> {
    rs.filter(at_level("error"@)) + rs.filter(at_level("warning"@)) + rs.filter(at_level("note"@))
}

/// The key under which results count as duplicates: rule, message and level.
pub open spec fn dedup_key(r: ResultView) -> Seq<char> {
    r.rule_id + ":"@ + r.message + ":"@ + r.level
}

/// The keys of a sequence of results.
pub open spec fn dedup_keys(rs: Seq<ResultView>) -> Seq<Seq<char>> {
    rs.map_values(|r: ResultView| dedup_key(r))
}

/// The results without those whose key an earlier result already had.
pub open spec fn deduplicated(rs: Seq<ResultView>) -> Seq<ResultView>
    decreases rs.len(),
{
    if rs.len() == 0 {
        Seq::empty()
    } else {
        let d = deduplicated(rs.drop_last());
        if dedup_keys(d).contains(dedup_key(rs.last())) {
            d
        } else {
            d.push(rs.last())
        }
    }
}

/// The rank of a level: error first, then warning, then note, then the rest.
pub open spec fn level_rank(level: Seq<char>) -> int {
    if level == "error"@ {
        0
    } else if level == "warning"@ {
        1
    } else if level == "note"@ {
        2
    } else {
        3
    }
}

/// `a` comes no later than `b`: by level rank, then by rule identifier.
pub open spec fn result_le(a: ResultView, b: ResultView) -> bool {
    level_rank(a.level) < level_rank(b.level) || (level_rank(a.level) == level_rank(b.level) && seq_le(
        a.rule_id,
        b.rule_id,
    ))
}

/// `x` inserted into `s` after every element that comes no later than it.
pub open spec fn insert_sorted(s: Seq<ResultView>, x: ResultView) -> Seq<ResultView>
    decreases s.len(),
{
    if s.len() == 0 {
        seq![x]
    } else if result_le(s.last(), x) {
        s.push(x)
    } else {
        insert_sorted(s.drop_last(), x).push(s.last())
    }
}

/// The results in order of level rank and rule identifier; equal results keep
/// their input order.
pub open spec fn sorted_results(rs: Seq<ResultView>) -> Seq<ResultView>
    decreases rs.len(),
{
    if rs.len() == 0 {
        Seq::empty()
    } else {
        insert_sorted(sorted_results(rs.drop_last()), rs.last())
    }
}

/// All results of the runs, run after run.
pub open spec fn run_results(runs: Seq<SarifRun>) -> Seq<ResultView>
    decreases runs.len(),
{
    if runs.len() == 0 {
        Seq::empty()
    } else {
        run_results(runs.drop_last()) + result_views(runs.last().results@)
    }
}

/// All results of the logs, log after log.
pub open spec fn log_results(logs: Seq<SarifLog>) -> Seq<ResultView>
    decreases logs.len(),
{
    if logs.len() == 0 {
        Seq::empty()
    } else {
        log_results(logs.drop_last()) + run_results(logs.last().runs@)
    }
}

/// The results as a merge strategy arranges them.
pub open spec fn strategy_merged(rs: Seq<ResultView>, strategy: MergeStrategy) -> Seq<ResultView> {
    match strategy {
        MergeStrategy::ByConcern => merged_by_property(rs, "concern"@),
        MergeStrategy::ByContract => merged_by_property(rs, "contract"@),
        MergeStrategy::BySeverity => merged_by_severity(rs),
        MergeStrategy::ByHookEvent => merged_by_property(rs, "hook_event"@),
        MergeStrategy::ByTool => rs,
        MergeStrategy::Custom(_) => rs,
    }
}

/// The results of a merge: arranged by the strategy, then de-duplicated and
/// sorted where the options ask for it.
pub open spec fn merge_pipeline(rs: Seq<ResultView>, strategy: MergeStrategy, dedup: bool, sort: bool) -> Seq<ResultView> {
    let m = strategy_merged(rs, strategy);
    let d = if dedup {
        deduplicated(m)
    } else {
        m
    };
    if sort {
        sorted_results(d)
    } else {
        d
    }
}

/// The label `prefix (name)` of a validator.
pub open spec fn validator_label(prefix: Seq<char>, name: Seq<char>) -> Seq<char> {
    prefix + " ("@ + name + ")"@
}

/// `log` is a log of one run of tool `tool`, version "1.0.0", whose results
/// have the views `rs`.
pub open spec fn single_run_log(log: SarifLog, tool: Seq<char>, rs: Seq<ResultView>) -> bool {
    &&& log.version@ == "2.1.0"@
    &&& log.runs@.len() == 1
    &&& log.runs@[0].tool_name@ == tool
    &&& log.runs@[0].tool_version@ == "1.0.0"@
    &&& result_views(log.runs@[0].results@) == rs
}

/// `parts` is the log of results `rs` split by property `prop`: one entry per
/// group, in order of first appearance, each a log of the group's results
/// under the label `prefix (group)`.
pub open spec fn split_as(parts: Seq<(String, SarifLog)>, rs: Seq<ResultView>, prop: Seq<char>, prefix: Seq<char>) -> bool {
    let keys = first_appearances(group_keys(rs, prop));
    &&& parts.len() == keys.len()
    &&& forall|i: int|
        0 <= i < parts.len() ==> {
            &&& (#[trigger] parts[i]).0@ == keys[i]
            &&& single_run_log(parts[i].1, validator_label(prefix, keys[i]), rs.filter(in_group(prop, keys[i])))
        }
}

/// The key a result is counted under: its level where `prop` is `None`, else
/// the value of property `prop`, if it has one.
pub open spec fn count_key(prop: Option<Seq<char>>) -> spec_fn(ResultView) -> Option<Seq<char>> {
    |r: ResultView|
        match prop {
            None => Some(r.level),
            Some(p) => lookup(r.properties, p),
        }
}

/// The keys of the results that have one, in order.
pub open spec fn present_keys(rs: Seq<ResultView>, f: spec_fn(ResultView) -> Option<Seq<char>>) -> Seq<Seq<char>>
    decreases rs.len(),
{
    if rs.len() == 0 {
        Seq::empty()
    } else {
        let p = present_keys(rs.drop_last(), f);
        match f(rs.last()) {
            Some(k) => p.push(k),
            None => p,
        }
    }
}

/// The results whose key is `k`.
pub open spec fn has_key(f: spec_fn(ResultView) -> Option<Seq<char>>, k: Seq<char>) -> spec_fn(ResultView) -> bool {
    |r: ResultView| f(r) == Some(k)
}

/// `counts` holds, for each key of the results in order of first appearance,
/// the key and the number of results with it.
pub open spec fn counted_as(counts: Seq<(String, usize)>, rs: Seq<ResultView>, f: spec_fn(ResultView) -> Option<Seq<char>>) -> bool {
    let keys = first_appearances(present_keys(rs, f));
    &&& counts.len() == keys.len()
    &&& forall|i: int|
        0 <= i < counts.len() ==> {
            &&& (#[trigger] counts[i]).0@ == keys[i]
            &&& counts[i].1 == rs.filter(has_key(f, keys[i])).len()
        }
}

/// A key appears among the first appearances exactly when it appears at all.
pub proof fn lemma_first_appearances_contains(keys: Seq<Seq<char>>, x: Seq<char>)
    ensures
        first_appearances(keys).contains(x) <==> keys.contains(x),
    decreases keys.len(),
{
    if keys.len() > 0 {
        lemma_first_appearances_contains(keys.drop_last(), x);
        if keys.drop_last().contains(x) {
            let k = choose|k: int| 0 <= k < keys.drop_last().len() && keys.drop_last()[k] == x;
            assert(keys[k] == x);
        }
        if keys.contains(x) && keys.last() != x {
            let k = choose|k: int| 0 <= k < keys.len() && keys[k] == x;
            assert(keys.drop_last()[k] == x);
        }
        let d = first_appearances(keys.drop_last());
        if !d.contains(keys.last()) {
            if d.push(keys.last()).contains(x) && x != keys.last() {
                let k = choose|k: int| 0 <= k < d.push(keys.last()).len() && d.push(keys.last())[k] == x;
                assert(d[k] == x);
            }
            if x == keys.last() {
                assert(d.push(keys.last())[d.len() as int] == x);
            }
            if d.contains(x) {
                let k = choose|k: int| 0 <= k < d.len() && d[k] == x;
                assert(d.push(keys.last())[k] == x);
            }
        }
    }
}

/// The first appearances of keys hold no key twice.
pub proof fn lemma_first_appearances_distinct(keys: Seq<Seq<char>>)
    ensures
        first_appearances(keys).no_duplicates(),
    decreases keys.len(),
{
    if keys.len() > 0 {
        lemma_first_appearances_distinct(keys.drop_last());
        let d = first_appearances(keys.drop_last());
        if !d.contains(keys.last()) {
            let e = d.push(keys.last());
            assert forall|a: int, b: int| 0 <= a < e.len() && 0 <= b < e.len() && a != b implies e[a] != e[b] by {
                if a < d.len() && b < d.len() {
                    assert(e[a] == d[a] && e[b] == d[b]);
                } else if a < d.len() {
                    assert(e[a] == d[a]);
                } else if b < d.len() {
                    assert(e[b] == d[b]);
                }
            }
        }
    }
}

proof fn lemma_absent_key_uncounted(rs: Seq<ResultView>, f: spec_fn(ResultView) -> Option<Seq<char>>, k: Seq<char>)
    requires
        !present_keys(rs, f).contains(k),
    ensures
        rs.filter(has_key(f, k)).len() == 0,
    decreases rs.len(),
{
    reveal_with_fuel(Seq::<_>::filter, 1);
    if rs.len() > 0 {
        let p = present_keys(rs.drop_last(), f);
        if p.contains(k) {
            let j = choose|j: int| 0 <= j < p.len() && p[j] == k;
            match f(rs.last()) {
                Some(x) => assert(p.push(x)[j] == k),
                None => {},
            }
        }
        lemma_absent_key_uncounted(rs.drop_last(), f, k);
        if f(rs.last()) == Some(k) {
            assert(p.push(k)[p.len() as int] == k);
        }
    }
}

proof fn lemma_insert_sorted_at(s: Seq<ResultView>, x: ResultView, j: int)
    requires
        0 <= j <= s.len(),
        j == 0 || result_le(s[j - 1], x),
        forall|k: int| j <= k < s.len() ==> !result_le(#[trigger] s[k], x),
    ensures
        insert_sorted(s, x) == s.subrange(0, j).push(x) + s.subrange(j, s.len() as int),
    decreases s.len(),
{
    if s.len() == 0 {
        assert(seq![x] =~= s.subrange(0, j).push(x) + s.subrange(j, s.len() as int));
    } else if j == s.len() {
        assert(s.push(x) =~= s.subrange(0, j).push(x) + s.subrange(j, s.len() as int));
    } else {
        assert(!result_le(s.last(), x));
        let t = s.drop_last();
        assert forall|k: int| j <= k < t.len() implies !result_le(#[trigger] t[k], x) by {
            assert(t[k] == s[k]);
        }
        lemma_insert_sorted_at(t, x, j);
        assert(insert_sorted(t, x).push(s.last()) =~= s.subrange(0, j).push(x) + s.subrange(j, s.len() as int));
    }
}

/// The level rank of a result.
fn rank_of(r: &SarifResult) -> (k: u8)
    ensures
        k as int == level_rank(r@.level),
{
    if str_eq(r.level.as_str(), "error") {
        0
    } else if str_eq(r.level.as_str(), "warning") {
        1
    } else if str_eq(r.level.as_str(), "note") {
        2
    } else {
        3
    }
}

/// Whether `a` comes no later than `b`.
fn result_le_exec(a: &SarifResult, b: &SarifResult) -> (r: bool)
    ensures
        r == result_le(a@, b@),
{
    let ra = rank_of(a);
    let rb = rank_of(b);
    ra < rb || (ra == rb && str_le(a.rule_id.as_str(), b.rule_id.as_str()))
}

/// The text `rule:message:level` of a result.
fn dedup_key_of(r: &SarifResult) -> (k: String)
    ensures
        k@ == dedup_key(r@),
{
    let mut k = copy_string(&r.rule_id);
    k.append(":");
    k.append(r.message.as_str());
    k.append(":");
    k.append(r.level.as_str());
    k
}

/// SARIF merge strategy.
#[derive(Debug, Clone, PartialEq, Eq)]
pub enum MergeStrategy {
    /// Merge by concern (group results by concern symbol)
    ByConcern,
    /// Merge by contract (group results by contract symbol)
    ByContract,
    /// Merge by severity (group results by severity level)
    BySeverity,
    /// Merge by hook event (group results by hook event)
    ByHookEvent,
    /// Merge by tool (group results by tool name)
    ByTool,
    /// Custom merge strategy
    Custom(String),
}

/// Options for merging SARIF logs.
pub struct MergeOptions {
    /// The merge strategy to use
    pub strategy: MergeStrategy,
    /// Whether to deduplicate results
    pub deduplicate: bool,
    /// Whether to sort results
    pub sort: bool,
}

impl Default for MergeOptions {
    fn default() -> (r: Self)
        ensures
            r.strategy == MergeStrategy::ByConcern,
            r.deduplicate,
            r.sort,
    {
        Self { strategy: MergeStrategy::ByConcern, deduplicate: true, sort: true }
    }
}

/// SARIF merge utilities.
pub struct SarifMerger;

/// Merge statistics; each count list holds one entry per key, in order of
/// first appearance.
#[derive(Debug, Clone)]
pub struct MergeStats {
    /// Total number of results
    pub total_results: usize,
    /// Count by severity level
    pub severity_counts: Vec<(String, usize)>,
    /// Count by concern
    pub concern_counts: Vec<(String, usize)>,
    /// Count by contract
    pub contract_counts: Vec<(String, usize)>,
}

impl SarifMerger {
    /// Merge several SARIF logs into one: all their results, arranged by the
    /// strategy, then de-duplicated and sorted where the options ask for it, in
    /// one run of the merged validator.
    pub fn merge_logs(logs: Vec<SarifLog>, options: &MergeOptions) -> (r: SarifLog)
        ensures
            r.version@ == "2.1.0"@,
            r.runs@.len() == 1,
            r.runs@[0].tool_name@ == "Hooksmith Merged Validator"@,
            r.runs@[0].tool_version@ == "1.0.0"@,
            result_views(r.runs@[0].results@) == merge_pipeline(
                log_results(logs@),
                options.strategy,
                options.deduplicate,
                options.sort,
            ),
    {
        let all_results = collect_log_results(&logs);
        let merged_results = match &options.strategy {
            MergeStrategy::ByConcern => Self::merge_by_concern(&all_results),
            MergeStrategy::ByContract => Self::merge_by_contract(&all_results),
            MergeStrategy::BySeverity => Self::merge_by_severity(&all_results),
            MergeStrategy::ByHookEvent => Self::merge_by_hook_event(&all_results),
            MergeStrategy::ByTool => Self::merge_by_tool(&all_results),
            MergeStrategy::Custom(_) => all_results,
        };
        let final_results = if options.deduplicate {
            Self::deduplicate_results(&merged_results)
        } else {
            merged_results
        };
        let final_results = if options.sort {
            Self::sort_results(&final_results)
        } else {
            final_results
        };
        let run = SarifRun {
            tool_name: "Hooksmith Merged Validator".to_owned(),
            tool_version: "1.0.0".to_owned(),
            results: final_results,
        };
        let mut runs: Vec<SarifRun> = Vec::new();
        runs.push(run);
        SarifLog { version: "2.1.0".to_owned(), runs }
    }

    /// Merge logs; the same as `merge_logs`, done in one pass.
    pub fn merge_parallel(logs: Vec<SarifLog>, options: &MergeOptions) -> (r: SarifLog)
        ensures
            r.version@ == "2.1.0"@,
            r.runs@.len() == 1,
            r.runs@[0].tool_name@ == "Hooksmith Merged Validator"@,
            r.runs@[0].tool_version@ == "1.0.0"@,
            result_views(r.runs@[0].results@) == merge_pipeline(
                log_results(logs@),
                options.strategy,
                options.deduplicate,
                options.sort,
            ),
    {
        Self::merge_logs(logs, options)
    }

    /// The groups of the results under property `prop`, in order of first appearance.
    fn collect_group_keys(results: &Vec<SarifResult>, prop: &str) -> (keys: Vec<String>)
        ensures
            texts(keys@) == first_appearances(group_keys(result_views(results@), prop@)),
    {
        let ghost rv = result_views(results@);
        let mut keys: Vec<String> = Vec::new();
        let mut i: usize = 0;
        while i < results.len()
            invariant
                i <= results@.len(),
                rv == result_views(results@),
                texts(keys@) == first_appearances(group_keys(rv.subrange(0, i as int), prop@)),
            decreases results@.len() - i,
        {
            let k = results[i].group_of(prop);
            assert(group_keys(rv.subrange(0, i + 1), prop@).drop_last() =~= group_keys(rv.subrange(0, i as int), prop@));
            if !contains_text(&keys, &k) {
                keys.push(k);
                assert(texts(keys@) =~= first_appearances(group_keys(rv.subrange(0, i + 1), prop@)));
            }
            i = i + 1;
        }
        assert(rv.subrange(0, results@.len() as int) =~= rv);
        keys
    }

    /// Append to `out` the results in group `key` under property `prop`, in order.
    fn append_group(results: &Vec<SarifResult>, prop: &str, key: &String, out: &mut Vec<SarifResult>)
        ensures
            result_views(final(out)@) == result_views(old(out)@) + result_views(results@).filter(in_group(prop@, key@)),
    {
        let ghost rv = result_views(results@);
        let ghost before = result_views(out@);
        let mut i: usize = 0;
        while i < results.len()
            invariant
                i <= results@.len(),
                rv == result_views(results@),
                result_views(out@) == before + rv.subrange(0, i as int).filter(in_group(prop@, key@)),
            decreases results@.len() - i,
        {
            reveal_with_fuel(Seq::<_>::filter, 1);
            assert(rv.subrange(0, i + 1).drop_last() =~= rv.subrange(0, i as int));
            let k = results[i].group_of(prop);
            if str_eq(k.as_str(), key.as_str()) {
                let d = results[i].duplicate();
                let ghost m = out@;
                out.push(d);
                assert(result_views(out@) =~= result_views(m).push(rv[i as int]));
            }
            i = i + 1;
        }
        assert(rv.subrange(0, results@.len() as int) =~= rv);
    }

    /// Merge results by the value of property `prop`.
    fn merge_by_property(results: &Vec<SarifResult>, prop: &str) -> (r: Vec<SarifResult>)
        ensures
            result_views(r@) == merged_by_property(result_views(results@), prop@),
    {
        let ghost rv = result_views(results@);
        let keys = Self::collect_group_keys(results, prop);
        let mut merged: Vec<SarifResult> = Vec::new();
        let mut j: usize = 0;
        while j < keys.len()
            invariant
                j <= keys@.len(),
                rv == result_views(results@),
                texts(keys@) == first_appearances(group_keys(rv, prop@)),
                result_views(merged@) == grouped(rv, texts(keys@).subrange(0, j as int), prop@),
            decreases keys@.len() - j,
        {
            Self::append_group(results, prop, &keys[j], &mut merged);
            assert(texts(keys@).subrange(0, j + 1).drop_last() =~= texts(keys@).subrange(0, j as int));
            j = j + 1;
        }
        assert(texts(keys@).subrange(0, keys@.len() as int) =~= texts(keys@));
        merged
    }

    /// Merge results by concern.
    pub fn merge_by_concern(results: &Vec<SarifResult>) -> (r: Vec<SarifResult>)
        ensures
            result_views(r@) == merged_by_property(result_views(results@), "concern"@),
    {
        Self::merge_by_property(results, "concern")
    }

    /// Merge results by contract.
    pub fn merge_by_contract(results: &Vec<SarifResult>) -> (r: Vec<SarifResult>)
        ensures
            result_views(r@) == merged_by_property(result_views(results@), "contract"@),
    {
        Self::merge_by_property(results, "contract")
    }

    /// Merge results by hook event.
    pub fn merge_by_hook_event(results: &Vec<SarifResult>) -> (r: Vec<SarifResult>)
        ensures
            result_views(r@) == merged_by_property(result_views(results@), "hook_event"@),
    {
        Self::merge_by_property(results, "hook_event")
    }

    /// Merge results by tool: the results stay as they are.
    pub fn merge_by_tool(results: &Vec<SarifResult>) -> (r: Vec<SarifResult>)
        ensures
            result_views(r@) == result_views(results@),
    {
        copy_results(results)
    }

    /// Append to `out` the results at level `level`, in order.
    fn append_level(results: &Vec<SarifResult>, level: &str, out: &mut Vec<SarifResult>)
        ensures
            result_views(final(out)@) == result_views(old(out)@) + result_views(results@).filter(at_level(level@)),
    {
        let ghost rv = result_views(results@);
        let ghost before = result_views(out@);
        let mut i: usize = 0;
        while i < results.len()
            invariant
                i <= results@.len(),
                rv == result_views(results@),
                result_views(out@) == before + rv.subrange(0, i as int).filter(at_level(level@)),
            decreases results@.len() - i,
        {
            reveal_with_fuel(Seq::<_>::filter, 1);
            assert(rv.subrange(0, i + 1).drop_last() =~= rv.subrange(0, i as int));
            if str_eq(results[i].level.as_str(), level) {
                let d = results[i].duplicate();
                let ghost m = out@;
                out.push(d);
                assert(result_views(out@) =~= result_views(m).push(rv[i as int]));
            }
            i = i + 1;
        }
        assert(rv.subrange(0, results@.len() as int) =~= rv);
    }

    /// Merge results by severity: errors, then warnings, then notes.
    pub fn merge_by_severity(results: &Vec<SarifResult>) -> (r: Vec<SarifResult>)
        ensures
            result_views(r@) == merged_by_severity(result_views(results@)),
    {
        let mut merged: Vec<SarifResult> = Vec::new();
        Self::append_level(results, "error", &mut merged);
        Self::append_level(results, "warning", &mut merged);
        Self::append_level(results, "note", &mut merged);
        assert(result_views(merged@) =~= merged_by_severity(result_views(results@)));
        merged
    }

    /// Deduplicate results: keep the first result of each rule, message and level.
    pub fn deduplicate_results(results: &Vec<SarifResult>) -> (r: Vec<SarifResult>)
        ensures
            result_views(r@) == deduplicated(result_views(results@)),
    {
        let ghost rv = result_views(results@);
        let mut seen: Vec<String> = Vec::new();
        let mut out: Vec<SarifResult> = Vec::new();
        let mut i: usize = 0;
        while i < results.len()
            invariant
                i <= results@.len(),
                rv == result_views(results@),
                result_views(out@) == deduplicated(rv.subrange(0, i as int)),
                texts(seen@) == dedup_keys(deduplicated(rv.subrange(0, i as int))),
            decreases results@.len() - i,
        {
            assert(rv.subrange(0, i + 1).drop_last() =~= rv.subrange(0, i as int));
            let key = dedup_key_of(&results[i]);
            if !contains_text(&seen, &key) {
                let d = results[i].duplicate();
                let ghost m = out@;
                let ghost sn = seen@;
                out.push(d);
                seen.push(key);
                assert(result_views(out@) =~= result_views(m).push(rv[i as int]));
                assert(texts(seen@) =~= texts(sn).push(dedup_key(rv[i as int])));
                assert(dedup_keys(deduplicated(rv.subrange(0, i + 1))) =~= dedup_keys(deduplicated(rv.subrange(0, i as int))).push(dedup_key(rv[i as int])));
            }
            i = i + 1;
        }
        assert(rv.subrange(0, results@.len() as int) =~= rv);
        out
    }

    /// Sort results by level (error, warning, note, others), then rule id; the
    /// sort is stable.
    pub fn sort_results(results: &Vec<SarifResult>) -> (r: Vec<SarifResult>)
        ensures
            result_views(r@) == sorted_results(result_views(results@)),
    {
        let ghost rv = result_views(results@);
        let mut sorted: Vec<SarifResult> = Vec::new();
        let mut i: usize = 0;
        while i < results.len()
            invariant
                i <= results@.len(),
                rv == result_views(results@),
                result_views(sorted@) == sorted_results(rv.subrange(0, i as int)),
            decreases results@.len() - i,
        {
            assert(rv.subrange(0, i + 1).drop_last() =~= rv.subrange(0, i as int));
            let x = results[i].duplicate();
            let ghost sv = result_views(sorted@);
            let mut j: usize = sorted.len();
            while j > 0 && !result_le_exec(&sorted[j - 1], &x)
                invariant
                    j <= sorted@.len(),
                    sv == result_views(sorted@),
                    forall|k: int| j <= k < sv.len() ==> !result_le(#[trigger] sv[k], x@),
                decreases j,
            {
                j = j - 1;
            }
            proof {
                lemma_insert_sorted_at(sv, x@, j as int);
            }
            sorted.insert(j, x);
            assert(result_views(sorted@) =~= sv.subrange(0, j as int).push(rv[i as int]) + sv.subrange(j as int, sv.len() as int));
            i = i + 1;
        }
        assert(rv.subrange(0, results@.len() as int) =~= rv);
        sorted
    }

    /// Create a log for a single concern.
    pub fn create_concern_log(concern: &str, results: Vec<SarifResult>) -> (r: SarifLog)
        ensures
            r.version@ == "2.1.0"@,
            r.runs@.len() == 1,
            r.runs@[0].tool_name@ == validator_label("Hooksmith Concern Validator"@, concern@),
            r.runs@[0].tool_version@ == "1.0.0"@,
            r.runs@[0].results == results,
    {
        single_run(make_label("Hooksmith Concern Validator", concern), results)
    }

    /// Create a log for a single contract.
    pub fn create_contract_log(contract: &str, results: Vec<SarifResult>) -> (r: SarifLog)
        ensures
            r.version@ == "2.1.0"@,
            r.runs@.len() == 1,
            r.runs@[0].tool_name@ == validator_label("Hooksmith Contract Validator"@, contract@),
            r.runs@[0].tool_version@ == "1.0.0"@,
            r.runs@[0].results == results,
    {
        single_run(make_label("Hooksmith Contract Validator", contract), results)
    }

    /// Split a log by the value of property `prop`.
    fn split_by_property(log: &SarifLog, prop: &str, prefix: &str) -> (r: Vec<(String, SarifLog)>)
        ensures
            split_as(r@, run_results(log.runs@), prop@, prefix@),
    {
        let mut flat: Vec<SarifResult> = Vec::new();
        append_run_results(&log.runs, &mut flat);
        assert(result_views(flat@) =~= run_results(log.runs@));
        let ghost rs = result_views(flat@);
        let keys = Self::collect_group_keys(&flat, prop);
        let mut parts: Vec<(String, SarifLog)> = Vec::new();
        let mut j: usize = 0;
        while j < keys.len()
            invariant
                j <= keys@.len(),
                rs == result_views(flat@),
                rs == run_results(log.runs@),
                texts(keys@) == first_appearances(group_keys(rs, prop@)),
                parts@.len() == j,
                forall|i: int|
                    0 <= i < j ==> {
                        &&& (#[trigger] parts@[i]).0@ == keys@[i]@
                        &&& single_run_log(
                            parts@[i].1,
                            validator_label(prefix@, keys@[i]@),
                            rs.filter(in_group(prop@, keys@[i]@)),
                        )
                    },
            decreases keys@.len() - j,
        {
            let mut group: Vec<SarifResult> = Vec::new();
            Self::append_group(&flat, prop, &keys[j], &mut group);
            assert(result_views(group@) =~= rs.filter(in_group(prop@, keys@[j as int]@)));
            let log_j = single_run(make_label(prefix, keys[j].as_str()), group);
            parts.push((copy_string(&keys[j]), log_j));
            j = j + 1;
        }
        proof {
            let ks = first_appearances(group_keys(rs, prop@));
            assert forall|i: int| 0 <= i < parts@.len() implies keys@[i]@ == ks[i] by {
                assert(texts(keys@)[i] == keys@[i]@);
            }
        }
        parts
    }

    /// Split a log by concern: one log per concern, in order of first
    /// appearance; results without a concern fall under "unknown".
    pub fn split_by_concern(log: &SarifLog) -> (r: Vec<(String, SarifLog)>)
        ensures
            split_as(r@, run_results(log.runs@), "concern"@, "Hooksmith Concern Validator"@),
    {
        Self::split_by_property(log, "concern", "Hooksmith Concern Validator")
    }

    /// Split a log by contract: one log per contract, in order of first
    /// appearance; results without a contract fall under "unknown".
    pub fn split_by_contract(log: &SarifLog) -> (r: Vec<(String, SarifLog)>)
        ensures
            split_as(r@, run_results(log.runs@), "contract"@, "Hooksmith Contract Validator"@),
    {
        Self::split_by_property(log, "contract", "Hooksmith Contract Validator")
    }

    /// Count the results by key: the level where `prop` is `None`, else the
    /// value of property `prop`.
    fn count_by(results: &Vec<SarifResult>, prop: Option<&str>) -> (r: Vec<(String, usize)>)
        ensures
            counted_as(r@, result_views(results@), count_key(
                match prop {
                    Some(p) => Some(p@),
                    None => None,
                },
            )),
    {
        let ghost f = count_key(
            match prop {
                Some(p) => Some(p@),
                None => None,
            },
        );
        let ghost rv = result_views(results@);
        let mut keys: Vec<String> = Vec::new();
        let mut cnts: Vec<usize> = Vec::new();
        let mut i: usize = 0;
        while i < results.len()
            invariant
                i <= results@.len(),
                rv == result_views(results@),
                f == count_key(
                    match prop {
                        Some(p) => Some(p@),
                        None => None,
                    },
                ),
                texts(keys@) == first_appearances(present_keys(rv.subrange(0, i as int), f)),
                cnts@.len() == keys@.len(),
                forall|j: int|
                    0 <= j < keys@.len() ==> #[trigger] cnts@[j] == rv.subrange(0, i as int).filter(
                        has_key(f, keys@[j]@),
                    ).len(),
            decreases results@.len() - i,
        {
            reveal_with_fuel(Seq::<_>::filter, 1);
            let ghost pre = rv.subrange(0, i as int);
            let ghost post = rv.subrange(0, i + 1);
            assert(post.drop_last() =~= pre);
            assert(post =~= pre.push(rv[i as int]));
            proof {
                lemma_first_appearances_distinct(present_keys(pre, f));
                assert forall|kk: Seq<char>| #[trigger] post.filter(has_key(f, kk)) == if f(rv[i as int]) == Some(kk) {
                    pre.filter(has_key(f, kk)).push(rv[i as int])
                } else {
                    pre.filter(has_key(f, kk))
                } by {
                    pre.lemma_filter_push(rv[i as int], has_key(f, kk));
                }
            }
            let key: Option<String> = match prop {
                None => Some(copy_string(&results[i].level)),
                Some(p) => match results[i].property(p) {
                    Some(v) => Some(copy_string(v)),
                    None => None,
                },
            };
            assert(key matches Some(k) ==> f(rv[i as int]) == Some(k@));
            assert(key is None ==> f(rv[i as int]) is None);
            match key {
                Some(k) => {
                    match index_of_text(&keys, &k) {
                        Some(idx) => {
                            proof {
                                pre.lemma_filter_len(has_key(f, k@));
                                assert(texts(keys@)[idx as int] == k@);
                                lemma_first_appearances_contains(present_keys(pre, f), k@);
                            }
                            let c = cnts[idx];
                            cnts.set(idx, c + 1);
                            assert(present_keys(post, f) == present_keys(pre, f).push(k@));
                            assert(present_keys(pre, f).push(k@).drop_last() =~= present_keys(pre, f));
                            assert(first_appearances(present_keys(pre, f)).contains(k@));
                            assert forall|j: int| 0 <= j < keys@.len() && j != idx implies keys@[j]@ != k@ by {
                                assert(texts(keys@)[j] == keys@[j]@);
                            }
                        },
                        None => {
                            proof {
                                lemma_first_appearances_contains(present_keys(pre, f), k@);
                                lemma_absent_key_uncounted(pre, f, k@);
                            }
                            let ghost old_keys = keys@;
                            assert(present_keys(pre, f).push(k@).drop_last() =~= present_keys(pre, f));
                            keys.push(k);
                            cnts.push(1);
                            assert(texts(keys@) =~= texts(old_keys).push(k@));
                            assert forall|j: int| 0 <= j < old_keys.len() implies old_keys[j]@ != k@ by {
                                assert(texts(old_keys)[j] == old_keys[j]@);
                            }
                            assert(present_keys(post, f) == present_keys(pre, f).push(keys@.last()@));
                            assert(texts(keys@) =~= first_appearances(present_keys(post, f)));
                        },
                    }
                },
                None => {
                    assert(present_keys(post, f) == present_keys(pre, f));
                },
            }
            i = i + 1;
        }
        assert(rv.subrange(0, results@.len() as int) =~= rv);
        let mut out: Vec<(String, usize)> = Vec::new();
        let mut j: usize = 0;
        while j < keys.len()
            invariant
                j <= keys@.len(),
                cnts@.len() == keys@.len(),
                out@.len() == j,
                forall|k: int| 0 <= k < j ==> (#[trigger] out@[k]).0@ == keys@[k]@ && out@[k].1 == cnts@[k],
            decreases keys@.len() - j,
        {
            out.push((copy_string(&keys[j]), cnts[j]));
            j = j + 1;
        }
        proof {
            assert forall|k: int| 0 <= k < out@.len() implies (#[trigger] out@[k]).0@ == first_appearances(present_keys(rv, f))[k] by {
                assert(texts(keys@)[k] == keys@[k]@);
            }
        }
        out
    }

    /// Merge statistics of a log: the number of results, and the number of
    /// results per level, per concern and per contract.
    pub fn merge_stats(log: &SarifLog) -> (r: MergeStats)
        ensures
            r.total_results == run_results(log.runs@).len(),
            counted_as(r.severity_counts@, run_results(log.runs@), count_key(None)),
            counted_as(r.concern_counts@, run_results(log.runs@), count_key(Some("concern"@))),
            counted_as(r.contract_counts@, run_results(log.runs@), count_key(Some("contract"@))),
    {
        let mut flat: Vec<SarifResult> = Vec::new();
        append_run_results(&log.runs, &mut flat);
        assert(result_views(flat@) =~= run_results(log.runs@));
        let severity_counts = Self::count_by(&flat, None);
        let concern_counts = Self::count_by(&flat, Some("concern"));
        let contract_counts = Self::count_by(&flat, Some("contract"));
        MergeStats { total_results: flat.len(), severity_counts, concern_counts, contract_counts }
    }
}

} // verus!
