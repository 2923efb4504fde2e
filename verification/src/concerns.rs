//! Snapshots of concerns: the data observed for each concern that the
//! pipeline can read, with where it comes from.

use vstd::prelude::*;
use crate::json::{JsonValue, JsonView, fields_view, json_text, object_of_two};
use crate::symbols::ConcernSymbol;
use crate::types::ConcernSnapshot;
use crate::outside::sha256_hex_of;

verus! {

/// An object whose members `keys` (in order) are empty arrays.
pub open spec fn empty_lists(keys: Seq<Seq<char>>) -> JsonView {
    JsonView::Object(keys.map_values(|k: Seq<char>| (k, JsonView::Array(Seq::empty()))))
}

/// An object with the one member `key`.
pub open spec fn single(key: Seq<char>, v: JsonView) -> JsonView {
    JsonView::Object(seq![(key, v)])
}

/// The data observed for a concern and where it comes from, for the
/// concerns that can be read.
pub open spec fn concern_data(c: ConcernSymbol) -> Option<(JsonView, Seq<char>)> {
    match c {
        ConcernSymbol::Index => Some(
            (empty_lists(seq!["staged_files"@, "unstaged_files"@, "untracked_files"@]), "git-index"@),
        ),
        ConcernSymbol::AttrLineEndingNormalization => Some(
            (empty_lists(seq!["binary_files"@, "line_ending_rules"@, "text_files"@]), "gitattributes"@),
        ),
        ConcernSymbol::AttrDiffStrategy => Some((empty_lists(seq!["binary_files"@, "diff_rules"@]), "gitattributes"@)),
        ConcernSymbol::Ref => Some((empty_lists(seq!["heads"@, "remotes"@, "tags"@]), "git-refs"@)),
        ConcernSymbol::Branch => Some(
            (
                JsonView::Object(
                    seq![("branches"@, JsonView::Array(Seq::empty())), ("current"@, JsonView::Str("main"@))],
                ),
                "git-branch"@,
            ),
        ),
        ConcernSymbol::Remote => Some((single("remotes"@, JsonView::Array(Seq::empty())), "git-remote"@)),
        ConcernSymbol::TreeExecutable => Some((single("executable_files"@, JsonView::Array(Seq::empty())), "git-tree"@)),
        ConcernSymbol::Commit => Some((single("commits"@, JsonView::Array(Seq::empty())), "git-commit"@)),
        ConcernSymbol::Tree => Some((single("trees"@, JsonView::Array(Seq::empty())), "git-tree"@)),
        ConcernSymbol::Head => Some((single("head"@, JsonView::Str("refs/heads/main"@)), "git-head"@)),
        ConcernSymbol::ConfigCommit => Some(
            (single("commit_config"@, JsonView::Object(Seq::empty())), "git-config"@),
        ),
        ConcernSymbol::ConfigUser => Some((single("user_config"@, JsonView::Object(Seq::empty())), "git-config"@)),
        ConcernSymbol::ConfigGc => Some((single("gc_config"@, JsonView::Object(Seq::empty())), "git-config"@)),
        ConcernSymbol::ConfigRebase => Some(
            (single("rebase_config"@, JsonView::Object(Seq::empty())), "git-config"@),
        ),
        _ => None,
    }
}

/// The snapshot data of a concern: what can be read, or an error object
/// for a concern that cannot.
pub open spec fn snapshot_data(c: ConcernSymbol) -> JsonView {
    match concern_data(c) {
        Some((d, _)) => d,
        None => single("error"@, JsonView::Str("Concern not implemented"@)),
    }
}

/// The snapshot metadata of a concern: its source, or that it is not
/// implemented.
pub open spec fn snapshot_metadata(c: ConcernSymbol) -> Seq<(Seq<char>, JsonView)> {
    match concern_data(c) {
        Some((_, src)) => seq![("source"@, JsonView::Str(src))],
        None => seq![("status"@, JsonView::Str("unimplemented"@))],
    }
}

/// An object whose members `keys` are empty arrays.
pub(crate) fn empty_lists_of(keys: &[&str]) -> (r: JsonValue)
    ensures
        r@ == empty_lists(keys@.map_values(|k: &str| k@)),
{
    let mut fields: Vec<(String, JsonValue)> = Vec::new();
    let mut i: usize = 0;
    while i < keys.len()
        invariant
            i <= keys@.len(),
            fields@.len() == i,
            forall|j: int| 0 <= j < i ==> (#[trigger] fields@[j]).0@ == keys@[j]@ && fields@[j].1@ == JsonView::Array(Seq::empty()),
        decreases keys@.len() - i,
    {
        let empty: Vec<JsonValue> = Vec::new();
        let item = JsonValue::Array(empty);
        assert(crate::json::items_view(empty@) =~= Seq::<JsonView>::empty());
        fields.push((keys[i].to_owned(), item));
        i = i + 1;
    }
    proof {
        crate::json::lemma_fields_view(fields@);
    }
    assert(fields_view(fields@) =~= keys@.map_values(|k: &str| k@).map_values(
        |k: Seq<char>| (k, JsonView::Array(Seq::empty())),
    ));
    JsonValue::Object(fields)
}

/// An object with the one member `key`.
pub(crate) fn single_of(key: &str, v: JsonValue) -> (r: JsonValue)
    ensures
        r@ == single(key@, v@),
{
    let mut fields: Vec<(String, JsonValue)> = Vec::new();
    fields.push((key.to_owned(), v));
    proof {
        crate::json::lemma_fields_view(fields@);
    }
    assert(fields_view(fields@) =~= seq![(key@, fields@[0].1@)]);
    JsonValue::Object(fields)
}

/// An empty JSON array.
pub(crate) fn empty_list() -> (r: JsonValue)
    ensures
        r@ == JsonView::Array(Seq::empty()),
{
    let items: Vec<JsonValue> = Vec::new();
    assert(crate::json::items_view(items@) =~= Seq::<JsonView>::empty());
    JsonValue::Array(items)
}

/// An empty JSON object.
pub(crate) fn empty_object() -> (r: JsonValue)
    ensures
        r@ == JsonView::Object(Seq::empty()),
{
    let fields: Vec<(String, JsonValue)> = Vec::new();
    assert(fields_view(fields@) =~= Seq::<(Seq<char>, JsonView)>::empty());
    JsonValue::Object(fields)
}

/// The data and source of a concern that can be read.
fn read_concern(symbol: &ConcernSymbol) -> (r: Option<(JsonValue, &'static str)>)
    ensures
        match r {
            Some((d, src)) => concern_data(*symbol) == Some((d@, src@)),
            None => concern_data(*symbol) is None,
        },
{
    match symbol {
        ConcernSymbol::Index => {
            let d = empty_lists_of(&["staged_files", "unstaged_files", "untracked_files"]);
            proof {
                assert(seq!["staged_files", "unstaged_files", "untracked_files"].map_values(|k: &str| k@) =~= seq![
                    "staged_files"@,
                    "unstaged_files"@,
                    "untracked_files"@,
                ]);
            }
            Some((d, "git-index"))
        },
        ConcernSymbol::AttrLineEndingNormalization => {
            let d = empty_lists_of(&["binary_files", "line_ending_rules", "text_files"]);
            proof {
                assert(seq!["binary_files", "line_ending_rules", "text_files"].map_values(|k: &str| k@) =~= seq![
                    "binary_files"@,
                    "line_ending_rules"@,
                    "text_files"@,
                ]);
            }
            Some((d, "gitattributes"))
        },
        ConcernSymbol::AttrDiffStrategy => {
            let d = empty_lists_of(&["binary_files", "diff_rules"]);
            proof {
                assert(seq!["binary_files", "diff_rules"].map_values(|k: &str| k@) =~= seq!["binary_files"@, "diff_rules"@]);
            }
            Some((d, "gitattributes"))
        },
        ConcernSymbol::Ref => {
            let d = empty_lists_of(&["heads", "remotes", "tags"]);
            proof {
                assert(seq!["heads", "remotes", "tags"].map_values(|k: &str| k@) =~= seq!["heads"@, "remotes"@, "tags"@]);
            }
            Some((d, "git-refs"))
        },
        ConcernSymbol::Branch => {
            let empty: Vec<JsonValue> = Vec::new();
            assert(crate::json::items_view(empty@) =~= Seq::<JsonView>::empty());
            let d = object_of_two("branches", JsonValue::Array(empty), "current", JsonValue::Str("main".to_owned()));
            Some((d, "git-branch"))
        },
        ConcernSymbol::Remote => {
            let d = single_of("remotes", empty_list());
            Some((d, "git-remote"))
        },
        ConcernSymbol::TreeExecutable => {
            let d = single_of("executable_files", empty_list());
            Some((d, "git-tree"))
        },
        ConcernSymbol::Commit => {
            let d = single_of("commits", empty_list());
            Some((d, "git-commit"))
        },
        ConcernSymbol::Tree => {
            let d = single_of("trees", empty_list());
            Some((d, "git-tree"))
        },
        ConcernSymbol::Head => Some((single_of("head", JsonValue::Str("refs/heads/main".to_owned())), "git-head")),
        ConcernSymbol::ConfigCommit => Some((single_of("commit_config", empty_object()), "git-config")),
        ConcernSymbol::ConfigUser => Some((single_of("user_config", empty_object()), "git-config")),
        ConcernSymbol::ConfigGc => Some((single_of("gc_config", empty_object()), "git-config")),
        ConcernSymbol::ConfigRebase => Some((single_of("rebase_config", empty_object()), "git-config")),
        _ => None,
    }
}

/// Snapshot a concern: its data (an error object for a concern that cannot
/// be read), hashed, with its source or that it is not implemented.
pub fn snapshot_concern(symbol: &ConcernSymbol) -> (r: ConcernSnapshot)
    ensures
        r.symbol == *symbol,
        r.data@ == snapshot_data(*symbol),
        r.hash@ == sha256_hex_of(json_text(snapshot_data(*symbol))),
        fields_view(r.metadata@) == snapshot_metadata(*symbol),
{
    let (data, key, value) = match read_concern(symbol) {
        Some((d, src)) => (d, "source", src),
        None => (single_of("error", JsonValue::Str("Concern not implemented".to_owned())), "status", "unimplemented"),
    };
    let mut metadata: Vec<(String, JsonValue)> = Vec::new();
    metadata.push((key.to_owned(), JsonValue::Str(value.to_owned())));
    proof {
        crate::json::lemma_fields_view(metadata@);
    }
    assert(fields_view(metadata@) =~= snapshot_metadata(*symbol));
    ConcernSnapshot::new(*symbol, data, metadata)
}

/// Snapshot the Git index.
pub fn snapshot_index() -> (r: ConcernSnapshot)
    ensures
        r.symbol == ConcernSymbol::Index,
        r.data@ == snapshot_data(ConcernSymbol::Index),
        fields_view(r.metadata@) == snapshot_metadata(ConcernSymbol::Index),
{
    snapshot_concern(&ConcernSymbol::Index)
}

} // verus!
