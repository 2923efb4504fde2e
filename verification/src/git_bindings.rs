//! Git-native bindings for hook concerns: each concern name maps to a Git
//! object or metadata type, and each validation yields the line it reports.
//! Whether an attributes file exists is read from disk by the caller and
//! handed in.

use vstd::prelude::*;
use crate::git_native::{GitObjectType, GitMetadataType};
use crate::text::{str_eq, chars_of};

verus! {

/// The Git library a validation goes through.
#[derive(Debug, Clone, Copy, PartialEq, Eq, Structural)]
pub enum GitApi {
    /// libgit2
    Git2,
    /// gitoxide
    Gix,
}

impl GitApi {
    /// The library's name, as text.
    pub open spec fn text(self) -> Seq<char> {
        match self {
            GitApi::Git2 => "git2"@,
            GitApi::Gix => "gix"@,
        }
    }

    /// The library's name.
    pub fn name(&self) -> (r: &'static str)
        ensures
            r@ == self.text(),
    {
        match self {
            GitApi::Git2 => "git2",
            GitApi::Gix => "gix",
        }
    }
}

/// The name of an object type, as text.
pub open spec fn object_word(t: GitObjectType) -> Seq<char> {
    match t {
        GitObjectType::Blob => "blob"@,
        GitObjectType::Tree => "tree"@,
        GitObjectType::Commit => "commit"@,
        GitObjectType::Tag => "tag"@,
    }
}

/// The word a metadata validation reports for its type.
pub open spec fn metadata_word(t: GitMetadataType) -> Seq<char> {
    match t {
        GitMetadataType::Ref => "ref"@,
        GitMetadataType::Note => "note"@,
        GitMetadataType::Attr => "attributes"@,
        GitMetadataType::Index => "index"@,
        GitMetadataType::Stash => "stash"@,
        GitMetadataType::Worktree => "worktree"@,
        GitMetadataType::Remote => "remote"@,
        GitMetadataType::Branch => "branch"@,
        GitMetadataType::Head => "head"@,
        GitMetadataType::Reflog => "reflog"@,
    }
}

/// The line a successful validation reports for `word` and `id`.
pub open spec fn validated_line(word: Seq<char>, id: Seq<char>, api: GitApi) -> Seq<char> {
    "✅ Validated "@ + word + " "@ + id + " using "@ + api.text()
}

/// The line a successful index validation reports.
pub open spec fn index_line(api: GitApi) -> Seq<char> {
    "✅ Validated index using "@ + api.text()
}

/// `path` joined under `base`, as a path join shows it: an absolute path
/// stands alone, and one separator stands between the two.
pub open spec fn path_join(base: Seq<char>, path: Seq<char>) -> Seq<char> {
    if path.len() > 0 && path[0] == '/' {
        path
    } else if base.len() == 0 {
        path
    } else if base.last() == '/' {
        base + path
    } else {
        base + "/"@ + path
    }
}

/// The outcome of validating metadata of type `t` under `identifier`, in the
/// repository at `repo`, where `attr_exists` says whether the attributes file
/// `identifier` names (under `repo`) exists.
pub open spec fn metadata_outcome(
    repo: Seq<char>,
    t: GitMetadataType,
    identifier: Seq<char>,
    attr_exists: bool,
    api: GitApi,
) -> Result<Seq<char>, Seq<char>> {
    match t {
        GitMetadataType::Index => Ok(index_line(api)),
        GitMetadataType::Attr => if attr_exists {
            Ok(validated_line(metadata_word(t), identifier, api))
        } else {
            Err("Git attributes file not found: "@ + path_join(repo, identifier))
        },
        _ => Ok(validated_line(metadata_word(t), identifier, api)),
    }
}

/// A concern that the bindings know: a Git object or a metadata type.
#[derive(Debug, Clone, Copy, PartialEq, Eq, Structural)]
pub enum GitConcern {
    /// A Git object type
    Object(GitObjectType),
    /// A Git metadata type
    Metadata(GitMetadataType),
}

/// The concern a name stands for, if any.
pub open spec fn concern_named(c: Seq<char>) -> Option<GitConcern> {
    if c == "blob"@ {
        Some(GitConcern::Object(GitObjectType::Blob))
    } else if c == "tree"@ {
        Some(GitConcern::Object(GitObjectType::Tree))
    } else if c == "commit"@ {
        Some(GitConcern::Object(GitObjectType::Commit))
    } else if c == "tag"@ {
        Some(GitConcern::Object(GitObjectType::Tag))
    } else if c == "ref"@ {
        Some(GitConcern::Metadata(GitMetadataType::Ref))
    } else if c == "note"@ {
        Some(GitConcern::Metadata(GitMetadataType::Note))
    } else if c == "attr"@ {
        Some(GitConcern::Metadata(GitMetadataType::Attr))
    } else if c == "index"@ {
        Some(GitConcern::Metadata(GitMetadataType::Index))
    } else if c == "stash"@ {
        Some(GitConcern::Metadata(GitMetadataType::Stash))
    } else if c == "worktree"@ {
        Some(GitConcern::Metadata(GitMetadataType::Worktree))
    } else if c == "remote"@ {
        Some(GitConcern::Metadata(GitMetadataType::Remote))
    } else {
        None
    }
}

/// The outcome of validating concern `c` under `identifier`.
pub open spec fn concern_outcome(
    repo: Seq<char>,
    c: Seq<char>,
    identifier: Seq<char>,
    attr_exists: bool,
    api: GitApi,
) -> Result<Seq<char>, Seq<char>> {
    match concern_named(c) {
        Some(GitConcern::Object(t)) => Ok(validated_line(object_word(t), identifier, api)),
        Some(GitConcern::Metadata(t)) => metadata_outcome(repo, t, identifier, attr_exists, api),
        None => Err("Unknown concern: "@ + c),
    }
}

/// A result of text as plain values.
pub open spec fn outcome_view(r: Result<String, String>) -> Result<Seq<char>, Seq<char>> {
    match r {
        Ok(s) => Ok(s@),
        Err(e) => Err(e@),
    }
}

/// Statistics as plain values, in order.
pub open spec fn stats_view(v: Seq<(String, u32)>) -> Seq<(Seq<char>, u32)> {
    v.map_values(|e: (String, u32)| (e.0@, e.1))
}

/// The object statistics: every object type, with no count yet.
pub open spec fn object_stats() -> Seq<(Seq<char>, u32)> {
    seq![("blob"@, 0u32), ("tree"@, 0u32), ("commit"@, 0u32), ("tag"@, 0u32)]
}

/// The metadata statistics: every metadata type, with no count yet.
pub open spec fn metadata_stats() -> Seq<(Seq<char>, u32)> {
    seq![
        ("ref"@, 0u32),
        ("note"@, 0u32),
        ("attr"@, 0u32),
        ("index"@, 0u32),
        ("stash"@, 0u32),
        ("worktree"@, 0u32),
        ("remote"@, 0u32),
    ]
}

/// `path` joined under `base`.
pub fn join_path(base: &str, path: &str) -> (r: String)
    ensures
        r@ == path_join(base@, path@),
{
    let pc = chars_of(path);
    if pc.len() > 0 && pc[0] == '/' {
        return path.to_owned();
    }
    let bc = chars_of(base);
    if bc.len() == 0 {
        return path.to_owned();
    }
    let mut r = base.to_owned();
    if bc[bc.len() - 1] != '/' {
        r.append("/");
    }
    r.append(path);
    r
}

/// The line reported for `word` and `id`.
fn validated(word: &str, id: &str, api: GitApi) -> (r: String)
    ensures
        r@ == validated_line(word@, id@, api),
{
    let mut r = "✅ Validated ".to_owned();
    r.append(word);
    r.append(" ");
    r.append(id);
    r.append(" using ");
    r.append(api.name());
    r
}

/// Statistics of `names`, each with no count yet.
fn zero_stats(names: &[&str]) -> (r: Vec<(String, u32)>)
    ensures
        r@.len() == names@.len(),
        forall|i: int| 0 <= i < r@.len() ==> (#[trigger] r@[i]).0@ == names@[i]@ && r@[i].1 == 0,
{
    let mut r: Vec<(String, u32)> = Vec::new();
    let mut i: usize = 0;
    while i < names.len()
        invariant
            i <= names@.len(),
            r@.len() == i,
            forall|j: int| 0 <= j < i ==> (#[trigger] r@[j]).0@ == names@[j]@ && r@[j].1 == 0,
        decreases names@.len() - i,
    {
        r.push((names[i].to_owned(), 0));
        i = i + 1;
    }
    r
}

/// Git-native API bindings for hook concerns.
pub struct GitBindings {
    repo_path: String,
}

impl GitBindings {
    /// The repository path, as text.
    pub closed spec fn repo(&self) -> Seq<char> {
        self.repo_path@
    }

    /// Bindings for the repository at `repo_path`.
    pub fn new(repo_path: &str) -> (r: Self)
        ensures
            r.repo() == repo_path@,
    {
        GitBindings { repo_path: repo_path.to_owned() }
    }

    /// The repository path.
    pub fn repo_path(&self) -> (r: &str)
        ensures
            r@ == self.repo(),
    {
        self.repo_path.as_str()
    }

    /// Where the attributes file `attr_path` lies: under the repository.
    pub fn attr_file(&self, attr_path: &str) -> (r: String)
        ensures
            r@ == path_join(self.repo(), attr_path@),
    {
        join_path(self.repo_path.as_str(), attr_path)
    }

    fn object_line(&self, object_type: &GitObjectType, object_id: &str, api: GitApi) -> (r: String)
        ensures
            r@ == validated_line(object_word(*object_type), object_id@, api),
    {
        match object_type {
            GitObjectType::Blob => validated("blob", object_id, api),
            GitObjectType::Tree => validated("tree", object_id, api),
            GitObjectType::Commit => validated("commit", object_id, api),
            GitObjectType::Tag => validated("tag", object_id, api),
        }
    }

    fn metadata_result(&self, metadata_type: &GitMetadataType, identifier: &str, attr_exists: bool, api: GitApi) -> (r:
        Result<String, String>)
        ensures
            outcome_view(r) == metadata_outcome(self.repo(), *metadata_type, identifier@, attr_exists, api),
    {
        match metadata_type {
            GitMetadataType::Ref => Ok(validated("ref", identifier, api)),
            GitMetadataType::Note => Ok(validated("note", identifier, api)),
            GitMetadataType::Attr => {
                if !attr_exists {
                    let mut m = "Git attributes file not found: ".to_owned();
                    let f = self.attr_file(identifier);
                    m.append(f.as_str());
                    return Err(m);
                }
                Ok(validated("attributes", identifier, api))
            },
            GitMetadataType::Index => {
                let mut m = "✅ Validated index using ".to_owned();
                m.append(api.name());
                Ok(m)
            },
            GitMetadataType::Stash => Ok(validated("stash", identifier, api)),
            GitMetadataType::Worktree => Ok(validated("worktree", identifier, api)),
            GitMetadataType::Remote => Ok(validated("remote", identifier, api)),
            GitMetadataType::Branch => Ok(validated("branch", identifier, api)),
            GitMetadataType::Head => Ok(validated("head", identifier, api)),
            GitMetadataType::Reflog => Ok(validated("reflog", identifier, api)),
        }
    }

    /// Validate a Git object through git2: the line it reports.
    pub fn validate_git_object(&self, object_type: &GitObjectType, object_id: &str) -> (r: Result<String, String>)
        ensures
            outcome_view(r) == Ok::<Seq<char>, Seq<char>>(validated_line(object_word(*object_type), object_id@, GitApi::Git2)),
    {
        Ok(self.object_line(object_type, object_id, GitApi::Git2))
    }

    /// Validate a Git object through gix: the line it reports.
    pub fn validate_git_object_gix(&self, object_type: &GitObjectType, object_id: &str) -> (r: Result<String, String>)
        ensures
            outcome_view(r) == Ok::<Seq<char>, Seq<char>>(validated_line(object_word(*object_type), object_id@, GitApi::Gix)),
    {
        Ok(self.object_line(object_type, object_id, GitApi::Gix))
    }

    /// Validate Git metadata through git2, given whether the attributes file
    /// that `identifier` names exists.
    pub fn validate_git_metadata(&self, metadata_type: &GitMetadataType, identifier: &str, attr_exists: bool) -> (r:
        Result<String, String>)
        ensures
            outcome_view(r) == metadata_outcome(self.repo(), *metadata_type, identifier@, attr_exists, GitApi::Git2),
    {
        self.metadata_result(metadata_type, identifier, attr_exists, GitApi::Git2)
    }

    /// Validate Git metadata through gix, given whether the attributes file
    /// that `identifier` names exists.
    pub fn validate_git_metadata_gix(&self, metadata_type: &GitMetadataType, identifier: &str, attr_exists: bool) -> (r:
        Result<String, String>)
        ensures
            outcome_view(r) == metadata_outcome(self.repo(), *metadata_type, identifier@, attr_exists, GitApi::Gix),
    {
        self.metadata_result(metadata_type, identifier, attr_exists, GitApi::Gix)
    }

    /// The object statistics through git2.
    pub fn get_object_stats_git2(&self) -> (r: Result<Vec<(String, u32)>, String>)
        ensures
            r matches Ok(v) && stats_view(v@) == object_stats(),
    {
        let v = zero_stats(&["blob", "tree", "commit", "tag"]);
        assert(stats_view(v@) =~= object_stats());
        Ok(v)
    }

    /// The metadata statistics through git2.
    pub fn get_metadata_stats_git2(&self) -> (r: Result<Vec<(String, u32)>, String>)
        ensures
            r matches Ok(v) && stats_view(v@) == metadata_stats(),
    {
        let v = zero_stats(&["ref", "note", "attr", "index", "stash", "worktree", "remote"]);
        assert(stats_view(v@) =~= metadata_stats());
        Ok(v)
    }

    /// The object statistics through gix.
    pub fn get_object_stats_gix(&self) -> (r: Result<Vec<(String, u32)>, String>)
        ensures
            r matches Ok(v) && stats_view(v@) == object_stats(),
    {
        self.get_object_stats_git2()
    }

    /// The metadata statistics through gix.
    pub fn get_metadata_stats_gix(&self) -> (r: Result<Vec<(String, u32)>, String>)
        ensures
            r matches Ok(v) && stats_view(v@) == metadata_stats(),
    {
        self.get_metadata_stats_git2()
    }

    /// The concern a name stands for, if any.
    pub fn concern_named(concern: &str) -> (r: Option<GitConcern>)
        ensures
            r == concern_named(concern@),
    {
        if str_eq(concern, "blob") {
            Some(GitConcern::Object(GitObjectType::Blob))
        } else if str_eq(concern, "tree") {
            Some(GitConcern::Object(GitObjectType::Tree))
        } else if str_eq(concern, "commit") {
            Some(GitConcern::Object(GitObjectType::Commit))
        } else if str_eq(concern, "tag") {
            Some(GitConcern::Object(GitObjectType::Tag))
        } else if str_eq(concern, "ref") {
            Some(GitConcern::Metadata(GitMetadataType::Ref))
        } else if str_eq(concern, "note") {
            Some(GitConcern::Metadata(GitMetadataType::Note))
        } else if str_eq(concern, "attr") {
            Some(GitConcern::Metadata(GitMetadataType::Attr))
        } else if str_eq(concern, "index") {
            Some(GitConcern::Metadata(GitMetadataType::Index))
        } else if str_eq(concern, "stash") {
            Some(GitConcern::Metadata(GitMetadataType::Stash))
        } else if str_eq(concern, "worktree") {
            Some(GitConcern::Metadata(GitMetadataType::Worktree))
        } else if str_eq(concern, "remote") {
            Some(GitConcern::Metadata(GitMetadataType::Remote))
        } else {
            None
        }
    }

    fn concern_result(&self, concern: &str, identifier: &str, attr_exists: bool, api: GitApi) -> (r: Result<String, String>)
        ensures
            outcome_view(r) == concern_outcome(self.repo(), concern@, identifier@, attr_exists, api),
    {
        match Self::concern_named(concern) {
            Some(GitConcern::Object(t)) => Ok(self.object_line(&t, identifier, api)),
            Some(GitConcern::Metadata(t)) => self.metadata_result(&t, identifier, attr_exists, api),
            None => {
                let mut m = "Unknown concern: ".to_owned();
                m.append(concern);
                Err(m)
            },
        }
    }
}

/// Pattern matching of hook concerns onto Git APIs.
pub trait GitConcernValidator {
    /// Validate a concern through git2, given whether the attributes file
    /// that `identifier` names exists.
    fn validate_concern_git2(&self, concern: &str, identifier: &str, attr_exists: bool) -> Result<String, String>;

    /// Validate a concern through gix, given whether the attributes file
    /// that `identifier` names exists.
    fn validate_concern_gix(&self, concern: &str, identifier: &str, attr_exists: bool) -> Result<String, String>;

    /// The statistics of a concern.
    fn get_concern_stats(&self, concern: &str) -> Result<u32, String>;
}

impl GitConcernValidator for GitBindings {
    fn validate_concern_git2(&self, concern: &str, identifier: &str, attr_exists: bool) -> (r: Result<String, String>)
        ensures
            outcome_view(r) == concern_outcome(self.repo(), concern@, identifier@, attr_exists, GitApi::Git2),
    {
        self.concern_result(concern, identifier, attr_exists, GitApi::Git2)
    }

    fn validate_concern_gix(&self, concern: &str, identifier: &str, attr_exists: bool) -> (r: Result<String, String>)
        ensures
            outcome_view(r) == concern_outcome(self.repo(), concern@, identifier@, attr_exists, GitApi::Gix),
    {
        self.concern_result(concern, identifier, attr_exists, GitApi::Gix)
    }

    /// No count yet for a concern the bindings know; an error for another.
    fn get_concern_stats(&self, concern: &str) -> (r: Result<u32, String>)
        ensures
            match concern_named(concern@) {
                Some(_) => r == Ok::<u32, String>(0),
                None => r matches Err(e) && e@ == "Unknown concern: "@ + concern@,
            },
    {
        match Self::concern_named(concern) {
            Some(_) => Ok(0),
            None => {
                let mut m = "Unknown concern: ".to_owned();
                m.append(concern);
                Err(m)
            },
        }
    }
}

} // verus!
