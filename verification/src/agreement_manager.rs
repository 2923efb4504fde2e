//! Agreements between a scope (a tree) and a contract (a blob), kept as
//! Git notes: their records, where a record's note lives, and what the
//! agreement commands report.

use vstd::prelude::*;
use crate::json::JsonValue;
use crate::outside::utc_now_rfc3339;
use crate::sarif::{copy_string, texts};
use crate::text::chars_of;

verus! {

/// An agreement: the tree it applies to and the contract it holds to.
#[derive(Debug, Clone)]
pub struct Agreement {
    /// Tree SHA: the file system layout the agreement applies to
    pub scope: String,
    /// Blob SHA: the contract that defines the expectations
    pub contract: String,
}

/// Agreement status.
#[derive(Debug, Clone, Copy, PartialEq, Eq, Structural)]
pub enum AgreementStatus {
    /// Agreement is active and being worked on
    Active,
    /// Agreement has been fulfilled
    Fulfilled,
    /// Agreement has been revoked
    Revoked,
    /// Agreement is pending review
    Pending,
}

/// An agreement with its record.
#[derive(Debug, Clone)]
pub struct AgreementMetadata {
    /// The agreement itself
    pub agreement: Agreement,
    /// When the agreement was created
    pub created_at: String,
    /// Who created the agreement
    pub created_by: String,
    /// Current status of the agreement
    pub status: AgreementStatus,
    /// Optional description
    pub description: Option<String>,
    /// Additional metadata
    pub metadata: Option<Vec<(String, JsonValue)>>,
}

/// The name of a status.
pub open spec fn status_text(s: AgreementStatus) -> Seq<char> {
    match s {
        AgreementStatus::Active => "Active"@,
        AgreementStatus::Fulfilled => "Fulfilled"@,
        AgreementStatus::Revoked => "Revoked"@,
        AgreementStatus::Pending => "Pending"@,
    }
}

impl AgreementStatus {
    /// The name of the status.
    pub fn name(&self) -> (r: &'static str)
        ensures
            r@ == status_text(*self),
    {
        match *self {
            AgreementStatus::Active => "Active",
            AgreementStatus::Fulfilled => "Fulfilled",
            AgreementStatus::Revoked => "Revoked",
            AgreementStatus::Pending => "Pending",
        }
    }
}

/// The notes reference agreements are kept under.
pub open spec fn agreements_ref() -> Seq<char> {
    "refs/notes/hooksmith/agreements"@
}

/// The notes reference agreements are kept under.
pub fn agreements_notes_ref() -> (r: String)
    ensures
        r@ == agreements_ref(),
{
    "refs/notes/hooksmith/agreements".to_owned()
}

/// A key with each `/` written as `_`.
pub open spec fn slashes_to_underscores(key: Seq<char>) -> Seq<char> {
    key.map_values(|c: char| if c == '/' { '_' } else { c })
}

/// The note reference of a key under a notes reference.
pub open spec fn note_ref_of(notes_ref: Seq<char>, key: Seq<char>) -> Seq<char> {
    notes_ref + "/"@ + slashes_to_underscores(key)
}

/// The note reference of a key under a notes reference.
pub fn note_ref(notes_ref: &str, key: &str) -> (r: String)
    ensures
        r@ == note_ref_of(notes_ref@, key@),
{
    let mut r = notes_ref.to_owned();
    r.append("/");
    let ghost base = r@;
    let cs = chars_of(key);
    let mut i: usize = 0;
    while i < cs.len()
        invariant
            i <= cs@.len(),
            cs@ == key@,
            r@ == base + slashes_to_underscores(key@).take(i as int),
        decreases cs@.len() - i,
    {
        let c = if cs[i] == '/' {
            '_'
        } else {
            cs[i]
        };
        crate::text::push_char(&mut r, c);
        assert(slashes_to_underscores(key@).take(i + 1) =~= slashes_to_underscores(key@).take(i as int).push(c));
        i = i + 1;
    }
    assert(slashes_to_underscores(key@).take(i as int) =~= slashes_to_underscores(key@));
    r
}

/// The record of a new agreement: active, created now by `created_by`.
pub fn new_agreement(scope: &str, contract: &str, description: Option<&str>, created_by: String) -> (r: AgreementMetadata)
    ensures
        r.agreement.scope@ == scope@,
        r.agreement.contract@ == contract@,
        r.created_by@ == created_by@,
        r.status == AgreementStatus::Active,
        match description {
            Some(d) => r.description matches Some(x) && x@ == d@,
            None => r.description is None,
        },
        r.metadata is None,
{
    AgreementMetadata {
        agreement: Agreement { scope: scope.to_owned(), contract: contract.to_owned() },
        created_at: utc_now_rfc3339(),
        created_by,
        status: AgreementStatus::Active,
        description: match description {
            Some(d) => Some(d.to_owned()),
            None => None,
        },
        metadata: None,
    }
}

/// What creating an agreement reports.
pub fn agreement_created_message(scope: &str, contract: &str) -> (r: String)
    ensures
        r@ == "Agreement created: scope="@ + scope@ + ", contract="@ + contract@,
{
    let mut r = "Agreement created: scope=".to_owned();
    r.append(scope);
    r.append(", contract=");
    r.append(contract);
    r
}

/// The lines listing one agreement.
pub open spec fn entry_lines(m: AgreementMetadata) -> Seq<Seq<char>> {
    seq![
        "  Scope: "@ + m.agreement.scope@,
        "  Contract: "@ + m.agreement.contract@,
        "  Status: "@ + status_text(m.status),
        "  Created: "@ + m.created_at@,
    ] + match m.description {
        Some(d) => seq!["  Description: "@ + d@],
        None => Seq::empty(),
    } + seq![Seq::empty()]
}

/// The lines listing agreements.
pub open spec fn listing_lines(ms: Seq<AgreementMetadata>) -> Seq<Seq<char>>
    decreases ms.len(),
{
    if ms.len() == 0 {
        Seq::empty()
    } else {
        listing_lines(ms.drop_last()) + entry_lines(ms.last())
    }
}

/// What listing agreements prints.
pub open spec fn list_output(ms: Seq<AgreementMetadata>) -> Seq<Seq<char>> {
    if ms.len() == 0 {
        seq!["📝 No agreements found"@]
    } else {
        seq!["📝 Agreements:"@] + listing_lines(ms)
    }
}

/// What showing an agreement prints.
pub open spec fn show_output(scope: Seq<char>, m: Option<AgreementMetadata>) -> Seq<Seq<char>> {
    match m {
        None => seq!["❌ No agreement found for scope: "@ + scope],
        Some(m) => seq![
            "📋 Agreement Details:"@,
            "  Scope: "@ + m.agreement.scope@,
            "  Contract: "@ + m.agreement.contract@,
            "  Status: "@ + status_text(m.status),
            "  Created: "@ + m.created_at@,
            "  Created by: "@ + m.created_by@,
        ] + match m.description {
            Some(d) => seq!["  Description: "@ + d@],
            None => Seq::empty(),
        },
    }
}

/// A text made of a prefix and a value.
fn labelled(prefix: &str, value: &str) -> (r: String)
    ensures
        r@ == prefix@ + value@,
{
    let mut r = prefix.to_owned();
    r.append(value);
    r
}

/// The lines that listing agreements prints.
pub fn list_lines(agreements: &Vec<AgreementMetadata>) -> (r: Vec<String>)
    ensures
        texts(r@) == list_output(agreements@),
{
    let mut out: Vec<String> = Vec::new();
    if agreements.len() == 0 {
        out.push("📝 No agreements found".to_owned());
        assert(texts(out@) =~= list_output(agreements@));
        return out;
    }
    out.push("📝 Agreements:".to_owned());
    let ghost head = seq!["📝 Agreements:"@];
    assert(texts(out@) =~= head);
    let mut i: usize = 0;
    while i < agreements.len()
        invariant
            i <= agreements@.len(),
            head == seq!["📝 Agreements:"@],
            texts(out@) == head + listing_lines(agreements@.take(i as int)),
        decreases agreements@.len() - i,
    {
        let m = &agreements[i];
        let ghost before = texts(out@);
        out.push(labelled("  Scope: ", m.agreement.scope.as_str()));
        out.push(labelled("  Contract: ", m.agreement.contract.as_str()));
        out.push(labelled("  Status: ", m.status.name()));
        out.push(labelled("  Created: ", m.created_at.as_str()));
        match &m.description {
            Some(d) => {
                out.push(labelled("  Description: ", d.as_str()));
            },
            None => {},
        }
        out.push(String::new());
        assert(texts(out@) =~= before + entry_lines(*m));
        assert(agreements@.take(i + 1).drop_last() =~= agreements@.take(i as int));
        i = i + 1;
    }
    assert(agreements@.take(i as int) =~= agreements@);
    out
}

/// The lines that showing the agreement of a scope prints.
pub fn show_lines(scope: &str, metadata: Option<&AgreementMetadata>) -> (r: Vec<String>)
    ensures
        texts(r@) == show_output(
            scope@,
            match metadata {
                Some(m) => Some(*m),
                None => None,
            },
        ),
{
    let mut out: Vec<String> = Vec::new();
    match metadata {
        None => {
            out.push(labelled("❌ No agreement found for scope: ", scope));
        },
        Some(m) => {
            out.push("📋 Agreement Details:".to_owned());
            out.push(labelled("  Scope: ", m.agreement.scope.as_str()));
            out.push(labelled("  Contract: ", m.agreement.contract.as_str()));
            out.push(labelled("  Status: ", m.status.name()));
            out.push(labelled("  Created: ", m.created_at.as_str()));
            out.push(labelled("  Created by: ", m.created_by.as_str()));
            match &m.description {
                Some(d) => {
                    out.push(labelled("  Description: ", d.as_str()));
                },
                None => {},
            }
        },
    }
    assert(texts(out@) =~= show_output(
        scope@,
        match metadata {
            Some(m) => Some(*m),
            None => None,
        },
    ));
    out
}

/// A record with its status changed.
pub fn with_status(metadata: AgreementMetadata, status: AgreementStatus) -> (r: AgreementMetadata)
    ensures
        r == (AgreementMetadata { status, ..metadata }),
{
    AgreementMetadata { status, ..metadata }
}

} // verus!
