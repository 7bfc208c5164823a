//! What is written to the log when an attribute is not replaced because
//! other documents share its text row.

use crate::entities::{views, Document, DocumentView};
use crate::ids::{hyphenated_text, DocumentUuid};
use crate::index::{BiblFs, FsView};
use vstd::prelude::*;
use vstd::string::StringExecFns;

verus! {

/// The line that heads the report.
pub const CONFLICT_HEADER: &'static str =
    "Cannot replace an attribute that belongs to other documents as well:";

/// The title of a document as it is shown: the title, and the suffix in
/// brackets where there is one.
pub open spec fn shown_title(document: DocumentView) -> Seq<char> {
    match document.title_suffix {
        Some(suffix) => document.title + " ("@ + suffix + ")"@,
        None => document.title,
    }
}

/// The line that names one document that shares the attribute `name`.
pub open spec fn conflict_line(document: DocumentView, name: Seq<char>) -> Seq<char> {
    "Document "@ + shown_title(document) + " ["@ + hyphenated_text(document.uuid.0.0)
        + "] has attribute "@ + name + "."@
}

impl FsView {
    /// The lines for the first `n` of `owners`: one for each that the index
    /// knows, in their order.
    pub open spec fn conflict_lines(self, owners: Seq<DocumentUuid>, name: Seq<char>, n: int) -> Seq<
        Seq<char>,
    >
        decreases n,
    {
        if n <= 0 {
            Seq::empty()
        } else {
            match self.document_at(owners[n - 1]) {
                Some(i) => self.conflict_lines(owners, name, n - 1).push(
                    conflict_line(self.documents[i], name),
                ),
                None => self.conflict_lines(owners, name, n - 1),
            }
        }
    }

    /// The report: the header, and a line for each of `owners` that the
    /// index knows.
    pub open spec fn conflict_report(self, owners: Seq<DocumentUuid>, name: Seq<char>) -> Seq<
        Seq<char>,
    > {
        seq![CONFLICT_HEADER@] + self.conflict_lines(owners, name, owners.len() as int)
    }
}

/// Writes the line that names one document that shares the attribute
/// `name`.
pub fn describe(document: &Document, name: &str) -> (line: String)
    ensures
        line@ == conflict_line(document@, name@),
{
    let mut line = String::from_str("Document ");
    line.append(document.title.as_str());
    match &document.title_suffix {
        Some(suffix) => {
            line.append(" (");
            line.append(suffix.as_str());
            line.append(")");
        },
        None => {},
    }
    line.append(" [");
    line.append(document.uuid.0.to_hyphenated().as_str());
    line.append("] has attribute ");
    line.append(name);
    line.append(".");
    assert(line@ =~= conflict_line(document@, name@));
    line
}

impl BiblFs {
    /// Writes the report on the documents `owners` that share the
    /// attribute `name`.
    pub fn conflict_report(&self, owners: &Vec<DocumentUuid>, name: &str) -> (lines: Vec<String>)
        ensures
            views(lines@) == self@.conflict_report(owners@, name@),
    {
        let mut lines: Vec<String> = Vec::new();
        lines.push(String::from_str(CONFLICT_HEADER));
        assert(views(lines@) =~= seq![CONFLICT_HEADER@] + self@.conflict_lines(owners@, name@, 0));
        let documents = self.documents();
        let mut n: usize = 0;
        while n < owners.len()
            invariant
                n <= owners@.len(),
                views(documents@) == self@.documents,
                views(lines@) == seq![CONFLICT_HEADER@] + self@.conflict_lines(
                    owners@,
                    name@,
                    n as int,
                ),
            decreases owners@.len() - n,
        {
            match self.find_document(owners[n]) {
                Some(i) => {
                    let ghost before = views(lines@);
                    assert(self@.documents[i as int] == documents@[i as int]@);
                    lines.push(describe(&documents[i], name));
                    assert(views(lines@) =~= before.push(
                        conflict_line(self@.documents[i as int], name@),
                    ));
                    assert(views(lines@) =~= seq![CONFLICT_HEADER@] + self@.conflict_lines(
                        owners@,
                        name@,
                        n + 1,
                    ));
                },
                None => {},
            }
            n += 1;
        }
        lines
    }
}

} // verus!
