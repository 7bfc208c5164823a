//! Lemmas on the model of the store: how its queries answer after a row
//! was written or detached.

use crate::ids::{DocumentUuid, TextMetadataUuid};
use crate::store::{named, named_upto, StoreState, TextLink, TextRowView};
use vstd::prelude::*;

verus! {

/// Which rows are named `name` among the first `n` depends on those rows
/// alone.
pub proof fn lemma_named_prefix(a: Seq<TextRowView>, b: Seq<TextRowView>, name: Seq<char>, n: int)
    requires
        0 <= n <= a.len(),
        n <= b.len(),
        forall|i: int| 0 <= i < n ==> a[i] == b[i],
    ensures
        named_upto(a, name, n) == named_upto(b, name, n),
    decreases n,
{
    if n > 0 {
        lemma_named_prefix(a, b, name, n - 1);
    }
}

/// A row that is added at the end is chosen last, if it is chosen.
pub proof fn lemma_named_push(rows: Seq<TextRowView>, row: TextRowView, name: Seq<char>)
    ensures
        named(rows.push(row), name) == if row.name == name {
            named(rows, name).push(row)
        } else {
            named(rows, name)
        },
{
    lemma_named_prefix(rows.push(row), rows, name, rows.len() as int);
}

/// Where some row is chosen, a row of `rows` is named `name`.
pub proof fn lemma_named_witness(rows: Seq<TextRowView>, name: Seq<char>, n: int) -> (i: int)
    requires
        0 <= n <= rows.len(),
        named_upto(rows, name, n).len() > 0,
    ensures
        0 <= i < n,
        rows[i].name == name,
    decreases n,
{
    if rows[n - 1].name == name {
        n - 1
    } else {
        lemma_named_witness(rows, name, n - 1)
    }
}

impl StoreState {
    /// The rows that the first `n` attachments give `document` under
    /// `name`.
    pub open spec fn chosen_upto(self, document: DocumentUuid, name: Seq<char>, n: int) -> Seq<
        TextRowView,
    > {
        named(self.attached_upto(document, n), name)
    }

    /// Whether the attachment at place `j` gives `document` a row named
    /// `name`.
    pub open spec fn gives(self, document: DocumentUuid, name: Seq<char>, j: int) -> bool {
        self.links[j].document == document && (self.row_at(self.links[j]) matches Some(row)
            && row.name == name)
    }

    /// A text row stands where its identity is looked up.
    pub proof fn lemma_text_position(self, id: TextMetadataUuid)
        requires
            self.wf(),
        ensures
            match self.text_position(id) {
                Some(p) => 0 <= p < self.text.len() && self.text[p].uuid == id,
                None => forall|i: int| 0 <= i < self.text.len() ==> self.text[i].uuid != id,
            },
            forall|p: int|
                0 <= p < self.text.len() && self.text[p].uuid == id ==> self.text_position(id)
                    == Some(p),
    {
    }

    /// After a row was written, an attachment to it gives the row as
    /// written, and every other attachment gives what it gave.
    pub proof fn lemma_put_row_at(
        self,
        document: DocumentUuid,
        metadata: TextMetadataUuid,
        name: Seq<char>,
        data: Seq<char>,
        link: TextLink,
    )
        requires
            self.wf(),
        ensures
            self.put(document, metadata, name, data).row_at(link) == if link.metadata == metadata {
                Some(TextRowView { uuid: metadata, name, data })
            } else {
                self.row_at(link)
            },
    {
        let after = self.put(document, metadata, name, data);
        let row = TextRowView { uuid: metadata, name, data };
        self.lemma_put_wf(document, metadata, name, data);
        self.lemma_text_position(metadata);
        self.lemma_text_position(link.metadata);
        after.lemma_text_position(link.metadata);
        let at = match self.text_position(metadata) {
            Some(p) => p,
            None => self.text.len() as int,
        };
        assert(after.text[at] == row);
        if link.metadata == metadata {
            assert(after.text_position(metadata) == Some(at));
        } else {
            match self.text_position(link.metadata) {
                Some(q) => {
                    assert(after.text[q] == self.text[q]);
                    assert(after.text_position(link.metadata) == Some(q));
                },
                None => {
                    assert forall|i: int| 0 <= i < after.text.len() implies after.text[i].uuid
                        != link.metadata by {
                        if i != at {
                            assert(after.text[i] == self.text[i]);
                        }
                    }
                },
            }
        }
    }

    /// The rows chosen from more attachments begin with the rows chosen
    /// from fewer.
    pub proof fn lemma_chosen_grows(self, document: DocumentUuid, name: Seq<char>, n: int)
        requires
            0 < n <= self.links.len(),
        ensures
            self.chosen_upto(document, name, n) == if self.gives(document, name, n - 1) {
                self.chosen_upto(document, name, n - 1).push(self.row_at(self.links[n - 1])->Some_0)
            } else {
                self.chosen_upto(document, name, n - 1)
            },
    {
        let link = self.links[n - 1];
        match self.row_at(link) {
            Some(row) => {
                if link.document == document {
                    lemma_named_push(self.attached_upto(document, n - 1), row, name);
                }
            },
            None => {},
        }
    }

    /// Every attachment among the first `n` that gives `document` a row
    /// named `name` has that row among those chosen.
    pub proof fn lemma_given_is_chosen(self, document: DocumentUuid, name: Seq<char>, n: int, j: int) -> (t:
        int)
        requires
            0 <= j < n <= self.links.len(),
            self.gives(document, name, j),
        ensures
            0 <= t < self.chosen_upto(document, name, n).len(),
            self.chosen_upto(document, name, n)[t] == self.row_at(self.links[j])->Some_0,
        decreases n,
    {
        self.lemma_chosen_grows(document, name, n);
        if j == n - 1 {
            self.chosen_upto(document, name, n).len() - 1
        } else {
            self.lemma_given_is_chosen(document, name, n - 1, j)
        }
    }

    /// Where an attribute has no value, or one value that the row
    /// `metadata` gives, no attachment to another row gives the document a
    /// row of the attribute's name.
    pub proof fn lemma_single_value(
        self,
        document: DocumentUuid,
        name: Seq<char>,
        metadata: TextMetadataUuid,
        j: int,
    )
        requires
            self.wf(),
            0 <= j < self.links.len(),
            self.gives(document, name, j),
            self.values(document, name).len() <= 1,
            self.has(document, name) ==> self.metadata_named(document, name) == Some(metadata),
        ensures
            self.links[j].metadata == metadata,
    {
        let t = self.lemma_given_is_chosen(document, name, self.links.len() as int, j);
        self.lemma_text_position(self.links[j].metadata);
    }

    /// After the row `metadata` was written under `name`, the first `k`
    /// attachments give `document` that row under `name` if the
    /// attachment of the row to the document is among them, and nothing
    /// else: provided that before no attachment to another row gave the
    /// document a row of that name.
    pub proof fn lemma_put_chosen(
        self,
        document: DocumentUuid,
        metadata: TextMetadataUuid,
        name: Seq<char>,
        data: Seq<char>,
        k: int,
    )
        requires
            self.wf(),
            0 <= k <= self.links.len(),
            forall|j: int|
                0 <= j < self.links.len() && #[trigger] self.gives(document, name, j)
                    ==> self.links[j].metadata == metadata,
        ensures
            self.put(document, metadata, name, data).chosen_upto(document, name, k) == if exists|
                j: int,
            |
                0 <= j < k && self.links[j] == (TextLink { document, metadata }) {
                seq![TextRowView { uuid: metadata, name, data }]
            } else {
                Seq::<TextRowView>::empty()
            },
        decreases k,
    {
        let after = self.put(document, metadata, name, data);
        let link = TextLink { document, metadata };
        let row = TextRowView { uuid: metadata, name, data };
        if k > 0 {
            self.lemma_put_chosen(document, metadata, name, data, k - 1);
            assert(after.links[k - 1] == self.links[k - 1]);
            after.lemma_chosen_grows(document, name, k);
            self.lemma_put_row_at(document, metadata, name, data, self.links[k - 1]);
            if self.links[k - 1] == link {
                assert(forall|j: int| 0 <= j < k - 1 ==> #[trigger] self.links[j] != link);
                assert(after.gives(document, name, k - 1));
            } else if self.links[k - 1].document == document {
                assert(self.links[k - 1].metadata != metadata);
                assert(after.row_at(after.links[k - 1]) == self.row_at(self.links[k - 1]));
                if after.gives(document, name, k - 1) {
                    assert(self.gives(document, name, k - 1));
                }
            } else {
                assert(!after.gives(document, name, k - 1));
            }
        } else {
            assert(after.attached_upto(document, 0) =~= Seq::<TextRowView>::empty());
        }
    }

    /// After the row `metadata` was written under `name` and attached to
    /// `document`, the attribute `name` of the document has the one value
    /// that was written: provided that before it had no value, or one
    /// value that the row `metadata` gave.
    pub proof fn lemma_put_values(
        self,
        document: DocumentUuid,
        metadata: TextMetadataUuid,
        name: Seq<char>,
        data: Seq<char>,
    )
        requires
            self.wf(),
            self.values(document, name).len() <= 1,
            self.has(document, name) ==> self.metadata_named(document, name) == Some(metadata),
        ensures
            self.put(document, metadata, name, data).values(document, name) == seq![data],
            self.put(document, metadata, name, data).has(document, name),
            self.put(document, metadata, name, data).metadata_named(document, name) == Some(metadata),
    {
        let after = self.put(document, metadata, name, data);
        let link = TextLink { document, metadata };
        let row = TextRowView { uuid: metadata, name, data };
        let len = self.links.len() as int;
        assert forall|j: int| 0 <= j < self.links.len() && #[trigger] self.gives(document, name, j)
            implies self.links[j].metadata == metadata by {
            self.lemma_single_value(document, name, metadata, j);
        }
        self.lemma_put_chosen(document, metadata, name, data, len);
        match self.link_position(link) {
            Some(p) => {
                assert(after.links == self.links);
                assert(0 <= p < len && self.links[p] == link);
            },
            None => {
                assert(after.links == self.links.push(link));
                after.lemma_chosen_grows(document, name, len + 1);
                self.lemma_put_row_at(document, metadata, name, data, link);
                assert(after.gives(document, name, len));
                assert(forall|j: int| 0 <= j < len ==> #[trigger] self.links[j] != link);
            },
        }
        assert(after.values(document, name) =~= seq![data]);
    }

    /// After a row was detached, and deleted or not, an attachment to
    /// another row gives what it gave.
    pub proof fn lemma_removed_row_at(
        self,
        document: DocumentUuid,
        metadata: TextMetadataUuid,
        delete_row: bool,
        link: TextLink,
    )
        requires
            self.wf(),
            link.metadata != metadata,
        ensures
            self.removed(document, metadata, delete_row).row_at(link) == self.row_at(link),
    {
        let after = self.removed(document, metadata, delete_row);
        self.lemma_removed_wf(document, metadata, delete_row);
        self.lemma_text_position(metadata);
        self.lemma_text_position(link.metadata);
        after.lemma_text_position(link.metadata);
        match self.text_position(metadata) {
            Some(p) if delete_row => {
                match self.text_position(link.metadata) {
                    Some(q) => {
                        let moved = if q < p {
                            q
                        } else {
                            q - 1
                        };
                        assert(after.text[moved] == self.text[q]);
                        assert(after.text_position(link.metadata) == Some(moved));
                    },
                    None => {
                        assert forall|i: int| 0 <= i < after.text.len() implies after.text[i].uuid
                            != link.metadata by {
                            let from = if i < p {
                                i
                            } else {
                                i + 1
                            };
                            assert(after.text[i] == self.text[from]);
                        }
                    },
                }
            },
            _ => {},
        }
    }

    /// After the row `metadata` was detached from `document`, no
    /// attachment gives the document a row named `name`: provided that
    /// before no attachment to another row did.
    pub proof fn lemma_removed_chosen(
        self,
        document: DocumentUuid,
        metadata: TextMetadataUuid,
        name: Seq<char>,
        delete_row: bool,
        k: int,
    )
        requires
            self.wf(),
            self.link_position(TextLink { document, metadata }) is Some,
            0 <= k <= self.removed(document, metadata, delete_row).links.len(),
            forall|j: int|
                0 <= j < self.links.len() && #[trigger] self.gives(document, name, j)
                    ==> self.links[j].metadata == metadata,
        ensures
            self.removed(document, metadata, delete_row).chosen_upto(document, name, k)
                == Seq::<TextRowView>::empty(),
        decreases k,
    {
        let after = self.removed(document, metadata, delete_row);
        let link = TextLink { document, metadata };
        if k > 0 {
            self.lemma_removed_chosen(document, metadata, name, delete_row, k - 1);
            after.lemma_chosen_grows(document, name, k);
            let p = self.link_position(link)->Some_0;
            let from = if k - 1 < p {
                k - 1
            } else {
                k
            };
            assert(after.links[k - 1] == self.links[from]);
            assert(self.links[from] != self.links[p]);
            if after.gives(document, name, k - 1) {
                self.lemma_removed_row_at(document, metadata, delete_row, self.links[from]);
                assert(self.gives(document, name, from));
            }
        } else {
            assert(after.attached_upto(document, 0) =~= Seq::<TextRowView>::empty());
        }
    }

    /// After the one row that gave `document` its attribute `name` was
    /// detached, the document has no such attribute.
    pub proof fn lemma_removed_values(
        self,
        document: DocumentUuid,
        name: Seq<char>,
        delete_row: bool,
    )
        requires
            self.wf(),
            self.values(document, name).len() == 1,
        ensures
            !self.removed(
                document,
                self.metadata_named(document, name)->Some_0,
                delete_row,
            ).has(document, name),
    {
        let metadata = self.metadata_named(document, name)->Some_0;
        let after = self.removed(document, metadata, delete_row);
        let len = self.links.len() as int;
        assert forall|j: int| 0 <= j < self.links.len() && #[trigger] self.gives(document, name, j)
            implies self.links[j].metadata == metadata by {
            self.lemma_single_value(document, name, metadata, j);
        }
        let i = lemma_named_witness(
            self.attached(document),
            name,
            self.attached(document).len() as int,
        );
        let j = self.lemma_attached_witness(document, len, i);
        assert(self.gives(document, name, j));
        assert(self.links[j] == (TextLink { document, metadata }));
        self.lemma_removed_chosen(document, metadata, name, delete_row, after.links.len() as int);
    }

    /// Every row among those attached comes from an attachment.
    pub proof fn lemma_attached_witness(self, document: DocumentUuid, n: int, i: int) -> (j: int)
        requires
            0 <= n <= self.links.len(),
            0 <= i < self.attached_upto(document, n).len(),
        ensures
            0 <= j < n,
            self.links[j].document == document,
            self.row_at(self.links[j]) == Some(self.attached_upto(document, n)[i]),
        decreases n,
    {
        let link = self.links[n - 1];
        match self.row_at(link) {
            Some(row) if link.document == document => {
                if i == self.attached_upto(document, n).len() - 1 {
                    n - 1
                } else {
                    self.lemma_attached_witness(document, n - 1, i)
                }
            },
            _ => self.lemma_attached_witness(document, n - 1, i),
        }
    }
}

} // verus!
