//! A collection of documents held in memory, which answers the requests of
//! the service as the database does: it gives each new document a key and
//! each write a revision, merges updates into the stored document, and knows
//! no document under a key that was never given or was removed.

use vstd::prelude::*;
use vstd::string::StringExecFns;
use crate::document::{
    reply_view, Document, DocumentResponse, DocumentResponseView, DocumentView, Header,
    HeaderView, InsertOptions, Record, RemoveOptions, UpdateOptions,
};
use crate::errors::DbFailure;
use crate::text::same_text;

verus! {

/// The status with which a collection that has given out its last revision
/// refuses a write.
pub const INSUFFICIENT_STORAGE: u16 = 507;

/// The status with which a collection answers for a key that it does not hold.
pub const NOT_FOUND: u16 = 404;

/// The character of a decimal digit.
pub open spec fn digit(d: nat) -> char {
    if d == 0 {
        '0'
    } else if d == 1 {
        '1'
    } else if d == 2 {
        '2'
    } else if d == 3 {
        '3'
    } else if d == 4 {
        '4'
    } else if d == 5 {
        '5'
    } else if d == 6 {
        '6'
    } else if d == 7 {
        '7'
    } else if d == 8 {
        '8'
    } else {
        '9'
    }
}

/// A number in decimal digits, without leading zeros.
pub open spec fn decimal(n: nat) -> Seq<char>
    decreases n,
{
    if n < 10 {
        seq![digit(n)]
    } else {
        decimal(n / 10).push(digit(n % 10))
    }
}

/// Different numbers are written differently.
pub proof fn lemma_decimal_injective(a: nat, b: nat)
    requires
        decimal(a) == decimal(b),
    ensures
        a == b,
    decreases a,
{
    if a < 10 {
        assert(decimal(a).len() == 1);
        if b >= 10 {
            assert(decimal(b / 10).len() >= 1) by {
                lemma_decimal_not_empty(b / 10);
            }
            assert(decimal(b).len() >= 2);
        } else {
            assert(decimal(a)[0] == digit(a));
            assert(decimal(b)[0] == digit(b));
            lemma_digit_injective(a, b);
        }
    } else {
        lemma_decimal_not_empty(a / 10);
        if b < 10 {
            assert(decimal(b).len() == 1);
            assert(decimal(a).len() >= 2);
        } else {
            assert(decimal(a).last() == digit(a % 10));
            assert(decimal(b).last() == digit(b % 10));
            lemma_digit_injective(a % 10, b % 10);
            assert(decimal(a).drop_last() =~= decimal(a / 10));
            assert(decimal(b).drop_last() =~= decimal(b / 10));
            lemma_decimal_injective(a / 10, b / 10);
            assert(a == 10 * (a / 10) + a % 10);
            assert(b == 10 * (b / 10) + b % 10);
        }
    }
}

/// Different digits have different characters.
pub proof fn lemma_digit_injective(a: nat, b: nat)
    requires
        a < 10,
        b < 10,
        digit(a) == digit(b),
    ensures
        a == b,
{
}

/// Every number has a digit.
pub proof fn lemma_decimal_not_empty(n: nat)
    ensures
        decimal(n).len() >= 1,
    decreases n,
{
    if n >= 10 {
        lemma_decimal_not_empty(n / 10);
    }
}

/// The text of one decimal digit.
fn digit_text(d: u64) -> (r: &'static str)
    requires
        d < 10,
    ensures
        r@ == seq![digit(d as nat)],
{
    proof {
        reveal_strlit("0");
        reveal_strlit("1");
        reveal_strlit("2");
        reveal_strlit("3");
        reveal_strlit("4");
        reveal_strlit("5");
        reveal_strlit("6");
        reveal_strlit("7");
        reveal_strlit("8");
        reveal_strlit("9");
    }
    let r = if d == 0 {
        "0"
    } else if d == 1 {
        "1"
    } else if d == 2 {
        "2"
    } else if d == 3 {
        "3"
    } else if d == 4 {
        "4"
    } else if d == 5 {
        "5"
    } else if d == 6 {
        "6"
    } else if d == 7 {
        "7"
    } else if d == 8 {
        "8"
    } else {
        "9"
    };
    assert(r@ =~= seq![digit(d as nat)]);
    r
}

/// Writes a number in decimal digits.
pub fn decimal_text(n: u64) -> (r: String)
    ensures
        r@ == decimal(n as nat),
    decreases n,
{
    if n < 10 {
        String::from_str(digit_text(n))
    } else {
        let front = decimal_text(n / 10);
        let r = front.concat(digit_text(n % 10));
        assert(r@ =~= decimal(n as nat));
        r
    }
}

/// A stored document in the model of a collection: its revision and content.
pub struct Stored<V> {
    pub rev: nat,
    pub document: V,
}

/// The model of a collection: its name, the number of writes so far, and the
/// stored documents by key.
pub struct CollectionView<V> {
    pub name: Seq<char>,
    pub clock: nat,
    pub documents: Map<Seq<char>, Stored<V>>,
}

/// The identity of the document under `key` with revision number `rev`.
pub open spec fn header_for(name: Seq<char>, key: Seq<char>, rev: nat) -> HeaderView {
    HeaderView { id: name + seq!['/'] + key, key, rev: decimal(rev) }
}

/// `value` if `wanted`, else nothing.
pub open spec fn only_if<V>(wanted: bool, value: V) -> Option<V> {
    if wanted {
        Some(value)
    } else {
        None
    }
}

impl<V> CollectionView<V> {
    /// Whether a document is stored under `key`.
    pub open spec fn holds(self, key: Seq<char>) -> bool {
        self.documents.dom().contains(key)
    }

    /// Whether the collection has no revision left to give.
    pub open spec fn is_full(self) -> bool {
        self.clock >= u64::MAX
    }

    /// Every key was given by this collection, and every revision too.
    pub open spec fn wf(self) -> bool {
        forall|key: Seq<char>| #[trigger]
            self.holds(key) ==> self.documents[key].rev < self.clock && exists|n: nat|
                n < self.clock && key == decimal(n)
    }

    /// The identity of the document under `key`.
    pub open spec fn header(self, key: Seq<char>) -> HeaderView {
        header_for(self.name, key, self.documents[key].rev)
    }

    /// The document under `key`, with its identity.
    pub open spec fn document(self, key: Seq<char>) -> DocumentView<V> {
        DocumentView { header: self.header(key), document: self.documents[key].document }
    }

    /// The key that the next new document gets.
    pub open spec fn next_key(self) -> Seq<char> {
        decimal(self.clock)
    }

    /// The collection after `document` was written under `key`.
    pub open spec fn with(self, key: Seq<char>, document: V) -> CollectionView<V> {
        CollectionView {
            name: self.name,
            clock: self.clock + 1,
            documents: self.documents.insert(key, Stored { rev: self.clock, document }),
        }
    }

    /// The collection after the document under `key` was removed.
    pub open spec fn without(self, key: Seq<char>) -> CollectionView<V> {
        CollectionView {
            name: self.name,
            clock: self.clock,
            documents: self.documents.remove(key),
        }
    }

    /// The answer to a read of `key`: the document, or status 404.
    pub open spec fn fetch(self, key: Seq<char>) -> Result<DocumentView<V>, DbFailure> {
        if self.holds(key) {
            Ok(self.document(key))
        } else {
            Err(DbFailure::Status(NOT_FOUND))
        }
    }

    /// The collection after an insert, and the answer: the document is
    /// stored under the next key, unless the collection is full.
    pub open spec fn insert(self, document: V, options: InsertOptions) -> (
        CollectionView<V>,
        Result<DocumentResponseView<V>, DbFailure>,
    ) {
        if self.is_full() {
            (self, Err(DbFailure::Status(INSUFFICIENT_STORAGE)))
        } else {
            (
                self.with(self.next_key(), document),
                Ok(
                    DocumentResponseView::Response {
                        header: header_for(self.name, self.next_key(), self.clock),
                        old: None,
                        new: only_if(options.return_new, document),
                    },
                ),
            )
        }
    }

    /// The collection after the document under `key` was replaced by
    /// `document`, and the answer.
    pub open spec fn replace(self, key: Seq<char>, document: V, options: UpdateOptions) -> (
        CollectionView<V>,
        Result<DocumentResponseView<V>, DbFailure>,
    ) {
        if !self.holds(key) {
            (self, Err(DbFailure::Status(NOT_FOUND)))
        } else if self.is_full() {
            (self, Err(DbFailure::Status(INSUFFICIENT_STORAGE)))
        } else {
            (
                self.with(key, document),
                Ok(
                    DocumentResponseView::Response {
                        header: header_for(self.name, key, self.clock),
                        old: only_if(options.return_old, self.documents[key].document),
                        new: only_if(options.return_new, document),
                    },
                ),
            )
        }
    }

    /// The collection after a removal, and the answer: the document under
    /// `key` is gone, and status 404 is the answer where there was none.
    pub open spec fn remove(self, key: Seq<char>, options: RemoveOptions) -> (
        CollectionView<V>,
        Result<DocumentResponseView<V>, DbFailure>,
    ) {
        if !self.holds(key) {
            (self, Err(DbFailure::Status(NOT_FOUND)))
        } else {
            (
                self.without(key),
                Ok(
                    DocumentResponseView::Response {
                        header: self.header(key),
                        old: only_if(options.return_old, self.documents[key].document),
                        new: None,
                    },
                ),
            )
        }
    }
}

/// A collection that gave all its keys has not given the next one yet.
pub proof fn lemma_next_key_is_new<V>(store: CollectionView<V>)
    requires
        store.wf(),
    ensures
        !store.holds(store.next_key()),
{
    if store.holds(store.next_key()) {
        let n = choose|n: nat| n < store.clock && store.next_key() == decimal(n);
        lemma_decimal_injective(n, store.clock);
    }
}

/// Writing under the next key or under a key in use, and removing, leave a
/// collection one that gave all its keys.
pub proof fn lemma_wf_kept<V>(store: CollectionView<V>, key: Seq<char>, document: V)
    requires
        store.wf(),
    ensures
        store.with(store.next_key(), document).wf(),
        store.holds(key) ==> store.with(key, document).wf(),
        store.without(key).wf(),
{
    let fresh = store.with(store.next_key(), document);
    assert forall|k: Seq<char>| #[trigger] fresh.holds(k) implies fresh.documents[k].rev
        < fresh.clock && exists|n: nat| n < fresh.clock && k == decimal(n) by {
        if k == store.next_key() {
            assert(store.clock < fresh.clock && k == decimal(store.clock));
        } else {
            assert(store.holds(k));
            let n = choose|n: nat| n < store.clock && k == decimal(n);
            assert(n < fresh.clock && k == decimal(n));
        }
    }
    if store.holds(key) {
        let written = store.with(key, document);
        assert forall|k: Seq<char>| #[trigger] written.holds(k) implies written.documents[k].rev
            < written.clock && exists|n: nat| n < written.clock && k == decimal(n) by {
            assert(store.holds(k));
            let n = choose|n: nat| n < store.clock && k == decimal(n);
            assert(n < written.clock && k == decimal(n));
        }
    }
    let removed = store.without(key);
    assert forall|k: Seq<char>| #[trigger] removed.holds(k) implies removed.documents[k].rev
        < removed.clock && exists|n: nat| n < removed.clock && k == decimal(n) by {
        assert(store.holds(k));
    }
}

/// The collection after an update, and the answer: the changes are merged
/// into the document under `key`.
pub open spec fn update<D: Record>(
    store: CollectionView<D::V>,
    key: Seq<char>,
    patch: <D::Patch as View>::V,
    options: UpdateOptions,
) -> (CollectionView<D::V>, Result<DocumentResponseView<D::V>, DbFailure>) {
    store.replace(key, D::merged(store.documents[key].document, patch), options)
}

/// One stored document.
struct Entry<D> {
    key: String,
    number: u64,
    rev: u64,
    document: D,
}

/// A collection of documents in memory.
pub struct Collection<D: Record> {
    name: String,
    clock: u64,
    entries: Vec<Entry<D>>,
}

/// The stored documents by key.
spec fn documents_of<D: Record>(entries: Seq<Entry<D>>) -> Map<Seq<char>, Stored<D::V>> {
    Map::new(
        |key: Seq<char>| exists|i: int| 0 <= i < entries.len() && (#[trigger] entries[i]).key@ == key,
        |key: Seq<char>|
            {
                let i = choose|i: int| 0 <= i < entries.len() && (#[trigger] entries[i]).key@ == key;
                Stored { rev: entries[i].rev as nat, document: entries[i].document@ }
            },
    )
}

/// Each entry's key is its number in decimal, no number occurs twice, and
/// every number and revision lies before the clock.
spec fn entries_wf<D: Record>(entries: Seq<Entry<D>>, clock: u64) -> bool {
    &&& forall|i: int|
        0 <= i < entries.len() ==> (#[trigger] entries[i]).key@ == decimal(entries[i].number as nat)
            && entries[i].number < clock && entries[i].rev < clock
    &&& forall|i: int, j: int|
        0 <= i < j < entries.len() ==> (#[trigger] entries[i]).number != (#[trigger] entries[j]).number
}

/// No two entries have one key.
proof fn lemma_keys_differ<D: Record>(entries: Seq<Entry<D>>, clock: u64)
    requires
        entries_wf(entries, clock),
    ensures
        forall|i: int, j: int|
            0 <= i < entries.len() && 0 <= j < entries.len() && i != j ==> (#[trigger] entries[i]).key@
                != (#[trigger] entries[j]).key@,
{
    assert forall|i: int, j: int|
        0 <= i < entries.len() && 0 <= j < entries.len() && i != j implies (#[trigger] entries[i]).key@
        != (#[trigger] entries[j]).key@ by {
        if entries[i].key@ == entries[j].key@ {
            lemma_decimal_injective(entries[i].number as nat, entries[j].number as nat);
            if i < j {
                assert(entries[i].number != entries[j].number);
            } else {
                assert(entries[j].number != entries[i].number);
            }
        }
    }
}

/// The model holds each entry under its key.
proof fn lemma_documents_of<D: Record>(entries: Seq<Entry<D>>, clock: u64, i: int)
    requires
        entries_wf(entries, clock),
        0 <= i < entries.len(),
    ensures
        documents_of(entries).dom().contains(entries[i].key@),
        documents_of(entries)[entries[i].key@] == (Stored {
            rev: entries[i].rev as nat,
            document: entries[i].document@,
        }),
{
    lemma_keys_differ(entries, clock);
}

/// Every key and revision of the model is one that the collection gave, and
/// the next key is not in use.
proof fn lemma_model_wf<D: Record>(name: Seq<char>, clock: u64, entries: Seq<Entry<D>>)
    requires
        entries_wf(entries, clock),
    ensures
        (CollectionView { name, clock: clock as nat, documents: documents_of(entries) }).wf(),
        !documents_of(entries).dom().contains(decimal(clock as nat)),
{
    let model = CollectionView { name, clock: clock as nat, documents: documents_of(entries) };
    assert forall|key: Seq<char>| #[trigger] model.holds(key) implies model.documents[key].rev
        < model.clock && exists|n: nat| n < model.clock && key == decimal(n) by {
        let i = choose|i: int| 0 <= i < entries.len() && (#[trigger] entries[i]).key@ == key;
        lemma_documents_of(entries, clock, i);
        assert(entries[i].number < clock && key == decimal(entries[i].number as nat));
    }
    if documents_of(entries).dom().contains(decimal(clock as nat)) {
        let i = choose|i: int|
            0 <= i < entries.len() && (#[trigger] entries[i]).key@ == decimal(clock as nat);
        lemma_decimal_injective(entries[i].number as nat, clock as nat);
    }
}

impl<D: Record> View for Collection<D> {
    type V = CollectionView<D::V>;

    closed spec fn view(&self) -> CollectionView<D::V> {
        CollectionView {
            name: self.name@,
            clock: self.clock as nat,
            documents: documents_of(self.entries@),
        }
    }
}

impl<D: Record> Collection<D> {
    #[verifier::type_invariant]
    spec fn inv(self) -> bool {
        entries_wf(self.entries@, self.clock)
    }

    /// An empty collection of this name.
    pub fn new(name: &str) -> (r: Collection<D>)
        ensures
            r@.name == name@,
            r@.clock == 0,
            r@.documents == Map::<Seq<char>, Stored<D::V>>::empty(),
            r@.wf(),
    {
        let r = Collection { name: name.to_owned(), clock: 0, entries: Vec::new() };
        assert(r@.documents =~= Map::<Seq<char>, Stored<D::V>>::empty());
        r
    }

    /// The place of the entry with this key.
    fn position(&self, key: &str) -> (r: Option<usize>)
        ensures
            match r {
                Some(i) => i < self.entries@.len() && self.entries@[i as int].key@ == key@
                    && self@.holds(key@),
                None => !self@.holds(key@),
            },
    {
        let mut i: usize = 0;
        while i < self.entries.len()
            invariant
                i <= self.entries@.len(),
                forall|j: int| 0 <= j < i ==> (#[trigger] self.entries@[j]).key@ != key@,
            decreases self.entries@.len() - i,
        {
            if same_text(self.entries[i].key.as_str(), key) {
                return Some(i);
            }
            i += 1;
        }
        None
    }

    /// The identity of an entry.
    fn header_of(&self, i: usize) -> (r: Header)
        requires
            i < self.entries@.len(),
        ensures
            r@ == header_for(
                self.name@,
                self.entries@[i as int].key@,
                self.entries@[i as int].rev as nat,
            ),
    {
        let entry = &self.entries[i];
        let id = self.name.clone().concat("/").concat(entry.key.as_str());
        proof {
            reveal_strlit("/");
            assert("/"@ =~= seq!['/']);
        }
        Header { id, key: entry.key.clone(), rev: decimal_text(entry.rev) }
    }

    /// Reads the document under `key`.
    pub fn document(&self, key: &str) -> (r: Result<Document<D>, DbFailure>)
        ensures
            reply_view(r) == self@.fetch(key@),
            self@.wf(),
    {
        proof {
            use_type_invariant(self);
            lemma_model_wf(self.name@, self.clock, self.entries@);
        }
        match self.position(key) {
            Some(i) => {
                proof {
                    lemma_documents_of(self.entries@, self.clock, i as int);
                }
                Ok(Document { header: self.header_of(i), document: self.entries[i].document.copy() })
            },
            None => Err(DbFailure::Status(NOT_FOUND)),
        }
    }

    /// Stores a new document under the next key.
    pub fn create_document(&mut self, document: D, options: InsertOptions) -> (r: Result<
        DocumentResponse<D>,
        DbFailure,
    >)
        ensures
            (final(self)@, reply_view(r)) == old(self)@.insert(document@, options),
            old(self)@.wf(),
            !old(self)@.holds(old(self)@.next_key()),
    {
        proof {
            use_type_invariant(&*self);
            lemma_model_wf(self.name@, self.clock, self.entries@);
        }
        if self.clock == u64::MAX {
            return Err(DbFailure::Status(INSUFFICIENT_STORAGE));
        }
        let number = self.clock;
        let key = decimal_text(number);
        let new = if options.return_new {
            Some(document.copy())
        } else {
            None
        };
        let id = self.name.clone().concat("/").concat(key.as_str());
        proof {
            reveal_strlit("/");
            assert("/"@ =~= seq!['/']);
        }
        let header = Header { id, key: key.clone(), rev: decimal_text(number) };
        let ghost before = self.entries@;
        let entry = Entry { key, number, rev: number, document };
        let mut entries: Vec<Entry<D>> = Vec::new();
        std::mem::swap(&mut self.entries, &mut entries);
        entries.push(entry);
        self.clock = number + 1;
        self.entries = entries;
        proof {
            let after = self.entries@;
            assert(entries_wf(after, self.clock));
            assert forall|k: Seq<char>| #[trigger]
                documents_of(after).dom().contains(k) == documents_of(before).insert(
                    entry.key@,
                    Stored { rev: number as nat, document: document@ },
                ).dom().contains(k) by {
                if documents_of(before).dom().contains(k) {
                    let i = choose|i: int| 0 <= i < before.len() && (#[trigger] before[i]).key@ == k;
                    assert(after[i].key@ == k);
                }
                if k == entry.key@ {
                    assert(after[before.len() as int].key@ == k);
                }
                if documents_of(after).dom().contains(k) {
                    let i = choose|i: int| 0 <= i < after.len() && (#[trigger] after[i]).key@ == k;
                    if i < before.len() {
                        assert(before[i].key@ == k);
                    }
                }
            }
            assert forall|k: Seq<char>| #[trigger]
                documents_of(after).dom().contains(k) implies documents_of(after)[k]
                == documents_of(before).insert(
                entry.key@,
                Stored { rev: number as nat, document: document@ },
            )[k] by {
                let i = choose|i: int| 0 <= i < after.len() && (#[trigger] after[i]).key@ == k;
                lemma_documents_of(after, self.clock, i);
                if i < before.len() {
                    lemma_documents_of(before, number, i);
                    lemma_documents_of(after, self.clock, before.len() as int);
                    lemma_keys_differ(after, self.clock);
                }
            }
            assert(documents_of(after) =~= documents_of(before).insert(
                entry.key@,
                Stored { rev: number as nat, document: document@ },
            ));
        }
        Ok(DocumentResponse::Response { header, old: None, new })
    }

    /// Merges changes into the document under `key`.
    pub fn update_document(&mut self, key: &str, patch: D::Patch, options: UpdateOptions) -> (r:
        Result<DocumentResponse<D>, DbFailure>)
        ensures
            (final(self)@, reply_view(r)) == update::<D>(old(self)@, key@, patch@, options),
            old(self)@.wf(),
    {
        proof {
            use_type_invariant(&*self);
            lemma_model_wf(self.name@, self.clock, self.entries@);
        }
        let i = match self.position(key) {
            Some(i) => i,
            None => {
                return Err(DbFailure::Status(NOT_FOUND));
            },
        };
        if self.clock == u64::MAX {
            return Err(DbFailure::Status(INSUFFICIENT_STORAGE));
        }
        proof {
            lemma_documents_of(self.entries@, self.clock, i as int);
        }
        let rev = self.clock;
        let merged = self.entries[i].document.merge(&patch);
        let old = if options.return_old {
            Some(self.entries[i].document.copy())
        } else {
            None
        };
        let new = if options.return_new {
            Some(merged.copy())
        } else {
            None
        };
        let entry = Entry {
            key: self.entries[i].key.clone(),
            number: self.entries[i].number,
            rev,
            document: merged,
        };
        let ghost before = self.entries@;
        let ghost stored = Stored { rev: rev as nat, document: merged@ };
        let mut entries: Vec<Entry<D>> = Vec::new();
        std::mem::swap(&mut self.entries, &mut entries);
        entries.set(i, entry);
        self.clock = rev + 1;
        self.entries = entries;
        let header = self.header_of(i);
        proof {
            let after = self.entries@;
            assert(entries_wf(after, self.clock));
            assert forall|k: Seq<char>| #[trigger]
                documents_of(after).dom().contains(k) == documents_of(before).insert(
                    key@,
                    stored,
                ).dom().contains(k) by {
                if documents_of(before).dom().contains(k) {
                    let j = choose|j: int| 0 <= j < before.len() && (#[trigger] before[j]).key@ == k;
                    assert(after[j].key@ == k);
                }
                if documents_of(after).dom().contains(k) {
                    let j = choose|j: int| 0 <= j < after.len() && (#[trigger] after[j]).key@ == k;
                    assert(before[j].key@ == k);
                }
            }
            assert forall|k: Seq<char>| #[trigger]
                documents_of(after).dom().contains(k) implies documents_of(after)[k]
                == documents_of(before).insert(key@, stored)[k] by {
                let j = choose|j: int| 0 <= j < after.len() && (#[trigger] after[j]).key@ == k;
                lemma_documents_of(after, self.clock, j);
                lemma_keys_differ(after, self.clock);
                if j != i {
                    lemma_documents_of(before, rev, j);
                }
            }
            assert(documents_of(after) =~= documents_of(before).insert(key@, stored));
        }
        Ok(DocumentResponse::Response { header, old, new })
    }

    /// Removes the document under `key`.
    pub fn remove_document(&mut self, key: &str, options: RemoveOptions) -> (r: Result<
        DocumentResponse<D>,
        DbFailure,
    >)
        ensures
            (final(self)@, reply_view(r)) == old(self)@.remove(key@, options),
            old(self)@.wf(),
    {
        proof {
            use_type_invariant(&*self);
            lemma_model_wf(self.name@, self.clock, self.entries@);
        }
        let i = match self.position(key) {
            Some(i) => i,
            None => {
                return Err(DbFailure::Status(NOT_FOUND));
            },
        };
        proof {
            lemma_documents_of(self.entries@, self.clock, i as int);
        }
        let header = self.header_of(i);
        let ghost before = self.entries@;
        let mut entries: Vec<Entry<D>> = Vec::new();
        std::mem::swap(&mut self.entries, &mut entries);
        let entry = entries.remove(i);
        self.entries = entries;
        let old = if options.return_old {
            Some(entry.document)
        } else {
            None
        };
        proof {
            let after = self.entries@;
            assert(entries_wf(after, self.clock));
            lemma_keys_differ(before, self.clock);
            assert forall|k: Seq<char>| #[trigger]
                documents_of(after).dom().contains(k) == documents_of(before).remove(
                    key@,
                ).dom().contains(k) by {
                if documents_of(before).remove(key@).dom().contains(k) {
                    let j = choose|j: int| 0 <= j < before.len() && (#[trigger] before[j]).key@ == k;
                    if j < i {
                        assert(after[j].key@ == k);
                    } else {
                        assert(after[j - 1].key@ == k);
                    }
                }
                if documents_of(after).dom().contains(k) {
                    let j = choose|j: int| 0 <= j < after.len() && (#[trigger] after[j]).key@ == k;
                    if j < i {
                        assert(before[j].key@ == k);
                    } else {
                        assert(before[j + 1].key@ == k);
                    }
                }
            }
            assert forall|k: Seq<char>| #[trigger]
                documents_of(after).dom().contains(k) implies documents_of(after)[k]
                == documents_of(before).remove(key@)[k] by {
                let j = choose|j: int| 0 <= j < after.len() && (#[trigger] after[j]).key@ == k;
                lemma_documents_of(after, self.clock, j);
                if j < i {
                    lemma_documents_of(before, self.clock, j);
                } else {
                    lemma_documents_of(before, self.clock, j + 1);
                }
            }
            assert(documents_of(after) =~= documents_of(before).remove(key@));
        }
        Ok(DocumentResponse::Response { header, old, new: None })
    }
}

} // verus!
