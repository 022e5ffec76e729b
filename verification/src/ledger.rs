//! The activity ledger: one entry for each activity id, never changed afterwards. It is what
//! makes a repeated delivery harmless, and what the audit endpoint reads.

use crate::activity_id::{activity_path, activity_path_text};
use crate::iri::{parsed_url, Iri};
use crate::lookup::{find_keyed, first_index, keys_of, lemma_first_index, Keyed};
use crate::settings::Settings;
use vstd::prelude::*;
use vstd::string::*;

verus! {

/// One stored activity.
pub struct LedgerEntry {
    /// The activity's id; no two entries share one.
    pub ap_id: String,
    /// The activity as it was serialized; the ledger does not look inside.
    pub payload: String,
    /// Whether this instance sent it.
    pub local: bool,
    /// Whether the payload is withheld from readers.
    pub sensitive: bool,
    pub inserted_at: u64,
}

pub struct LedgerEntryView {
    pub ap_id: Seq<char>,
    pub payload: Seq<char>,
    pub local: bool,
    pub sensitive: bool,
    pub inserted_at: u64,
}

impl View for LedgerEntry {
    type V = LedgerEntryView;

    open spec fn view(&self) -> LedgerEntryView {
        LedgerEntryView {
            ap_id: self.ap_id@,
            payload: self.payload@,
            local: self.local,
            sensitive: self.sensitive,
            inserted_at: self.inserted_at,
        }
    }
}

impl DeepView for LedgerEntry {
    type V = LedgerEntryView;

    open spec fn deep_view(&self) -> LedgerEntryView {
        self@
    }
}

impl Keyed for LedgerEntry {
    open spec fn key(&self) -> Seq<char> {
        self.ap_id@
    }

    fn key_text(&self) -> (text: &String) {
        &self.ap_id
    }
}

/// What an insert found.
#[derive(Clone, Copy, Debug, PartialEq, Eq, Structural)]
pub enum InsertOutcome {
    /// The id was new; the entry is stored.
    Inserted,
    /// An entry with this id was there; nothing changed.
    Duplicate,
}

/// The ids of the entries, in order.
pub open spec fn ledger_ids(entries: Seq<LedgerEntryView>) -> Seq<Seq<char>> {
    Seq::new(entries.len(), |i: int| entries[i].ap_id)
}

/// Whether an id is in the ledger.
pub open spec fn ledger_holds(entries: Seq<LedgerEntryView>, ap_id: Seq<char>) -> bool {
    first_index(ledger_ids(entries), ap_id) is Some
}

/// No two entries share an id.
pub open spec fn ids_unique(entries: Seq<LedgerEntryView>) -> bool {
    forall|i: int, j: int|
        0 <= i < j < entries.len() ==> #[trigger] entries[i].ap_id != #[trigger] entries[j].ap_id
}

/// The ledger after an insert, and what the insert reports.
pub open spec fn insert_spec(entries: Seq<LedgerEntryView>, entry: LedgerEntryView) -> (
    InsertOutcome,
    Seq<LedgerEntryView>,
) {
    if ledger_holds(entries, entry.ap_id) {
        (InsertOutcome::Duplicate, entries)
    } else {
        (InsertOutcome::Inserted, entries.push(entry))
    }
}

/// What a reader gets for an id: the payload of its entry, unless there is none or it is
/// sensitive.
pub open spec fn retrieve_spec(entries: Seq<LedgerEntryView>, ap_id: Seq<char>) -> Option<
    Seq<char>,
> {
    match first_index(ledger_ids(entries), ap_id) {
        Some(i) => if entries[i].sensitive {
            None
        } else {
            Some(entries[i].payload)
        },
        None => None,
    }
}

/// The ledger. Entries are only ever added.
pub struct Ledger {
    entries: Vec<LedgerEntry>,
}

impl View for Ledger {
    type V = Seq<LedgerEntryView>;

    closed spec fn view(&self) -> Seq<LedgerEntryView> {
        self.entries.deep_view()
    }
}

impl Ledger {
    pub fn new() -> (ledger: Ledger)
        ensures
            ledger@ == Seq::<LedgerEntryView>::empty(),
    {
        let ledger = Ledger { entries: Vec::new() };
        assert(ledger@ =~= Seq::<LedgerEntryView>::empty());
        ledger
    }

    /// The entries, oldest first.
    pub fn entries(&self) -> (entries: &Vec<LedgerEntry>)
        ensures
            entries.deep_view() == self@,
    {
        &self.entries
    }

    /// The number of entries.
    pub fn len(&self) -> (n: usize)
        ensures
            n == self@.len(),
    {
        self.entries.len()
    }

    /// Whether an activity id has an entry.
    pub fn contains(&self, ap_id: &String) -> (held: bool)
        ensures
            held == ledger_holds(self@, ap_id@),
    {
        proof {
            assert(keys_of(self.entries@) =~= ledger_ids(self@));
        }
        find_keyed(&self.entries, ap_id).is_some()
    }

    /// Stores an activity under its id, unless the id has an entry already.
    pub fn insert(
        &mut self,
        ap_id: String,
        payload: String,
        local: bool,
        sensitive: bool,
        now: u64,
    ) -> (outcome: InsertOutcome)
        ensures
            (outcome, final(self)@) == insert_spec(
                old(self)@,
                LedgerEntryView {
                    ap_id: ap_id@,
                    payload: payload@,
                    local,
                    sensitive,
                    inserted_at: now,
                },
            ),
    {
        if self.contains(&ap_id) {
            InsertOutcome::Duplicate
        } else {
            let entry = LedgerEntry { ap_id, payload, local, sensitive, inserted_at: now };
            let ghost before = self@;
            self.entries.push(entry);
            assert(self@ =~= before.push(entry@));
            InsertOutcome::Inserted
        }
    }

    /// The payload stored under an id, for the audit endpoint. Nothing is given for an id
    /// without an entry, nor for a sensitive entry.
    pub fn retrieve(&self, ap_id: &String) -> (payload: Option<String>)
        ensures
            payload.deep_view() == retrieve_spec(self@, ap_id@),
    {
        proof {
            assert(keys_of(self.entries@) =~= ledger_ids(self@));
        }
        match find_keyed(&self.entries, ap_id) {
            Some(i) => {
                if self.entries[i].sensitive {
                    None
                } else {
                    Some(self.entries[i].payload.clone())
                }
            },
            None => None,
        }
    }
}

/// Stores a sent or received activity under its id. The stored activities are what the audit
/// endpoint serves, and an id that is stored already cannot be received again.
pub fn insert_activity(
    ap_id: &Iri,
    payload: String,
    local: bool,
    sensitive: bool,
    ledger: &mut Ledger,
    now: u64,
) -> (outcome: InsertOutcome)
    ensures
        (outcome, final(ledger)@) == insert_spec(
            old(ledger)@,
            LedgerEntryView {
                ap_id: ap_id@.text,
                payload: payload@,
                local,
                sensitive,
                inserted_at: now,
            },
        ),
{
    ledger.insert(ap_id.text.clone(), payload, local, sensitive, now)
}

/// What the audit endpoint gives for a kind and an id: the payload stored under the address
/// that the two make, where that address is a URL, has an entry, and the entry is not
/// sensitive.
pub open spec fn retrieve_activity_spec(
    entries: Seq<LedgerEntryView>,
    protocol_and_hostname: Seq<char>,
    kind: Seq<char>,
    id: Seq<char>,
) -> Option<Seq<char>> {
    match parsed_url(activity_path_text(protocol_and_hostname, kind, id)) {
        Some(parts) => retrieve_spec(entries, parts.0),
        None => None,
    }
}

/// Serves the audit endpoint, which addresses an activity by its kind and id.
pub fn retrieve(kind: &str, id: &str, ledger: &Ledger, settings: &Settings) -> (payload: Option<String>)
    ensures
        payload.deep_view() == retrieve_activity_spec(
            ledger@,
            settings.protocol_and_hostname(),
            kind@,
            id@,
        ),
{
    let base = settings.get_protocol_and_hostname();
    let text = activity_path(base.as_str(), kind, id);
    match Iri::parse(text.as_str()) {
        Some(ap_id) => ledger.retrieve(&ap_id.text),
        None => None,
    }
}

/// An insert keeps the ids distinct: each id has at most one entry, whatever is delivered
/// and however often.
pub proof fn lemma_insert_keeps_ids_unique(entries: Seq<LedgerEntryView>, entry: LedgerEntryView)
    requires
        ids_unique(entries),
    ensures
        ids_unique(insert_spec(entries, entry).1),
        ledger_holds(insert_spec(entries, entry).1, entry.ap_id),
{
    let after = insert_spec(entries, entry).1;
    lemma_first_index(ledger_ids(entries), entry.ap_id);
    lemma_first_index(ledger_ids(after), entry.ap_id);
    if !ledger_holds(entries, entry.ap_id) {
        assert forall|i: int, j: int| 0 <= i < j < after.len() implies #[trigger] after[i].ap_id
            != #[trigger] after[j].ap_id by {
            if j == entries.len() {
                assert(ledger_ids(entries)[i] == entries[i].ap_id);
            }
        }
        assert(ledger_ids(after)[entries.len() as int] == entry.ap_id);
    }
}

/// An insert of an id that the ledger holds changes nothing and reports a duplicate; so a
/// second insert of the same entry always does.
pub proof fn lemma_second_insert_is_duplicate(
    entries: Seq<LedgerEntryView>,
    entry: LedgerEntryView,
    again: LedgerEntryView,
)
    requires
        again.ap_id == entry.ap_id,
    ensures
        insert_spec(insert_spec(entries, entry).1, again) == (
            InsertOutcome::Duplicate,
            insert_spec(entries, entry).1,
        ),
{
    let after = insert_spec(entries, entry).1;
    lemma_first_index(ledger_ids(after), entry.ap_id);
    if !ledger_holds(entries, entry.ap_id) {
        assert(ledger_ids(after)[entries.len() as int] == entry.ap_id);
    }
}

} // verus!
