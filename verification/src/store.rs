//! The history store: at most one record per email, holding the most
//! recently produced diagram document for that email.

use vstd::prelude::*;

verus! {

/// One persisted record: the document most recently produced for `email`,
/// stored verbatim.
pub struct HistoryRecord {
    pub email: String,
    pub last_input: String,
}

/// No two records share an email: the store is keyed by email, with at most
/// one record per key.
pub open spec fn unique_emails(s: Seq<HistoryRecord>) -> bool {
    forall|i: int, j: int| 0 <= i < j < s.len() ==> s[i].email@ != s[j].email@
}

/// The mapping from email to stored document that a sequence of records
/// denotes; a later record for the same email takes precedence.
pub open spec fn records_map(s: Seq<HistoryRecord>) -> Map<Seq<char>, Seq<char>>
    decreases s.len(),
{
    if s.len() == 0 {
        Map::empty()
    } else {
        records_map(s.drop_last()).insert(s.last().email@, s.last().last_input@)
    }
}

/// The per-email history: a mapping from email to the most recently saved
/// document. Viewed as a `Map` from the email's characters to the document's
/// characters.
pub struct HistoryStore {
    records: Vec<HistoryRecord>,
}

impl View for HistoryStore {
    type V = Map<Seq<char>, Seq<char>>;

    closed spec fn view(&self) -> Map<Seq<char>, Seq<char>> {
        records_map(self.records@)
    }
}

/// Character-for-character equality of two strings.
pub fn str_eq(a: &str, b: &str) -> (r: bool)
    ensures
        r == (a@ == b@),
{
    let a_len = a.unicode_len();
    let b_len = b.unicode_len();
    if a_len != b_len {
        return false;
    }
    let mut i: usize = 0;
    while i < a_len
        invariant
            a_len == a@.len(),
            b_len == b@.len(),
            a_len == b_len,
            0 <= i <= a_len,
            forall|k: int| 0 <= k < i ==> a@[k] == b@[k],
        decreases a_len - i,
    {
        let ca = a.get_char(i);
        let cb = b.get_char(i);
        if ca != cb {
            return false;
        }
        i += 1;
    }
    proof {
        assert(a@ =~= b@);
    }
    true
}

/// A record with `email` at index `i` puts `(email, last_input)` into the
/// denoted mapping, provided no later record shares that email.
proof fn lemma_records_map_index(s: Seq<HistoryRecord>, i: int)
    requires
        unique_emails(s),
        0 <= i < s.len(),
    ensures
        records_map(s).contains_key(s[i].email@),
        records_map(s)[s[i].email@] == s[i].last_input@,
    decreases s.len(),
{
    if i < s.len() - 1 {
        assert(unique_emails(s.drop_last()));
        lemma_records_map_index(s.drop_last(), i);
        assert(s[i].email@ != s.last().email@);
    }
}

/// An email that occurs in no record is absent from the denoted mapping.
proof fn lemma_records_map_absent(s: Seq<HistoryRecord>, k: Seq<char>)
    requires
        forall|i: int| 0 <= i < s.len() ==> s[i].email@ != k,
    ensures
        !records_map(s).contains_key(k),
    decreases s.len(),
{
    if s.len() > 0 {
        lemma_records_map_absent(s.drop_last(), k);
    }
}

/// Replacing the value of the record that holds `rec.email` denotes the same
/// mapping as inserting `rec`'s pair.
proof fn lemma_records_map_update(s: Seq<HistoryRecord>, i: int, rec: HistoryRecord)
    requires
        unique_emails(s),
        0 <= i < s.len(),
        s[i].email@ == rec.email@,
    ensures
        records_map(s.update(i, rec)) == records_map(s).insert(rec.email@, rec.last_input@),
    decreases s.len(),
{
    if i == s.len() - 1 {
        assert(s.update(i, rec).drop_last() =~= s.drop_last());
        assert(s.update(i, rec).last() == rec);
        assert(records_map(s.drop_last()).insert(s.last().email@, s.last().last_input@).insert(
            rec.email@,
            rec.last_input@,
        ) =~= records_map(s.drop_last()).insert(rec.email@, rec.last_input@));
    } else {
        assert(unique_emails(s.drop_last()));
        assert(s.update(i, rec).drop_last() =~= s.drop_last().update(i, rec));
        assert(s.update(i, rec).last() == s.last());
        lemma_records_map_update(s.drop_last(), i, rec);
        assert(s[i].email@ != s.last().email@);
        assert(records_map(s.drop_last()).insert(rec.email@, rec.last_input@).insert(
            s.last().email@,
            s.last().last_input@,
        ) =~= records_map(s.drop_last()).insert(s.last().email@, s.last().last_input@).insert(
            rec.email@,
            rec.last_input@,
        ));
    }
}

impl HistoryStore {
    #[verifier::type_invariant]
    spec fn well_formed(self) -> bool {
        unique_emails(self.records@)
    }

    /// A fresh store with no records.
    pub fn new() -> (s: Self)
        ensures
            s@ == Map::<Seq<char>, Seq<char>>::empty(),
    {
        HistoryStore { records: Vec::new() }
    }

    /// The index of the record for `email`, if one exists.
    fn find(records: &Vec<HistoryRecord>, email: &str) -> (r: Option<usize>)
        ensures
            r matches Some(i) ==> i < records@.len() && records@[i as int].email@ == email@,
            r is None ==> forall|k: int| 0 <= k < records@.len() ==> records@[k].email@ != email@,
    {
        let mut i: usize = 0;
        while i < records.len()
            invariant
                0 <= i <= records@.len(),
                forall|k: int| 0 <= k < i ==> records@[k].email@ != email@,
            decreases records@.len() - i,
        {
            if str_eq(records[i].email.as_str(), email) {
                return Some(i);
            }
            i += 1;
        }
        None
    }

    /// Insert or overwrite: if a record for `email` exists its value is
    /// overwritten, otherwise a new record is created. Either way the store
    /// afterwards maps `email` to `markup` and no other entry changes.
    pub fn upsert(&mut self, email: String, markup: String)
        ensures
            final(self)@ == old(self)@.insert(email@, markup@),
    {
        proof {
            use_type_invariant(&*self);
        }
        let mut records: Vec<HistoryRecord> = Vec::new();
        core::mem::swap(&mut records, &mut self.records);
        let found = Self::find(&records, email.as_str());
        match found {
            Some(i) => {
                let ghost old_records = records@;
                let rec = HistoryRecord { email, last_input: markup };
                proof {
                    lemma_records_map_update(old_records, i as int, rec);
                }
                records.set(i, rec);
            },
            None => {
                let rec = HistoryRecord { email, last_input: markup };
                records.push(rec);
                proof {
                    assert(records@.drop_last() =~= old(self).records@);
                }
            },
        }
        self.records = records;
    }

    /// Point lookup: the document most recently saved for `email`, or the
    /// not-found outcome if no record for `email` exists. Not-found is an
    /// expected result, not a fault.
    pub fn get_last_input(&self, email: &str) -> (r: Option<String>)
        ensures
            r matches Some(doc) ==> self@.contains_key(email@) && doc@ == self@[email@],
            r is None <==> !self@.contains_key(email@),
    {
        proof {
            use_type_invariant(&*self);
        }
        let found = Self::find(&self.records, email);
        match found {
            Some(i) => {
                proof {
                    lemma_records_map_index(self.records@, i as int);
                }
                Some(String::from_str(self.records[i].last_input.as_str()))
            },
            None => {
                proof {
                    lemma_records_map_absent(self.records@, email@);
                }
                None
            },
        }
    }
}

/// Law: the upsert is last-writer-wins. Saving `x` and then `y` under the
/// same email leaves the store exactly as saving only `y` would have: the
/// lookup yields `y` alone, never a combination of the two.
pub proof fn lemma_upsert_last_writer_wins(
    m: Map<Seq<char>, Seq<char>>,
    e: Seq<char>,
    x: Seq<char>,
    y: Seq<char>,
)
    ensures
        m.insert(e, x).insert(e, y) == m.insert(e, y),
        m.insert(e, x).insert(e, y)[e] == y,
{
    assert(m.insert(e, x).insert(e, y) =~= m.insert(e, y));
}

/// The store contents after a sequence of saves, each a pair of email and
/// document, applied in order to an initial contents.
pub open spec fn apply_saves(
    m: Map<Seq<char>, Seq<char>>,
    saves: Seq<(Seq<char>, Seq<char>)>,
) -> Map<Seq<char>, Seq<char>>
    decreases saves.len(),
{
    if saves.len() == 0 {
        m
    } else {
        apply_saves(m, saves.drop_last()).insert(saves.last().0, saves.last().1)
    }
}

/// Law: an email never saved is never found. However many saves run against
/// the store, none of them for `e`, a lookup of `e` still yields the
/// not-found outcome — never a fault and never an empty-but-present record.
pub proof fn lemma_never_saved_not_found(
    m: Map<Seq<char>, Seq<char>>,
    saves: Seq<(Seq<char>, Seq<char>)>,
    e: Seq<char>,
)
    requires
        !m.contains_key(e),
        forall|i: int| 0 <= i < saves.len() ==> saves[i].0 != e,
    ensures
        !apply_saves(m, saves).contains_key(e),
    decreases saves.len(),
{
    if saves.len() > 0 {
        lemma_never_saved_not_found(m, saves.drop_last(), e);
    }
}

} // verus!
