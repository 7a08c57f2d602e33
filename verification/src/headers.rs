//! Header names and the collection that holds a message's headers.
//!
//! Header names are compared without regard to the case of their ASCII
//! letters. A collection holds at most one entry per name; writing a name
//! again replaces the entry in place, so the last write wins and the order
//! of first appearance is kept.

use vstd::prelude::*;

verus! {

/// The lower-case form of an ASCII letter; every other character is left alone.
pub open spec fn fold_char(c: char) -> char {
    if 'A' <= c && c <= 'Z' {
        ((c as u8) + 32) as char
    } else {
        c
    }
}

/// A header name with its ASCII letters in lower case. Two names denote the
/// same header exactly when they fold to the same sequence.
pub open spec fn fold(name: Seq<char>) -> Seq<char> {
    Seq::new(name.len(), |i: int| fold_char(name[i]))
}

/// No two entries carry the same header name.
pub open spec fn names_distinct(entries: Seq<(Seq<char>, Seq<char>)>) -> bool {
    forall|i: int, j: int|
        #![trigger entries[i], entries[j]]
        0 <= i < j < entries.len() ==> fold(entries[i].0) != fold(entries[j].0)
}

/// Whether the entry at `i` carries the header `name`.
pub open spec fn names_at(entries: Seq<(Seq<char>, Seq<char>)>, i: int, name: Seq<char>) -> bool {
    0 <= i < entries.len() && fold(entries[i].0) == fold(name)
}

/// Where the header `name` stands among `entries`, if it does.
pub open spec fn position(entries: Seq<(Seq<char>, Seq<char>)>, name: Seq<char>) -> Option<int> {
    if exists|i: int| names_at(entries, i, name) {
        Some(choose|i: int| names_at(entries, i, name))
    } else {
        None
    }
}

/// The value held for the header `name`, if there is one.
pub open spec fn lookup(entries: Seq<(Seq<char>, Seq<char>)>, name: Seq<char>) -> Option<Seq<char>> {
    match position(entries, name) {
        Some(i) => Some(entries[i].1),
        None => None,
    }
}

/// The entries after `name` has been written with `value`: the entry for that
/// header is replaced where it stands, or a new one is added at the end.
pub open spec fn with_entry(
    entries: Seq<(Seq<char>, Seq<char>)>,
    name: Seq<char>,
    value: Seq<char>,
) -> Seq<(Seq<char>, Seq<char>)> {
    match position(entries, name) {
        Some(i) => entries.update(i, (name, value)),
        None => entries.push((name, value)),
    }
}

/// The entries after every pair of `more` has been written, first to last.
pub open spec fn with_entries(
    entries: Seq<(Seq<char>, Seq<char>)>,
    more: Seq<(Seq<char>, Seq<char>)>,
) -> Seq<(Seq<char>, Seq<char>)>
    decreases more.len(),
{
    if more.len() == 0 {
        entries
    } else {
        with_entries(with_entry(entries, more[0].0, more[0].1), more.drop_first())
    }
}

/// The views of a list of owned pairs.
pub open spec fn pairs_view(pairs: Seq<(String, String)>) -> Seq<(Seq<char>, Seq<char>)> {
    Seq::new(pairs.len(), |i: int| (pairs[i].0@, pairs[i].1@))
}

/// Among distinct names a header stands at one place only.
pub proof fn lemma_position_unique(entries: Seq<(Seq<char>, Seq<char>)>, name: Seq<char>, i: int)
    requires
        names_distinct(entries),
        names_at(entries, i, name),
    ensures
        position(entries, name) == Some(i),
{
    let j = choose|j: int| names_at(entries, j, name);
    assert(names_at(entries, j, name));
    if i < j {
        assert(fold(entries[i].0) != fold(entries[j].0));
    } else if j < i {
        assert(fold(entries[j].0) != fold(entries[i].0));
    }
}

/// Writing a header keeps the names distinct.
pub proof fn lemma_with_entry_distinct(
    entries: Seq<(Seq<char>, Seq<char>)>,
    name: Seq<char>,
    value: Seq<char>,
)
    requires
        names_distinct(entries),
    ensures
        names_distinct(with_entry(entries, name, value)),
{
    let after = with_entry(entries, name, value);
    match position(entries, name) {
        Some(p) => {
            assert(names_at(entries, p, name));
            assert forall|i: int, j: int| 0 <= i < j < after.len() implies fold(
                #[trigger] after[i].0,
            ) != fold(#[trigger] after[j].0) by {
                assert(fold(entries[i].0) != fold(entries[j].0));
            }
        },
        None => {
            assert forall|i: int, j: int| 0 <= i < j < after.len() implies fold(
                #[trigger] after[i].0,
            ) != fold(#[trigger] after[j].0) by {
                if j < entries.len() {
                    assert(fold(entries[i].0) != fold(entries[j].0));
                } else {
                    assert(!names_at(entries, i, name));
                }
            }
        },
    }
}

/// A written header reads back as the value written, under any spelling of
/// its name; every other header reads as before.
pub proof fn lemma_lookup_with_entry(
    entries: Seq<(Seq<char>, Seq<char>)>,
    name: Seq<char>,
    value: Seq<char>,
    other: Seq<char>,
)
    requires
        names_distinct(entries),
    ensures
        lookup(with_entry(entries, name, value), other) == if fold(other) == fold(name) {
            Some(value)
        } else {
            lookup(entries, other)
        },
{
    let after = with_entry(entries, name, value);
    lemma_with_entry_distinct(entries, name, value);
    let at = match position(entries, name) {
        Some(p) => p,
        None => entries.len() as int,
    };
    if position(entries, name) is Some {
        assert(names_at(entries, at, name));
    }
    assert(names_at(after, at, name));
    if fold(other) == fold(name) {
        assert(names_at(after, at, other));
        lemma_position_unique(after, other, at);
    } else {
        match position(entries, other) {
            Some(q) => {
                assert(names_at(entries, q, other));
                assert(q != at);
                assert(names_at(after, q, other));
                lemma_position_unique(after, other, q);
            },
            None => {
                assert forall|i: int| !names_at(after, i, other) by {
                    if 0 <= i < after.len() {
                        if i == at {
                        } else {
                            assert(!names_at(entries, i, other));
                        }
                    }
                }
            },
        }
    }
}

/// Of two writes to one header the later one wins: the outcome is that of the
/// later write alone.
pub proof fn lemma_last_write_wins(
    entries: Seq<(Seq<char>, Seq<char>)>,
    name: Seq<char>,
    first: Seq<char>,
    last: Seq<char>,
)
    requires
        names_distinct(entries),
    ensures
        lookup(with_entry(with_entry(entries, name, first), name, last), name) == Some(last),
        with_entry(with_entry(entries, name, first), name, last) == with_entry(entries, name, last),
{
    let once = with_entry(entries, name, first);
    lemma_with_entry_distinct(entries, name, first);
    lemma_lookup_with_entry(once, name, last, name);
    let at = match position(entries, name) {
        Some(p) => p,
        None => entries.len() as int,
    };
    if position(entries, name) is Some {
        assert(names_at(entries, at, name));
    }
    assert(names_at(once, at, name));
    lemma_position_unique(once, name, at);
    assert(with_entry(once, name, last) =~= with_entry(entries, name, last));
}

/// Writing a list of headers keeps the names distinct.
pub proof fn lemma_with_entries_distinct(
    entries: Seq<(Seq<char>, Seq<char>)>,
    more: Seq<(Seq<char>, Seq<char>)>,
)
    requires
        names_distinct(entries),
    ensures
        names_distinct(with_entries(entries, more)),
    decreases more.len(),
{
    if more.len() > 0 {
        lemma_with_entry_distinct(entries, more[0].0, more[0].1);
        lemma_with_entries_distinct(with_entry(entries, more[0].0, more[0].1), more.drop_first());
    }
}

/// Writing a list and then one more header is writing the longer list.
pub proof fn lemma_with_entries_push(
    entries: Seq<(Seq<char>, Seq<char>)>,
    more: Seq<(Seq<char>, Seq<char>)>,
    name: Seq<char>,
    value: Seq<char>,
)
    ensures
        with_entries(entries, more.push((name, value))) == with_entry(
            with_entries(entries, more),
            name,
            value,
        ),
    decreases more.len(),
{
    let longer = more.push((name, value));
    if more.len() == 0 {
        assert(longer.drop_first() =~= more);
        assert(with_entries(with_entry(entries, name, value), more) == with_entry(
            entries,
            name,
            value,
        ));
    } else {
        assert(longer.drop_first() =~= more.drop_first().push((name, value)));
        lemma_with_entries_push(
            with_entry(entries, more[0].0, more[0].1),
            more.drop_first(),
            name,
            value,
        );
    }
}

/// The value of the last pair of `more` written for the header `name`, if
/// any pair is.
pub open spec fn last_written(more: Seq<(Seq<char>, Seq<char>)>, name: Seq<char>) -> Option<
    Seq<char>,
>
    decreases more.len(),
{
    if more.len() == 0 {
        None
    } else if fold(more.last().0) == fold(name) {
        Some(more.last().1)
    } else {
        last_written(more.drop_last(), name)
    }
}

/// After a list has been written, a header reads as the last value the list
/// holds for it, and as before where the list does not name it.
pub proof fn lemma_lookup_with_entries(
    entries: Seq<(Seq<char>, Seq<char>)>,
    more: Seq<(Seq<char>, Seq<char>)>,
    name: Seq<char>,
)
    requires
        names_distinct(entries),
    ensures
        lookup(with_entries(entries, more), name) == match last_written(more, name) {
            Some(value) => Some(value),
            None => lookup(entries, name),
        },
    decreases more.len(),
{
    if more.len() > 0 {
        let front = more.drop_last();
        let last = more.last();
        assert(more =~= front.push((last.0, last.1)));
        lemma_with_entries_push(entries, front, last.0, last.1);
        lemma_with_entries_distinct(entries, front);
        lemma_lookup_with_entry(with_entries(entries, front), last.0, last.1, name);
        lemma_lookup_with_entries(entries, front, name);
    }
}

fn fold_one(c: char) -> (folded: char)
    ensures
        folded == fold_char(c),
{
    if 'A' <= c && c <= 'Z' {
        ((c as u8) + 32) as char
    } else {
        c
    }
}

fn folded_name(name: &str) -> (key: Vec<char>)
    ensures
        key@ == fold(name@),
{
    let mut key: Vec<char> = Vec::new();
    for c in it: name.chars()
        invariant
            it.seq() == name@,
            key@.len() == it.index(),
            forall|j: int| 0 <= j < key@.len() ==> key@[j] == fold_char(name@[j]),
    {
        key.push(fold_one(c));
    }
    assert(key@ =~= fold(name@));
    key
}

fn same_chars(a: &Vec<char>, b: &Vec<char>) -> (same: bool)
    ensures
        same == (a@ == b@),
{
    if a.len() != b.len() {
        return false;
    }
    let mut i: usize = 0;
    while i < a.len()
        invariant
            a.len() == b.len(),
            i <= a.len(),
            forall|j: int| 0 <= j < i ==> a@[j] == b@[j],
        decreases a.len() - i,
    {
        if a[i] != b[i] {
            return false;
        }
        i += 1;
    }
    assert(a@ =~= b@);
    true
}

#[derive(Debug, PartialEq, Eq)]
struct Entry {
    key: Vec<char>,
    name: String,
    value: String,
}

/// A message's headers: one value per header name, names compared without
/// regard to ASCII case.
#[derive(Debug, PartialEq, Eq)]
pub struct Headers {
    entries: Vec<Entry>,
}

impl View for Headers {
    type V = Seq<(Seq<char>, Seq<char>)>;

    /// The entries in the order their names first appeared, each as the name
    /// last written for it and the value last written for it.
    closed spec fn view(&self) -> Seq<(Seq<char>, Seq<char>)> {
        Seq::new(self.entries@.len(), |i: int| (self.entries@[i].name@, self.entries@[i].value@))
    }
}

impl Headers {
    /// What holds of every collection: no header name occurs twice.
    #[verifier::type_invariant]
    pub closed spec fn well_formed(self) -> bool {
        &&& forall|i: int|
            0 <= i < self.entries@.len() ==> (#[trigger] self.entries@[i]).key@ == fold(
                self.entries@[i].name@,
            )
        &&& names_distinct(self@)
    }

    /// The names of a well-formed collection are distinct.
    pub proof fn lemma_names_distinct(self)
        requires
            self.well_formed(),
        ensures
            names_distinct(self@),
    {
    }

    /// An empty collection.
    pub fn new() -> (headers: Headers)
        ensures
            headers@ == Seq::<(Seq<char>, Seq<char>)>::empty(),
    {
        let headers = Headers { entries: Vec::new() };
        assert(headers@ =~= Seq::<(Seq<char>, Seq<char>)>::empty());
        headers
    }

    /// The number of headers held.
    pub fn len(&self) -> (n: usize)
        ensures
            n == self@.len(),
    {
        self.entries.len()
    }

    fn find(&self, key: &Vec<char>) -> (found: Option<usize>)
        ensures
            match found {
                Some(i) => i < self@.len() && fold(self@[i as int].0) == key@,
                None => forall|i: int| 0 <= i < self@.len() ==> fold(#[trigger] self@[i].0) != key@,
            },
    {
        proof {
            use_type_invariant(self);
        }
        let mut i: usize = 0;
        while i < self.entries.len()
            invariant
                i <= self.entries@.len(),
                self.entries@.len() == self@.len(),
                forall|j: int|
                    0 <= j < self.entries@.len() ==> (#[trigger] self.entries@[j]).key@ == fold(
                        self.entries@[j].name@,
                    ),
                forall|j: int| 0 <= j < i ==> fold(#[trigger] self@[j].0) != key@,
            decreases self.entries@.len() - i,
        {
            if same_chars(&self.entries[i].key, key) {
                return Some(i);
            }
            i += 1;
        }
        None
    }

    /// Writes `value` for the header `name`, replacing what was held for it.
    pub fn insert(&mut self, name: &str, value: &str)
        ensures
            final(self)@ == with_entry(old(self)@, name@, value@),
            names_distinct(final(self)@),
    {
        proof {
            use_type_invariant(&*self);
            lemma_with_entry_distinct(self@, name@, value@);
        }
        let key = folded_name(name);
        let entry = Entry { key, name: name.to_owned(), value: value.to_owned() };
        let found = self.find(&entry.key);
        let mut entries: Vec<Entry> = Vec::new();
        core::mem::swap(&mut self.entries, &mut entries);
        match found {
            Some(i) => {
                proof {
                    lemma_position_unique(old(self)@, name@, i as int);
                }
                entries.set(i, entry);
            },
            None => {
                assert forall|i: int| !names_at(old(self)@, i, name@) by {
                    if 0 <= i < old(self)@.len() {
                        assert(fold(old(self)@[i].0) != fold(name@));
                    }
                }
                entries.push(entry);
            },
        }
        let ghost after = Seq::new(entries@.len(), |i: int| (entries@[i].name@, entries@[i].value@));
        assert(after =~= with_entry(old(self)@, name@, value@));
        core::mem::swap(&mut self.entries, &mut entries);
        assert(self@ =~= after);
    }

    /// Writes every pair of `more`, first to last.
    pub fn extend(&mut self, more: &Vec<(String, String)>)
        ensures
            final(self)@ == with_entries(old(self)@, pairs_view(more@)),
            names_distinct(final(self)@),
    {
        proof {
            use_type_invariant(&*self);
        }
        let ghost pairs = pairs_view(more@);
        let mut k: usize = 0;
        while k < more.len()
            invariant
                k <= more.len(),
                pairs == pairs_view(more@),
                names_distinct(self@),
                self@ == with_entries(old(self)@, pairs.take(k as int)),
            decreases more.len() - k,
        {
            proof {
                assert(pairs.take(k as int + 1) =~= pairs.take(k as int).push(
                    (more@[k as int].0@, more@[k as int].1@),
                ));
                lemma_with_entries_push(
                    old(self)@,
                    pairs.take(k as int),
                    more@[k as int].0@,
                    more@[k as int].1@,
                );
            }
            self.insert(more[k].0.as_str(), more[k].1.as_str());
            k += 1;
        }
        assert(pairs.take(k as int) =~= pairs);
    }

    /// The value held for the header `name`, under any spelling of the name.
    pub fn get(&self, name: &str) -> (value: Option<&String>)
        ensures
            match value {
                Some(v) => lookup(self@, name@) == Some(v@),
                None => lookup(self@, name@) is None,
            },
    {
        proof {
            use_type_invariant(self);
        }
        let key = folded_name(name);
        match self.find(&key) {
            Some(i) => {
                proof {
                    lemma_position_unique(self@, name@, i as int);
                }
                Some(&self.entries[i].value)
            },
            None => {
                assert forall|i: int| !names_at(self@, i, name@) by {
                    if 0 <= i < self@.len() {
                        assert(fold(self@[i].0) != fold(name@));
                    }
                }
                None
            },
        }
    }

    /// The entries as owned pairs, in order.
    pub fn to_vec(&self) -> (pairs: Vec<(String, String)>)
        ensures
            pairs_view(pairs@) == self@,
            names_distinct(self@),
    {
        proof {
            use_type_invariant(self);
        }
        let mut pairs: Vec<(String, String)> = Vec::new();
        let mut i: usize = 0;
        while i < self.entries.len()
            invariant
                i <= self.entries@.len(),
                self.entries@.len() == self@.len(),
                pairs@.len() == i,
                forall|j: int|
                    0 <= j < i ==> (#[trigger] pairs@[j]).0@ == self@[j].0 && pairs@[j].1@
                        == self@[j].1,
            decreases self.entries@.len() - i,
        {
            pairs.push((self.entries[i].name.clone(), self.entries[i].value.clone()));
            i += 1;
        }
        assert(pairs_view(pairs@) =~= self@);
        pairs
    }
}

} // verus!
