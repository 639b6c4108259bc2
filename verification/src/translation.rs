use vstd::prelude::*;

verus! {

/// The view of a list of owned entry pairs: each pair as its character
/// sequences.
pub open spec fn entries_view(s: Seq<(String, String)>) -> Seq<(Seq<char>, Seq<char>)> {
    s.map_values(|p: (String, String)| (p.0@, p.1@))
}

/// The parsed contents of one translation document: message identifiers
/// paired with the text of their values, in the order the parser hands
/// them out.
#[derive(Debug)]
pub struct TranslationSet {
    entries: Vec<(String, String)>,
}

impl View for TranslationSet {
    type V = Seq<(Seq<char>, Seq<char>)>;

    closed spec fn view(&self) -> Seq<(Seq<char>, Seq<char>)> {
        entries_view(self.entries@)
    }
}

impl TranslationSet {
    /// Whether some entry carries this message identifier.
    pub open spec fn spec_has_key(self, k: Seq<char>) -> bool {
        exists|i: int| 0 <= i < self@.len() && self@[i].0 == k
    }

    /// Wraps a list of entries as a translation set, keeping them as given.
    pub fn from_entries(entries: Vec<(String, String)>) -> (r: TranslationSet)
        ensures
            r@ == entries_view(entries@),
    {
        TranslationSet { entries }
    }

    /// The entries of the set, in order.
    pub fn entries(&self) -> (r: &Vec<(String, String)>)
        ensures
            entries_view(r@) == self@,
    {
        &self.entries
    }

    /// How many entries the set holds.
    pub fn len(&self) -> (r: usize)
        ensures
            r == self@.len(),
    {
        self.entries.len()
    }

    /// Whether the set holds no entry at all.
    pub fn is_empty(&self) -> (r: bool)
        ensures
            r == (self@.len() == 0),
    {
        self.entries.len() == 0
    }

    /// The value text of the first entry carrying this message identifier,
    /// or nothing when no entry does.
    pub fn get<'a>(&'a self, key: &str) -> (r: Option<&'a String>)
        ensures
            r is Some <==> self.spec_has_key(key@),
            r is Some ==> exists|i: int|
                0 <= i < self@.len() && self@[i].0 == key@ && r->Some_0@ == self@[i].1
                    && (forall|j: int| 0 <= j < i ==> self@[j].0 != key@),
    {
        let k: String = key.to_owned();
        let n: usize = self.entries.len();
        let mut i: usize = 0;
        while i < n
            invariant
                i <= n,
                n == self@.len(),
                k@ == key@,
                forall|j: int| 0 <= j < i ==> self@[j].0 != key@,
            decreases n - i,
        {
            proof {
                assert(self@[i as int] == (self.entries@[i as int].0@, self.entries@[i as int].1@));
            }
            if self.entries[i].0 == k {
                return Some(&self.entries[i].1);
            }
            i = i + 1;
        }
        None
    }
}

} // verus!
