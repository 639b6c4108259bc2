use crate::translation::TranslationSet;
use vstd::prelude::*;

verus! {

/// The aggregate built once at startup: a translation set for every declared
/// locale tag, and a designated default tag whose set answers for every
/// undeclared one. Tags are kept unique, and the default tag is always one
/// of the declared tags.
#[derive(Debug)]
pub struct LocaleRegistry {
    tags: Vec<String>,
    sets: Vec<TranslationSet>,
    default_index: usize,
}

impl LocaleRegistry {
    /// The declared tags as character sequences, in declaration order.
    pub closed spec fn tag_views(self) -> Seq<Seq<char>> {
        self.tags@.map_values(|t: String| t@)
    }

    /// The translation sets, in declaration order of their tags.
    pub closed spec fn set_views(self) -> Seq<Seq<(Seq<char>, Seq<char>)>> {
        self.sets@.map_values(|s: TranslationSet| s@)
    }

    /// The designated fallback tag.
    pub closed spec fn default_tag_view(self) -> Seq<char> {
        self.tag_views()[self.default_index as int]
    }

    #[verifier::type_invariant]
    spec fn inv(self) -> bool {
        &&& self.sets@.len() == self.tags@.len()
        &&& self.default_index < self.tags@.len()
        &&& forall|i: int, j: int|
            0 <= i < j < self.tag_views().len() ==> self.tag_views()[i] != self.tag_views()[j]
    }

    /// Whether a tag is declared.
    pub open spec fn has_tag(self, t: Seq<char>) -> bool {
        exists|i: int| 0 <= i < self.tag_views().len() && self.tag_views()[i] == t
    }

    /// The position of a declared tag.
    pub open spec fn index_of(self, t: Seq<char>) -> int {
        choose|i: int| 0 <= i < self.tag_views().len() && self.tag_views()[i] == t
    }

    /// The translation set declared under a tag.
    pub open spec fn set_of(self, t: Seq<char>) -> Seq<(Seq<char>, Seq<char>)> {
        self.set_views()[self.index_of(t)]
    }

    /// Puts the parts of a registry together. The callers have already
    /// checked that the tags are unique and that the default tag is among
    /// them.
    pub(crate) fn assemble(
        tags: Vec<String>,
        sets: Vec<TranslationSet>,
        default_index: usize,
    ) -> (r: LocaleRegistry)
        requires
            sets@.len() == tags@.len(),
            default_index < tags@.len(),
            forall|i: int, j: int| 0 <= i < j < tags@.len() ==> tags@[i]@ != tags@[j]@,
        ensures
            r.tag_views() == tags@.map_values(|t: String| t@),
            r.set_views() == sets@.map_values(|s: TranslationSet| s@),
            r.default_tag_view() == tags@[default_index as int]@,
    {
        let r = LocaleRegistry { tags, sets, default_index };
        proof {
            assert forall|i: int, j: int|
                0 <= i < j < r.tag_views().len() implies r.tag_views()[i] != r.tag_views()[j] by {
                assert(r.tag_views()[i] == r.tags@[i]@);
                assert(r.tag_views()[j] == r.tags@[j]@);
            }
        }
        r
    }

    /// The number of declared tags.
    pub fn len(&self) -> (r: usize)
        ensures
            r == self.tag_views().len(),
    {
        self.tags.len()
    }

    /// The declared tags, in declaration order. The default tag is always
    /// among them.
    pub fn tags(&self) -> (r: &Vec<String>)
        ensures
            r@.map_values(|t: String| t@) == self.tag_views(),
            self.has_tag(self.default_tag_view()),
    {
        proof {
            use_type_invariant(self);
            assert(self.tag_views()[self.default_index as int] == self.default_tag_view());
        }
        &self.tags
    }

    /// The designated fallback tag. It is always a declared tag.
    pub fn get_default_tag(&self) -> (r: &String)
        ensures
            r@ == self.default_tag_view(),
            self.has_tag(self.default_tag_view()),
    {
        proof {
            use_type_invariant(self);
            assert(self.tag_views()[self.default_index as int] == self.default_tag_view());
        }
        &self.tags[self.default_index]
    }

    /// The mapped views index into the vectors they come from.
    proof fn lemma_view_bridge(self)
        ensures
            self.tag_views().len() == self.tags@.len(),
            forall|j: int| 0 <= j < self.tags@.len() ==> self.tag_views()[j] == self.tags@[j]@,
            self.set_views().len() == self.sets@.len(),
            forall|j: int| 0 <= j < self.sets@.len() ==> self.set_views()[j] == self.sets@[j]@,
    {
    }

    /// A tag that stands nowhere in the vector is not declared.
    proof fn lemma_absent(self, t: Seq<char>)
        requires
            forall|j: int| 0 <= j < self.tags@.len() ==> self.tags@[j]@ != t,
        ensures
            !self.has_tag(t),
    {
        self.lemma_view_bridge();
        if self.has_tag(t) {
            let j = choose|j: int|
                0 <= j < self.tag_views().len() && self.tag_views()[j] == t;
            assert(self.tag_views()[j] == self.tags@[j]@);
        }
    }

    /// Whether a tag is declared.
    pub fn contains_tag(&self, tag: &str) -> (r: bool)
        ensures
            r == self.has_tag(tag@),
    {
        proof {
            use_type_invariant(self);
        }
        let t: String = tag.to_owned();
        match find_tag(&self.tags, &t) {
            Some(i) => {
                proof {
                    self.lemma_view_bridge();
                    assert(self.tag_views()[i as int] == tag@);
                }
                true
            },
            None => {
                proof {
                    self.lemma_absent(tag@);
                }
                false
            },
        }
    }

    /// The translation set of a declared tag; for an undeclared tag, the
    /// set of the default tag.
    pub fn lookup<'a>(&'a self, tag: &str) -> (r: &'a TranslationSet)
        ensures
            self.has_tag(tag@) ==> r@ == self.set_of(tag@),
            !self.has_tag(tag@) ==> r@ == self.set_of(self.default_tag_view()),
            self.has_tag(self.default_tag_view()),
    {
        proof {
            use_type_invariant(self);
            assert(self.tag_views()[self.default_index as int] == self.default_tag_view());
        }
        let t: String = tag.to_owned();
        let i: usize = match find_tag(&self.tags, &t) {
            Some(i) => {
                proof {
                    self.lemma_view_bridge();
                    assert(self.tag_views()[i as int] == tag@);
                }
                i
            },
            None => {
                proof {
                    self.lemma_absent(tag@);
                }
                self.default_index
            },
        };
        proof {
            self.lemma_view_bridge();
            self.lemma_index_determined(self.tag_views()[i as int], i as int);
        }
        &self.sets[i]
    }

    /// With unique tags, the chosen index of a declared tag is the one
    /// position where the tag stands.
    proof fn lemma_index_determined(self, t: Seq<char>, i: int)
        requires
            self.inv(),
            0 <= i < self.tag_views().len(),
            self.tag_views()[i] == t,
        ensures
            self.has_tag(t),
            self.index_of(t) == i,
    {
        assert(self.has_tag(t));
        let j = self.index_of(t);
        assert(0 <= j < self.tag_views().len() && self.tag_views()[j] == t);
        if i < j {
            assert(self.tag_views()[i] != self.tag_views()[j]);
        } else if j < i {
            assert(self.tag_views()[j] != self.tag_views()[i]);
        }
    }
}

/// The position of the first tag of the list that reads as the given one.
pub(crate) fn find_tag(tags: &Vec<String>, t: &String) -> (r: Option<usize>)
    ensures
        match r {
            Some(i) => 0 <= i < tags@.len() && tags@[i as int]@ == t@ && (forall|j: int|
                0 <= j < i ==> tags@[j]@ != t@),
            None => forall|j: int| 0 <= j < tags@.len() ==> tags@[j]@ != t@,
        },
{
    let n: usize = tags.len();
    let mut i: usize = 0;
    while i < n
        invariant
            i <= n,
            n == tags@.len(),
            forall|j: int| 0 <= j < i ==> tags@[j]@ != t@,
        decreases n - i,
    {
        if tags[i] == *t {
            return Some(i);
        }
        i = i + 1;
    }
    None
}

} // verus!
