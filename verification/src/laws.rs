use crate::builder::SourceView;
use crate::builder::build_ok;
use crate::builder::built_from;
use crate::builder::duplicate_at;
use crate::builder::entries_ok_to;
use crate::builder::entry_fault;
use crate::json::parsed_object_of;
use crate::registry::LocaleRegistry;
use vstd::prelude::*;

verus! {

/// A successfully built registry declares every tag of its sources, and the
/// tag's set is exactly the parse of that source's document; in particular
/// the set is non-empty whenever that parse is.
pub proof fn lemma_declared_tag_owns_its_parse(
    r: LocaleRegistry,
    sv: Seq<SourceView>,
    d: Seq<char>,
    i: int,
)
    requires
        built_from(r, sv, d),
        build_ok(sv, d),
        0 <= i < sv.len(),
    ensures
        r.has_tag(sv[i].tag),
        r.set_of(sv[i].tag) == parsed_object_of(sv[i].content->0)->Some_0,
        parsed_object_of(sv[i].content->0)->Some_0.len() > 0 ==> r.set_of(sv[i].tag).len() > 0,
{
    let tags = sv.map_values(|s: SourceView| s.tag);
    assert(r.tag_views() == tags);
    assert(r.tag_views()[i] == sv[i].tag);
    assert(r.has_tag(sv[i].tag));
    let j = r.index_of(sv[i].tag);
    assert(0 <= j < r.tag_views().len() && r.tag_views()[j] == sv[i].tag);
    if i != j {
        assert(sv[j].tag == sv[i].tag);
        let (p, q) = if i < j {
            (i, j)
        } else {
            (j, i)
        };
        assert(0 <= p < q && sv[p].tag == sv[q].tag);
        assert(duplicate_at(sv, q));
        assert(entry_fault(sv, q) is Some);
        assert(false);
    }
    assert(r.set_of(sv[i].tag) == r.set_views()[i]);
}

/// A successfully built registry declares its default tag, and carries the
/// default tag it was built with: what an undeclared tag falls back to is a
/// declared tag's own set.
pub proof fn lemma_default_tag_declared(r: LocaleRegistry, sv: Seq<SourceView>, d: Seq<char>)
    requires
        built_from(r, sv, d),
        build_ok(sv, d),
    ensures
        r.default_tag_view() == d,
        r.has_tag(d),
{
    let i = choose|i: int| 0 <= i < sv.len() && sv[i].tag == d;
    lemma_declared_tag_owns_its_parse(r, sv, d, i);
}

/// Sources that hand in the same document text end up with identical
/// translation sets, whatever their tags: so do, in particular, all the
/// tags that share one document path.
pub proof fn lemma_shared_text_same_set(
    r: LocaleRegistry,
    sv: Seq<SourceView>,
    d: Seq<char>,
    i: int,
    j: int,
)
    requires
        built_from(r, sv, d),
        build_ok(sv, d),
        0 <= i < sv.len(),
        0 <= j < sv.len(),
        sv[i].content == sv[j].content,
    ensures
        r.set_of(sv[i].tag) == r.set_of(sv[j].tag),
{
    lemma_declared_tag_owns_its_parse(r, sv, d, i);
    lemma_declared_tag_owns_its_parse(r, sv, d, j);
}

/// One source whose document is unreadable, or does not parse as a JSON
/// object, defeats the whole build: no registry is handed back.
pub proof fn lemma_faulty_source_fails_build(sv: Seq<SourceView>, d: Seq<char>, i: int)
    requires
        0 <= i < sv.len(),
        sv[i].content is None || parsed_object_of(sv[i].content->0) is None,
    ensures
        !build_ok(sv, d),
{
    assert(entry_fault(sv, i) is Some);
    assert(!entries_ok_to(sv, sv.len() as int));
}

} // verus!
