use crate::json::parse_translation_set;
use crate::json::parsed_object_of;
use crate::registry::LocaleRegistry;
use crate::registry::find_tag;
use crate::translation::TranslationSet;
use vstd::prelude::*;

verus! {

/// One declared locale: its tag, the path of the JSON document that holds
/// its translations, and the text of that document — or nothing, when the
/// document could not be read.
pub struct LocaleSource {
    pub tag: String,
    pub path: String,
    pub content: Option<String>,
}

/// A source as its character sequences.
pub ghost struct SourceView {
    pub tag: Seq<char>,
    pub path: Seq<char>,
    pub content: Option<Seq<char>>,
}

impl View for LocaleSource {
    type V = SourceView;

    open spec fn view(&self) -> SourceView {
        SourceView {
            tag: self.tag@,
            path: self.path@,
            content: match self.content {
                Some(text) => Some(text@),
                None => None,
            },
        }
    }
}

/// The views of a list of sources, in order.
pub open spec fn views_of(sources: Seq<LocaleSource>) -> Seq<SourceView> {
    sources.map_values(|s: LocaleSource| s@)
}

/// Why a build fails: a tag already declared by an earlier source, a
/// document that could not be read, a document that is not a JSON object,
/// or a default tag that no source declares.
pub ghost enum BuildFault {
    Duplicate { tag: Seq<char> },
    Missing { path: Seq<char> },
    Invalid { path: Seq<char> },
    NoDefault,
}

/// A failed build reports the fault it stopped on: the repeated tag, the
/// path of the unreadable or malformed document, or the absence of the
/// default tag.
#[derive(Debug, PartialEq, Eq)]
pub enum BuildError {
    DuplicateTag { tag: String },
    MissingFile { path: String },
    InvalidJson { path: String },
    DefaultTagNotFound,
}

/// Whether a reported error reads as a fault.
pub open spec fn error_matches(e: BuildError, f: BuildFault) -> bool {
    match (e, f) {
        (BuildError::DuplicateTag { tag: et }, BuildFault::Duplicate { tag: ft }) => et@ == ft,
        (BuildError::MissingFile { path: ep }, BuildFault::Missing { path: fp }) => ep@ == fp,
        (BuildError::InvalidJson { path: ep }, BuildFault::Invalid { path: fp }) => ep@ == fp,
        (BuildError::DefaultTagNotFound, BuildFault::NoDefault) => true,
        _ => false,
    }
}

/// Whether an earlier source already declares the tag of the source at `i`.
pub open spec fn duplicate_at(sv: Seq<SourceView>, i: int) -> bool {
    exists|j: int| 0 <= j < i && sv[j].tag == sv[i].tag
}

/// The fault of the source at `i`, checked in this order: a repeated tag,
/// an unreadable document, a document that is not a JSON object.
pub open spec fn entry_fault(sv: Seq<SourceView>, i: int) -> Option<BuildFault> {
    if duplicate_at(sv, i) {
        Some(BuildFault::Duplicate { tag: sv[i].tag })
    } else if sv[i].content is None {
        Some(BuildFault::Missing { path: sv[i].path })
    } else if parsed_object_of(sv[i].content->0) is None {
        Some(BuildFault::Invalid { path: sv[i].path })
    } else {
        None
    }
}

/// Every source before `n` is free of faults.
pub open spec fn entries_ok_to(sv: Seq<SourceView>, n: int) -> bool {
    forall|i: int| 0 <= i < n ==> entry_fault(sv, i) is None
}

/// Whether some source declares the tag.
pub open spec fn declares(sv: Seq<SourceView>, t: Seq<char>) -> bool {
    exists|i: int| 0 <= i < sv.len() && sv[i].tag == t
}

/// A build succeeds exactly when every source is free of faults and some
/// source declares the default tag.
pub open spec fn build_ok(sv: Seq<SourceView>, d: Seq<char>) -> bool {
    entries_ok_to(sv, sv.len() as int) && declares(sv, d)
}

/// What a successful build hands back: one translation set per source, in
/// declaration order, each the parse of its source's document, under the
/// given default tag.
pub open spec fn built_from(r: LocaleRegistry, sv: Seq<SourceView>, d: Seq<char>) -> bool {
    &&& r.tag_views() == sv.map_values(|s: SourceView| s.tag)
    &&& r.set_views().len() == sv.len()
    &&& (forall|i: int|
        0 <= i < sv.len() ==> r.set_views()[i] == parsed_object_of(sv[i].content->0)->Some_0)
    &&& r.default_tag_view() == d
}

/// What a failed build reports: the fault of the first faulty source, or,
/// when every source is fine, the absence of the default tag.
pub open spec fn fault_reported(e: BuildError, sv: Seq<SourceView>, d: Seq<char>) -> bool {
    ||| (exists|i: int|
        0 <= i < sv.len() && entries_ok_to(sv, i) && entry_fault(sv, i) is Some && error_matches(
            e,
            entry_fault(sv, i)->0,
        ))
    ||| (entries_ok_to(sv, sv.len() as int) && !declares(sv, d) && e == (
    BuildError::DefaultTagNotFound))
}

/// Builds the registry from a default tag and the declared sources, or
/// fails fast on the first fault. The sources are taken in order; for each
/// one a repeated tag is refused first, then an unreadable document, then
/// one that is not a JSON object; last, the default tag must be among the
/// declared ones.
pub fn build_registry(default_tag: &str, sources: &Vec<LocaleSource>) -> (r: Result<
    LocaleRegistry,
    BuildError,
>)
    ensures
        r is Ok <==> build_ok(views_of(sources@), default_tag@),
        r is Ok ==> built_from(r->Ok_0, views_of(sources@), default_tag@),
        r is Err ==> fault_reported(r->Err_0, views_of(sources@), default_tag@),
{
    let ghost sv = views_of(sources@);
    let mut tags: Vec<String> = Vec::new();
    let mut sets: Vec<TranslationSet> = Vec::new();
    let n: usize = sources.len();
    let mut i: usize = 0;
    while i < n
        invariant
            i <= n,
            n == sources@.len(),
            sv == views_of(sources@),
            tags@.len() == i,
            sets@.len() == i,
            entries_ok_to(sv, i as int),
            forall|p: int, q: int| 0 <= p < q < i ==> tags@[p]@ != tags@[q]@,
            forall|k: int| 0 <= k < i ==> tags@[k]@ == sv[k].tag,
            forall|k: int| 0 <= k < i ==> sets@[k]@ == parsed_object_of(sv[k].content->0)->Some_0,
        decreases n - i,
    {
        proof {
            assert(sv[i as int] == sources@[i as int]@);
        }
        let source = &sources[i];
        if let Some(j) = find_tag(&tags, &source.tag) {
            proof {
                assert(0 <= j < i && sv[j as int].tag == sv[i as int].tag);
                assert(duplicate_at(sv, i as int));
                assert(entry_fault(sv, i as int) is Some);
                assert(!entries_ok_to(sv, sv.len() as int));
            }
            return Err(BuildError::DuplicateTag { tag: source.tag.clone() });
        }
        proof {
            if duplicate_at(sv, i as int) {
                let j = choose|j: int| 0 <= j < i && sv[j].tag == sv[i as int].tag;
                assert(tags@[j]@ == sv[j].tag);
            }
            assert(!duplicate_at(sv, i as int));
        }
        match &source.content {
            None => {
                return Err(BuildError::MissingFile { path: source.path.clone() });
            },
            Some(text) => {
                match parse_translation_set(text.as_str()) {
                    None => {
                        return Err(BuildError::InvalidJson { path: source.path.clone() });
                    },
                    Some(set) => {
                        tags.push(source.tag.clone());
                        sets.push(set);
                    },
                }
            },
        }
        i = i + 1;
    }
    let d: String = default_tag.to_owned();
    match find_tag(&tags, &d) {
        Some(default_index) => {
            proof {
                assert(tags@[default_index as int]@ == sv[default_index as int].tag);
                assert(declares(sv, default_tag@));
            }
            let registry = LocaleRegistry::assemble(tags, sets, default_index);
            proof {
                assert forall|k: int| 0 <= k < sv.len() implies registry.tag_views()[k] == sv.map_values(
                    |s: SourceView| s.tag,
                )[k] by {
                    assert(registry.tag_views()[k] == tags@[k]@);
                }
                assert(registry.tag_views() =~= sv.map_values(|s: SourceView| s.tag));
                assert forall|k: int| 0 <= k < sv.len() implies registry.set_views()[k]
                    == parsed_object_of(sv[k].content->0)->Some_0 by {
                    assert(registry.set_views()[k] == sets@[k]@);
                }
            }
            Ok(registry)
        },
        None => {
            proof {
                if declares(sv, default_tag@) {
                    let w = choose|w: int| 0 <= w < sv.len() && sv[w].tag == default_tag@;
                    assert(tags@[w]@ == sv[w].tag);
                }
            }
            Err(BuildError::DefaultTagNotFound)
        },
    }
}

} // verus!
