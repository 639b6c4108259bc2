use crate::translation::entries_view;
use vstd::prelude::*;

verus! {

/// The fallback locale tag of the declared table.
pub open spec fn default_tag_spec() -> Seq<char> {
    "en-US"@
}

/// The declared table: every supported locale tag beside the path of the
/// JSON document that holds its translations. Several tags share one
/// document. The `de-LI` and `de-LU` entries keep their capitalised
/// directory name on purpose; whether that spelling names the same
/// document is left to the file system that serves the paths.
pub open spec fn locale_table() -> Seq<(Seq<char>, Seq<char>)> {
    seq![
        ("ar-AE"@, "locales/ar.json"@),
        ("ar-BH"@, "locales/ar.json"@),
        ("ar-DZ"@, "locales/ar.json"@),
        ("ar-EG"@, "locales/ar.json"@),
        ("ar-KW"@, "locales/ar.json"@),
        ("ar-IQ"@, "locales/ar.json"@),
        ("ar-JO"@, "locales/ar.json"@),
        ("ar-LB"@, "locales/ar.json"@),
        ("ar-MA"@, "locales/ar.json"@),
        ("ar-OM"@, "locales/ar.json"@),
        ("ar-QA"@, "locales/ar.json"@),
        ("ar-SA"@, "locales/ar.json"@),
        ("ar-TN"@, "locales/ar.json"@),
        ("ar-YE"@, "locales/ar.json"@),
        ("cs-CZ"@, "locales/cs.json"@),
        ("de-AT"@, "locales/de.json"@),
        ("de-CH"@, "locales/de.json"@),
        ("de-DE"@, "locales/de.json"@),
        ("de-LI"@, "Locales/de.json"@),
        ("de-LU"@, "Locales/de.json"@),
        ("en-GB"@, "locales/en.json"@),
        ("en-US"@, "locales/en.json"@),
        ("es-AR"@, "locales/es.json"@),
        ("es-BO"@, "locales/es.json"@),
        ("es-CL"@, "locales/es.json"@),
        ("es-CO"@, "locales/es.json"@),
        ("es-CR"@, "locales/es.json"@),
        ("es-DO"@, "locales/es.json"@),
        ("es-EC"@, "locales/es.json"@),
        ("es-ES"@, "locales/es.json"@),
        ("es-GT"@, "locales/es.json"@),
        ("es-HN"@, "locales/es.json"@),
        ("es-MX"@, "locales/es.json"@),
        ("es-NI"@, "locales/es.json"@),
        ("es-PA"@, "locales/es.json"@),
        ("es-PE"@, "locales/es.json"@),
        ("es-PR"@, "locales/es.json"@),
        ("es-PY"@, "locales/es.json"@),
        ("es-SV"@, "locales/es.json"@),
        ("es-US"@, "locales/es.json"@),
        ("es-UY"@, "locales/es.json"@),
        ("es-VE"@, "locales/es.json"@),
        ("hu-HU"@, "locales/hu.json"@),
        ("ja-JP"@, "locales/ja.json"@),
        ("pl-PL"@, "locales/pl.json"@),
        ("pt-BR"@, "locales/pt.json"@),
        ("pt-PT"@, "locales/pt.json"@),
        ("ru-RU"@, "locales/ru.json"@),
        ("zh-CN"@, "locales/zh_CN.json"@),
        ("zh-TW"@, "locales/zh_TW.json"@),
    ]
}

/// The fallback locale tag, as declared.
pub fn default_tag() -> (r: String)
    ensures
        r@ == default_tag_spec(),
{
    "en-US".to_owned()
}

/// The declared table as owned pairs of a tag and a document path, in
/// declaration order.
#[verifier::rlimit(60)]
pub fn locale_entries() -> (r: Vec<(String, String)>)
    ensures
        entries_view(r@) == locale_table(),
        r@.len() == locale_table().len(),
{
    let mut v: Vec<(String, String)> = Vec::new();
    v.push(("ar-AE".to_owned(), "locales/ar.json".to_owned()));
    v.push(("ar-BH".to_owned(), "locales/ar.json".to_owned()));
    v.push(("ar-DZ".to_owned(), "locales/ar.json".to_owned()));
    v.push(("ar-EG".to_owned(), "locales/ar.json".to_owned()));
    v.push(("ar-KW".to_owned(), "locales/ar.json".to_owned()));
    v.push(("ar-IQ".to_owned(), "locales/ar.json".to_owned()));
    v.push(("ar-JO".to_owned(), "locales/ar.json".to_owned()));
    v.push(("ar-LB".to_owned(), "locales/ar.json".to_owned()));
    v.push(("ar-MA".to_owned(), "locales/ar.json".to_owned()));
    v.push(("ar-OM".to_owned(), "locales/ar.json".to_owned()));
    v.push(("ar-QA".to_owned(), "locales/ar.json".to_owned()));
    v.push(("ar-SA".to_owned(), "locales/ar.json".to_owned()));
    v.push(("ar-TN".to_owned(), "locales/ar.json".to_owned()));
    v.push(("ar-YE".to_owned(), "locales/ar.json".to_owned()));
    v.push(("cs-CZ".to_owned(), "locales/cs.json".to_owned()));
    v.push(("de-AT".to_owned(), "locales/de.json".to_owned()));
    v.push(("de-CH".to_owned(), "locales/de.json".to_owned()));
    v.push(("de-DE".to_owned(), "locales/de.json".to_owned()));
    v.push(("de-LI".to_owned(), "Locales/de.json".to_owned()));
    v.push(("de-LU".to_owned(), "Locales/de.json".to_owned()));
    v.push(("en-GB".to_owned(), "locales/en.json".to_owned()));
    v.push(("en-US".to_owned(), "locales/en.json".to_owned()));
    v.push(("es-AR".to_owned(), "locales/es.json".to_owned()));
    v.push(("es-BO".to_owned(), "locales/es.json".to_owned()));
    v.push(("es-CL".to_owned(), "locales/es.json".to_owned()));
    v.push(("es-CO".to_owned(), "locales/es.json".to_owned()));
    v.push(("es-CR".to_owned(), "locales/es.json".to_owned()));
    v.push(("es-DO".to_owned(), "locales/es.json".to_owned()));
    v.push(("es-EC".to_owned(), "locales/es.json".to_owned()));
    v.push(("es-ES".to_owned(), "locales/es.json".to_owned()));
    v.push(("es-GT".to_owned(), "locales/es.json".to_owned()));
    v.push(("es-HN".to_owned(), "locales/es.json".to_owned()));
    v.push(("es-MX".to_owned(), "locales/es.json".to_owned()));
    v.push(("es-NI".to_owned(), "locales/es.json".to_owned()));
    v.push(("es-PA".to_owned(), "locales/es.json".to_owned()));
    v.push(("es-PE".to_owned(), "locales/es.json".to_owned()));
    v.push(("es-PR".to_owned(), "locales/es.json".to_owned()));
    v.push(("es-PY".to_owned(), "locales/es.json".to_owned()));
    v.push(("es-SV".to_owned(), "locales/es.json".to_owned()));
    v.push(("es-US".to_owned(), "locales/es.json".to_owned()));
    v.push(("es-UY".to_owned(), "locales/es.json".to_owned()));
    v.push(("es-VE".to_owned(), "locales/es.json".to_owned()));
    v.push(("hu-HU".to_owned(), "locales/hu.json".to_owned()));
    v.push(("ja-JP".to_owned(), "locales/ja.json".to_owned()));
    v.push(("pl-PL".to_owned(), "locales/pl.json".to_owned()));
    v.push(("pt-BR".to_owned(), "locales/pt.json".to_owned()));
    v.push(("pt-PT".to_owned(), "locales/pt.json".to_owned()));
    v.push(("ru-RU".to_owned(), "locales/ru.json".to_owned()));
    v.push(("zh-CN".to_owned(), "locales/zh_CN.json".to_owned()));
    v.push(("zh-TW".to_owned(), "locales/zh_TW.json".to_owned()));
    proof {
        assert(entries_view(v@) =~~= locale_table());
    }
    v
}

} // verus!
