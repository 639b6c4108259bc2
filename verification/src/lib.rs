//! An in-memory locale registry for translated strings.
//!
//! A registry is built once at startup from a default locale tag and a list
//! of sources, one per declared tag: the tag, the path of the JSON document
//! that holds the tag's translations, and the text of that document. Building
//! fails fast on the first repeated tag, unreadable document, or document that
//! is not a JSON object, and when the default tag is not among the declared
//! ones. After a successful build the registry is read-only: `lookup` returns
//! the translation set of a declared tag, and falls back to the default tag's
//! set for any undeclared tag.

pub mod builder;
pub mod json;
pub mod laws;
pub mod registry;
pub mod table;
pub mod translation;

pub use builder::BuildError;
pub use builder::LocaleSource;
pub use builder::build_registry;
pub use registry::LocaleRegistry;
pub use table::default_tag;
pub use table::locale_entries;
pub use translation::TranslationSet;
