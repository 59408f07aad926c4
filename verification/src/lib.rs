//! Term model and interning layer for RDF data.
//!
//! The crate provides:
//! - lexical forms for IRIs, blank node identifiers and language tags
//!   (`lexical`);
//! - the term algebra: node identifiers, literals, terms, triples and quads
//!   (`term`, `literal`, `triple`, `quad`);
//! - an interning vocabulary that maps lexical forms to compact identifier
//!   values and back, with proved uniqueness, idempotence and round-trip
//!   laws (`vocabulary`);
//! - node identifier generators (`generator`);
//! - canonical textual rendering (`display`) and transparent hashing
//!   (`hashing`);
//! - an interpretation layer mapping terms to abstract resources
//!   (`interpretation`);
//! - source-located values with metadata-stripping comparison (`loc`).

pub mod display;
pub mod generator;
pub mod hashing;
pub mod interpretation;
pub mod lexical;
pub mod literal;
pub mod loc;
pub mod quad;
pub mod term;
pub mod triple;
pub mod vocabulary;

pub use crate::display::RdfDisplay;
pub use crate::generator::{Blank, Generator, Uuid, WithMetadata};
pub use crate::hashing::TransparentHash;
pub use crate::interpretation::{Interpret, Interpretation};
pub use crate::lexical::{BlankIdBuf, InvalidBlankId, InvalidIri, InvalidLangTag, IriBuf,
    LangTagBuf};
pub use crate::literal::{ExportError, Literal, RdfDisplayTypeSeparator, Type, UnknownType};
pub use crate::quad::{LexicalQuad, Quad, QuadExportFailed};
pub use crate::term::id::{Id, LexicalIdRef};
pub use crate::term::{GraphLabel, LexicalTermRef, Object, Subject, Term};
pub use crate::triple::Triple;
pub use crate::vocabulary::{BlankIdIndex, Index, IndexVocabulary, IndexedBlankId, IndexedIri,
    InlineBlankId, InlineIri, IriIndex};
