//! Builds word-processor packages (a ZIP archive of XML parts) from text,
//! tables and images.
//!
//! - `image`: format detection and header-based measurement of images.
//! - `table`: the table grid, and the placement of HTML cells with spans.
//! - `style`: text styles and the shape records they encode to.
//! - `writer`: the document model and its builder.
//! - `markup`, `section`, `package`: the XML parts of a package.
//! - `archive`: the entries of the archive and the archive bytes.
//! - `convert`, `article`: conversion of articles (text, tables, images).
//! - `chars`, `template`, `error`: text helpers, fixed XML, errors.
pub mod archive;
pub mod article;
pub mod chars;
pub mod convert;
pub mod error;
pub mod image;
pub mod markup;
pub mod package;
pub mod section;
pub mod style;
pub mod table;
pub mod template;
pub mod writer;
