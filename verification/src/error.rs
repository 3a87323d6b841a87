use vstd::prelude::*;

verus! {

/// Errors surfaced by the extraction engine.
///
/// A `Structure` error identifies a malformed `<context>` element (missing
/// entity or period child, or an unparsable date) together with the concept
/// that was being resolved; it aborts extraction of the whole document.
/// A `Configuration` error names a requested statement line that has no
/// tag-mapping entry; it indicates a caller bug, not document malformity.
/// Unresolvable per-fact context references are not an `Error`: the engine
/// skips such facts and reports their number as an observability signal.
#[derive(Debug, Clone)]
pub enum Error {
    /// A candidate context is malformed: no entity child, no usable period
    /// classification, a segment member without dimension or value, or an
    /// unparsable date.
    Structure { concept: String, context_id: String },
    /// A requested logical statement line has no tag-mapping entry.
    Configuration { line: String },
    /// The XML text could not be tokenized into a tree.
    MalformedXml,
    /// The XML tree exceeded the node budget of the importer.
    DocumentTooLarge,
    /// A date string did not match the expected calendar format.
    InvalidDate { text: String },
    /// A string offered as hexadecimal held a non-hex character.
    InvalidHex,
}

impl Error {
    /// A human-readable rendering of the error kind, in place of `Display`.
    pub fn message(&self) -> (r: String)
        ensures
            r@.len() > 0,
    {
        proof {
            reveal_strlit("malformed context ");
            reveal_strlit("no tag mapping for statement line ");
            reveal_strlit("the document is not well-formed XML");
            reveal_strlit("the document holds too many nodes");
            reveal_strlit("not a calendar date: ");
            reveal_strlit("not a hexadecimal string");
        }
        match self {
            Error::Structure { concept, context_id } => {
                let m = String::from_str("malformed context ");
                let m = m.concat(context_id.as_str());
                let m = m.concat(" while resolving ");
                m.concat(concept.as_str())
            },
            Error::Configuration { line } => {
                let m = String::from_str("no tag mapping for statement line ");
                m.concat(line.as_str())
            },
            Error::MalformedXml => String::from_str("the document is not well-formed XML"),
            Error::DocumentTooLarge => String::from_str("the document holds too many nodes"),
            Error::InvalidDate { text } => {
                let m = String::from_str("not a calendar date: ");
                m.concat(text.as_str())
            },
            Error::InvalidHex => String::from_str("not a hexadecimal string"),
        }
    }
}

} // verus!
