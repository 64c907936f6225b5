//! Export formats, how the output file's extension selects one, and the errors
//! a conversion can end with.
use vstd::prelude::*;

verus! {

/// The file formats a document can be exported to.
#[derive(Clone, Copy, Debug, PartialEq, Eq, Structural)]
pub enum ExportFormat {
    /// Scalable vector graphics (`.svg`).
    Svg,
    /// The legacy notebook format (`.xopp`).
    Xopp,
    /// A paginated document (`.pdf`).
    Pdf,
}

/// The format that an extension names, if any. Extensions are matched exactly,
/// letter case included.
pub open spec fn format_named(ext: Seq<char>) -> Option<ExportFormat> {
    if ext == "svg"@ {
        Some(ExportFormat::Svg)
    } else if ext == "xopp"@ {
        Some(ExportFormat::Xopp)
    } else if ext == "pdf"@ {
        Some(ExportFormat::Pdf)
    } else {
        None
    }
}

/// Why a conversion failed. The text carried by a variant is the message of
/// the failure that was reported from outside.
#[derive(Clone, Debug, PartialEq, Eq)]
pub enum ConvertError {
    /// The input file could not be read.
    InputUnreadable(String),
    /// The engine rejected the input as malformed or unsupported.
    DocumentRejected(String),
    /// The output file has no extension to select a format by.
    MissingExtension,
    /// The output file's extension names no supported format.
    UnsupportedExtension(String),
    /// The engine failed to encode the document.
    ExportFailed(String),
    /// The output file could not be written.
    OutputUnwritable(String),
}

/// The model of a [`ConvertError`]: texts as sequences of characters.
pub enum ConvertErrorView {
    InputUnreadable(Seq<char>),
    DocumentRejected(Seq<char>),
    MissingExtension,
    UnsupportedExtension(Seq<char>),
    ExportFailed(Seq<char>),
    OutputUnwritable(Seq<char>),
}

impl View for ConvertError {
    type V = ConvertErrorView;

    open spec fn view(&self) -> ConvertErrorView {
        match self {
            ConvertError::InputUnreadable(m) => ConvertErrorView::InputUnreadable(m@),
            ConvertError::DocumentRejected(m) => ConvertErrorView::DocumentRejected(m@),
            ConvertError::MissingExtension => ConvertErrorView::MissingExtension,
            ConvertError::UnsupportedExtension(e) => ConvertErrorView::UnsupportedExtension(e@),
            ConvertError::ExportFailed(m) => ConvertErrorView::ExportFailed(m@),
            ConvertError::OutputUnwritable(m) => ConvertErrorView::OutputUnwritable(m@),
        }
    }
}

/// The characters of an optional text.
pub open spec fn text_of(s: Option<String>) -> Option<Seq<char>> {
    match s {
        Some(t) => Some(t@),
        None => None,
    }
}

/// The format selected by an output file's extension: a missing extension and
/// one that names no format are each an error.
pub open spec fn format_for(ext: Option<Seq<char>>) -> Result<ExportFormat, ConvertErrorView> {
    match ext {
        None => Err(ConvertErrorView::MissingExtension),
        Some(e) => match format_named(e) {
            Some(f) => Ok(f),
            None => Err(ConvertErrorView::UnsupportedExtension(e)),
        },
    }
}

/// The title given to an export: the output file's stem, or `output_file`
/// where it has none.
pub open spec fn title_for(stem: Option<Seq<char>>) -> Seq<char> {
    match stem {
        Some(s) => s,
        None => "output_file"@,
    }
}

/// The message that reports an error to the user.
pub open spec fn message_of(e: ConvertErrorView) -> Seq<char> {
    match e {
        ConvertErrorView::InputUnreadable(m) => m,
        ConvertErrorView::DocumentRejected(m) => m,
        ConvertErrorView::MissingExtension =>
            "Output file needs to have an extension to determine the file type."@,
        ConvertErrorView::UnsupportedExtension(ext) =>
            "unsupported extension `"@ + ext + "` for output file"@,
        ConvertErrorView::ExportFailed(m) => m,
        ConvertErrorView::OutputUnwritable(m) => m,
    }
}

fn same_text(s: &String, lit: &str) -> (r: bool)
    ensures
        r == (s@ == lit@),
{
    let owned = lit.to_owned();
    s.eq(&owned)
}

/// Selects the export format named by the output file's extension.
pub fn select_format(extension: &Option<String>) -> (r: Result<ExportFormat, ConvertError>)
    ensures
        match r {
            Ok(f) => format_for(text_of(*extension)) == Ok::<ExportFormat, ConvertErrorView>(f),
            Err(e) => format_for(text_of(*extension)) == Err::<ExportFormat, ConvertErrorView>(e@),
        },
{
    match extension {
        None => Err(ConvertError::MissingExtension),
        Some(ext) => {
            if same_text(ext, "svg") {
                Ok(ExportFormat::Svg)
            } else if same_text(ext, "xopp") {
                Ok(ExportFormat::Xopp)
            } else if same_text(ext, "pdf") {
                Ok(ExportFormat::Pdf)
            } else {
                Err(ConvertError::UnsupportedExtension(ext.clone()))
            }
        },
    }
}

/// The title of an export made from an output file with the given stem.
pub fn export_title(stem: Option<String>) -> (r: String)
    ensures
        r@ == title_for(text_of(stem)),
{
    match stem {
        Some(s) => s,
        None => "output_file".to_owned(),
    }
}

impl ConvertError {
    /// The message that reports this error to the user.
    pub fn message(&self) -> (r: String)
        ensures
            r@ == message_of(self@),
    {
        match self {
            ConvertError::InputUnreadable(m) => m.clone(),
            ConvertError::DocumentRejected(m) => m.clone(),
            ConvertError::MissingExtension => {
                "Output file needs to have an extension to determine the file type.".to_owned()
            },
            ConvertError::UnsupportedExtension(ext) => {
                let head = "unsupported extension `".to_owned();
                let with_ext = head.concat(ext.as_str());
                with_ext.concat("` for output file")
            },
            ConvertError::ExportFailed(m) => m.clone(),
            ConvertError::OutputUnwritable(m) => m.clone(),
        }
    }
}

} // verus!
