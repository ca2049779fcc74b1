//! The closed set of output formats, and their names.

use vstd::prelude::*;
use crate::text::{lowercase, same_text};

verus! {

/// An output format that an entry can be converted into.
#[derive(Clone, Copy, Debug, PartialEq, Eq, Structural)]
pub enum SupportedImages {
    Png,
    Jpeg,
    Bmp,
    Webp,
}

/// Why no output format was settled.
#[derive(Debug, PartialEq, Eq)]
pub enum FormatError {
    /// The name, as it was given, is that of no supported format.
    UnsupportedFormat(String),
    /// The configuration holds no format name where one is looked for.
    FormatNotSpecified,
    /// The configuration is not a TOML document.
    InvalidConfig(toml::de::Error),
}

/// The mathematical content of a [`FormatError`].
pub enum FormatFault {
    UnsupportedFormat(Seq<char>),
    FormatNotSpecified,
    InvalidConfig(toml::de::Error),
}

impl View for FormatError {
    type V = FormatFault;

    open spec fn view(&self) -> FormatFault {
        match self {
            FormatError::UnsupportedFormat(name) => FormatFault::UnsupportedFormat(name@),
            FormatError::FormatNotSpecified => FormatFault::FormatNotSpecified,
            FormatError::InvalidConfig(e) => FormatFault::InvalidConfig(*e),
        }
    }
}

/// The outcome of settling a format, with the error by its content.
pub open spec fn format_outcome(r: Result<SupportedImages, FormatError>) -> Result<
    SupportedImages,
    FormatFault,
> {
    match r {
        Ok(format) => Ok(format),
        Err(e) => Err(e@),
    }
}

/// The format that a lower-case name stands for. JPEG has two names.
pub open spec fn format_named(lower: Seq<char>) -> Option<SupportedImages> {
    if lower == "png"@ {
        Some(SupportedImages::Png)
    } else if lower == "jpg"@ || lower == "jpeg"@ {
        Some(SupportedImages::Jpeg)
    } else if lower == "bmp"@ {
        Some(SupportedImages::Bmp)
    } else if lower == "webp"@ {
        Some(SupportedImages::Webp)
    } else {
        None
    }
}

/// The format that a name stands for, whatever the case of its letters. A
/// name of no format is handed back in the error as it was given.
pub open spec fn parsed_format(name: Seq<char>) -> Result<SupportedImages, FormatFault> {
    match format_named(lowercase(name)) {
        Some(format) => Ok(format),
        None => Err(FormatFault::UnsupportedFormat(name)),
    }
}

impl SupportedImages {
    /// The canonical lower-case file extension of the format: `jpg` for
    /// JPEG.
    pub open spec fn extension_spec(self) -> Seq<char> {
        match self {
            SupportedImages::Png => "png"@,
            SupportedImages::Jpeg => "jpg"@,
            SupportedImages::Bmp => "bmp"@,
            SupportedImages::Webp => "webp"@,
        }
    }

    /// The file extension under which an image of this format is stored; it
    /// is also the text that stands for the format in messages.
    pub fn extension(self) -> (ext: &'static str)
        ensures
            ext@ == self.extension_spec(),
    {
        match self {
            SupportedImages::Png => "png",
            SupportedImages::Jpeg => "jpg",
            SupportedImages::Bmp => "bmp",
            SupportedImages::Webp => "webp",
        }
    }

    /// The format that a name in lower case stands for.
    pub fn from_lowercase(name: &str) -> (format: Option<SupportedImages>)
        ensures
            format == format_named(name@),
    {
        if same_text(name, "png") {
            Some(SupportedImages::Png)
        } else if same_text(name, "jpg") || same_text(name, "jpeg") {
            Some(SupportedImages::Jpeg)
        } else if same_text(name, "bmp") {
            Some(SupportedImages::Bmp)
        } else if same_text(name, "webp") {
            Some(SupportedImages::Webp)
        } else {
            None
        }
    }

    /// The format that a name stands for, whatever the case of its letters.
    pub fn from_str(s: &str) -> (r: Result<SupportedImages, FormatError>)
        ensures
            format_outcome(r) == parsed_format(s@),
    {
        let lower = s.to_lowercase();
        match SupportedImages::from_lowercase(lower.as_str()) {
            Some(format) => Ok(format),
            None => Err(FormatError::UnsupportedFormat(s.to_owned())),
        }
    }
}

/// Each format is named by its own extension, so no two formats share one.
pub proof fn lemma_extension_names_format(format: SupportedImages)
    ensures
        format_named(format.extension_spec()) == Some(format),
{
    reveal_strlit("png");
    reveal_strlit("jpg");
    reveal_strlit("jpeg");
    reveal_strlit("bmp");
    reveal_strlit("webp");
    assert("png"@[0] == 'p' && "jpg"@[0] == 'j' && "bmp"@[0] == 'b');
    assert("jpeg"@[0] == 'j' && "webp"@[0] == 'w');
}

} // verus!
