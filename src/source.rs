//! Where an image comes from: a network URL, a local file or standard input.
//!
//! Classifying an argument and naming the image are pure decisions made
//! here; the caller performs the fetch or the read that the resulting
//! [`Source`] asks for, and hands the outcome to [`Image::try_new`].
use vstd::prelude::*;

use crate::text::{
    has_prefix, last_segment, last_segment_of, same_text, starts_with, trim_end, trim_end_char,
};

verus! {

/// The scheme and path of a string that parsed as an absolute URL.
pub struct UrlParts {
    pub scheme: String,
    pub path: String,
}

/// The scheme and path that the `url` crate reads from `s`, or `None` where
/// `s` is not an absolute URL.
pub uninterp spec fn url_parts_of(s: Seq<char>) -> Option<(Seq<char>, Seq<char>)>;

pub open spec fn parts_view(p: Option<UrlParts>) -> Option<(Seq<char>, Seq<char>)> {
    match p {
        Some(u) => Some((u.scheme@, u.path@)),
        None => None,
    }
}

pub open spec fn opt_view(o: Option<String>) -> Option<Seq<char>> {
    match o {
        Some(s) => Some(s@),
        None => None,
    }
}

/// Relies on `url::Url::parse`, read back through `Url::scheme` and
/// `Url::path`: whether `s` parses, and the scheme and path it yields,
/// depend on `s` alone.
#[verifier::external_body]
fn parse_url(s: &str) -> (r: Option<UrlParts>)
    ensures
        parts_view(r) == url_parts_of(s@),
{
    match url::Url::parse(s) {
        Ok(u) => Some(UrlParts { scheme: u.scheme().to_string(), path: u.path().to_string() }),
        Err(_) => None,
    }
}

/// The schemes that are fetched over the network.
pub open spec fn is_network_scheme(scheme: Seq<char>) -> bool {
    scheme == "http"@ || scheme == "https"@ || scheme == "ftp"@
}

/// The display name of a remote image: the last segment of its URL path
/// once trailing slashes are gone; none where nothing is left.
pub open spec fn remote_filename(path: Seq<char>) -> Option<Seq<char>> {
    let t = trim_end(path, '/');
    if t.len() == 0 {
        None
    } else {
        Some(last_segment(t, '/'))
    }
}

/// A local reference with one leading `file://` removed.
pub open spec fn local_path(input: Seq<char>) -> Seq<char> {
    if starts_with(input, "file://"@) {
        input.subrange(7, input.len() as int)
    } else {
        input
    }
}

/// What a [`Source`] stands for.
pub enum SourceModel {
    Remote { url: Seq<char>, filename: Option<Seq<char>> },
    Local { path: Seq<char>, filename: Option<Seq<char>>, origin: Seq<char> },
    Stdin,
}

/// How an argument is classified, given what the URL parser made of it:
/// remote exactly when it parsed with a network scheme, local otherwise.
pub open spec fn classified(
    input: Seq<char>,
    parsed: Option<(Seq<char>, Seq<char>)>,
    separator: char,
) -> SourceModel {
    if parsed is Some && is_network_scheme(parsed->Some_0.0) {
        SourceModel::Remote { url: input, filename: remote_filename(parsed->Some_0.1) }
    } else {
        let p = local_path(input);
        SourceModel::Local { path: p, filename: Some(last_segment(p, separator)), origin: input }
    }
}

/// Where the bytes of one image are to be taken from.
pub enum Source {
    /// Fetch `url` over the network.
    Remote { url: String, filename: Option<String> },
    /// Read the file at `path`; `origin` is the argument as given.
    Local { path: String, filename: Option<String>, origin: String },
    /// Read standard input to its end.
    Stdin,
}

impl View for Source {
    type V = SourceModel;

    open spec fn view(&self) -> SourceModel {
        match self {
            Source::Remote { url, filename } => SourceModel::Remote {
                url: url@,
                filename: opt_view(*filename),
            },
            Source::Local { path, filename, origin } => SourceModel::Local {
                path: path@,
                filename: opt_view(*filename),
                origin: origin@,
            },
            Source::Stdin => SourceModel::Stdin,
        }
    }
}

/// Whether `scheme` is one of those fetched over the network.
pub fn is_supported_scheme(scheme: &str) -> (r: bool)
    ensures
        r == is_network_scheme(scheme@),
{
    same_text(scheme, "http") || same_text(scheme, "https") || same_text(scheme, "ftp")
}

/// The display name of a remote image, from its URL path.
pub fn filename_from_url_path(path: &str) -> (r: Option<String>)
    ensures
        opt_view(r) == remote_filename(path@),
{
    let t = trim_end_char(path, '/');
    if t.unicode_len() == 0 {
        None
    } else {
        Some(last_segment_of(t, '/').to_owned())
    }
}

/// The path to open for a local reference: one leading `file://` removed.
pub fn strip_file_scheme(input: &str) -> (r: &str)
    ensures
        r@ == local_path(input@),
{
    proof {
        reveal_strlit("file://");
    }
    if has_prefix(input, "file://") {
        input.substring_char(7, input.unicode_len())
    } else {
        input
    }
}

impl Source {
    /// Classifies `input` given what the URL parser made of it (`parsed`):
    /// a network scheme makes it remote, anything else a local path whose
    /// name is its last segment split on `separator`.
    pub fn classify_parsed(input: &str, parsed: Option<UrlParts>, separator: char) -> (r: Source)
        ensures
            r@ == classified(input@, parts_view(parsed), separator),
    {
        if let Some(u) = parsed {
            if is_supported_scheme(u.scheme.as_str()) {
                let filename = filename_from_url_path(u.path.as_str());
                return Source::Remote { url: input.to_owned(), filename };
            }
        }
        let p = strip_file_scheme(input);
        let filename = last_segment_of(p, separator).to_owned();
        Source::Local { path: p.to_owned(), filename: Some(filename), origin: input.to_owned() }
    }

    /// Classifies one argument, or standard input where there is none.
    /// `separator` is the platform's path separator.
    pub fn classify(input: Option<&str>, separator: char) -> (r: Source)
        ensures
            input is None ==> r@ == SourceModel::Stdin,
            input is Some ==> r@ == classified(
                input->Some_0@,
                url_parts_of(input->Some_0@),
                separator,
            ),
    {
        match input {
            None => Source::Stdin,
            Some(s) => {
                let parsed = parse_url(s);
                Source::classify_parsed(s, parsed, separator)
            },
        }
    }
}

/// How reading a source failed.
#[derive(Clone, Copy, Debug, PartialEq, Eq, Structural)]
pub enum Failure {
    /// The file could not be opened, or the server could not be reached or
    /// answered with a non-success status.
    Open,
    /// Reading the bytes failed after the source was opened.
    Read,
}

/// Why an image could not be resolved; each names the input at fault.
#[derive(Debug)]
pub enum SourceError {
    Open { path: String },
    Read { path: String },
    Fetch { url: String },
    Stdin,
}

/// What a [`SourceError`] stands for.
pub enum ErrorModel {
    Open { path: Seq<char> },
    Read { path: Seq<char> },
    Fetch { url: Seq<char> },
    Stdin,
}

impl View for SourceError {
    type V = ErrorModel;

    open spec fn view(&self) -> ErrorModel {
        match self {
            SourceError::Open { path } => ErrorModel::Open { path: path@ },
            SourceError::Read { path } => ErrorModel::Read { path: path@ },
            SourceError::Fetch { url } => ErrorModel::Fetch { url: url@ },
            SourceError::Stdin => ErrorModel::Stdin,
        }
    }
}

/// The bytes of one image, with the name to show and the locator it came
/// from; both are absent for standard input.
pub struct Image {
    pub data: Vec<u8>,
    pub filename: Option<String>,
    pub origin: Option<String>,
}

/// What an [`Image`] stands for.
pub struct ImageModel {
    pub data: Seq<u8>,
    pub filename: Option<Seq<char>>,
    pub origin: Option<Seq<char>>,
}

impl View for Image {
    type V = ImageModel;

    open spec fn view(&self) -> ImageModel {
        ImageModel { data: self.data@, filename: opt_view(self.filename), origin: opt_view(self.origin) }
    }
}

pub open spec fn fetched_view(f: Result<Vec<u8>, Failure>) -> Result<Seq<u8>, Failure> {
    match f {
        Ok(d) => Ok(d@),
        Err(e) => Err(e),
    }
}

pub open spec fn resolved_view(r: Result<Image, SourceError>) -> Result<ImageModel, ErrorModel> {
    match r {
        Ok(i) => Ok(i@),
        Err(e) => Err(e@),
    }
}

/// The image, or the error, that a source yields once its bytes were read
/// (`fetched`). Any failure of a remote source is a fetch error naming the
/// URL; a local one names the path it tried to open.
pub open spec fn resolution(source: SourceModel, fetched: Result<Seq<u8>, Failure>) -> Result<
    ImageModel,
    ErrorModel,
> {
    match source {
        SourceModel::Remote { url, filename } => match fetched {
            Ok(data) => Ok(ImageModel { data, filename, origin: Some(url) }),
            Err(_) => Err(ErrorModel::Fetch { url }),
        },
        SourceModel::Local { path, filename, origin } => match fetched {
            Ok(data) => Ok(ImageModel { data, filename, origin: Some(origin) }),
            Err(Failure::Open) => Err(ErrorModel::Open { path }),
            Err(Failure::Read) => Err(ErrorModel::Read { path }),
        },
        SourceModel::Stdin => match fetched {
            Ok(data) => Ok(ImageModel { data, filename: None, origin: None }),
            Err(_) => Err(ErrorModel::Stdin),
        },
    }
}

impl Image {
    /// Builds the image from `source` and the outcome of reading it.
    pub fn try_new(source: Source, fetched: Result<Vec<u8>, Failure>) -> (r: Result<Image, SourceError>)
        ensures
            resolved_view(r) == resolution(source@, fetched_view(fetched)),
    {
        match source {
            Source::Remote { url, filename } => match fetched {
                Ok(data) => Ok(Image { data, filename, origin: Some(url) }),
                Err(_) => Err(SourceError::Fetch { url }),
            },
            Source::Local { path, filename, origin } => match fetched {
                Ok(data) => Ok(Image { data, filename, origin: Some(origin) }),
                Err(Failure::Open) => Err(SourceError::Open { path }),
                Err(Failure::Read) => Err(SourceError::Read { path }),
            },
            Source::Stdin => Image::from_stdin(fetched),
        }
    }

    /// Builds the image from what was read from standard input: no name and
    /// no origin.
    pub fn from_stdin(read: Result<Vec<u8>, Failure>) -> (r: Result<Image, SourceError>)
        ensures
            resolved_view(r) == resolution(SourceModel::Stdin, fetched_view(read)),
    {
        match read {
            Ok(data) => Ok(Image { data, filename: None, origin: None }),
            Err(_) => Err(SourceError::Stdin),
        }
    }

    /// The number of bytes of the image.
    pub fn len(&self) -> (r: usize)
        ensures
            r == self.data@.len(),
    {
        self.data.len()
    }
}

/// An argument that the URL parser rejects, or reads with a scheme other
/// than `http`, `https` or `ftp`, is taken as a local file and never
/// fetched: the path opened is the argument less one leading `file://`, and
/// the argument itself is kept as the origin.
pub proof fn lemma_non_network_input_is_local(
    input: Seq<char>,
    parsed: Option<(Seq<char>, Seq<char>)>,
    separator: char,
)
    requires
        parsed is None || !is_network_scheme(parsed->Some_0.0),
    ensures
        classified(input, parsed, separator) == (SourceModel::Local {
            path: local_path(input),
            filename: Some(last_segment(local_path(input), separator)),
            origin: input,
        }),
{
}

/// A path whose drive letter the URL parser reads as a one-letter scheme
/// (as in `C:/a/b`) stays a local path.
pub proof fn lemma_drive_letter_is_local(
    input: Seq<char>,
    scheme: Seq<char>,
    path: Seq<char>,
    separator: char,
)
    requires
        scheme.len() == 1,
    ensures
        classified(input, Some((scheme, path)), separator) is Local,
{
    reveal_strlit("http");
    reveal_strlit("https");
    reveal_strlit("ftp");
    assert(!is_network_scheme(scheme));
}

/// An argument that parses with scheme `http`, `https` or `ftp` is always
/// fetched from the network, never opened as a file; its name comes from
/// the URL path and the argument is kept as the origin.
pub proof fn lemma_network_input_is_fetched(
    input: Seq<char>,
    scheme: Seq<char>,
    path: Seq<char>,
    separator: char,
)
    requires
        is_network_scheme(scheme),
    ensures
        classified(input, Some((scheme, path)), separator) == (SourceModel::Remote {
            url: input,
            filename: remote_filename(path),
        }),
{
}

} // verus!
