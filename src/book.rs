use vstd::prelude::*;

verus! {

/// What the extractor reads from a book container, as plain text fields.
pub struct RawMetadata {
    pub title: String,
    pub author: Option<String>,
    pub description: Option<String>,
    pub isbn: Option<String>,
}

/// The error of `mobi::Mobi::new`, carried through opaquely.
#[verifier::external_type_specification]
#[verifier::external_body]
pub struct ExMobiError(mobi::MobiError);

/// Whether `mobi::Mobi::new` accepts these bytes as a container.
pub uninterp spec fn mobi_decodes(b: Seq<u8>) -> bool;

/// What `mobi::Mobi::title` returns for the container held in these bytes.
pub uninterp spec fn mobi_title(b: Seq<u8>) -> Seq<char>;

/// What `mobi::Mobi::author` returns for the container held in these bytes.
pub uninterp spec fn mobi_author(b: Seq<u8>) -> Option<Seq<char>>;

/// What `mobi::Mobi::description` returns for the container held in these bytes.
pub uninterp spec fn mobi_description(b: Seq<u8>) -> Option<Seq<char>>;

/// What `mobi::Mobi::isbn` returns for the container held in these bytes.
pub uninterp spec fn mobi_isbn(b: Seq<u8>) -> Option<Seq<char>>;

pub open spec fn opt_view(o: Option<String>) -> Option<Seq<char>> {
    match o {
        Some(s) => Some(s@),
        None => None,
    }
}

/// Relies on `mobi::Mobi::new`, which parses the container header and its
/// metadata records from the bytes, and on its accessors `title`, `author`,
/// `description` and `isbn`, which read fields of the parsed value and depend
/// on the bytes alone. Malformed or short input comes back as an error: the
/// parser reads through bounded reads that report an unexpected end.
#[verifier::external_body]
fn decode_metadata(bytes: &Vec<u8>) -> (r: Result<RawMetadata, mobi::MobiError>)
    ensures
        r.is_ok() == mobi_decodes(bytes@),
        r matches Ok(m) ==> m.title@ == mobi_title(bytes@)
            && opt_view(m.author) == mobi_author(bytes@)
            && opt_view(m.description) == mobi_description(bytes@)
            && opt_view(m.isbn) == mobi_isbn(bytes@),
{
    mobi::Mobi::new(bytes).map(|m| RawMetadata {
        title: m.title(),
        author: m.author(),
        description: m.description(),
        isbn: m.isbn(),
    })
}

/// Relies on the `Display` impl of `mobi::MobiError` for a readable cause.
#[verifier::external_body]
fn error_text(e: &mobi::MobiError) -> (r: String)
{
    e.to_string()
}

/// One book found on the device. Books that the extractor yields have a
/// non-empty title.
#[derive(Debug, Clone)]
pub struct KindleBook {
    pub title: String,
    pub description: Option<String>,
    pub author: Option<String>,
    pub isbn: Option<String>,
}

/// The mathematical value of a book record.
pub struct BookView {
    pub title: Seq<char>,
    pub author: Option<Seq<char>>,
    pub description: Option<Seq<char>>,
    pub isbn: Option<Seq<char>>,
}

impl View for KindleBook {
    type V = BookView;

    open spec fn view(&self) -> BookView {
        BookView {
            title: self.title@,
            author: opt_view(self.author),
            description: opt_view(self.description),
            isbn: opt_view(self.isbn),
        }
    }
}

/// A file as read from the device: its path and its bytes, or why they could
/// not be read.
pub struct DiskFile {
    pub path: String,
    pub contents: Result<Vec<u8>, String>,
}

/// Why one candidate file yields no book.
#[derive(Debug, Clone)]
pub enum ExtractError {
    /// The container has no title.
    MissingTitle { path: String },
    /// The file could not be read, or is not a well-formed container.
    Unreadable { path: String, cause: String },
}

impl ExtractError {
    /// The path of the file that yielded no book.
    pub open spec fn path_view(&self) -> Seq<char> {
        match self {
            ExtractError::MissingTitle { path } => path@,
            ExtractError::Unreadable { path, .. } => path@,
        }
    }
}

/// The book that the container held in `b` describes, if it has a title.
pub open spec fn book_of_bytes(b: Seq<u8>) -> Option<BookView> {
    if mobi_decodes(b) && mobi_title(b).len() > 0 {
        Some(BookView {
            title: mobi_title(b),
            author: mobi_author(b),
            description: mobi_description(b),
            isbn: mobi_isbn(b),
        })
    } else {
        None
    }
}

/// The book that a file read from the device yields, if any.
pub open spec fn book_of_file(f: DiskFile) -> Option<BookView> {
    match f.contents {
        Ok(b) => book_of_bytes(b@),
        Err(_) => None,
    }
}

fn same_text(a: &Option<String>, b: &Option<String>) -> (r: bool)
    ensures
        r == (opt_view(*a) == opt_view(*b)),
{
    match (a, b) {
        (Some(x), Some(y)) => *x == *y,
        (None, None) => true,
        _ => false,
    }
}

impl KindleBook {
    /// Whether two records hold the same fields.
    pub fn same_as(&self, other: &KindleBook) -> (r: bool)
        ensures
            r == (self@ == other@),
    {
        self.title == other.title && same_text(&self.author, &other.author)
            && same_text(&self.description, &other.description)
            && same_text(&self.isbn, &other.isbn)
    }
}

/// Turns the bytes of one container into a book record.
pub fn extract_bytes(path: &String, bytes: &Vec<u8>) -> (r: Result<KindleBook, ExtractError>)
    ensures
        r is Ok <==> book_of_bytes(bytes@) is Some,
        r matches Ok(book) ==> book_of_bytes(bytes@) == Some(book@),
        !mobi_decodes(bytes@) <==> r matches Err(ExtractError::Unreadable { .. }),
        mobi_decodes(bytes@) && mobi_title(bytes@).len() == 0 <==> r matches Err(
            ExtractError::MissingTitle { .. }
        ),
        r matches Err(ExtractError::Unreadable { path: p, .. }) ==> p@ == path@,
        r matches Err(ExtractError::MissingTitle { path: p }) ==> p@ == path@,
{
    match decode_metadata(bytes) {
        Err(e) => Err(ExtractError::Unreadable { path: path.clone(), cause: error_text(&e) }),
        Ok(m) => {
            if m.title.as_str().is_empty() {
                Err(ExtractError::MissingTitle { path: path.clone() })
            } else {
                Ok(
                    KindleBook {
                        title: m.title,
                        description: m.description,
                        author: m.author,
                        isbn: m.isbn,
                    },
                )
            }
        },
    }
}

/// Turns a file read from the device into a book record. A file that could
/// not be read is unreadable, with the reason it was not.
pub fn extract(file: &DiskFile) -> (r: Result<KindleBook, ExtractError>)
    ensures
        r is Ok <==> book_of_file(*file) is Some,
        r matches Ok(book) ==> book_of_file(*file) == Some(book@),
        file.contents matches Err(e) ==> (r matches Err(ExtractError::Unreadable { path: p, cause: c })
            && p@ == file.path@ && c@ == e@),
        file.contents matches Ok(b) ==> (r matches Err(ExtractError::Unreadable { .. })
            <==> !mobi_decodes(b@)),
        r matches Err(ExtractError::Unreadable { path: p, .. }) ==> p@ == file.path@,
        r matches Err(ExtractError::MissingTitle { path: p }) ==> p@ == file.path@,
{
    match &file.contents {
        Err(cause) => Err(ExtractError::Unreadable { path: file.path.clone(), cause: cause.clone() }),
        Ok(bytes) => extract_bytes(&file.path, bytes),
    }
}

} // verus!
