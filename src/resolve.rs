use vstd::prelude::*;

verus! {

/// Status of a response that carries a file's content.
pub const STATUS_OK: u16 = 200;

/// Status of a response for a path that could not be read.
pub const STATUS_NOT_FOUND: u16 = 404;

/// A request path names a directory when its last character is `/`.
pub open spec fn is_directory_path(path: Seq<char>) -> bool {
    path.len() > 0 && path.last() == '/'
}

/// The request path after index expansion: `index.html` is appended to a
/// directory path, and any other path is kept as it is.
pub open spec fn indexed_path_of(request_path: Seq<char>) -> Seq<char> {
    if is_directory_path(request_path) {
        request_path + "index.html"@
    } else {
        request_path
    }
}

/// The file that a request reads: the root and the indexed request path,
/// joined as plain text.
pub open spec fn candidate_path_of(root_path: Seq<char>, request_path: Seq<char>) -> Seq<char> {
    root_path + indexed_path_of(request_path)
}

/// The body of the response for a path that could not be read.
pub open spec fn not_found_message(shown_path: Seq<char>) -> Seq<char> {
    "404: Could not find \""@ + shown_path + "\""@
}

/// The response owed for a request whose indexed path is `shown_path`, given
/// the file's text, or `None` where the read failed.
pub open spec fn response_of(shown_path: Seq<char>, text: Option<Seq<char>>) -> (u16, Seq<char>) {
    match text {
        Some(t) => (STATUS_OK, t),
        None => (STATUS_NOT_FOUND, not_found_message(shown_path)),
    }
}

/// Why a file could not be read. Both kinds are answered alike, with a 404.
#[derive(Clone, Copy, Debug, PartialEq, Eq, Structural)]
pub enum ReadFailure {
    /// Nothing exists at the path.
    NotFound,
    /// Something exists at the path but could not be read as text
    /// (a directory, no permission, bytes that are not UTF-8, ...).
    Unreadable,
}

/// The text that a read produced, if it succeeded.
pub open spec fn read_text(content: Result<String, ReadFailure>) -> Option<Seq<char>> {
    match content {
        Ok(t) => Some(t@),
        Err(_) => None,
    }
}

/// An HTTP response: a status and a text body.
pub struct Response {
    pub status: u16,
    pub body: String,
}

impl View for Response {
    type V = (u16, Seq<char>);

    open spec fn view(&self) -> (u16, Seq<char>) {
        (self.status, self.body@)
    }
}

/// Whether `path` ends with the path separator `/`.
pub fn ends_with_separator(path: &str) -> (r: bool)
    ensures
        r == is_directory_path(path@),
{
    let n = path.unicode_len();
    n > 0 && path.get_char(n - 1) == '/'
}

/// The request path with `index.html` appended where it names a directory.
pub fn indexed_path(request_path: &str) -> (r: String)
    ensures
        r@ == indexed_path_of(request_path@),
{
    let mut r = String::from_str(request_path);
    if ends_with_separator(request_path) {
        r.append("index.html");
    }
    r
}

/// The file path that a request reads: `root_path` followed by the indexed
/// request path, with no normalisation of any kind.
pub fn candidate_path(root_path: &str, request_path: &str) -> (r: String)
    ensures
        r@ == candidate_path_of(root_path@, request_path@),
{
    let indexed = indexed_path(request_path);
    let mut r = String::from_str(root_path);
    r.append(indexed.as_str());
    r
}

/// The body of a not-found response: `404: Could not find "<shown_path>"`.
pub fn not_found_body(shown_path: &str) -> (r: String)
    ensures
        r@ == not_found_message(shown_path@),
{
    let mut r = String::from_str("404: Could not find \"");
    r.append(shown_path);
    r.append("\"");
    r
}

/// What one request resolves to before its file is read.
pub struct Resolution {
    /// The file to read.
    pub file_path: String,
    /// The indexed request path, named in the not-found message.
    pub shown_path: String,
}

impl Resolution {
    /// Whether this resolution is the one owed for `request_path` under `root_path`.
    pub open spec fn is_for(&self, root_path: Seq<char>, request_path: Seq<char>) -> bool {
        &&& self.file_path@ == candidate_path_of(root_path, request_path)
        &&& self.shown_path@ == indexed_path_of(request_path)
    }

    /// Resolves `request_path` against `root_path`.
    pub fn new(root_path: &str, request_path: &str) -> (r: Resolution)
        ensures
            r.is_for(root_path@, request_path@),
    {
        Resolution {
            file_path: candidate_path(root_path, request_path),
            shown_path: indexed_path(request_path),
        }
    }

    /// Builds the response from the outcome of reading `self.file_path`: the
    /// file's text with status 200, or status 404 with a message naming the
    /// indexed request path, whatever the failure was.
    pub fn respond(&self, content: Result<String, ReadFailure>) -> (r: Response)
        ensures
            r@ == response_of(self.shown_path@, read_text(content)),
    {
        match content {
            Ok(text) => Response { status: STATUS_OK, body: text },
            Err(_) => Response { status: STATUS_NOT_FOUND, body: not_found_body(self.shown_path.as_str()) },
        }
    }
}

} // verus!
