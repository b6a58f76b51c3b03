use vstd::prelude::*;
use crate::resolve::{
    Resolution, Response, STATUS_NOT_FOUND, STATUS_OK, candidate_path_of, is_directory_path,
    response_of,
};

verus! {

/// Resolving the same request path under the same root twice reads the same
/// file, and, while that file's text stays the same, answers the same response.
pub proof fn lemma_resolution_deterministic(
    root_path: Seq<char>,
    request_path: Seq<char>,
    text: Option<Seq<char>>,
    first: Resolution,
    second: Resolution,
    first_response: Response,
    second_response: Response,
)
    requires
        first.is_for(root_path, request_path),
        second.is_for(root_path, request_path),
        first_response@ == response_of(first.shown_path@, text),
        second_response@ == response_of(second.shown_path@, text),
    ensures
        first.file_path@ == second.file_path@,
        first.shown_path@ == second.shown_path@,
        first_response@ == second_response@,
{
}

/// A request path that ends in `/` reads `root_path + request_path + "index.html"`,
/// never `root_path + request_path` itself.
pub proof fn lemma_index_expansion(root_path: Seq<char>, request_path: Seq<char>)
    requires
        is_directory_path(request_path),
    ensures
        candidate_path_of(root_path, request_path) == root_path + request_path + "index.html"@,
        candidate_path_of(root_path, request_path) != root_path + request_path,
{
    reveal_strlit("index.html");
    assert(root_path + (request_path + "index.html"@) =~= root_path + request_path
        + "index.html"@);
    assert(candidate_path_of(root_path, request_path).len() != (root_path + request_path).len());
}

/// A request path that does not end in `/` reads exactly `root_path + request_path`.
pub proof fn lemma_pass_through(root_path: Seq<char>, request_path: Seq<char>)
    requires
        !is_directory_path(request_path),
    ensures
        candidate_path_of(root_path, request_path) == root_path + request_path,
{
}

/// A failed read is answered with status 404 and the body
/// `404: Could not find "<X>"`, where X is the request path with `index.html`
/// appended if it ends in `/`, and the request path itself otherwise.
pub proof fn lemma_not_found_message(
    root_path: Seq<char>,
    request_path: Seq<char>,
    resolution: Resolution,
)
    requires
        resolution.is_for(root_path, request_path),
    ensures
        is_directory_path(request_path) ==> response_of(resolution.shown_path@, None) == (
            STATUS_NOT_FOUND,
            "404: Could not find \""@ + (request_path + "index.html"@) + "\""@,
        ),
        !is_directory_path(request_path) ==> response_of(resolution.shown_path@, None) == (
            STATUS_NOT_FOUND,
            "404: Could not find \""@ + request_path + "\""@,
        ),
{
}

/// A successful read is answered with status 200 and the file's full text,
/// unchanged.
pub proof fn lemma_content_fidelity(
    root_path: Seq<char>,
    request_path: Seq<char>,
    resolution: Resolution,
    text: Seq<char>,
)
    requires
        resolution.is_for(root_path, request_path),
    ensures
        response_of(resolution.shown_path@, Some(text)) == (STATUS_OK, text),
{
}

} // verus!
