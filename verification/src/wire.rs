//! The addresses and the fixed texts of the paste server's protocol.

use vstd::prelude::*;
use crate::text::same_text;

verus! {

/// The server that is used where none is named.
pub const DEFAULT_SERVER: &'static str = "https://hasteb.in";

/// The body with which a server answers a fetch of a key that it does not hold.
pub const NOT_FOUND_BODY: &'static str = "{\"message\":\"Document not found.\"}";

/// The address of a document's raw content: `{server}/raw/{key}`.
pub open spec fn fetch_url_spec(server: Seq<char>, key: Seq<char>) -> Seq<char> {
    server + "/raw/"@ + key
}

/// The address at which a server takes new documents: `{server}/documents`.
pub open spec fn create_url_spec(server: Seq<char>) -> Seq<char> {
    server + "/documents"@
}

/// The address under which a document is shown: `{server}/{key}`, or
/// `{server}/raw/{key}` in raw form.
pub open spec fn document_url_spec(server: Seq<char>, raw: bool, key: Seq<char>) -> Seq<char> {
    if raw {
        server + "/"@ + "raw/"@ + key
    } else {
        server + "/"@ + key
    }
}

/// Builds the address of a document's raw content.
pub fn fetch_url(server: &str, key: &str) -> (r: String)
    ensures
        r@ == fetch_url_spec(server@, key@),
{
    server.to_owned().concat("/raw/").concat(key)
}

/// Builds the address at which a server takes new documents.
pub fn create_url(server: &str) -> (r: String)
    ensures
        r@ == create_url_spec(server@),
{
    server.to_owned().concat("/documents")
}

/// Builds the address under which a document is shown, in raw form or not.
pub fn document_url(server: &str, raw: bool, key: &str) -> (r: String)
    ensures
        r@ == document_url_spec(server@, raw, key@),
{
    let base: String = server.to_owned().concat("/");
    if raw {
        base.concat("raw/").concat(key)
    } else {
        base.concat(key)
    }
}

/// Tells whether a response body is the server's not-found answer, character
/// for character.
pub fn is_not_found(body: &str) -> (r: bool)
    ensures
        r == (body@ == NOT_FOUND_BODY@),
{
    same_text(body, NOT_FOUND_BODY)
}

} // verus!
