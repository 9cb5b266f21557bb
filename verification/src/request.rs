//! The request that asks the service for a user's statistics.

use vstd::prelude::*;

verus! {

/// Where the service takes requests.
pub const ENDPOINT: &'static str = "https://graphql.anilist.co/";

/// The query, up to the place of the user's name.
pub const QUERY_HEAD: &'static str = "
{
  User(name: \"";

/// The query, from behind the user's name.
pub const QUERY_TAIL: &'static str = "\") {
      name
        statistics {
        manga {
          count
          chaptersRead
          volumesRead
          genres {
            genre
          }
          statuses {
            status
            count
          }
        }
        anime {
          count
          minutesWatched
          episodesWatched
          genres {
            genre
          }
          statuses {
            status
            count
          }
        }
      }
    }
}
";

/// The JSON string literal that `serde_json` writes for a text: the text in
/// double quotes, with escapes for the characters that JSON does not take as
/// they are.
pub uninterp spec fn json_string_literal(text: Seq<char>) -> Seq<char>;

/// The query for one user: the fixed text with the name put in. The name is
/// put in as it is.
pub open spec fn query_text(name: Seq<char>) -> Seq<char> {
    QUERY_HEAD@ + name + QUERY_TAIL@
}

/// A request body around a query that is a JSON string literal already: an
/// object whose one member, `query`, is the query.
pub open spec fn body_around(encoded_query: Seq<char>) -> Seq<char> {
    "{\"query\":"@ + encoded_query + "}"@
}

/// The request body for one user.
pub open spec fn request_body_text(name: Seq<char>) -> Seq<char> {
    body_around(json_string_literal(query_text(name)))
}

/// Formats `serde_json::Value::String` of the text with `to_string`, which
/// gives the text as a JSON string literal. The result depends on the text
/// alone.
#[verifier::external_body]
fn encode_json_string(text: &str) -> (encoded: String)
    ensures
        encoded@ == json_string_literal(text@),
{
    serde_json::Value::String(text.to_owned()).to_string()
}

/// Makes the query for one user.
pub fn query_for(name: &str) -> (query: String)
    ensures
        query@ == query_text(name@),
{
    let mut query = QUERY_HEAD.to_owned();
    query.append(name);
    query.append(QUERY_TAIL);
    query
}

/// Makes a request body around a query that is a JSON string literal
/// already.
pub fn wrap_query(encoded_query: &str) -> (body: String)
    ensures
        body@ == body_around(encoded_query@),
{
    let mut body = "{\"query\":".to_owned();
    body.append(encoded_query);
    body.append("}");
    body
}

/// Makes the request body for one user: a JSON object whose member `query`
/// holds the query for that user.
pub fn request_body(name: &str) -> (body: String)
    ensures
        body@ == request_body_text(name@),
{
    let query = query_for(name);
    let encoded = encode_json_string(query.as_str());
    wrap_query(encoded.as_str())
}

} // verus!
