use vstd::prelude::*;

use crate::entry::{Entry, EntryModel, views_of};
use crate::errors::AppError;
use crate::render::{render_page, spec_render_page};
use crate::store::{DbPool, list_entries_from_pool};

verus! {

/// What the server sends back for one request: a status, the content type
/// and the body.
pub struct HttpReply {
    pub status: u16,
    pub content_type: String,
    pub body: String,
}

/// Builds the reply for the outcome of a listing. A successful listing
/// becomes the rendered page with status 200; any failure becomes status
/// 500 with that failure's fixed message and no entry data, so no internal
/// detail ever reaches the client.
pub fn reply_for(outcome: Result<Vec<Entry>, AppError>) -> (r: HttpReply)
    ensures
        match outcome {
            Ok(entries) => r.status == 200 && r.content_type@ == "text/html"@ && r.body@
                == spec_render_page(views_of(entries@)),
            Err(e) => r.status == 500 && r.content_type@ == "text/plain; charset=utf-8"@
                && r.body@ == e.spec_message(),
        },
{
    match outcome {
        Ok(entries) => HttpReply {
            status: 200,
            content_type: "text/html".to_owned(),
            body: render_page(&entries),
        },
        Err(e) => HttpReply {
            status: 500,
            content_type: "text/plain; charset=utf-8".to_owned(),
            body: e.message(),
        },
    }
}

/// The whole request path for GET on the root: borrow a connection, run
/// the fixed query, render the page, shape the reply. Every 200 body is
/// the rendering of some entry sequence, so it is well-formed and its
/// texts are escaped; every failure yields a 500 whose body is one of the
/// three fixed messages, and the render failure is never among them.
pub fn handle_index(pool: &DbPool) -> (r: HttpReply)
    ensures
        r.status == 200 || r.status == 500,
        r.status == 200 ==> r.content_type@ == "text/html"@ && (exists|ms: Seq<EntryModel>|
            r.body@ == spec_render_page(ms)),
        r.status == 500 ==> (r.body@ == AppError::ConnectionPool.spec_message() || r.body@
            == AppError::Query.spec_message()),
{
    let outcome = list_entries_from_pool(pool);
    reply_for(outcome)
}

}
