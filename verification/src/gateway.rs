use vstd::prelude::*;
use vstd::string::StringExecFns;

use crate::domain::{spec_wire_code, IdeaRecord};
use crate::errors::ServiceError;
use crate::identity::UserPublic;
use crate::jsontext::{dec_rep, json_string, json_string_text, u32_dec};

verus! {

/// The status code of a served request.
pub const STATUS_OK: u16 = 200;

/// The status code every downstream failure flattens to at the gateway
/// boundary: the granularity of the original error is deliberately lost, but
/// a failure never turns into a silent success.
pub const STATUS_INTERNAL: u16 = 500;

/// What the gateway sends back for one request: a status code and a response
/// body.
#[derive(Clone, Debug)]
pub struct GatewayReply {
    pub status: u16,
    pub body: String,
}

/// The health probe: always succeeds, no downstream call.
pub fn health_check() -> (r: GatewayReply)
    ensures
        r.status == STATUS_OK,
        r.body@ == "OK"@,
{
    GatewayReply { status: STATUS_OK, body: String::from_str("OK") }
}

/// The response document of the create-user route.
pub open spec fn user_doc_text(id: Seq<char>, username: Seq<char>) -> Seq<char> {
    "{\"id\":"@ + json_string_text(id) + ",\"username\":"@ + json_string_text(username) + "}"@
}

/// Translate the identity service's answer to a create-user call into the
/// external response: the public projection as a JSON document, or a bare
/// internal-server-error status on any downstream failure.
pub fn create_user(upstream: Result<&UserPublic, ServiceError>) -> (r: GatewayReply)
    ensures
        upstream matches Ok(u) ==> r.status == STATUS_OK && r.body@ == user_doc_text(
            u.id@,
            u.username@,
        ),
        upstream is Err <==> r.status == STATUS_INTERNAL,
        upstream is Err ==> r.body@.len() == 0,
{
    match upstream {
        Ok(u) => {
            let mut body = String::from_str("{\"id\":");
            body.append(json_string(u.id.as_str()).as_str());
            body.append(",\"username\":");
            body.append(json_string(u.username.as_str()).as_str());
            body.append("}");
            GatewayReply { status: STATUS_OK, body }
        },
        Err(_) => GatewayReply { status: STATUS_INTERNAL, body: String::new() },
    }
}

/// The response document of the create-idea route: the new idea's identifier
/// and title, and the numeric wire code of its initial status.
pub open spec fn idea_doc_text(id: Seq<char>, title: Seq<char>, status_code: u32) -> Seq<char> {
    "{\"id\":"@ + json_string_text(id) + ",\"title\":"@ + json_string_text(title) + ",\"status\":"@
        + dec_rep(status_code as nat) + "}"@
}

/// Translate the idea service's answer to a create-idea call into the
/// external response, flattening any downstream failure to an
/// internal-server-error status.
pub fn create_idea(upstream: Result<&IdeaRecord, ServiceError>) -> (r: GatewayReply)
    ensures
        upstream matches Ok(i) ==> r.status == STATUS_OK && r.body@ == idea_doc_text(
            i.id@,
            i.title@,
            spec_wire_code(i.status),
        ),
        upstream is Err <==> r.status == STATUS_INTERNAL,
        upstream is Err ==> r.body@.len() == 0,
{
    match upstream {
        Ok(i) => {
            let mut body = String::from_str("{\"id\":");
            body.append(json_string(i.id.as_str()).as_str());
            body.append(",\"title\":");
            body.append(json_string(i.title.as_str()).as_str());
            body.append(",\"status\":");
            body.append(u32_dec(i.status.wire_code()).as_str());
            body.append("}");
            GatewayReply { status: STATUS_OK, body }
        },
        Err(_) => GatewayReply { status: STATUS_INTERNAL, body: String::new() },
    }
}

/// One entry of the list-ideas response document.
pub open spec fn idea_item_text(i: IdeaRecord) -> Seq<char> {
    "{\"id\":"@ + json_string_text(i.id@) + ",\"title\":"@ + json_string_text(i.title@)
        + ",\"problem\":"@ + json_string_text(i.problem@) + "}"@
}

/// The comma-separated entries of the list-ideas document from a given point
/// on; `first` says whether the point is the very beginning, before which no
/// comma belongs.
pub open spec fn ideas_items_text(s: Seq<IdeaRecord>, first: bool) -> Seq<char>
    decreases s.len(),
{
    if s.len() == 0 {
        Seq::empty()
    } else {
        (if first {
            Seq::empty()
        } else {
            seq![',']
        }) + idea_item_text(s.first()) + ideas_items_text(s.drop_first(), false)
    }
}

/// The response document of the list-ideas route.
pub open spec fn ideas_doc_text(s: Seq<IdeaRecord>) -> Seq<char> {
    "{\"ideas\":["@ + ideas_items_text(s, true) + "]}"@
}

/// Render one idea as a list entry.
fn idea_item(i: &IdeaRecord) -> (r: String)
    ensures
        r@ == idea_item_text(*i),
{
    let mut out = String::from_str("{\"id\":");
    out.append(json_string(i.id.as_str()).as_str());
    out.append(",\"title\":");
    out.append(json_string(i.title.as_str()).as_str());
    out.append(",\"problem\":");
    out.append(json_string(i.problem.as_str()).as_str());
    out.append("}");
    out
}

/// Translate the idea service's answer to a list-ideas call into the external
/// response: every fetched idea, in order, each reduced to its identifier,
/// title and problem; any downstream failure flattens to an
/// internal-server-error status.
pub fn list_ideas(upstream: Result<&Vec<IdeaRecord>, ServiceError>) -> (r: GatewayReply)
    ensures
        upstream matches Ok(ideas) ==> r.status == STATUS_OK && r.body@ == ideas_doc_text(ideas@),
        upstream is Err <==> r.status == STATUS_INTERNAL,
        upstream is Err ==> r.body@.len() == 0,
{
    let ideas = match upstream {
        Ok(v) => v,
        Err(_) => {
            return GatewayReply { status: STATUS_INTERNAL, body: String::new() };
        },
    };
    let mut body = String::from_str("{\"ideas\":[");
    let n = ideas.len();
    assert(ideas@.skip(0) == ideas@);
    for i in 0..n
        invariant
            n == ideas@.len(),
            ideas_doc_text(ideas@) =~= body@ + ideas_items_text(ideas@.skip(i as int), i == 0)
                + "]}"@,
    {
        if i > 0 {
            body.append(",");
            proof {
                reveal_strlit(",");
                assert(","@ =~= seq![',']);
            }
        }
        let item = idea_item(&ideas[i]);
        body.append(item.as_str());
        proof {
            assert(ideas@.skip(i as int).first() == ideas@[i as int]);
            assert(ideas@.skip(i as int).drop_first() =~= ideas@.skip(i + 1));
        }
    }
    body.append("]}");
    assert(ideas@.skip(n as int) =~= Seq::<IdeaRecord>::empty());
    assert(body@ =~= ideas_doc_text(ideas@));
    GatewayReply { status: STATUS_OK, body }
}

} // verus!
