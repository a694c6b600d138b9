//! The ingestion handler: authentication gate, then transform, then one
//! repository save, then the response mapping. The only three outcomes a
//! request can have are declared here.

use crate::auth::authorize;
use crate::auth::credential_matches;
use crate::db::HeartBeatRepository;
use crate::iterext::IterExt;
use crate::model::stamped;
use crate::model::to_heartbeats;
use crate::model::transformed_batch;
use crate::model::HeartBeat;
use crate::model::HeartBeatJson;
use vstd::prelude::*;

verus! {

/// The three response states of the ingestion endpoint: the batch was
/// persisted, the credential was missing or mismatched, or the repository
/// reported a failure. No other response shape exists.
#[derive(Clone, Copy, Debug, PartialEq, Eq, Structural)]
pub enum Response {
    Success,
    Unauthorized,
    InternalServerError,
}

impl Response {
    /// The HTTP status code of this response state.
    pub fn status_code(&self) -> (r: u16)
        ensures
            *self is Success ==> r == 200,
            *self is Unauthorized ==> r == 401,
            *self is InternalServerError ==> r == 500,
    {
        match self {
            Response::Success => 200,
            Response::Unauthorized => 401,
            Response::InternalServerError => 500,
        }
    }

    /// The response body of this response state.
    pub fn body(&self) -> (r: &'static str)
        ensures
            *self is Success ==> r@ == "Ok"@,
            *self is Unauthorized ==> r@ == "Unauthorized"@,
            *self is InternalServerError ==> r@ == "Internal Server Error"@,
    {
        match self {
            Response::Success => "Ok",
            Response::Unauthorized => "Unauthorized",
            Response::InternalServerError => "Internal Server Error",
        }
    }
}

/// Handle one ingestion request: refuse it unless the `Authorization`
/// header equals the expected credential exactly (the repository is then
/// never touched); otherwise transform the batch,
/// applying the batch-wide machine-name override when one is supplied,
/// and hand it to the repository in one save. An empty batch succeeds
/// without a save. The repository's answer decides between success and
/// internal server error; its diagnostic detail never reaches the caller.
pub fn on_heartbeat<R: HeartBeatRepository>(
    msg: Vec<HeartBeatJson>,
    machine: Option<String>,
    auth: Option<String>,
    db: &mut R,
    key: &str,
) -> (r: Response)
    ensures
        !credential_matches(auth, key@) ==> r == Response::Unauthorized && final(db).saved()
            == old(db).saved(),
        credential_matches(auth, key@) && msg@.len() == 0 ==> r == Response::Success
            && final(db).saved() == old(db).saved(),
        credential_matches(auth, key@) && msg@.len() > 0 ==> (match r {
            Response::Success => final(db).saved() == old(db).saved().push(
                transformed_batch(msg@, machine),
            ),
            Response::InternalServerError => final(db).saved() == old(db).saved(),
            Response::Unauthorized => false,
        }),
{
    if !authorize(&auth, key) {
        return Response::Unauthorized;
    }
    let hbs = to_heartbeats(msg);
    let batch = match machine {
        Some(m) => {
            let m_ref = &m;
            let stamp = |hb: HeartBeat| -> (r: HeartBeat)
                ensures
                    r == stamped(hb, Some(*m_ref)),
                {
                    HeartBeat {
                        branch: hb.branch,
                        category: hb.category,
                        entity: hb.entity,
                        is_write: hb.is_write,
                        language: hb.language,
                        lineno: hb.lineno,
                        lines: hb.lines,
                        project: hb.project,
                        time: hb.time,
                        user_agent: hb.user_agent,
                        machine_name: Some(m_ref.clone()),
                    }
                };
            let edited = hbs.edit(stamp);
            proof {
                let target = transformed_batch(msg@, Some(m));
                assert forall|i: int| 0 <= i < edited@.len() implies edited@[i] == target[i] by {
                    assert(call_ensures(stamp, (hbs@[i],), edited@[i]));
                }
                assert(edited@ =~= target);
            }
            edited
        },
        None => {
            proof {
                assert(hbs@ =~= transformed_batch(msg@, None));
            }
            hbs
        },
    };
    if batch.len() == 0 {
        return Response::Success;
    }
    match db.save(batch) {
        Ok(_) => Response::Success,
        Err(_) => Response::InternalServerError,
    }
}

} // verus!
