//! The domain entity and its wire-format counterpart.

use vstd::prelude::*;

verus! {

/// One telemetry record as it arrives on the wire, after the transport
/// layer has parsed the request body. Every field is optional: absence
/// means the client did not report that dimension. `time` is an absolute
/// UTC instant in whole epoch seconds; the transport layer truncates any
/// sub-second fraction before handing the record over.
pub struct HeartBeatJson {
    pub branch: Option<String>,
    pub category: Option<String>,
    pub entity: Option<String>,
    pub is_write: Option<bool>,
    pub language: Option<String>,
    pub lineno: Option<i32>,
    pub lines: Option<i32>,
    pub project: Option<String>,
    pub time: Option<i64>,
    pub user_agent: Option<String>,
    pub machine_name: Option<String>,
}

/// The domain entity: one heartbeat as the repository persists it. A
/// record with every field absent is valid. `time`, when present, is an
/// absolute UTC instant in whole epoch seconds.
pub struct HeartBeat {
    pub branch: Option<String>,
    pub category: Option<String>,
    pub entity: Option<String>,
    pub is_write: Option<bool>,
    pub language: Option<String>,
    pub lineno: Option<i32>,
    pub lines: Option<i32>,
    pub project: Option<String>,
    pub time: Option<i64>,
    pub user_agent: Option<String>,
    pub machine_name: Option<String>,
}

/// What a wire record maps to: every field carried over one-to-one,
/// nothing added, nothing dropped.
pub open spec fn heartbeat_from_wire(rec: HeartBeatJson) -> HeartBeat {
    HeartBeat {
        branch: rec.branch,
        category: rec.category,
        entity: rec.entity,
        is_write: rec.is_write,
        language: rec.language,
        lineno: rec.lineno,
        lines: rec.lines,
        project: rec.project,
        time: rec.time,
        user_agent: rec.user_agent,
        machine_name: rec.machine_name,
    }
}

impl From<HeartBeatJson> for HeartBeat {
    fn from(rec: HeartBeatJson) -> (r: HeartBeat) {
        HeartBeat {
            branch: rec.branch,
            category: rec.category,
            entity: rec.entity,
            is_write: rec.is_write,
            language: rec.language,
            lineno: rec.lineno,
            lines: rec.lines,
            project: rec.project,
            time: rec.time,
            user_agent: rec.user_agent,
            machine_name: rec.machine_name,
        }
    }
}

impl vstd::std_specs::convert::FromSpecImpl<HeartBeatJson> for HeartBeat {
    open spec fn obeys_from_spec() -> bool {
        true
    }

    open spec fn from_spec(rec: HeartBeatJson) -> HeartBeat {
        heartbeat_from_wire(rec)
    }
}

/// A heartbeat with the batch-wide machine-name override applied: when an
/// override is supplied, it replaces whatever the record carried; when
/// none is, the record is untouched.
pub open spec fn stamped(hb: HeartBeat, machine: Option<String>) -> HeartBeat {
    match machine {
        Some(m) => HeartBeat {
            branch: hb.branch,
            category: hb.category,
            entity: hb.entity,
            is_write: hb.is_write,
            language: hb.language,
            lineno: hb.lineno,
            lines: hb.lines,
            project: hb.project,
            time: hb.time,
            user_agent: hb.user_agent,
            machine_name: Some(m),
        },
        None => hb,
    }
}

/// The whole batch transform: each wire record mapped to its entity, in
/// order, one entity per record, with the override applied to every one.
pub open spec fn transformed_batch(recs: Seq<HeartBeatJson>, machine: Option<String>) -> Seq<
    HeartBeat,
> {
    recs.map_values(|rec: HeartBeatJson| stamped(heartbeat_from_wire(rec), machine))
}

/// Convert a parsed batch to domain entities, one per record, keeping
/// order and cardinality; no override is applied here.
pub fn to_heartbeats(msg: Vec<HeartBeatJson>) -> (r: Vec<HeartBeat>)
    ensures
        r@ == msg@.map_values(|rec: HeartBeatJson| heartbeat_from_wire(rec)),
{
    let ghost orig: Seq<HeartBeatJson> = msg@;
    let mut rest = msg;
    let mut out: Vec<HeartBeat> = Vec::new();
    while rest.len() > 0
        invariant
            out@.len() + rest@.len() == orig.len(),
            rest@ == orig.skip(out@.len() as int),
            forall|i: int| 0 <= i < out@.len() ==> #[trigger] out@[i] == heartbeat_from_wire(
                orig[i],
            ),
        decreases rest@.len(),
    {
        let ghost done = out@.len() as int;
        let rec = rest.remove(0);
        assert(orig.skip(done).remove(0) =~= orig.skip(done + 1));
        out.push(HeartBeat::from(rec));
    }
    proof {
        assert(out@ =~= orig.map_values(|rec: HeartBeatJson| heartbeat_from_wire(rec)));
    }
    out
}

/// With no override, the transform is the one-to-one field mapping: the
/// batch handed on equals the wire batch, record for record, every field
/// (the time instant included) carried over unchanged.
pub proof fn lemma_no_override_identity(recs: Seq<HeartBeatJson>)
    ensures
        transformed_batch(recs, None).len() == recs.len(),
        forall|i: int|
            0 <= i < recs.len() ==> #[trigger] transformed_batch(recs, None)[i]
                == heartbeat_from_wire(recs[i]),
{
}

/// With an override `m`, every record of the transformed batch carries
/// `machine_name == m`, whatever the client sent for that field, and all
/// other fields (the time instant included) are carried over unchanged.
pub proof fn lemma_override_forces_machine_name(recs: Seq<HeartBeatJson>, m: String)
    ensures
        transformed_batch(recs, Some(m)).len() == recs.len(),
        forall|i: int|
            0 <= i < recs.len() ==> (#[trigger] transformed_batch(recs, Some(m))[i]).machine_name
                == Some(m),
        forall|i: int|
            0 <= i < recs.len() ==> (#[trigger] transformed_batch(recs, Some(m))[i]).time
                == recs[i].time,
        forall|i: int|
            0 <= i < recs.len() ==> (#[trigger] transformed_batch(recs, Some(m))[i]).project
                == recs[i].project,
{
}

/// A record's time is carried through the transform exactly: absent on
/// the wire means absent in the entity, and a present instant is kept to
/// the second, whatever the override.
pub proof fn lemma_time_preserved(recs: Seq<HeartBeatJson>, machine: Option<String>)
    ensures
        forall|i: int|
            0 <= i < recs.len() ==> (#[trigger] transformed_batch(recs, machine)[i]).time
                == recs[i].time,
{
}

} // verus!
