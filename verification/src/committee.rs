//! The committee configuration model: threshold and the mapping from
//! member id to network address, its load-time validation, and its
//! JSON artifact form.

use crate::textfmt::{dec_of, dec_str, is_json_safe, json_quoted, json_safe, quote_string};
use vstd::prelude::*;

verus! {

/// One committee member, as the orchestrator addresses it.
#[derive(Debug)]
pub struct Member {
    pub address: String,
}

/// The shared committee configuration: the signing threshold and the
/// member-id to address mapping.
#[derive(Debug)]
pub struct CommitteeConfig {
    pub threshold: usize,
    pub members: Vec<(u16, Member)>,
}

/// Why a committee configuration was rejected at load time.
#[derive(Debug)]
pub enum ConfigError {
    /// A zero threshold: such a configuration must never be served.
    ZeroThreshold,
}

impl CommitteeConfig {
    /// The load-time check an orchestrator runs before serving: a
    /// configuration with a zero threshold is rejected outright.
    pub fn validate(&self) -> (r: Result<(), ConfigError>)
        ensures
            r is Ok <==> self.threshold > 0,
            r is Err ==> r matches Err(ConfigError::ZeroThreshold),
    {
        if self.threshold == 0 {
            Err(ConfigError::ZeroThreshold)
        } else {
            Ok(())
        }
    }
}

/// The JSON entry of one member: its id in decimal as the key, and an
/// object with its address.
pub open spec fn member_json(id: nat, address: Seq<char>) -> Seq<char> {
    json_quoted(dec_of(id)) + ":{\"address\":"@ + json_quoted(address) + "}"@
}

/// The comma-joined JSON entries of the member mapping.
pub open spec fn members_json(ms: Seq<(u16, Member)>) -> Seq<char>
    decreases ms.len(),
{
    if ms.len() == 0 {
        Seq::empty()
    } else if ms.len() == 1 {
        member_json(ms[0].0 as nat, ms[0].1.address@)
    } else {
        members_json(ms.drop_last()) + ","@ + member_json(
            ms.last().0 as nat,
            ms.last().1.address@,
        )
    }
}

/// The JSON artifact form of a committee configuration.
pub open spec fn config_json_spec(threshold: nat, ms: Seq<(u16, Member)>) -> Seq<char> {
    "{\"threshold\":"@ + dec_of(threshold) + ",\"members\":{"@ + members_json(ms) + "}}"@
}

/// Whether every member address may stand verbatim inside a JSON
/// string.
pub open spec fn addresses_safe(ms: Seq<(u16, Member)>) -> bool {
    forall|i: int| 0 <= i < ms.len() ==> json_safe(ms[i].1.address@)
}

/// Renders the configuration as its JSON artifact, or nothing when a
/// member address could not stand verbatim inside a JSON string.
pub fn config_json_string(cfg: &CommitteeConfig) -> (r: Option<String>)
    ensures
        r is Some <==> addresses_safe(cfg.members@),
        r matches Some(s) ==> s@ == config_json_spec(cfg.threshold as nat, cfg.members@),
{
    let mut out = String::from_str("{\"threshold\":");
    let t = dec_str(cfg.threshold as u64);
    out.append(t.as_str());
    out.append(",\"members\":{");
    let mut i: usize = 0;
    while i < cfg.members.len()
        invariant
            i <= cfg.members@.len(),
            forall|k: int| 0 <= k < i ==> json_safe(cfg.members@[k].1.address@),
            out@ =~= "{\"threshold\":"@ + dec_of(cfg.threshold as nat) + ",\"members\":{"@
                + members_json(cfg.members@.take(i as int)),
        decreases cfg.members@.len() - i,
    {
        let entry = &cfg.members[i];
        if !is_json_safe(entry.1.address.as_str()) {
            return None;
        }
        if i > 0 {
            out.append(",");
        }
        let key = dec_str(entry.0 as u64);
        let qk = quote_string(key.as_str());
        out.append(qk.as_str());
        out.append(":{\"address\":");
        let qa = quote_string(entry.1.address.as_str());
        out.append(qa.as_str());
        out.append("}");
        proof {
            let ms = cfg.members@;
            assert(ms.take(i + 1 as int).drop_last() =~= ms.take(i as int));
            assert(ms.take(i + 1 as int).last() == ms[i as int]);
            assert(out@ =~= "{\"threshold\":"@ + dec_of(cfg.threshold as nat) + ",\"members\":{"@
                + members_json(ms.take(i + 1 as int)));
        }
        i = i + 1;
    }
    out.append("}}");
    proof {
        assert(cfg.members@.take(cfg.members@.len() as int) =~= cfg.members@);
        assert(out@ =~= config_json_spec(cfg.threshold as nat, cfg.members@));
    }
    Some(out)
}

} // verus!
