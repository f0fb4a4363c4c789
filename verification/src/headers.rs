//! The protocol header set: a fixed-schema record with named slots for
//! the two values the handshake fills in (auth token and partial key),
//! and its serialization into wire name/value pairs.

use vstd::prelude::*;
use vstd::string::StringExecFns;

verus! {

/// The evolving header set of one session. The fixed identification
/// fields are schema constants; only the area id, the two credential
/// slots and the keep-alive flag vary.
pub struct HeaderSet {
    /// The caller's validated area id.
    pub area_id: String,
    /// The opaque token extracted from the step-1 response; `None` until
    /// step 1 succeeds (serialized as an empty placeholder).
    pub auth_token: Option<String>,
    /// The partial key derived after step 1; `None` until step 1
    /// succeeds (serialized as an empty placeholder).
    pub partial_key: Option<String>,
    /// Whether the serialized set asks to keep the connection alive
    /// (set for stream-playback requests, not for the handshake).
    pub keep_alive: bool,
}

/// The serialized value of a credential slot: its content once filled,
/// the empty placeholder before.
pub open spec fn spec_slot_value(slot: Option<String>) -> Seq<char> {
    match slot {
        Some(s) => s@,
        None => Seq::<char>::empty(),
    }
}

/// View of exec name/value pairs as pairs of character sequences.
pub open spec fn spec_pair_views(v: Seq<(String, String)>) -> Seq<(Seq<char>, Seq<char>)> {
    v.map_values(|p: (String, String)| (p.0@, p.1@))
}

/// The exact wire form of a header set: the fixed identification
/// fields, the two credential slots, the area id, and the keep-alive
/// pair when asked for.
pub open spec fn spec_wire_pairs(h: HeaderSet) -> Seq<(Seq<char>, Seq<char>)> {
    let base = seq![
        ("User-Agent"@, "python3.7"@),
        ("Accept"@, "*/*"@),
        ("X-Radiko-App"@, "pc_html5"@),
        ("X-Radiko-App-Version"@, "0.0.1"@),
        ("X-Radiko-User"@, "dummy_user"@),
        ("X-Radiko-Device"@, "pc"@),
        ("X-Radiko-AuthToken"@, spec_slot_value(h.auth_token)),
        ("X-Radiko-Partialkey"@, spec_slot_value(h.partial_key)),
        ("X-Radiko-AreaId"@, h.area_id@),
    ];
    if h.keep_alive {
        base.push(("Connection"@, "keep-alive"@))
    } else {
        base
    }
}

impl HeaderSet {
    /// The initial header set of a fresh session: identification fields
    /// only, both credential slots empty.
    pub fn new(area_id: &str) -> (r: HeaderSet)
        ensures
            r.area_id@ == area_id@,
            r.auth_token is None,
            r.partial_key is None,
            !r.keep_alive,
    {
        HeaderSet {
            area_id: String::from_str(area_id),
            auth_token: None,
            partial_key: None,
            keep_alive: false,
        }
    }

    /// A field-for-field copy of the set.
    pub fn duplicate(&self) -> (r: HeaderSet)
        ensures
            r == *self,
    {
        HeaderSet {
            area_id: self.area_id.clone(),
            auth_token: match &self.auth_token {
                Some(t) => Some(t.clone()),
                None => None,
            },
            partial_key: match &self.partial_key {
                Some(k) => Some(k.clone()),
                None => None,
            },
            keep_alive: self.keep_alive,
        }
    }

    /// Serializes the set into the name/value pairs that go on the
    /// wire, in the schema's order; empty slots become empty values.
    pub fn to_pairs(&self) -> (r: Vec<(String, String)>)
        ensures
            spec_pair_views(r@) == spec_wire_pairs(*self),
    {
        let mut v: Vec<(String, String)> = Vec::new();
        v.push((String::from_str("User-Agent"), String::from_str("python3.7")));
        v.push((String::from_str("Accept"), String::from_str("*/*")));
        v.push((String::from_str("X-Radiko-App"), String::from_str("pc_html5")));
        v.push((String::from_str("X-Radiko-App-Version"), String::from_str("0.0.1")));
        v.push((String::from_str("X-Radiko-User"), String::from_str("dummy_user")));
        v.push((String::from_str("X-Radiko-Device"), String::from_str("pc")));
        let token_val = match &self.auth_token {
            Some(t) => t.clone(),
            None => String::new(),
        };
        v.push((String::from_str("X-Radiko-AuthToken"), token_val));
        let key_val = match &self.partial_key {
            Some(k) => k.clone(),
            None => String::new(),
        };
        v.push((String::from_str("X-Radiko-Partialkey"), key_val));
        v.push((String::from_str("X-Radiko-AreaId"), self.area_id.clone()));
        if self.keep_alive {
            v.push((String::from_str("Connection"), String::from_str("keep-alive")));
        }
        proof {
            assert(spec_pair_views(v@) =~= spec_wire_pairs(*self));
        }
        v
    }
}

} // verus!
