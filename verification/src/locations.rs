//! Location listing and the closest-region lookup, which is the one
//! operation that goes to an alternate host.

use vstd::prelude::*;

use crate::client::{
    spec_envelope_error, HttpRequest, LocationsPlatform, ResponseError, TursoClient, TursoError,
};
use crate::json::{json_of, obj_get, parse_json, sfield, Json};

verus! {

/// The closest-region payload: the region nearest the server that answered
/// and the one nearest the caller.
#[derive(Debug)]
pub struct ClosestRegion {
    pub server: String,
    pub client: String,
}

/// The abstract content of a [`ClosestRegion`].
pub struct ClosestRegionV {
    pub server: Seq<char>,
    pub client: Seq<char>,
}

impl View for ClosestRegion {
    type V = ClosestRegionV;

    open spec fn view(&self) -> ClosestRegionV {
        ClosestRegionV { server: self.server@, client: self.client@ }
    }
}

/// The location list payload. Each entry maps region codes to display
/// names; the pairs keep the order the response carries them in.
#[derive(Debug)]
pub struct Locations {
    pub locations: Vec<Vec<(String, String)>>,
}

/// Whether every field of a JSON object holds a string.
pub open spec fn all_str_fields(fs: Seq<(String, Json)>) -> bool {
    forall|i: int| 0 <= i < fs.len() ==> (#[trigger] fs[i]).1 is Str
}

/// The pairs of a JSON object whose values are all strings.
pub open spec fn field_pair_views(fs: Seq<(String, Json)>) -> Seq<(Seq<char>, Seq<char>)> {
    Seq::new(fs.len(), |i: int| (fs[i].0@, fs[i].1->Str_0@))
}

/// The abstract content of a vector of string pairs.
pub open spec fn pair_views(v: Seq<(String, String)>) -> Seq<(Seq<char>, Seq<char>)> {
    Seq::new(v.len(), |i: int| (v[i].0@, v[i].1@))
}

/// What one location entry decodes from: an object of string fields.
pub open spec fn entry_of(j: Json) -> Option<Seq<(Seq<char>, Seq<char>)>> {
    match j {
        Json::Obj(fs) => if all_str_fields(fs@) {
            Some(field_pair_views(fs@))
        } else {
            None
        },
        _ => None,
    }
}

/// What a list of location entries decodes from.
pub open spec fn arr_entries(items: Seq<Json>) -> Option<Seq<Seq<(Seq<char>, Seq<char>)>>> {
    if forall|i: int| 0 <= i < items.len() ==> entry_of(#[trigger] items[i]) is Some {
        Some(Seq::new(items.len(), |i: int| entry_of(items[i]).unwrap()))
    } else {
        None
    }
}

/// The success shape of the location list endpoint: `{"locations": [...]}`.
pub open spec fn locations_of(j: Json) -> Option<Seq<Seq<(Seq<char>, Seq<char>)>>> {
    match j {
        Json::Obj(fs) => match obj_get(fs@, "locations"@) {
            Some(Json::Arr(items)) => arr_entries(items@),
            _ => None,
        },
        _ => None,
    }
}

/// The abstract content of a vector of location entries.
pub open spec fn entries_views(v: Seq<Vec<(String, String)>>) -> Seq<Seq<(Seq<char>, Seq<char>)>> {
    Seq::new(v.len(), |i: int| pair_views(v[i]@))
}

/// The success shape of the closest-region endpoint: `server` and `client`
/// present as strings.
pub open spec fn closest_of(j: Json) -> Option<ClosestRegionV> {
    match j {
        Json::Obj(fs) => match (sfield(fs@, "server"@), sfield(fs@, "client"@)) {
            (Some(se), Some(cl)) => Some((ClosestRegionV { server: se, client: cl })),
            _ => None,
        },
        _ => None,
    }
}

fn entry_from_json(j: &Json) -> (r: Option<Vec<(String, String)>>)
    ensures
        r matches Some(v) ==> entry_of(*j) == Some(pair_views(v@)),
        r is None ==> entry_of(*j) is None,
{
    match j {
        Json::Obj(fs) => {
            let n = fs.len();
            let mut out: Vec<(String, String)> = Vec::new();
            let mut i: usize = 0;
            while i < n
                invariant
                    *j matches Json::Obj(f) && f@ == fs@,
                    i <= n,
                    n == fs@.len(),
                    out@.len() == i,
                    forall|k: int| 0 <= k < i ==> (#[trigger] fs@[k]).1 is Str,
                    forall|k: int|
                        0 <= k < i ==> (#[trigger] out@[k]).0@ == fs@[k].0@ && out@[k].1@
                            == fs@[k].1->Str_0@,
                decreases n - i,
            {
                let pair = &fs[i];
                match &pair.1 {
                    Json::Str(s) => {
                        out.push((pair.0.clone(), s.clone()));
                    },
                    _ => {
                        proof {
                            assert(!((fs@[i as int]).1 is Str));
                        }
                        return None;
                    },
                }
                i += 1;
            }
            proof {
                assert(pair_views(out@) =~= field_pair_views(fs@));
            }
            Some(out)
        },
        _ => None,
    }
}

fn entries_from_items(items: &Vec<Json>) -> (r: Option<Vec<Vec<(String, String)>>>)
    ensures
        r matches Some(v) ==> arr_entries(items@) == Some(entries_views(v@)),
        r is None ==> arr_entries(items@) is None,
{
    let n = items.len();
    let mut out: Vec<Vec<(String, String)>> = Vec::new();
    let mut i: usize = 0;
    while i < n
        invariant
            i <= n,
            n == items@.len(),
            out@.len() == i,
            forall|k: int| 0 <= k < i ==> entry_of(#[trigger] items@[k]) is Some,
            forall|k: int| 0 <= k < i ==> entry_of(items@[k]) == Some(pair_views(#[trigger] out@[k]@)),
        decreases n - i,
    {
        match entry_from_json(&items[i]) {
            Some(e) => {
                out.push(e);
            },
            None => {
                return None;
            },
        }
        i += 1;
    }
    proof {
        assert(entries_views(out@) =~= Seq::new(
            items@.len(),
            |k: int| entry_of(items@[k]).unwrap(),
        ));
    }
    Some(out)
}

/// Location operations.
impl TursoClient<LocationsPlatform> {
    /// The request for the region closest to the caller. It goes to the
    /// alternate region host: the URL is absolute, so it passes through the
    /// dispatch unchanged rather than resolving under the API origin.
    pub fn closest_region(&self) -> (r: HttpRequest)
        ensures
            r.method is Get,
            r.url@ == "https://region.turso.io"@,
            r.bearer == self.token,
            r.body is None,
    {
        proof {
            reveal_strlit("https://region.turso.io");
            reveal_strlit("https");
            assert("https://region.turso.io"@.subrange(0, 5) =~= "https"@);
        }
        self.get("https://region.turso.io")
    }

    /// The request that lists every supported location.
    pub fn list(&self) -> (r: HttpRequest)
        ensures
            r.method is Get,
            r.url@ == crate::client::base_url() + "locations"@,
            r.bearer == self.token,
            r.body is None,
    {
        proof {
            reveal_strlit("locations");
            reveal_strlit("https");
            assert("locations"@[0] != "https"@[0]);
            assert("locations"@.subrange(0, 5)[0] == "locations"@[0]);
        }
        self.get("locations")
    }

    /// Decodes the location list response.
    pub fn list_from_body(body: &str) -> (r: Result<Locations, ResponseError>)
        ensures
            json_of(body@) is None ==> (r matches Err(e) && e is Malformed),
            json_of(body@) matches Some(j) ==> match locations_of(j) {
                Some(vs) => r matches Ok(l) && entries_views(l.locations@) == vs,
                None => r matches Err(e) && e == spec_envelope_error(j),
            },
    {
        proof {
            reveal_strlit("locations");
        }
        match parse_json(body) {
            None => Err(ResponseError::Malformed),
            Some(j) => {
                match &j {
                    Json::Obj(fs) => match crate::json::obj_find(fs, "locations") {
                        Some(v) => match v {
                            Json::Arr(items) => match entries_from_items(items) {
                                Some(es) => Ok(Locations { locations: es }),
                                None => Err(crate::client::envelope_error(&j)),
                            },
                            _ => Err(crate::client::envelope_error(&j)),
                        },
                        None => Err(crate::client::envelope_error(&j)),
                    },
                    _ => Err(crate::client::envelope_error(&j)),
                }
            },
        }
    }

    /// Decodes the closest-region response.
    pub fn closest_region_from_body(body: &str) -> (r: Result<ClosestRegion, ResponseError>)
        ensures
            json_of(body@) is None ==> (r matches Err(e) && e is Malformed),
            json_of(body@) matches Some(j) ==> match closest_of(j) {
                Some(cv) => r matches Ok(c) && c@ == cv,
                None => r matches Err(e) && e == spec_envelope_error(j),
            },
    {
        proof {
            reveal_strlit("server");
            reveal_strlit("client");
        }
        match parse_json(body) {
            None => Err(ResponseError::Malformed),
            Some(j) => match &j {
                Json::Obj(fs) => {
                    let se = crate::json::get_str(fs, "server");
                    let cl = crate::json::get_str(fs, "client");
                    match (se, cl) {
                        (Some(se), Some(cl)) => Ok(ClosestRegion { server: se, client: cl }),
                        _ => Err(crate::client::envelope_error(&j)),
                    }
                },
                _ => Err(crate::client::envelope_error(&j)),
            },
        }
    }
}

/// Law: an empty location list response (`{"locations": []}`) decodes to the
/// empty collection, not an error.
pub proof fn lemma_empty_locations_decode(j: Json)
    requires
        j is Obj,
        obj_get(j->Obj_0@, "locations"@) matches Some(m) && m is Arr && m->Arr_0@.len() == 0,
    ensures
        locations_of(j) matches Some(vs) && vs.len() == 0,
{
}

/// Law: a body of the bare error shape (an object whose one field is a
/// string named `error`) matches no success shape of this module, and the
/// envelope carries exactly the server's message.
pub proof fn lemma_error_envelope_locations(j: Json)
    requires
        j is Obj,
        j->Obj_0@.len() == 1,
        j->Obj_0@[0].0@ == "error"@,
        j->Obj_0@[0].1 is Str,
    ensures
        locations_of(j) is None,
        closest_of(j) is None,
        spec_envelope_error(j) == ResponseError::Api(
            (TursoError { error: j->Obj_0@[0].1->Str_0 }),
        ),
{
    reveal_strlit("error");
    reveal_strlit("locations");
    reveal_strlit("server");
    let fs = j->Obj_0@;
    assert(obj_get(fs, "error"@) == Some(fs[0].1));
    assert(fs.drop_first().len() == 0);
    assert("locations"@.len() != "error"@.len());
    assert(obj_get(fs.drop_first(), "locations"@) is None);
    assert(obj_get(fs, "locations"@) is None);
    assert("server"@.len() != "error"@.len());
    assert(obj_get(fs.drop_first(), "server"@) is None);
    assert(obj_get(fs, "server"@) is None);
}

} // verus!
