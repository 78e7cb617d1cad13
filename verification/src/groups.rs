//! Group records, their operations, their request bodies, and their decoders.

use vstd::prelude::*;

use crate::client::{
    spec_envelope_error, GroupsPlatform, HttpRequest, ResponseError, TursoClient, TursoError,
};
use crate::json::{
    bfield, json_escape, json_of, obj_get, parse_json, sarr_field, seq_views, sfield, Json,
};

verus! {

/// One group record.
#[derive(Debug)]
pub struct Group {
    pub archived: bool,
    pub locations: Vec<String>,
    pub name: String,
    pub primary: String,
    pub uuid: String,
}

/// The abstract content of a [`Group`].
pub struct GroupV {
    pub archived: bool,
    pub locations: Seq<Seq<char>>,
    pub name: Seq<char>,
    pub primary: Seq<char>,
    pub uuid: Seq<char>,
}

impl View for Group {
    type V = GroupV;

    open spec fn view(&self) -> GroupV {
        GroupV {
            archived: self.archived,
            locations: seq_views(self.locations@),
            name: self.name@,
            primary: self.primary@,
            uuid: self.uuid@,
        }
    }
}

/// What one group record decodes from: all five fields present, `archived`
/// a boolean, `locations` an array of strings, the rest strings.
pub open spec fn group_of(j: Json) -> Option<GroupV> {
    match j {
        Json::Obj(fs) => match (
            bfield(fs@, "archived"@),
            sarr_field(fs@, "locations"@),
            sfield(fs@, "name"@),
            sfield(fs@, "primary"@),
            sfield(fs@, "uuid"@),
        ) {
            (Some(ar), Some(lo), Some(nm), Some(pr), Some(uu)) => Some(
                (GroupV { archived: ar, locations: lo, name: nm, primary: pr, uuid: uu }),
            ),
            _ => None,
        },
        _ => None,
    }
}

impl Group {
    /// Decodes one group record, exactly as [`group_of`] says.
    pub fn from_json(j: &Json) -> (r: Option<Group>)
        ensures
            r matches Some(g) ==> group_of(*j) == Some(g@),
            r is None ==> group_of(*j) is None,
    {
        proof {
            reveal_strlit("archived");
            reveal_strlit("locations");
            reveal_strlit("name");
            reveal_strlit("primary");
            reveal_strlit("uuid");
        }
        match j {
            Json::Obj(fs) => {
                let ar = crate::json::get_bool(fs, "archived");
                let lo = crate::json::get_str_array(fs, "locations");
                let nm = crate::json::get_str(fs, "name");
                let pr = crate::json::get_str(fs, "primary");
                let uu = crate::json::get_str(fs, "uuid");
                match (ar, lo, nm, pr, uu) {
                    (Some(ar), Some(lo), Some(nm), Some(pr), Some(uu)) => Some(
                        Group { archived: ar, locations: lo, name: nm, primary: pr, uuid: uu },
                    ),
                    _ => None,
                }
            },
            _ => None,
        }
    }
}

/// The group list payload.
#[derive(Debug)]
pub struct ListGroups {
    pub groups: Vec<Group>,
}

/// The single-group payload, as the retrieve, create and delete responses
/// carry it.
#[derive(Debug)]
pub struct RetrievedGroup {
    pub group: Group,
}

/// A named form of the delete payload; the delete operation itself
/// decodes a single-group payload.
#[derive(Debug)]
pub struct DeletededGroup {
    pub group: String,
}

/// The abstract content of a vector of group records.
pub open spec fn groups_views(v: Seq<Group>) -> Seq<GroupV> {
    Seq::new(v.len(), |i: int| v[i]@)
}

/// What a list of group records decodes from.
pub open spec fn arr_groups(items: Seq<Json>) -> Option<Seq<GroupV>> {
    if forall|i: int| 0 <= i < items.len() ==> group_of(#[trigger] items[i]) is Some {
        Some(Seq::new(items.len(), |i: int| group_of(items[i]).unwrap()))
    } else {
        None
    }
}

/// The success shape of the group list endpoint: `{"groups": [...]}`.
pub open spec fn groups_of(j: Json) -> Option<Seq<GroupV>> {
    match j {
        Json::Obj(fs) => match obj_get(fs@, "groups"@) {
            Some(Json::Arr(items)) => arr_groups(items@),
            _ => None,
        },
        _ => None,
    }
}

/// The success shape of the single-group endpoints: `{"group": {...}}`.
pub open spec fn retrieved_group_of(j: Json) -> Option<GroupV> {
    match j {
        Json::Obj(fs) => match obj_get(fs@, "group"@) {
            Some(gj) => group_of(gj),
            _ => None,
        },
        _ => None,
    }
}

fn groups_from_items(items: &Vec<Json>) -> (r: Option<Vec<Group>>)
    ensures
        r matches Some(v) ==> arr_groups(items@) == Some(groups_views(v@)),
        r is None ==> arr_groups(items@) is None,
{
    let n = items.len();
    let mut out: Vec<Group> = Vec::new();
    let mut i: usize = 0;
    while i < n
        invariant
            i <= n,
            n == items@.len(),
            out@.len() == i,
            forall|k: int| 0 <= k < i ==> group_of(#[trigger] items@[k]) is Some,
            forall|k: int| 0 <= k < i ==> group_of(items@[k]) == Some(#[trigger] out@[k]@),
        decreases n - i,
    {
        match Group::from_json(&items[i]) {
            Some(g) => {
                out.push(g);
            },
            None => {
                return None;
            },
        }
        i += 1;
    }
    proof {
        assert(groups_views(out@) =~= Seq::new(items@.len(), |k: int| group_of(items@[k]).unwrap()));
    }
    Some(out)
}

/// The create-group request body.
#[derive(Debug)]
pub struct CreateGroup {
    pub name: String,
    pub location: String,
}

/// The exact text of a create-group body: `name` first, then `location`,
/// both JSON-escaped.
pub open spec fn create_group_text(name: Seq<char>, location: Seq<char>) -> Seq<char> {
    "{\"name\":\""@ + json_escape(name) + "\",\"location\":\""@ + json_escape(location) + "\"}"@
}

impl CreateGroup {
    /// A create-group body for the given name, homed in the given location.
    pub fn new(name: &str, location: &str) -> (r: Self)
        ensures
            r.name@ == name@,
            r.location@ == location@,
    {
        CreateGroup { name: name.to_owned(), location: location.to_owned() }
    }

    /// Serializes the body: exactly `{"name":"...","location":"..."}`.
    pub fn body(&self) -> (r: String)
        ensures
            r@ == create_group_text(self.name@, self.location@),
    {
        let mut out = String::from_str("{\"name\":\"");
        crate::json::append_escaped(&mut out, self.name.as_str());
        out.append("\",\"location\":\"");
        crate::json::append_escaped(&mut out, self.location.as_str());
        out.append("\"}");
        proof {
            assert(out@ =~= create_group_text(self.name@, self.location@));
        }
        out
    }
}

/// The transfer-group request body.
#[derive(Debug)]
pub struct TransferGroup {
    pub organization: String,
}

/// The exact text of a transfer-group body.
pub open spec fn transfer_group_text(organization: Seq<char>) -> Seq<char> {
    "{\"organization\":\""@ + json_escape(organization) + "\"}"@
}

impl TransferGroup {
    /// A transfer body naming the organization the group moves to.
    pub fn new(organization: &str) -> (r: Self)
        ensures
            r.organization@ == organization@,
    {
        TransferGroup { organization: organization.to_owned() }
    }

    /// Serializes the body: exactly `{"organization":"..."}`.
    pub fn body(&self) -> (r: String)
        ensures
            r@ == transfer_group_text(self.organization@),
    {
        let mut out = String::from_str("{\"organization\":\"");
        crate::json::append_escaped(&mut out, self.organization.as_str());
        out.append("\"}");
        proof {
            assert(out@ =~= transfer_group_text(self.organization@));
        }
        out
    }
}

/// Group operations.
impl TursoClient<GroupsPlatform> {
    /// The request that transfers a group to another organization. As in the
    /// wire protocol, the body names the organization the request is made
    /// under; `name` and `location` take no part in the call.
    #[allow(unused_variables)]
    pub fn transfer(
        &self,
        organization_name: &str,
        name: &str,
        location: &str,
        group_name: &str,
    ) -> (r: HttpRequest)
        ensures
            r.method is Post,
            r.url@ == crate::client::base_url() + "organizations/"@ + organization_name@
                + "/groups/"@ + group_name@ + "/transfer"@,
            r.bearer == self.token,
            r.body matches Some(b) && b@ == transfer_group_text(organization_name@),
    {
        let mut path = String::from_str("organizations/");
        path.append(organization_name);
        path.append("/groups/");
        path.append(group_name);
        path.append("/transfer");
        let r = self.post(path.as_str(), TransferGroup::new(organization_name).body());
        proof {
            assert(crate::client::base_url() + ((("organizations/"@ + organization_name@
                + "/groups/"@) + group_name@) + "/transfer"@) =~= crate::client::base_url()
                + "organizations/"@ + organization_name@ + "/groups/"@ + group_name@
                + "/transfer"@);
        }
        r
    }

    /// The request that lists an organization's groups.
    pub fn list(&self, organization_name: &str) -> (r: HttpRequest)
        ensures
            r.method is Get,
            r.url@ == crate::client::base_url() + "organizations/"@ + organization_name@
                + "/groups"@,
            r.bearer == self.token,
            r.body is None,
    {
        let mut path = String::from_str("organizations/");
        path.append(organization_name);
        path.append("/groups");
        proof {
            reveal_strlit("organizations/");
            reveal_strlit("https");
            assert(path@[0] == "organizations/"@[0]);
            if path@.len() >= 5 && path@.subrange(0, 5) == "https"@ {
                assert(path@.subrange(0, 5)[0] == path@[0]);
                assert(false);
            }
        }
        let r = self.get(path.as_str());
        proof {
            assert(crate::client::base_url() + ("organizations/"@ + organization_name@ + "/groups"@)
                =~= crate::client::base_url() + "organizations/"@ + organization_name@
                + "/groups"@);
        }
        r
    }

    /// The request that retrieves one group by name.
    pub fn retrieve(&self, organization_name: &str, group_name: &str) -> (r: HttpRequest)
        ensures
            r.method is Get,
            r.url@ == crate::client::base_url() + "organizations/"@ + organization_name@
                + "/groups/"@ + group_name@,
            r.bearer == self.token,
            r.body is None,
    {
        let mut path = String::from_str("organizations/");
        path.append(organization_name);
        path.append("/groups/");
        path.append(group_name);
        proof {
            reveal_strlit("organizations/");
            reveal_strlit("https");
            assert(path@[0] == "organizations/"@[0]);
            if path@.len() >= 5 && path@.subrange(0, 5) == "https"@ {
                assert(path@.subrange(0, 5)[0] == path@[0]);
                assert(false);
            }
        }
        let r = self.get(path.as_str());
        proof {
            assert(crate::client::base_url() + (("organizations/"@ + organization_name@
                + "/groups/"@) + group_name@) =~= crate::client::base_url() + "organizations/"@
                + organization_name@ + "/groups/"@ + group_name@);
        }
        r
    }

    /// The request that creates a group named `name` in `location`.
    pub fn create(&self, organization_name: &str, name: &str, location: &str) -> (r: HttpRequest)
        ensures
            r.method is Post,
            r.url@ == crate::client::base_url() + "organizations/"@ + organization_name@
                + "/groups"@,
            r.bearer == self.token,
            r.body matches Some(b) && b@ == create_group_text(name@, location@),
    {
        let mut path = String::from_str("organizations/");
        path.append(organization_name);
        path.append("/groups");
        let r = self.post(path.as_str(), CreateGroup::new(name, location).body());
        proof {
            assert(crate::client::base_url() + ("organizations/"@ + organization_name@ + "/groups"@)
                =~= crate::client::base_url() + "organizations/"@ + organization_name@
                + "/groups"@);
        }
        r
    }

    /// The request that deletes one group by name.
    pub fn delete(&self, organization_name: &str, group_name: &str) -> (r: HttpRequest)
        ensures
            r.method is Delete,
            r.url@ == crate::client::base_url() + "organizations/"@ + organization_name@
                + "/groups/"@ + group_name@,
            r.bearer == self.token,
            r.body is None,
    {
        let mut path = String::from_str("organizations/");
        path.append(organization_name);
        path.append("/groups/");
        path.append(group_name);
        let r = self.delete_(path.as_str());
        proof {
            assert(crate::client::base_url() + (("organizations/"@ + organization_name@
                + "/groups/"@) + group_name@) =~= crate::client::base_url() + "organizations/"@
                + organization_name@ + "/groups/"@ + group_name@);
        }
        r
    }

    /// Decodes the group list response.
    pub fn list_from_body(body: &str) -> (r: Result<ListGroups, ResponseError>)
        ensures
            json_of(body@) is None ==> (r matches Err(e) && e is Malformed),
            json_of(body@) matches Some(j) ==> match groups_of(j) {
                Some(vs) => r matches Ok(l) && groups_views(l.groups@) == vs,
                None => r matches Err(e) && e == spec_envelope_error(j),
            },
    {
        proof {
            reveal_strlit("groups");
        }
        match parse_json(body) {
            None => Err(ResponseError::Malformed),
            Some(j) => {
                match &j {
                    Json::Obj(fs) => match crate::json::obj_find(fs, "groups") {
                        Some(v) => match v {
                            Json::Arr(items) => match groups_from_items(items) {
                                Some(gs) => Ok(ListGroups { groups: gs }),
                                None => Err(crate::client::envelope_error(&j)),
                            },
                            _ => Err(crate::client::envelope_error(&j)),
                        },
                        None => Err(crate::client::envelope_error(&j)),
                    },
                    _ => Err(crate::client::envelope_error(&j)),
                }
            },
        }
    }

    /// Decodes a single-group response, as the retrieve, create and delete
    /// operations receive it.
    pub fn retrieve_from_body(body: &str) -> (r: Result<RetrievedGroup, ResponseError>)
        ensures
            json_of(body@) is None ==> (r matches Err(e) && e is Malformed),
            json_of(body@) matches Some(j) ==> match retrieved_group_of(j) {
                Some(gv) => r matches Ok(g) && g.group@ == gv,
                None => r matches Err(e) && e == spec_envelope_error(j),
            },
    {
        proof {
            reveal_strlit("group");
        }
        match parse_json(body) {
            None => Err(ResponseError::Malformed),
            Some(j) => {
                match &j {
                    Json::Obj(fs) => match crate::json::obj_find(fs, "group") {
                        Some(gj) => match Group::from_json(gj) {
                            Some(g) => Ok(RetrievedGroup { group: g }),
                            None => Err(crate::client::envelope_error(&j)),
                        },
                        None => Err(crate::client::envelope_error(&j)),
                    },
                    _ => Err(crate::client::envelope_error(&j)),
                }
            },
        }
    }

    /// Decodes the transfer response: one bare group record.
    pub fn transfer_from_body(body: &str) -> (r: Result<Group, ResponseError>)
        ensures
            json_of(body@) is None ==> (r matches Err(e) && e is Malformed),
            json_of(body@) matches Some(j) ==> match group_of(j) {
                Some(gv) => r matches Ok(g) && g@ == gv,
                None => r matches Err(e) && e == spec_envelope_error(j),
            },
    {
        match parse_json(body) {
            None => Err(ResponseError::Malformed),
            Some(j) => match Group::from_json(&j) {
                Some(g) => Ok(g),
                None => Err(crate::client::envelope_error(&j)),
            },
        }
    }
}

/// Law: an empty group list response (`{"groups": []}`) decodes to the empty
/// collection, not an error.
pub proof fn lemma_empty_groups_decode(j: Json)
    requires
        j is Obj,
        obj_get(j->Obj_0@, "groups"@) matches Some(m) && m is Arr && m->Arr_0@.len() == 0,
    ensures
        groups_of(j) matches Some(vs) && vs.len() == 0,
{
}

/// Law: a body of the bare error shape (an object whose one field is a
/// string named `error`) matches no success shape of this module, and the
/// envelope carries exactly the server's message.
pub proof fn lemma_error_envelope_groups(j: Json)
    requires
        j is Obj,
        j->Obj_0@.len() == 1,
        j->Obj_0@[0].0@ == "error"@,
        j->Obj_0@[0].1 is Str,
    ensures
        groups_of(j) is None,
        retrieved_group_of(j) is None,
        group_of(j) is None,
        spec_envelope_error(j) == ResponseError::Api(
            (TursoError { error: j->Obj_0@[0].1->Str_0 }),
        ),
{
    reveal_strlit("error");
    reveal_strlit("groups");
    reveal_strlit("group");
    reveal_strlit("archived");
    let fs = j->Obj_0@;
    assert(obj_get(fs, "error"@) == Some(fs[0].1));
    assert(fs.drop_first().len() == 0);
    assert("groups"@.len() != "error"@.len());
    assert(obj_get(fs.drop_first(), "groups"@) is None);
    assert(obj_get(fs, "groups"@) is None);
    assert("group"@[0] != "error"@[0]);
    assert(obj_get(fs.drop_first(), "group"@) is None);
    assert(obj_get(fs, "group"@) is None);
    assert("archived"@.len() != "error"@.len());
    assert(obj_get(fs.drop_first(), "archived"@) is None);
    assert(obj_get(fs, "archived"@) is None);
}

} // verus!
