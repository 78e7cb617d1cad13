//! Organization and member records, their operations, and their decoders.

use vstd::prelude::*;

use crate::client::{
    spec_envelope_error, TursoError, HttpRequest, MembersPlatform, OrganizationsPlatform, ResponseError,
    TursoClient,
};
use crate::json::{bfield, json_of, obj_get, parse_json, sfield, str_eq, Json};

verus! {

/// One organization record.
#[derive(Debug)]
pub struct Organisation {
    pub blocked_reads: bool,
    pub blocked_writes: bool,
    pub name: String,
    pub overages: bool,
    pub slug: String,
    pub type_: String,
}

/// The abstract content of an [`Organisation`].
pub struct OrganisationV {
    pub blocked_reads: bool,
    pub blocked_writes: bool,
    pub name: Seq<char>,
    pub overages: bool,
    pub slug: Seq<char>,
    pub type_: Seq<char>,
}

impl View for Organisation {
    type V = OrganisationV;

    open spec fn view(&self) -> OrganisationV {
        OrganisationV {
            blocked_reads: self.blocked_reads,
            blocked_writes: self.blocked_writes,
            name: self.name@,
            overages: self.overages,
            slug: self.slug@,
            type_: self.type_@,
        }
    }
}

/// What an organization record decodes from: an object with all six fields
/// present, the booleans as booleans and the rest as strings (the wire name
/// of the last field is `type`).
pub open spec fn org_of(j: Json) -> Option<OrganisationV> {
    match j {
        Json::Obj(fs) => match (
            bfield(fs@, "blocked_reads"@),
            bfield(fs@, "blocked_writes"@),
            sfield(fs@, "name"@),
            bfield(fs@, "overages"@),
            sfield(fs@, "slug"@),
            sfield(fs@, "type"@),
        ) {
            (Some(br), Some(bw), Some(nm), Some(ov), Some(sl), Some(ty)) => Some(
                (OrganisationV {
                    blocked_reads: br,
                    blocked_writes: bw,
                    name: nm,
                    overages: ov,
                    slug: sl,
                    type_: ty,
                }),
            ),
            _ => None,
        },
        _ => None,
    }
}

impl Organisation {
    /// Decodes one organization record, exactly as [`org_of`] says.
    pub fn from_json(j: &Json) -> (r: Option<Organisation>)
        ensures
            r matches Some(o) ==> org_of(*j) == Some(o@),
            r is None ==> org_of(*j) is None,
    {
        proof {
            reveal_strlit("blocked_reads");
            reveal_strlit("blocked_writes");
            reveal_strlit("name");
            reveal_strlit("overages");
            reveal_strlit("slug");
            reveal_strlit("type");
        }
        match j {
            Json::Obj(fs) => {
                let br = crate::json::get_bool(fs, "blocked_reads");
                let bw = crate::json::get_bool(fs, "blocked_writes");
                let nm = crate::json::get_str(fs, "name");
                let ov = crate::json::get_bool(fs, "overages");
                let sl = crate::json::get_str(fs, "slug");
                let ty = crate::json::get_str(fs, "type");
                match (br, bw, nm, ov, sl, ty) {
                    (Some(br), Some(bw), Some(nm), Some(ov), Some(sl), Some(ty)) => Some(
                        Organisation {
                            blocked_reads: br,
                            blocked_writes: bw,
                            name: nm,
                            overages: ov,
                            slug: sl,
                            type_: ty,
                        },
                    ),
                    _ => None,
                }
            },
            _ => None,
        }
    }
}

/// The abstract content of a vector of organization records.
pub open spec fn orgs_views(v: Seq<Organisation>) -> Seq<OrganisationV> {
    Seq::new(v.len(), |i: int| v[i]@)
}

/// What a list of organization records decodes from: every element a record.
pub open spec fn arr_orgs(items: Seq<Json>) -> Option<Seq<OrganisationV>> {
    if forall|i: int| 0 <= i < items.len() ==> org_of(#[trigger] items[i]) is Some {
        Some(Seq::new(items.len(), |i: int| org_of(items[i]).unwrap()))
    } else {
        None
    }
}

/// The success shape of the organization list endpoint: a bare JSON array
/// of records.
pub open spec fn orgs_of(j: Json) -> Option<Seq<OrganisationV>> {
    match j {
        Json::Arr(items) => arr_orgs(items@),
        _ => None,
    }
}

fn orgs_from_items(items: &Vec<Json>) -> (r: Option<Vec<Organisation>>)
    ensures
        r matches Some(v) ==> arr_orgs(items@) == Some(orgs_views(v@)),
        r is None ==> arr_orgs(items@) is None,
{
    let n = items.len();
    let mut out: Vec<Organisation> = Vec::new();
    let mut i: usize = 0;
    while i < n
        invariant
            i <= n,
            n == items@.len(),
            out@.len() == i,
            forall|k: int| 0 <= k < i ==> org_of(#[trigger] items@[k]) is Some,
            forall|k: int| 0 <= k < i ==> org_of(items@[k]) == Some(#[trigger] out@[k]@),
        decreases n - i,
    {
        match Organisation::from_json(&items[i]) {
            Some(o) => {
                out.push(o);
            },
            None => {
                return None;
            },
        }
        i += 1;
    }
    proof {
        assert(orgs_views(out@) =~= Seq::new(items@.len(), |k: int| org_of(items@[k]).unwrap()));
    }
    Some(out)
}

/// The value `opt` holds, abstractly.
pub open spec fn opt_org_view(opt: Option<Organisation>) -> Option<OrganisationV> {
    match opt {
        Some(o) => Some(o@),
        None => None,
    }
}

/// The first record whose name is `name`, if any.
pub open spec fn find_org(s: Seq<OrganisationV>, name: Seq<char>) -> Option<OrganisationV>
    decreases s.len(),
{
    if s.len() == 0 {
        None
    } else if s[0].name == name {
        Some(s[0])
    } else {
        find_org(s.drop_first(), name)
    }
}

/// Organization operations.
impl TursoClient<OrganizationsPlatform> {
    /// The request that lists the organizations the token can see.
    pub fn list(&self) -> (r: HttpRequest)
        ensures
            r.method is Get,
            r.url@ == crate::client::base_url() + "organizations"@,
            r.bearer == self.token,
            r.body is None,
    {
        proof {
            reveal_strlit("organizations");
            reveal_strlit("https");
            assert("organizations"@[0] != "https"@[0]);
            assert("organizations"@.subrange(0, 5)[0] == "organizations"@[0]);
        }
        self.get("organizations")
    }

    /// The request behind a by-name lookup: the API offers no lookup
    /// endpoint, so the full list is fetched and scanned client-side.
    pub fn retrieve(&self, organization_name: &str) -> (r: HttpRequest)
        ensures
            r.method is Get,
            r.url@ == crate::client::base_url() + "organizations"@,
            r.bearer == self.token,
            r.body is None,
    {
        let _ = organization_name;
        self.list()
    }

    /// Decodes the list response: the records on the success shape, the
    /// server's message on the error shape, malformed otherwise.
    pub fn list_from_body(body: &str) -> (r: Result<Vec<Organisation>, ResponseError>)
        ensures
            json_of(body@) is None ==> r == Err::<Vec<Organisation>, ResponseError>(
                ResponseError::Malformed,
            ),
            json_of(body@) matches Some(j) ==> match orgs_of(j) {
                Some(vs) => r matches Ok(v) && orgs_views(v@) == vs,
                None => r matches Err(e) && e == spec_envelope_error(j),
            },
    {
        match parse_json(body) {
            None => Err(ResponseError::Malformed),
            Some(j) => {
                match &j {
                    Json::Arr(items) => match orgs_from_items(items) {
                        Some(v) => Ok(v),
                        None => Err(crate::client::envelope_error(&j)),
                    },
                    _ => Err(crate::client::envelope_error(&j)),
                }
            },
        }
    }

    /// Decodes the lookup: the matching record when the listed records hold
    /// one with that name, an explicit not-found (`Ok(None)`) when none
    /// matches — never an error in the not-found case.
    pub fn retrieve_from_body(body: &str, organization_name: &str) -> (r: Result<
        Option<Organisation>,
        ResponseError,
    >)
        ensures
            json_of(body@) is None ==> r == Err::<Option<Organisation>, ResponseError>(
                ResponseError::Malformed,
            ),
            json_of(body@) matches Some(j) ==> match orgs_of(j) {
                Some(vs) => r matches Ok(opt) && opt_org_view(opt) == find_org(
                    vs,
                    organization_name@,
                ),
                None => r matches Err(e) && e == spec_envelope_error(j),
            },
    {
        match Self::list_from_body(body) {
            Err(e) => Err(e),
            Ok(mut v) => {
                let ghost vs = orgs_views(v@);
                let n = v.len();
                let mut i: usize = 0;
                proof {
                    assert(vs.skip(0) =~= vs);
                }
                while i < n
                    invariant
                        i <= n,
                        n == v@.len(),
                        vs == orgs_views(v@),
                        json_of(body@) matches Some(j) && orgs_of(j) == Some(vs),
                        find_org(vs, organization_name@) == find_org(
                            vs.skip(i as int),
                            organization_name@,
                        ),
                    decreases n - i,
                {
                    proof {
                        assert(vs.skip(i as int)[0] == vs[i as int]);
                        assert(vs.skip(i as int).drop_first() =~= vs.skip(i + 1));
                    }
                    if str_eq(v[i].name.as_str(), organization_name) {
                        proof {
                            assert(vs[i as int] == v@[i as int]@);
                            assert(find_org(vs.skip(i as int), organization_name@) == Some(
                                vs[i as int],
                            ));
                        }
                        let o = v.remove(i);
                        proof {
                            assert(o@ == vs[i as int]);
                        }
                        return Ok(Some(o));
                    }
                    i += 1;
                }
                proof {
                    assert(vs.skip(n as int).len() == 0);
                }
                Ok(None)
            },
        }
    }
}

/// One member of an organization.
#[derive(Debug)]
pub struct Member {
    pub email: String,
    pub role: String,
    pub username: String,
}

/// The abstract content of a [`Member`].
pub struct MemberV {
    pub email: Seq<char>,
    pub role: Seq<char>,
    pub username: Seq<char>,
}

impl View for Member {
    type V = MemberV;

    open spec fn view(&self) -> MemberV {
        MemberV { email: self.email@, role: self.role@, username: self.username@ }
    }
}

/// The member list payload.
#[derive(Debug)]
pub struct Members {
    pub members: Vec<Member>,
}

/// The abstract content of a vector of member records.
pub open spec fn members_views(v: Seq<Member>) -> Seq<MemberV> {
    Seq::new(v.len(), |i: int| v[i]@)
}

/// What one member record decodes from.
pub open spec fn member_of(j: Json) -> Option<MemberV> {
    match j {
        Json::Obj(fs) => match (
            sfield(fs@, "email"@),
            sfield(fs@, "role"@),
            sfield(fs@, "username"@),
        ) {
            (Some(em), Some(ro), Some(us)) => Some(
                (MemberV { email: em, role: ro, username: us }),
            ),
            _ => None,
        },
        _ => None,
    }
}

/// What a list of member records decodes from.
pub open spec fn arr_members(items: Seq<Json>) -> Option<Seq<MemberV>> {
    if forall|i: int| 0 <= i < items.len() ==> member_of(#[trigger] items[i]) is Some {
        Some(Seq::new(items.len(), |i: int| member_of(items[i]).unwrap()))
    } else {
        None
    }
}

/// The success shape of the member list endpoint: `{"members": [...]}`.
pub open spec fn members_of(j: Json) -> Option<Seq<MemberV>> {
    match j {
        Json::Obj(fs) => match obj_get(fs@, "members"@) {
            Some(Json::Arr(items)) => arr_members(items@),
            _ => None,
        },
        _ => None,
    }
}

impl Member {
    /// Decodes one member record, exactly as [`member_of`] says.
    pub fn from_json(j: &Json) -> (r: Option<Member>)
        ensures
            r matches Some(m) ==> member_of(*j) == Some(m@),
            r is None ==> member_of(*j) is None,
    {
        proof {
            reveal_strlit("email");
            reveal_strlit("role");
            reveal_strlit("username");
        }
        match j {
            Json::Obj(fs) => {
                let em = crate::json::get_str(fs, "email");
                let ro = crate::json::get_str(fs, "role");
                let us = crate::json::get_str(fs, "username");
                match (em, ro, us) {
                    (Some(em), Some(ro), Some(us)) => Some(
                        Member { email: em, role: ro, username: us },
                    ),
                    _ => None,
                }
            },
            _ => None,
        }
    }
}

fn members_from_items(items: &Vec<Json>) -> (r: Option<Vec<Member>>)
    ensures
        r matches Some(v) ==> arr_members(items@) == Some(members_views(v@)),
        r is None ==> arr_members(items@) is None,
{
    let n = items.len();
    let mut out: Vec<Member> = Vec::new();
    let mut i: usize = 0;
    while i < n
        invariant
            i <= n,
            n == items@.len(),
            out@.len() == i,
            forall|k: int| 0 <= k < i ==> member_of(#[trigger] items@[k]) is Some,
            forall|k: int| 0 <= k < i ==> member_of(items@[k]) == Some(#[trigger] out@[k]@),
        decreases n - i,
    {
        match Member::from_json(&items[i]) {
            Some(m) => {
                out.push(m);
            },
            None => {
                return None;
            },
        }
        i += 1;
    }
    proof {
        assert(members_views(out@) =~= Seq::new(
            items@.len(),
            |k: int| member_of(items@[k]).unwrap(),
        ));
    }
    Some(out)
}

/// Member operations.
impl TursoClient<MembersPlatform> {
    /// The request that lists an organization's members.
    pub fn list(&self, name: &str) -> (r: HttpRequest)
        ensures
            r.method is Get,
            r.url@ == crate::client::base_url() + "organizations/"@ + name@ + "/members"@,
            r.bearer == self.token,
            r.body is None,
    {
        let mut path = String::from_str("organizations/");
        path.append(name);
        path.append("/members");
        proof {
            reveal_strlit("organizations/");
            reveal_strlit("https");
            assert(path@[0] == "organizations/"@[0]);
            if path@.len() >= 5 && path@.subrange(0, 5) == "https"@ {
                assert(path@.subrange(0, 5)[0] == path@[0]);
                assert(false);
            }
        }
        let r = self.get(path.as_str());
        proof {
            assert(crate::client::base_url() + ("organizations/"@ + name@ + "/members"@)
                =~= crate::client::base_url() + "organizations/"@ + name@ + "/members"@);
        }
        r
    }

    /// The request behind adding a member. The wire call is a GET against
    /// the member's URL; the vendor API documents a mutating call here, so
    /// confirm against it before relying on this operation.
    pub fn add(&self, name: &str, username: &str) -> (r: HttpRequest)
        ensures
            r.method is Get,
            r.url@ == crate::client::base_url() + "organizations/"@ + name@ + "/members/"@
                + username@,
            r.bearer == self.token,
            r.body is None,
    {
        let mut path = String::from_str("organizations/");
        path.append(name);
        path.append("/members/");
        path.append(username);
        proof {
            reveal_strlit("organizations/");
            reveal_strlit("https");
            assert(path@[0] == "organizations/"@[0]);
            if path@.len() >= 5 && path@.subrange(0, 5) == "https"@ {
                assert(path@.subrange(0, 5)[0] == path@[0]);
                assert(false);
            }
        }
        let r = self.get(path.as_str());
        proof {
            assert(crate::client::base_url() + (("organizations/"@ + name@ + "/members/"@)
                + username@) =~= crate::client::base_url() + "organizations/"@ + name@
                + "/members/"@ + username@);
        }
        r
    }

    /// Decodes the member list response.
    pub fn list_from_body(body: &str) -> (r: Result<Members, ResponseError>)
        ensures
            json_of(body@) is None ==> (r matches Err(e) && e is Malformed),
            json_of(body@) matches Some(j) ==> match members_of(j) {
                Some(vs) => r matches Ok(m) && members_views(m.members@) == vs,
                None => r matches Err(e) && e == spec_envelope_error(j),
            },
    {
        proof {
            reveal_strlit("members");
        }
        match parse_json(body) {
            None => Err(ResponseError::Malformed),
            Some(j) => {
                match &j {
                    Json::Obj(fs) => match crate::json::obj_find(fs, "members") {
                        Some(v) => match v {
                            Json::Arr(items) => match members_from_items(items) {
                                Some(ms) => Ok(Members { members: ms }),
                                None => Err(crate::client::envelope_error(&j)),
                            },
                            _ => Err(crate::client::envelope_error(&j)),
                        },
                        None => Err(crate::client::envelope_error(&j)),
                    },
                    _ => Err(crate::client::envelope_error(&j)),
                }
            },
        }
    }

    /// Decodes the add-member response: one member record.
    pub fn add_from_body(body: &str) -> (r: Result<Member, ResponseError>)
        ensures
            json_of(body@) is None ==> (r matches Err(e) && e is Malformed),
            json_of(body@) matches Some(j) ==> match member_of(j) {
                Some(mv) => r matches Ok(m) && m@ == mv,
                None => r matches Err(e) && e == spec_envelope_error(j),
            },
    {
        match parse_json(body) {
            None => Err(ResponseError::Malformed),
            Some(j) => match Member::from_json(&j) {
                Some(m) => Ok(m),
                None => Err(crate::client::envelope_error(&j)),
            },
        }
    }
}

/// Law: an empty organization list response (`[]`) decodes to the empty
/// collection, not an error.
pub proof fn lemma_empty_organizations_decode(j: Json)
    requires
        j is Arr,
        j->Arr_0@.len() == 0,
    ensures
        orgs_of(j) matches Some(vs) && vs.len() == 0,
{
}

/// Law: an empty member list response (`{"members": []}`) decodes to the
/// empty collection, not an error.
pub proof fn lemma_empty_members_decode(j: Json)
    requires
        j is Obj,
        obj_get(j->Obj_0@, "members"@) matches Some(m) && m is Arr && m->Arr_0@.len() == 0,
    ensures
        members_of(j) matches Some(vs) && vs.len() == 0,
{
}

/// Law: a body of the bare error shape (an object whose one field is a
/// string named `error`) matches no success shape of this module, and the
/// envelope carries exactly the server's message.
pub proof fn lemma_error_envelope_organizations(j: Json)
    requires
        j is Obj,
        j->Obj_0@.len() == 1,
        j->Obj_0@[0].0@ == "error"@,
        j->Obj_0@[0].1 is Str,
    ensures
        orgs_of(j) is None,
        members_of(j) is None,
        member_of(j) is None,
        spec_envelope_error(j) == ResponseError::Api(
            (TursoError { error: j->Obj_0@[0].1->Str_0 }),
        ),
{
    reveal_strlit("error");
    reveal_strlit("members");
    reveal_strlit("email");
    reveal_strlit("role");
    reveal_strlit("username");
    let fs = j->Obj_0@;
    assert(obj_get(fs, "error"@) == Some(fs[0].1));
    assert(fs.drop_first().len() == 0);
    assert("members"@.len() != "error"@.len());
    assert(obj_get(fs.drop_first(), "members"@) is None);
    assert(obj_get(fs, "members"@) is None);
    assert("email"@[1] != "error"@[1]);
    assert(obj_get(fs.drop_first(), "email"@) is None);
    assert(obj_get(fs, "email"@) is None);
}

/// Law: the lookup finds a record exactly when one of the listed records has
/// the name, the found record has that name, and it is one of the records.
pub proof fn lemma_find_org_correct(s: Seq<OrganisationV>, name: Seq<char>)
    ensures
        (exists|i: int| 0 <= i < s.len() && #[trigger] s[i].name == name) <==> find_org(s, name)
            is Some,
        find_org(s, name) matches Some(o) ==> (o.name == name && exists|i: int|
            0 <= i < s.len() && #[trigger] s[i] == o),
    decreases s.len(),
{
    if s.len() == 0 {
    } else if s[0].name == name {
        assert(s[0].name == name);
    } else {
        let t = s.drop_first();
        lemma_find_org_correct(t, name);
        assert forall|i: int| 0 <= i < s.len() && #[trigger] s[i].name == name implies find_org(
            s,
            name,
        ) is Some by {
            assert(t[i - 1] == s[i]);
            assert(t[i - 1].name == name);
        }
        if find_org(s, name) is Some {
            let o = find_org(s, name).unwrap();
            let k = choose|k: int| 0 <= k < t.len() && #[trigger] t[k] == o;
            assert(s[k + 1] == o);
        }
    }
}

} // verus!
