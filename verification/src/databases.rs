//! Database and database-instance records, their operations, their request
//! bodies, and their decoders.

use vstd::prelude::*;

use crate::client::{
    spec_envelope_error, DatabaseInstancesPlatform, DatabasesPlatform, HttpRequest, ResponseError,
    TursoClient, TursoError,
};
use crate::json::{
    json_escape, json_of, obj_get, parse_json, sarr_field_or_empty, seq_views, sfield,
    sfield_or_empty, Json,
};

verus! {

/// One database record. The wire carries `DbId`, `Hostname` and `Name`
/// capitalized and may omit the rest, which then read as empty.
#[derive(Debug)]
pub struct Database {
    pub db_id: String,
    pub hostname: String,
    pub name: String,
    pub group: String,
    pub primary_region: String,
    pub regions: Vec<String>,
    pub type_: String,
    pub version: String,
}

/// The abstract content of a [`Database`].
pub struct DatabaseV {
    pub db_id: Seq<char>,
    pub hostname: Seq<char>,
    pub name: Seq<char>,
    pub group: Seq<char>,
    pub primary_region: Seq<char>,
    pub regions: Seq<Seq<char>>,
    pub type_: Seq<char>,
    pub version: Seq<char>,
}

impl View for Database {
    type V = DatabaseV;

    open spec fn view(&self) -> DatabaseV {
        DatabaseV {
            db_id: self.db_id@,
            hostname: self.hostname@,
            name: self.name@,
            group: self.group@,
            primary_region: self.primary_region@,
            regions: seq_views(self.regions@),
            type_: self.type_@,
            version: self.version@,
        }
    }
}

/// What one database record decodes from: `DbId`, `Hostname` and `Name`
/// present as strings; `group`, `primaryRegion`, `regions`, `type` and
/// `version` may be absent and then read as empty.
pub open spec fn db_of(j: Json) -> Option<DatabaseV> {
    match j {
        Json::Obj(fs) => match (
            sfield(fs@, "DbId"@),
            sfield(fs@, "Hostname"@),
            sfield(fs@, "Name"@),
            sfield_or_empty(fs@, "group"@),
            sfield_or_empty(fs@, "primaryRegion"@),
            sarr_field_or_empty(fs@, "regions"@),
            sfield_or_empty(fs@, "type"@),
            sfield_or_empty(fs@, "version"@),
        ) {
            (
                Some(id),
                Some(ho),
                Some(nm),
                Some(gr),
                Some(pr),
                Some(re),
                Some(ty),
                Some(ve),
            ) => Some(
                (DatabaseV {
                    db_id: id,
                    hostname: ho,
                    name: nm,
                    group: gr,
                    primary_region: pr,
                    regions: re,
                    type_: ty,
                    version: ve,
                }),
            ),
            _ => None,
        },
        _ => None,
    }
}

impl Database {
    /// Decodes one database record, exactly as [`db_of`] says.
    pub fn from_json(j: &Json) -> (r: Option<Database>)
        ensures
            r matches Some(d) ==> db_of(*j) == Some(d@),
            r is None ==> db_of(*j) is None,
    {
        proof {
            reveal_strlit("DbId");
            reveal_strlit("Hostname");
            reveal_strlit("Name");
            reveal_strlit("group");
            reveal_strlit("primaryRegion");
            reveal_strlit("regions");
            reveal_strlit("type");
            reveal_strlit("version");
        }
        match j {
            Json::Obj(fs) => {
                let id = crate::json::get_str(fs, "DbId");
                let ho = crate::json::get_str(fs, "Hostname");
                let nm = crate::json::get_str(fs, "Name");
                let gr = crate::json::get_str_or_empty(fs, "group");
                let pr = crate::json::get_str_or_empty(fs, "primaryRegion");
                let re = crate::json::get_str_array_or_empty(fs, "regions");
                let ty = crate::json::get_str_or_empty(fs, "type");
                let ve = crate::json::get_str_or_empty(fs, "version");
                match (id, ho, nm, gr, pr, re, ty, ve) {
                    (
                        Some(id),
                        Some(ho),
                        Some(nm),
                        Some(gr),
                        Some(pr),
                        Some(re),
                        Some(ty),
                        Some(ve),
                    ) => Some(
                        Database {
                            db_id: id,
                            hostname: ho,
                            name: nm,
                            group: gr,
                            primary_region: pr,
                            regions: re,
                            type_: ty,
                            version: ve,
                        },
                    ),
                    _ => None,
                }
            },
            _ => None,
        }
    }
}

/// The database list payload.
#[derive(Debug)]
pub struct ListDatabases {
    pub databases: Vec<Database>,
}

/// The single-database payload, as the retrieve and create responses carry it.
#[derive(Debug)]
pub struct RetrievedDatabase {
    pub database: Database,
}

/// A named form of the delete payload; the delete operation itself
/// decodes a bare string.
#[derive(Debug)]
pub struct DeletededDatabase {
    pub database: String,
}

/// The abstract content of a vector of database records.
pub open spec fn dbs_views(v: Seq<Database>) -> Seq<DatabaseV> {
    Seq::new(v.len(), |i: int| v[i]@)
}

/// What a list of database records decodes from.
pub open spec fn arr_dbs(items: Seq<Json>) -> Option<Seq<DatabaseV>> {
    if forall|i: int| 0 <= i < items.len() ==> db_of(#[trigger] items[i]) is Some {
        Some(Seq::new(items.len(), |i: int| db_of(items[i]).unwrap()))
    } else {
        None
    }
}

/// The success shape of the database list endpoint: `{"databases": [...]}`.
pub open spec fn dbs_of(j: Json) -> Option<Seq<DatabaseV>> {
    match j {
        Json::Obj(fs) => match obj_get(fs@, "databases"@) {
            Some(Json::Arr(items)) => arr_dbs(items@),
            _ => None,
        },
        _ => None,
    }
}

/// The success shape of the single-database endpoints: `{"database": {...}}`.
pub open spec fn retrieved_db_of(j: Json) -> Option<DatabaseV> {
    match j {
        Json::Obj(fs) => match obj_get(fs@, "database"@) {
            Some(dj) => db_of(dj),
            _ => None,
        },
        _ => None,
    }
}

/// The success shape of the delete endpoint: a bare JSON string.
pub open spec fn deleted_db_of(j: Json) -> Option<Seq<char>> {
    match j {
        Json::Str(s) => Some(s@),
        _ => None,
    }
}

/// The success shape of the token endpoint: `{"jwt": "..."}`.
pub open spec fn token_of(j: Json) -> Option<Seq<char>> {
    match j {
        Json::Obj(fs) => sfield(fs@, "jwt"@),
        _ => None,
    }
}

fn dbs_from_items(items: &Vec<Json>) -> (r: Option<Vec<Database>>)
    ensures
        r matches Some(v) ==> arr_dbs(items@) == Some(dbs_views(v@)),
        r is None ==> arr_dbs(items@) is None,
{
    let n = items.len();
    let mut out: Vec<Database> = Vec::new();
    let mut i: usize = 0;
    while i < n
        invariant
            i <= n,
            n == items@.len(),
            out@.len() == i,
            forall|k: int| 0 <= k < i ==> db_of(#[trigger] items@[k]) is Some,
            forall|k: int| 0 <= k < i ==> db_of(items@[k]) == Some(#[trigger] out@[k]@),
        decreases n - i,
    {
        match Database::from_json(&items[i]) {
            Some(d) => {
                out.push(d);
            },
            None => {
                return None;
            },
        }
        i += 1;
    }
    proof {
        assert(dbs_views(out@) =~= Seq::new(items@.len(), |k: int| db_of(items@[k]).unwrap()));
    }
    Some(out)
}

/// The create-database request body.
#[derive(Debug)]
pub struct CreateDatabase {
    pub name: String,
    pub group: String,
}

/// The exact text of a create-database body: the `name` field first, then
/// `group`, both JSON-escaped.
pub open spec fn create_database_text(name: Seq<char>, group: Seq<char>) -> Seq<char> {
    "{\"name\":\""@ + json_escape(name) + "\",\"group\":\""@ + json_escape(group) + "\"}"@
}

impl CreateDatabase {
    /// A create-database body for the given name, placed in the given group.
    pub fn new(name: &str, group: &str) -> (r: Self)
        ensures
            r.name@ == name@,
            r.group@ == group@,
    {
        CreateDatabase { name: name.to_owned(), group: group.to_owned() }
    }

    /// Serializes the body: exactly `{"name":"...","group":"..."}`.
    pub fn body(&self) -> (r: String)
        ensures
            r@ == create_database_text(self.name@, self.group@),
    {
        let mut out = String::from_str("{\"name\":\"");
        crate::json::append_escaped(&mut out, self.name.as_str());
        out.append("\",\"group\":\"");
        crate::json::append_escaped(&mut out, self.group.as_str());
        out.append("\"}");
        proof {
            assert(out@ =~= create_database_text(self.name@, self.group@));
        }
        out
    }
}

/// The create-token request body.
#[derive(Debug)]
pub struct CreateDatabaseToken {
    pub expiration: String,
    pub authorization: String,
}

/// The exact text of a create-token body: `expiration` first, then
/// `authorization`, both JSON-escaped.
pub open spec fn create_token_text(expiration: Seq<char>, authorization: Seq<char>) -> Seq<char> {
    "{\"expiration\":\""@ + json_escape(expiration) + "\",\"authorization\":\""@ + json_escape(
        authorization,
    ) + "\"}"@
}

impl CreateDatabaseToken {
    /// A create-token body with the given expiration and access level.
    pub fn new(expiration: &str, authorization: &str) -> (r: Self)
        ensures
            r.expiration@ == expiration@,
            r.authorization@ == authorization@,
    {
        CreateDatabaseToken {
            expiration: expiration.to_owned(),
            authorization: authorization.to_owned(),
        }
    }

    /// Serializes the body: exactly `{"expiration":"...","authorization":"..."}`.
    pub fn body(&self) -> (r: String)
        ensures
            r@ == create_token_text(self.expiration@, self.authorization@),
    {
        let mut out = String::from_str("{\"expiration\":\"");
        crate::json::append_escaped(&mut out, self.expiration.as_str());
        out.append("\",\"authorization\":\"");
        crate::json::append_escaped(&mut out, self.authorization.as_str());
        out.append("\"}");
        proof {
            assert(out@ =~= create_token_text(self.expiration@, self.authorization@));
        }
        out
    }
}

/// The token payload.
#[derive(Debug)]
pub struct CreatedDatabaseToken {
    pub jwt: String,
}

/// Database operations.
impl TursoClient<DatabasesPlatform> {
    /// The request that lists an organization's databases.
    pub fn list(&self, organization_name: &str) -> (r: HttpRequest)
        ensures
            r.method is Get,
            r.url@ == crate::client::base_url() + "organizations/"@ + organization_name@
                + "/databases"@,
            r.bearer == self.token,
            r.body is None,
    {
        let mut path = String::from_str("organizations/");
        path.append(organization_name);
        path.append("/databases");
        proof {
            reveal_strlit("organizations/");
            reveal_strlit("https");
            assert(path@[0] == "organizations/"@[0]);
            if path@.len() >= 5 && path@.subrange(0, 5) == "https"@ {
                assert(path@.subrange(0, 5)[0] == path@[0]);
                assert(false);
            }
        }
        let r = self.get(path.as_str());
        proof {
            assert(crate::client::base_url() + ("organizations/"@ + organization_name@
                + "/databases"@) =~= crate::client::base_url() + "organizations/"@
                + organization_name@ + "/databases"@);
        }
        r
    }

    /// The request that retrieves one database by name.
    pub fn retrieve(&self, organization_name: &str, database_name: &str) -> (r: HttpRequest)
        ensures
            r.method is Get,
            r.url@ == crate::client::base_url() + "organizations/"@ + organization_name@
                + "/databases/"@ + database_name@,
            r.bearer == self.token,
            r.body is None,
    {
        let mut path = String::from_str("organizations/");
        path.append(organization_name);
        path.append("/databases/");
        path.append(database_name);
        proof {
            reveal_strlit("organizations/");
            reveal_strlit("https");
            assert(path@[0] == "organizations/"@[0]);
            if path@.len() >= 5 && path@.subrange(0, 5) == "https"@ {
                assert(path@.subrange(0, 5)[0] == path@[0]);
                assert(false);
            }
        }
        let r = self.get(path.as_str());
        proof {
            assert(crate::client::base_url() + (("organizations/"@ + organization_name@
                + "/databases/"@) + database_name@) =~= crate::client::base_url()
                + "organizations/"@ + organization_name@ + "/databases/"@ + database_name@);
        }
        r
    }

    /// The request that creates a database named `name` in `group`.
    pub fn create(&self, organization_name: &str, name: &str, group: &str) -> (r: HttpRequest)
        ensures
            r.method is Post,
            r.url@ == crate::client::base_url() + "organizations/"@ + organization_name@
                + "/databases"@,
            r.bearer == self.token,
            r.body matches Some(b) && b@ == create_database_text(name@, group@),
    {
        let mut path = String::from_str("organizations/");
        path.append(organization_name);
        path.append("/databases");
        let r = self.post(path.as_str(), CreateDatabase::new(name, group).body());
        proof {
            assert(crate::client::base_url() + ("organizations/"@ + organization_name@
                + "/databases"@) =~= crate::client::base_url() + "organizations/"@
                + organization_name@ + "/databases"@);
        }
        r
    }

    /// The request that deletes one database by name.
    pub fn delete(&self, organization_name: &str, database_name: &str) -> (r: HttpRequest)
        ensures
            r.method is Delete,
            r.url@ == crate::client::base_url() + "organizations/"@ + organization_name@
                + "/databases/"@ + database_name@,
            r.bearer == self.token,
            r.body is None,
    {
        let mut path = String::from_str("organizations/");
        path.append(organization_name);
        path.append("/databases/");
        path.append(database_name);
        let r = self.delete_(path.as_str());
        proof {
            assert(crate::client::base_url() + (("organizations/"@ + organization_name@
                + "/databases/"@) + database_name@) =~= crate::client::base_url()
                + "organizations/"@ + organization_name@ + "/databases/"@ + database_name@);
        }
        r
    }

    /// The request that creates an access token for one database.
    pub fn create_token(
        &self,
        organization_name: &str,
        database_name: &str,
        authorization: &str,
        expiration: &str,
    ) -> (r: HttpRequest)
        ensures
            r.method is Post,
            r.url@ == crate::client::base_url() + "organizations/"@ + organization_name@
                + "/databases/"@ + database_name@ + "/auth/tokens"@,
            r.bearer == self.token,
            r.body matches Some(b) && b@ == create_token_text(expiration@, authorization@),
    {
        let mut path = String::from_str("organizations/");
        path.append(organization_name);
        path.append("/databases/");
        path.append(database_name);
        path.append("/auth/tokens");
        let r = self.post(path.as_str(), CreateDatabaseToken::new(expiration, authorization).body());
        proof {
            assert(crate::client::base_url() + ((("organizations/"@ + organization_name@
                + "/databases/"@) + database_name@) + "/auth/tokens"@)
                =~= crate::client::base_url() + "organizations/"@ + organization_name@
                + "/databases/"@ + database_name@ + "/auth/tokens"@);
        }
        r
    }

    /// Decodes the database list response.
    pub fn list_from_body(body: &str) -> (r: Result<ListDatabases, ResponseError>)
        ensures
            json_of(body@) is None ==> (r matches Err(e) && e is Malformed),
            json_of(body@) matches Some(j) ==> match dbs_of(j) {
                Some(vs) => r matches Ok(l) && dbs_views(l.databases@) == vs,
                None => r matches Err(e) && e == spec_envelope_error(j),
            },
    {
        proof {
            reveal_strlit("databases");
        }
        match parse_json(body) {
            None => Err(ResponseError::Malformed),
            Some(j) => {
                match &j {
                    Json::Obj(fs) => match crate::json::obj_find(fs, "databases") {
                        Some(v) => match v {
                            Json::Arr(items) => match dbs_from_items(items) {
                                Some(ds) => Ok(ListDatabases { databases: ds }),
                                None => Err(crate::client::envelope_error(&j)),
                            },
                            _ => Err(crate::client::envelope_error(&j)),
                        },
                        None => Err(crate::client::envelope_error(&j)),
                    },
                    _ => Err(crate::client::envelope_error(&j)),
                }
            },
        }
    }

    /// Decodes a single-database response, as the retrieve and create
    /// operations receive it.
    pub fn retrieve_from_body(body: &str) -> (r: Result<RetrievedDatabase, ResponseError>)
        ensures
            json_of(body@) is None ==> (r matches Err(e) && e is Malformed),
            json_of(body@) matches Some(j) ==> match retrieved_db_of(j) {
                Some(dv) => r matches Ok(d) && d.database@ == dv,
                None => r matches Err(e) && e == spec_envelope_error(j),
            },
    {
        proof {
            reveal_strlit("database");
        }
        match parse_json(body) {
            None => Err(ResponseError::Malformed),
            Some(j) => {
                match &j {
                    Json::Obj(fs) => match crate::json::obj_find(fs, "database") {
                        Some(dj) => match Database::from_json(dj) {
                            Some(d) => Ok(RetrievedDatabase { database: d }),
                            None => Err(crate::client::envelope_error(&j)),
                        },
                        None => Err(crate::client::envelope_error(&j)),
                    },
                    _ => Err(crate::client::envelope_error(&j)),
                }
            },
        }
    }

    /// Decodes the delete response: a bare string naming the database.
    pub fn delete_from_body(body: &str) -> (r: Result<String, ResponseError>)
        ensures
            json_of(body@) is None ==> (r matches Err(e) && e is Malformed),
            json_of(body@) matches Some(j) ==> match deleted_db_of(j) {
                Some(sv) => r matches Ok(s) && s@ == sv,
                None => r matches Err(e) && e == spec_envelope_error(j),
            },
    {
        match parse_json(body) {
            None => Err(ResponseError::Malformed),
            Some(j) => match &j {
                Json::Str(s) => Ok(s.clone()),
                _ => Err(crate::client::envelope_error(&j)),
            },
        }
    }

    /// Decodes the create-token response.
    pub fn create_token_from_body(body: &str) -> (r: Result<CreatedDatabaseToken, ResponseError>)
        ensures
            json_of(body@) is None ==> (r matches Err(e) && e is Malformed),
            json_of(body@) matches Some(j) ==> match token_of(j) {
                Some(tv) => r matches Ok(t) && t.jwt@ == tv,
                None => r matches Err(e) && e == spec_envelope_error(j),
            },
    {
        proof {
            reveal_strlit("jwt");
        }
        match parse_json(body) {
            None => Err(ResponseError::Malformed),
            Some(j) => match &j {
                Json::Obj(fs) => match crate::json::get_str(fs, "jwt") {
                    Some(s) => Ok(CreatedDatabaseToken { jwt: s }),
                    None => Err(crate::client::envelope_error(&j)),
                },
                _ => Err(crate::client::envelope_error(&j)),
            },
        }
    }
}

/// One running instance of a database.
#[derive(Debug)]
pub struct DatabaseInstance {
    pub hostname: String,
    pub name: String,
    pub region: String,
    pub type_: String,
    pub uuid: String,
}

/// The abstract content of a [`DatabaseInstance`].
pub struct DatabaseInstanceV {
    pub hostname: Seq<char>,
    pub name: Seq<char>,
    pub region: Seq<char>,
    pub type_: Seq<char>,
    pub uuid: Seq<char>,
}

impl View for DatabaseInstance {
    type V = DatabaseInstanceV;

    open spec fn view(&self) -> DatabaseInstanceV {
        DatabaseInstanceV {
            hostname: self.hostname@,
            name: self.name@,
            region: self.region@,
            type_: self.type_@,
            uuid: self.uuid@,
        }
    }
}

/// The instance list payload.
#[derive(Debug)]
pub struct ListDatabaseInstance {
    pub instances: Vec<DatabaseInstance>,
}

/// The single-instance payload.
#[derive(Debug)]
pub struct RetrieveDatabaseInstance {
    pub instance: DatabaseInstance,
}

/// What one instance record decodes from: all five fields present as
/// strings (the wire name of the fourth is `type`).
pub open spec fn instance_of(j: Json) -> Option<DatabaseInstanceV> {
    match j {
        Json::Obj(fs) => match (
            sfield(fs@, "hostname"@),
            sfield(fs@, "name"@),
            sfield(fs@, "region"@),
            sfield(fs@, "type"@),
            sfield(fs@, "uuid"@),
        ) {
            (Some(ho), Some(nm), Some(re), Some(ty), Some(uu)) => Some(
                (DatabaseInstanceV { hostname: ho, name: nm, region: re, type_: ty, uuid: uu }),
            ),
            _ => None,
        },
        _ => None,
    }
}

/// The abstract content of a vector of instance records.
pub open spec fn instances_views(v: Seq<DatabaseInstance>) -> Seq<DatabaseInstanceV> {
    Seq::new(v.len(), |i: int| v[i]@)
}

/// What a list of instance records decodes from.
pub open spec fn arr_instances(items: Seq<Json>) -> Option<Seq<DatabaseInstanceV>> {
    if forall|i: int| 0 <= i < items.len() ==> instance_of(#[trigger] items[i]) is Some {
        Some(Seq::new(items.len(), |i: int| instance_of(items[i]).unwrap()))
    } else {
        None
    }
}

/// The success shape of the instance list endpoint: `{"instances": [...]}`.
pub open spec fn instances_of(j: Json) -> Option<Seq<DatabaseInstanceV>> {
    match j {
        Json::Obj(fs) => match obj_get(fs@, "instances"@) {
            Some(Json::Arr(items)) => arr_instances(items@),
            _ => None,
        },
        _ => None,
    }
}

/// The success shape of the single-instance endpoint: `{"instance": {...}}`.
pub open spec fn retrieved_instance_of(j: Json) -> Option<DatabaseInstanceV> {
    match j {
        Json::Obj(fs) => match obj_get(fs@, "instance"@) {
            Some(ij) => instance_of(ij),
            _ => None,
        },
        _ => None,
    }
}

impl DatabaseInstance {
    /// Decodes one instance record, exactly as [`instance_of`] says.
    pub fn from_json(j: &Json) -> (r: Option<DatabaseInstance>)
        ensures
            r matches Some(d) ==> instance_of(*j) == Some(d@),
            r is None ==> instance_of(*j) is None,
    {
        proof {
            reveal_strlit("hostname");
            reveal_strlit("name");
            reveal_strlit("region");
            reveal_strlit("type");
            reveal_strlit("uuid");
        }
        match j {
            Json::Obj(fs) => {
                let ho = crate::json::get_str(fs, "hostname");
                let nm = crate::json::get_str(fs, "name");
                let re = crate::json::get_str(fs, "region");
                let ty = crate::json::get_str(fs, "type");
                let uu = crate::json::get_str(fs, "uuid");
                match (ho, nm, re, ty, uu) {
                    (Some(ho), Some(nm), Some(re), Some(ty), Some(uu)) => Some(
                        DatabaseInstance { hostname: ho, name: nm, region: re, type_: ty, uuid: uu },
                    ),
                    _ => None,
                }
            },
            _ => None,
        }
    }
}

fn instances_from_items(items: &Vec<Json>) -> (r: Option<Vec<DatabaseInstance>>)
    ensures
        r matches Some(v) ==> arr_instances(items@) == Some(instances_views(v@)),
        r is None ==> arr_instances(items@) is None,
{
    let n = items.len();
    let mut out: Vec<DatabaseInstance> = Vec::new();
    let mut i: usize = 0;
    while i < n
        invariant
            i <= n,
            n == items@.len(),
            out@.len() == i,
            forall|k: int| 0 <= k < i ==> instance_of(#[trigger] items@[k]) is Some,
            forall|k: int| 0 <= k < i ==> instance_of(items@[k]) == Some(#[trigger] out@[k]@),
        decreases n - i,
    {
        match DatabaseInstance::from_json(&items[i]) {
            Some(d) => {
                out.push(d);
            },
            None => {
                return None;
            },
        }
        i += 1;
    }
    proof {
        assert(instances_views(out@) =~= Seq::new(
            items@.len(),
            |k: int| instance_of(items@[k]).unwrap(),
        ));
    }
    Some(out)
}

/// Database-instance operations.
impl TursoClient<DatabaseInstancesPlatform> {
    /// The request that lists one database's instances.
    pub fn list(&self, organization_name: &str, database_name: &str) -> (r: HttpRequest)
        ensures
            r.method is Get,
            r.url@ == crate::client::base_url() + "organizations/"@ + organization_name@
                + "/databases/"@ + database_name@ + "/instances"@,
            r.bearer == self.token,
            r.body is None,
    {
        let mut path = String::from_str("organizations/");
        path.append(organization_name);
        path.append("/databases/");
        path.append(database_name);
        path.append("/instances");
        proof {
            reveal_strlit("organizations/");
            reveal_strlit("https");
            assert(path@[0] == "organizations/"@[0]);
            if path@.len() >= 5 && path@.subrange(0, 5) == "https"@ {
                assert(path@.subrange(0, 5)[0] == path@[0]);
                assert(false);
            }
        }
        let r = self.get(path.as_str());
        proof {
            assert(crate::client::base_url() + ((("organizations/"@ + organization_name@
                + "/databases/"@) + database_name@) + "/instances"@)
                =~= crate::client::base_url() + "organizations/"@ + organization_name@
                + "/databases/"@ + database_name@ + "/instances"@);
        }
        r
    }

    /// The request that retrieves one instance by name.
    pub fn retrieve(
        &self,
        organization_name: &str,
        database_name: &str,
        instance_name: &str,
    ) -> (r: HttpRequest)
        ensures
            r.method is Get,
            r.url@ == crate::client::base_url() + "organizations/"@ + organization_name@
                + "/databases/"@ + database_name@ + "/instances/"@ + instance_name@,
            r.bearer == self.token,
            r.body is None,
    {
        let mut path = String::from_str("organizations/");
        path.append(organization_name);
        path.append("/databases/");
        path.append(database_name);
        path.append("/instances/");
        path.append(instance_name);
        proof {
            reveal_strlit("organizations/");
            reveal_strlit("https");
            assert(path@[0] == "organizations/"@[0]);
            if path@.len() >= 5 && path@.subrange(0, 5) == "https"@ {
                assert(path@.subrange(0, 5)[0] == path@[0]);
                assert(false);
            }
        }
        let r = self.get(path.as_str());
        proof {
            assert(crate::client::base_url() + (((("organizations/"@ + organization_name@
                + "/databases/"@) + database_name@) + "/instances/"@) + instance_name@)
                =~= crate::client::base_url() + "organizations/"@ + organization_name@
                + "/databases/"@ + database_name@ + "/instances/"@ + instance_name@);
        }
        r
    }

    /// Decodes the instance list response.
    pub fn list_from_body(body: &str) -> (r: Result<ListDatabaseInstance, ResponseError>)
        ensures
            json_of(body@) is None ==> (r matches Err(e) && e is Malformed),
            json_of(body@) matches Some(j) ==> match instances_of(j) {
                Some(vs) => r matches Ok(l) && instances_views(l.instances@) == vs,
                None => r matches Err(e) && e == spec_envelope_error(j),
            },
    {
        proof {
            reveal_strlit("instances");
        }
        match parse_json(body) {
            None => Err(ResponseError::Malformed),
            Some(j) => {
                match &j {
                    Json::Obj(fs) => match crate::json::obj_find(fs, "instances") {
                        Some(v) => match v {
                            Json::Arr(items) => match instances_from_items(items) {
                                Some(is_) => Ok(ListDatabaseInstance { instances: is_ }),
                                None => Err(crate::client::envelope_error(&j)),
                            },
                            _ => Err(crate::client::envelope_error(&j)),
                        },
                        None => Err(crate::client::envelope_error(&j)),
                    },
                    _ => Err(crate::client::envelope_error(&j)),
                }
            },
        }
    }

    /// Decodes the single-instance response.
    pub fn retrieve_from_body(body: &str) -> (r: Result<RetrieveDatabaseInstance, ResponseError>)
        ensures
            json_of(body@) is None ==> (r matches Err(e) && e is Malformed),
            json_of(body@) matches Some(j) ==> match retrieved_instance_of(j) {
                Some(iv) => r matches Ok(ri) && ri.instance@ == iv,
                None => r matches Err(e) && e == spec_envelope_error(j),
            },
    {
        proof {
            reveal_strlit("instance");
        }
        match parse_json(body) {
            None => Err(ResponseError::Malformed),
            Some(j) => {
                match &j {
                    Json::Obj(fs) => match crate::json::obj_find(fs, "instance") {
                        Some(ij) => match DatabaseInstance::from_json(ij) {
                            Some(inst) => Ok(RetrieveDatabaseInstance { instance: inst }),
                            None => Err(crate::client::envelope_error(&j)),
                        },
                        None => Err(crate::client::envelope_error(&j)),
                    },
                    _ => Err(crate::client::envelope_error(&j)),
                }
            },
        }
    }
}

/// Law: an empty database list response (`{"databases": []}`) decodes to the
/// empty collection, not an error.
pub proof fn lemma_empty_databases_decode(j: Json)
    requires
        j is Obj,
        obj_get(j->Obj_0@, "databases"@) matches Some(m) && m is Arr && m->Arr_0@.len() == 0,
    ensures
        dbs_of(j) matches Some(vs) && vs.len() == 0,
{
}

/// Law: an empty instance list response (`{"instances": []}`) decodes to the
/// empty collection, not an error.
pub proof fn lemma_empty_instances_decode(j: Json)
    requires
        j is Obj,
        obj_get(j->Obj_0@, "instances"@) matches Some(m) && m is Arr && m->Arr_0@.len() == 0,
    ensures
        instances_of(j) matches Some(vs) && vs.len() == 0,
{
}

/// Law: a body of the bare error shape (an object whose one field is a
/// string named `error`) matches no success shape of this module, and the
/// envelope carries exactly the server's message.
pub proof fn lemma_error_envelope_databases(j: Json)
    requires
        j is Obj,
        j->Obj_0@.len() == 1,
        j->Obj_0@[0].0@ == "error"@,
        j->Obj_0@[0].1 is Str,
    ensures
        dbs_of(j) is None,
        retrieved_db_of(j) is None,
        deleted_db_of(j) is None,
        token_of(j) is None,
        instances_of(j) is None,
        retrieved_instance_of(j) is None,
        db_of(j) is None,
        instance_of(j) is None,
        spec_envelope_error(j) == ResponseError::Api(
            (TursoError { error: j->Obj_0@[0].1->Str_0 }),
        ),
{
    reveal_strlit("error");
    reveal_strlit("databases");
    reveal_strlit("database");
    reveal_strlit("jwt");
    reveal_strlit("instances");
    reveal_strlit("instance");
    reveal_strlit("DbId");
    reveal_strlit("hostname");
    let fs = j->Obj_0@;
    assert(obj_get(fs, "error"@) == Some(fs[0].1));
    assert(fs.drop_first().len() == 0);
    assert("databases"@.len() != "error"@.len());
    assert(obj_get(fs.drop_first(), "databases"@) is None);
    assert(obj_get(fs, "databases"@) is None);
    assert("database"@.len() != "error"@.len());
    assert(obj_get(fs.drop_first(), "database"@) is None);
    assert(obj_get(fs, "database"@) is None);
    assert("jwt"@.len() != "error"@.len());
    assert(obj_get(fs.drop_first(), "jwt"@) is None);
    assert(obj_get(fs, "jwt"@) is None);
    assert("instances"@.len() != "error"@.len());
    assert(obj_get(fs.drop_first(), "instances"@) is None);
    assert(obj_get(fs, "instances"@) is None);
    assert("instance"@.len() != "error"@.len());
    assert(obj_get(fs.drop_first(), "instance"@) is None);
    assert(obj_get(fs, "instance"@) is None);
    assert("DbId"@.len() != "error"@.len());
    assert(obj_get(fs.drop_first(), "DbId"@) is None);
    assert(obj_get(fs, "DbId"@) is None);
    assert("hostname"@.len() != "error"@.len());
    assert(obj_get(fs.drop_first(), "hostname"@) is None);
    assert(obj_get(fs, "hostname"@) is None);
}

} // verus!
