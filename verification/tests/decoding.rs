//! Response decoding: the untagged success-or-error envelope, empty lists,
//! full records, the client-side organization lookup, and malformed bodies.

use turso_client::{
    DatabaseInstancesPlatform, DatabasesPlatform, GroupsPlatform, LocationsPlatform,
    MembersPlatform, OrganizationsPlatform, ResponseError, TursoClient,
};

type Orgs = TursoClient<OrganizationsPlatform>;
type Dbs = TursoClient<DatabasesPlatform>;
type Insts = TursoClient<DatabaseInstancesPlatform>;
type Groups = TursoClient<GroupsPlatform>;
type Locs = TursoClient<LocationsPlatform>;
type Membs = TursoClient<MembersPlatform>;

fn api_error<T: std::fmt::Debug>(r: Result<T, ResponseError>) -> String {
    match r {
        Err(ResponseError::Api(e)) => e.error,
        other => panic!("expected a server error, got {other:?}"),
    }
}

const ORG: &str = "{\"blocked_reads\":false,\"blocked_writes\":false,\"name\":\"acme\",\"overages\":true,\"slug\":\"acme-inc\",\"type\":\"personal\"}";

#[test]
fn empty_organization_list_decodes() {
    let r = Orgs::list_from_body("[]").unwrap();
    assert!(r.is_empty());
}

#[test]
fn empty_keyed_lists_decode() {
    assert!(Dbs::list_from_body("{\"databases\":[]}").unwrap().databases.is_empty());
    assert!(Insts::list_from_body("{\"instances\":[]}").unwrap().instances.is_empty());
    assert!(Groups::list_from_body("{\"groups\":[]}").unwrap().groups.is_empty());
    assert!(Membs::list_from_body("{\"members\":[]}").unwrap().members.is_empty());
    assert!(Locs::list_from_body("{\"locations\":[]}").unwrap().locations.is_empty());
}

#[test]
fn error_shape_decodes_for_every_operation() {
    let body = "{\"error\":\"X\"}";
    assert_eq!(api_error(Orgs::list_from_body(body)), "X");
    assert_eq!(api_error(Orgs::retrieve_from_body(body, "acme")), "X");
    assert_eq!(api_error(Dbs::list_from_body(body)), "X");
    assert_eq!(api_error(Dbs::retrieve_from_body(body)), "X");
    assert_eq!(api_error(Dbs::delete_from_body(body)), "X");
    assert_eq!(api_error(Dbs::create_token_from_body(body)), "X");
    assert_eq!(api_error(Insts::list_from_body(body)), "X");
    assert_eq!(api_error(Insts::retrieve_from_body(body)), "X");
    assert_eq!(api_error(Groups::list_from_body(body)), "X");
    assert_eq!(api_error(Groups::retrieve_from_body(body)), "X");
    assert_eq!(api_error(Groups::transfer_from_body(body)), "X");
    assert_eq!(api_error(Locs::list_from_body(body)), "X");
    assert_eq!(api_error(Locs::closest_region_from_body(body)), "X");
    assert_eq!(api_error(Membs::list_from_body(body)), "X");
    assert_eq!(api_error(Membs::add_from_body(body)), "X");
}

#[test]
fn organization_retrieve_finds_match() {
    let body = format!("[{ORG}]");
    let found = Orgs::retrieve_from_body(&body, "acme").unwrap();
    let o = found.expect("record named acme is in the list");
    assert_eq!(o.name, "acme");
    assert_eq!(o.slug, "acme-inc");
    assert_eq!(o.type_, "personal");
    assert!(o.overages);
    assert!(!o.blocked_reads);
    assert!(!o.blocked_writes);
}

#[test]
fn organization_retrieve_not_found_is_ok_none() {
    let body = format!("[{ORG}]");
    let r = Orgs::retrieve_from_body(&body, "nope").unwrap();
    assert!(r.is_none());
    let r = Orgs::retrieve_from_body("[]", "acme").unwrap();
    assert!(r.is_none());
}

#[test]
fn organization_retrieve_returns_first_match() {
    let other = ORG.replace("acme-inc", "other-slug");
    let body = format!("[{ORG},{other}]");
    let o = Orgs::retrieve_from_body(&body, "acme").unwrap().unwrap();
    assert_eq!(o.slug, "acme-inc");
}

#[test]
fn database_record_decodes_with_defaults() {
    let body = "{\"database\":{\"DbId\":\"id1\",\"Hostname\":\"h.turso.io\",\"Name\":\"db1\"}}";
    let d = Dbs::retrieve_from_body(body).unwrap().database;
    assert_eq!(d.db_id, "id1");
    assert_eq!(d.hostname, "h.turso.io");
    assert_eq!(d.name, "db1");
    assert_eq!(d.group, "");
    assert_eq!(d.primary_region, "");
    assert!(d.regions.is_empty());
    assert_eq!(d.type_, "");
    assert_eq!(d.version, "");
}

#[test]
fn database_record_decodes_full() {
    let body = "{\"databases\":[{\"DbId\":\"id1\",\"Hostname\":\"h\",\"Name\":\"n\",\"group\":\"g\",\"primaryRegion\":\"fra\",\"regions\":[\"fra\",\"lhr\"],\"type\":\"logical\",\"version\":\"1.0\"}]}";
    let l = Dbs::list_from_body(body).unwrap();
    assert_eq!(l.databases.len(), 1);
    let d = &l.databases[0];
    assert_eq!(d.group, "g");
    assert_eq!(d.primary_region, "fra");
    assert_eq!(d.regions, vec!["fra".to_string(), "lhr".to_string()]);
    assert_eq!(d.type_, "logical");
    assert_eq!(d.version, "1.0");
}

#[test]
fn database_record_with_missing_required_field_is_malformed() {
    let body = "{\"database\":{\"Hostname\":\"h\",\"Name\":\"n\"}}";
    assert!(matches!(Dbs::retrieve_from_body(body), Err(ResponseError::Malformed)));
}

#[test]
fn delete_database_decodes_bare_string() {
    let r = Dbs::delete_from_body("\"db1\"").unwrap();
    assert_eq!(r, "db1");
}

#[test]
fn token_decodes() {
    let t = Dbs::create_token_from_body("{\"jwt\":\"abc.def\"}").unwrap();
    assert_eq!(t.jwt, "abc.def");
}

#[test]
fn instance_record_decodes() {
    let body = "{\"instance\":{\"hostname\":\"h\",\"name\":\"n\",\"region\":\"fra\",\"type\":\"primary\",\"uuid\":\"u-1\"}}";
    let i = Insts::retrieve_from_body(body).unwrap().instance;
    assert_eq!(i.hostname, "h");
    assert_eq!(i.name, "n");
    assert_eq!(i.region, "fra");
    assert_eq!(i.type_, "primary");
    assert_eq!(i.uuid, "u-1");
}

#[test]
fn group_record_decodes() {
    let body = "{\"group\":{\"archived\":false,\"locations\":[\"fra\",\"lhr\"],\"name\":\"default\",\"primary\":\"fra\",\"uuid\":\"u\"}}";
    let g = Groups::retrieve_from_body(body).unwrap().group;
    assert!(!g.archived);
    assert_eq!(g.locations, vec!["fra".to_string(), "lhr".to_string()]);
    assert_eq!(g.name, "default");
    assert_eq!(g.primary, "fra");
    assert_eq!(g.uuid, "u");
}

#[test]
fn transfer_decodes_bare_group() {
    let body = "{\"archived\":true,\"locations\":[],\"name\":\"g\",\"primary\":\"p\",\"uuid\":\"u\"}";
    let g = Groups::transfer_from_body(body).unwrap();
    assert!(g.archived);
    assert!(g.locations.is_empty());
}

#[test]
fn member_list_and_add_decode() {
    let body = "{\"members\":[{\"email\":\"a@b.c\",\"role\":\"owner\",\"username\":\"a\"}]}";
    let m = Membs::list_from_body(body).unwrap();
    assert_eq!(m.members.len(), 1);
    assert_eq!(m.members[0].email, "a@b.c");
    assert_eq!(m.members[0].role, "owner");
    assert_eq!(m.members[0].username, "a");
    let one = Membs::add_from_body("{\"email\":\"x@y.z\",\"role\":\"member\",\"username\":\"x\"}")
        .unwrap();
    assert_eq!(one.username, "x");
}

#[test]
fn locations_decode_as_pairs() {
    let body = "{\"locations\":[{\"fra\":\"Frankfurt\",\"lhr\":\"London\"}]}";
    let l = Locs::list_from_body(body).unwrap();
    assert_eq!(l.locations.len(), 1);
    assert_eq!(l.locations[0].len(), 2);
    assert!(l.locations[0].contains(&("fra".to_string(), "Frankfurt".to_string())));
    assert!(l.locations[0].contains(&("lhr".to_string(), "London".to_string())));
}

#[test]
fn closest_region_decodes() {
    let c = Locs::closest_region_from_body("{\"server\":\"fra\",\"client\":\"ams\"}").unwrap();
    assert_eq!(c.server, "fra");
    assert_eq!(c.client, "ams");
}

#[test]
fn malformed_bodies_are_reported_as_such() {
    assert!(matches!(Orgs::list_from_body("not json"), Err(ResponseError::Malformed)));
    assert!(matches!(Orgs::list_from_body("{\"weird\":1}"), Err(ResponseError::Malformed)));
    assert!(matches!(Dbs::list_from_body("42"), Err(ResponseError::Malformed)));
    assert!(matches!(
        Groups::list_from_body("{\"groups\":\"oops\"}"),
        Err(ResponseError::Malformed)
    ));
    assert!(matches!(Locs::closest_region_from_body(""), Err(ResponseError::Malformed)));
}

#[test]
fn escaped_strings_round_trip_through_the_parser() {
    // The decoder sees the server's escapes undone by the JSON parser.
    let body = "{\"error\":\"a \\\"quoted\\\" msg\\nline\"}";
    assert_eq!(api_error(Orgs::list_from_body(body)), "a \"quoted\" msg\nline");
}
