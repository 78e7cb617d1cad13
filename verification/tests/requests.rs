//! Request building: URL dispatch, paths, methods, bodies.

use turso_client::{
    Authorization, DatabaseInstancesPlatform, DatabasesPlatform, GroupsPlatform, LocationsPlatform,
    MembersPlatform, Method, OrganizationsPlatform, TursoClient,
};

#[test]
fn organizations_list_hits_base_origin() {
    let c: TursoClient<OrganizationsPlatform> = TursoClient::new("tok".to_string()).organizations();
    let r = c.list();
    assert!(matches!(r.method, Method::Get));
    assert_eq!(r.url, "https://api.turso.tech/v1/organizations");
    assert_eq!(r.bearer, "tok");
    assert!(r.body.is_none());
}

#[test]
fn organizations_retrieve_uses_list_request() {
    let c = TursoClient::new("tok".to_string()).organizations();
    let r = c.retrieve("acme");
    assert_eq!(r.url, "https://api.turso.tech/v1/organizations");
}

#[test]
fn closest_region_hits_alternate_host() {
    let c: TursoClient<LocationsPlatform> = TursoClient::new("tok".to_string()).locations();
    let r = c.closest_region();
    assert_eq!(r.url, "https://region.turso.io");
    assert!(matches!(r.method, Method::Get));
}

#[test]
fn locations_list_hits_base_origin() {
    let c = TursoClient::new("tok".to_string()).locations();
    let r = c.list();
    assert_eq!(r.url, "https://api.turso.tech/v1/locations");
}

#[test]
fn databases_paths() {
    let c: TursoClient<DatabasesPlatform> = TursoClient::new("t".to_string()).databases();
    assert_eq!(c.list("org").url, "https://api.turso.tech/v1/organizations/org/databases");
    assert_eq!(
        c.retrieve("org", "db").url,
        "https://api.turso.tech/v1/organizations/org/databases/db"
    );
    let cr = c.create("org", "db", "grp");
    assert!(matches!(cr.method, Method::Post));
    assert_eq!(cr.url, "https://api.turso.tech/v1/organizations/org/databases");
    assert_eq!(cr.body.as_deref(), Some("{\"name\":\"db\",\"group\":\"grp\"}"));
    let de = c.delete("org", "db");
    assert!(matches!(de.method, Method::Delete));
    assert_eq!(de.url, "https://api.turso.tech/v1/organizations/org/databases/db");
    let tk = c.create_token("org", "db", "full-access", "2w");
    assert_eq!(
        tk.url,
        "https://api.turso.tech/v1/organizations/org/databases/db/auth/tokens"
    );
    assert_eq!(
        tk.body.as_deref(),
        Some("{\"expiration\":\"2w\",\"authorization\":\"full-access\"}")
    );
}

#[test]
fn instance_paths() {
    let c: TursoClient<DatabaseInstancesPlatform> =
        TursoClient::new("t".to_string()).database_instances();
    assert_eq!(
        c.list("org", "db").url,
        "https://api.turso.tech/v1/organizations/org/databases/db/instances"
    );
    assert_eq!(
        c.retrieve("org", "db", "inst").url,
        "https://api.turso.tech/v1/organizations/org/databases/db/instances/inst"
    );
}

#[test]
fn group_paths() {
    let c: TursoClient<GroupsPlatform> = TursoClient::new("t".to_string()).groups();
    assert_eq!(c.list("org").url, "https://api.turso.tech/v1/organizations/org/groups");
    assert_eq!(
        c.retrieve("org", "g").url,
        "https://api.turso.tech/v1/organizations/org/groups/g"
    );
    let cr = c.create("org", "g", "fra");
    assert_eq!(cr.body.as_deref(), Some("{\"name\":\"g\",\"location\":\"fra\"}"));
    let tr = c.transfer("org", "unused", "unused", "g");
    assert!(matches!(tr.method, Method::Post));
    assert_eq!(tr.url, "https://api.turso.tech/v1/organizations/org/groups/g/transfer");
    assert_eq!(tr.body.as_deref(), Some("{\"organization\":\"org\"}"));
    let de = c.delete("org", "g");
    assert!(matches!(de.method, Method::Delete));
    assert_eq!(de.url, "https://api.turso.tech/v1/organizations/org/groups/g");
}

#[test]
fn member_paths() {
    let c: TursoClient<MembersPlatform> = TursoClient::new("t".to_string()).members();
    assert_eq!(c.list("org").url, "https://api.turso.tech/v1/organizations/org/members");
    let add = c.add("org", "user");
    assert!(matches!(add.method, Method::Get));
    assert_eq!(add.url, "https://api.turso.tech/v1/organizations/org/members/user");
}

#[test]
fn scope_switch_carries_token_and_consumes_view() {
    // Each switch takes the client by value: the old view is moved away and
    // the new one exposes only its own resource's operations.
    let c = TursoClient::new("secret".to_string());
    let orgs = c.organizations();
    let r = orgs.list();
    assert_eq!(r.bearer, "secret");
    let dbs = orgs.databases();
    let r = dbs.list("o");
    assert_eq!(r.bearer, "secret");
    let groups = dbs.groups();
    assert_eq!(groups.list("o").bearer, "secret");
    let members = groups.members();
    assert_eq!(members.list("o").bearer, "secret");
    let insts = members.database_instances();
    assert_eq!(insts.list("o", "d").bearer, "secret");
    let locs = insts.locations();
    assert_eq!(locs.list().bearer, "secret");
}

#[test]
fn create_database_body_is_exact() {
    let b = turso_client::databases::CreateDatabase::new("n", "g").body();
    assert_eq!(b, "{\"name\":\"n\",\"group\":\"g\"}");
}

#[test]
fn bodies_escape_special_characters() {
    let b = turso_client::databases::CreateDatabase::new("a\"b\\c", "g\nh").body();
    assert_eq!(b, "{\"name\":\"a\\\"b\\\\c\",\"group\":\"g\\nh\"}");
    let b = turso_client::groups::CreateGroup::new("x\ty", "\u{1}").body();
    assert_eq!(b, "{\"name\":\"x\\ty\",\"location\":\"\\u0001\"}");
}

#[test]
fn token_body_field_order() {
    let b = turso_client::databases::CreateDatabaseToken::new("1d", "read-only").body();
    assert_eq!(b, "{\"expiration\":\"1d\",\"authorization\":\"read-only\"}");
}

#[test]
fn authorization_labels() {
    assert_eq!(Authorization::FullAccess.as_str(), "full-access");
    assert_eq!(Authorization::ReadOnly.as_str(), "read-only");
    assert!(matches!(
        Authorization::from_str("full-access"),
        Some(Authorization::FullAccess)
    ));
    assert!(matches!(Authorization::from_str("read-only"), Some(Authorization::ReadOnly)));
    assert!(Authorization::from_str("admin").is_none());
}
