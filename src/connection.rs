//! The connection form: either a raw connection URL or the structured
//! fields of a database server.
use vstd::prelude::*;

verus! {

/// What the connection form describes.
#[derive(Debug)]
pub enum Connection {
    Url(String),
    Scheme(ConnectionScheme),
}

/// The structured fields of a connection.
#[derive(Debug)]
pub struct ConnectionScheme {
    pub platform: String,
    pub host: String,
    pub port: u16,
    pub database: String,
    pub user: String,
    pub password: String,
}

/// A database platform offered by the form: its identifier and its name.
#[derive(Debug)]
pub struct PlatformChoice {
    pub id: String,
    pub name: String,
}

/// The platforms the form offers, in order: postgres, mysql and sqlite.
pub open spec fn offered_platforms(choices: Seq<PlatformChoice>) -> bool {
    &&& choices.len() == 3
    &&& choices[0].id@ == "pg"@ && choices[0].name@ == "postgres"@
    &&& choices[1].id@ == "my"@ && choices[1].name@ == "mysql"@
    &&& choices[2].id@ == "sq"@ && choices[2].name@ == "sqlite"@
}

impl Connection {
    /// The form's initial value: the URL "postgres://postgre".
    pub fn new() -> (r: Connection)
        ensures
            r matches Connection::Url(u) && u@ == "postgres://postgre"@,
    {
        Connection::Url(String::from_str("postgres://postgre"))
    }

    /// The platforms that the structured form lets the user pick.
    pub fn platform_choices() -> (r: Vec<PlatformChoice>)
        ensures
            offered_platforms(r@),
    {
        let mut r: Vec<PlatformChoice> = Vec::new();
        r.push(PlatformChoice { id: String::from_str("pg"), name: String::from_str("postgres") });
        r.push(PlatformChoice { id: String::from_str("my"), name: String::from_str("mysql") });
        r.push(PlatformChoice { id: String::from_str("sq"), name: String::from_str("sqlite") });
        r
    }
}

} // verus!
