use vstd::prelude::*;
use vstd::string::StringExecFns;

verus! {

/// Where the service writes its log files.
pub struct Logging {
    pub folder_path: String,
}

/// How to reach the database that holds the blacklists.
pub struct Database {
    pub host: String,
    pub port: String,
    pub user: String,
    pub password: String,
    pub database_name: String,
}

/// Everything the service reads at startup.
pub struct Settings {
    pub database: Database,
    pub logging: Logging,
}

/// The key/value connection string for the given database fields.
pub open spec fn connection_spec(
    host: Seq<char>,
    user: Seq<char>,
    password: Seq<char>,
    name: Seq<char>,
) -> Seq<char> {
    "host="@ + host + " user="@ + user + " password="@ + password + " dbname="@ + name
}

impl Database {
    /// The connection string that the store's driver parses:
    /// `host=.. user=.. password=.. dbname=..`.
    pub fn connection_string(&self) -> (r: String)
        ensures
            r@ == connection_spec(self.host@, self.user@, self.password@, self.database_name@),
    {
        let mut s = String::from_str("host=");
        s.append(self.host.as_str());
        s.append(" user=");
        s.append(self.user.as_str());
        s.append(" password=");
        s.append(self.password.as_str());
        s.append(" dbname=");
        s.append(self.database_name.as_str());
        s
    }
}

} // verus!
