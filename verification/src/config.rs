//! The configuration record that a connection string is built from.
use vstd::prelude::*;

verus! {

/// Where the server is, and as whom to log in.
pub struct ConnectionConfig {
    pub host: String,
    pub user: String,
    pub password: String,
}

/// The connection string for the three settings, in key-value form.
pub open spec fn connection_string_of(host: Seq<char>, user: Seq<char>, password: Seq<char>) -> Seq<char> {
    "host="@ + host + " user="@ + user + " password="@ + password
}

impl ConnectionConfig {
    /// The connection string to set the adapter up with.
    pub fn connection_string(&self) -> (s: String)
        ensures
            s@ == connection_string_of(self.host@, self.user@, self.password@),
    {
        let mut s = "host=".to_string();
        s.append(self.host.as_str());
        s.append(" user=");
        s.append(self.user.as_str());
        s.append(" password=");
        s.append(self.password.as_str());
        s
    }
}

} // verus!
