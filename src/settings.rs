use vstd::prelude::*;
use vstd::string::*;
use crate::digits::{decimal, push_decimal};

verus! {

/// Settings of the payment network's API and of this service's callback endpoint.
#[derive(Clone, Debug)]
pub struct MpesaSettings {
    pub base_url: String,
    pub consumer_key: String,
    pub consumer_secret: String,
    pub passkey: String,
    pub callback_url: String,
    pub environment: String,
    pub callback_port: u16,
    pub business_short_code: String,
    pub party_b: String,
    pub certificate_path: String,
}

/// Connection parameters of the notification database.
#[derive(Clone, Debug)]
pub struct DatabaseSettings {
    pub username: String,
    pub password: String,
    pub host: String,
    pub port: u16,
    pub database_name: String,
}

/// The whole process configuration, loaded once at startup.
#[derive(Clone, Debug)]
pub struct Settings {
    pub mpesa: MpesaSettings,
    pub database: DatabaseSettings,
}

impl DatabaseSettings {
    /// `postgres://<username>:<password>@<host>:<port>/<database_name>`
    pub open spec fn connection_url_view(&self) -> Seq<char> {
        "postgres://"@ + self.username@ + ":"@ + self.password@ + "@"@ + self.host@ + ":"@
            + decimal(self.port as nat) + "/"@ + self.database_name@
    }

    /// The PostgreSQL connection URL for these settings.
    pub fn connection_url(&self) -> (r: String)
        ensures
            r@ == self.connection_url_view(),
    {
        let mut s = String::from_str("postgres://");
        s.append(self.username.as_str());
        s.append(":");
        s.append(self.password.as_str());
        s.append("@");
        s.append(self.host.as_str());
        s.append(":");
        push_decimal(&mut s, self.port as u64);
        s.append("/");
        s.append(self.database_name.as_str());
        proof {
            reveal_strlit("postgres://");
            reveal_strlit(":");
            reveal_strlit("@");
            reveal_strlit("/");
        }
        assert(s@ =~= self.connection_url_view());
        s
    }
}

} // verus!
