//! The parts of a database connection, collected step by step.

use vstd::prelude::*;

verus! {

/// Collects the parts of a MySQL connection.
#[derive(Debug, Clone, PartialEq, Eq)]
pub struct DbConnectionBuilder {
    host: String,
    port: u16,
    database: String,
    username: String,
    password: Option<String>,
}

/// The parts of a connection as plain mathematical values.
pub struct ConnectionView {
    pub host: Seq<char>,
    pub port: u16,
    pub database: Seq<char>,
    pub username: Seq<char>,
    pub password: Option<Seq<char>>,
}

impl View for DbConnectionBuilder {
    type V = ConnectionView;

    closed spec fn view(&self) -> ConnectionView {
        ConnectionView {
            host: self.host@,
            port: self.port,
            database: self.database@,
            username: self.username@,
            password: match self.password {
                Some(p) => Some(p@),
                None => None,
            },
        }
    }
}

impl DbConnectionBuilder {
    /// A builder for the given database on `localhost:3306`, as user `weewx`
    /// without a password.
    pub fn new(database: &str) -> (b: Self)
        ensures
            b@ == (ConnectionView {
                host: "localhost"@,
                port: 3306,
                database: database@,
                username: "weewx"@,
                password: None,
            }),
    {
        DbConnectionBuilder {
            host: "localhost".to_owned(),
            port: 3306,
            database: database.to_owned(),
            username: "weewx".to_owned(),
            password: None,
        }
    }

    /// Sets the host.
    pub fn host(self, host: &str) -> (b: Self)
        ensures
            b@ == (ConnectionView { host: host@, ..self@ }),
    {
        let mut b = self;
        b.host = host.to_owned();
        b
    }

    /// Sets the port.
    pub fn port(self, port: u16) -> (b: Self)
        ensures
            b@ == (ConnectionView { port, ..self@ }),
    {
        let mut b = self;
        b.port = port;
        b
    }

    /// Sets the user name.
    pub fn username(self, username: &str) -> (b: Self)
        ensures
            b@ == (ConnectionView { username: username@, ..self@ }),
    {
        let mut b = self;
        b.username = username.to_owned();
        b
    }

    /// Sets the password.
    pub fn password(self, password: &str) -> (b: Self)
        ensures
            b@ == (ConnectionView { password: Some(password@), ..self@ }),
    {
        let mut b = self;
        b.password = Some(password.to_owned());
        b
    }

    /// The collected parts: host, port, database, user name and password.
    pub fn into_parts(self) -> (parts: (String, u16, String, String, Option<String>))
        ensures
            parts.0@ == self@.host,
            parts.1 == self@.port,
            parts.2@ == self@.database,
            parts.3@ == self@.username,
            match parts.4 {
                Some(p) => self@.password == Some(p@),
                None => self@.password.is_none(),
            },
    {
        (self.host, self.port, self.database, self.username, self.password)
    }
}

} // verus!
