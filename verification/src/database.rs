use vstd::prelude::*;
use vstd::string::*;
use crate::entities::DbStatus;

verus! {

/// What a probe of the database came to.
#[derive(Debug)]
pub enum DbProbe {
    /// There is no connection pool to probe with.
    NoPool,
    /// The test query was answered with this value.
    Answered(i32),
    /// The test query failed with this text.
    Failed(String),
}

/// The value that the test query is expected to be answered with.
pub const PROBE_ANSWER: i32 = 1;

/// Whether a probe shows the database as connected.
pub open spec fn probe_connected(probe: DbProbe) -> bool {
    probe matches DbProbe::Answered(value) && value == PROBE_ANSWER
}

/// The message that a probe is reported with.
pub open spec fn probe_message(probe: DbProbe) -> Seq<char> {
    match probe {
        DbProbe::NoPool => "Пул подключений к базе данных не инициализирован"@,
        DbProbe::Answered(value) => if value == PROBE_ANSWER {
            "База данных доступна"@
        } else {
            "Неверный ответ от базы данных"@
        },
        DbProbe::Failed(fault) => "Ошибка подключения к базе данных: "@ + fault@,
    }
}

/// Reports on the database from what a probe of it came to: connected only
/// where the test query was answered with the expected value.
pub fn health_report(probe: DbProbe) -> (report: DbStatus)
    ensures
        report.connected == probe_connected(probe),
        report.message@ == probe_message(probe),
        report.consistent(),
{
    match probe {
        DbProbe::NoPool => DbStatus::disconnected(
            String::from_str("Пул подключений к базе данных не инициализирован"),
        ),
        DbProbe::Answered(value) => if value == PROBE_ANSWER {
            DbStatus::connected(String::from_str("База данных доступна"))
        } else {
            DbStatus::disconnected(String::from_str("Неверный ответ от базы данных"))
        },
        DbProbe::Failed(fault) => DbStatus::disconnected(
            String::from_str("Ошибка подключения к базе данных: ").concat(fault.as_str()),
        ),
    }
}

/// Whether the database has to be created, given the answer to whether it
/// exists: a failure to find out counts as its absence.
pub fn needs_creation(exists: Result<bool, String>) -> (needed: bool)
    ensures
        needed == !(exists matches Ok(found) && found),
{
    match exists {
        Ok(found) => !found,
        Err(_) => true,
    }
}

/// Where the database is and how to sign in to it.
#[derive(Debug)]
pub struct DbSettings {
    pub host: String,
    pub port: String,
    pub user: String,
    pub password: String,
    pub database: String,
}

/// A setting as configured, or the fallback where it is not.
pub fn setting_or(configured: Option<String>, fallback: &str) -> (setting: String)
    ensures
        setting@ == match configured {
            Some(value) => value@,
            None => fallback@,
        },
{
    match configured {
        Some(value) => value,
        None => String::from_str(fallback),
    }
}

/// The address of a database with the password spelled as given.
pub open spec fn address(
    user: Seq<char>,
    password: Seq<char>,
    host: Seq<char>,
    port: Seq<char>,
    database: Seq<char>,
) -> Seq<char> {
    "postgresql://"@ + user + ":"@ + password + "@"@ + host + ":"@ + port + "/"@ + database
}

fn spell_address(user: &str, password: &str, host: &str, port: &str, database: &str) -> (url:
    String)
    ensures
        url@ == address(user@, password@, host@, port@, database@),
{
    String::from_str("postgresql://").concat(user).concat(":").concat(password).concat(
        "@",
    ).concat(host).concat(":").concat(port).concat("/").concat(database)
}

impl DbSettings {
    /// The settings as configured; what is not configured falls back to a
    /// local server with the stock account, and to the database named.
    pub fn resolve(
        host: Option<String>,
        port: Option<String>,
        user: Option<String>,
        password: Option<String>,
        database: Option<String>,
        fallback_database: &str,
    ) -> (settings: Self)
        ensures
            settings.host@ == match host {
                Some(value) => value@,
                None => "localhost"@,
            },
            settings.port@ == match port {
                Some(value) => value@,
                None => "5432"@,
            },
            settings.user@ == match user {
                Some(value) => value@,
                None => "postgres"@,
            },
            settings.password@ == match password {
                Some(value) => value@,
                None => "password"@,
            },
            settings.database@ == match database {
                Some(value) => value@,
                None => fallback_database@,
            },
    {
        DbSettings {
            host: setting_or(host, "localhost"),
            port: setting_or(port, "5432"),
            user: setting_or(user, "postgres"),
            password: setting_or(password, "password"),
            database: setting_or(database, fallback_database),
        }
    }

    /// The address to connect to.
    pub fn connection_url(&self) -> (url: String)
        ensures
            url@ == address(
                self.user@,
                self.password@,
                self.host@,
                self.port@,
                self.database@,
            ),
    {
        spell_address(
            self.user.as_str(),
            self.password.as_str(),
            self.host.as_str(),
            self.port.as_str(),
            self.database.as_str(),
        )
    }

    /// The address for a pool of connections: the text encoding is fixed.
    pub fn pool_url(&self) -> (url: String)
        ensures
            url@ == address(
                self.user@,
                self.password@,
                self.host@,
                self.port@,
                self.database@,
            ) + "?client_encoding=utf8"@,
    {
        self.connection_url().concat("?client_encoding=utf8")
    }

    /// The address as it may be shown: the password is masked.
    pub fn masked_url(&self) -> (url: String)
        ensures
            url@ == address(self.user@, "***"@, self.host@, self.port@, self.database@),
    {
        spell_address(
            self.user.as_str(),
            "***",
            self.host.as_str(),
            self.port.as_str(),
            self.database.as_str(),
        )
    }
}

} // verus!
