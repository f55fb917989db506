//! The base image specification: a generic relational-database container.
//!
//! A `Postgres` value describes the stock database image: its identity, the
//! environment variables derived from the configured database name, user,
//! password and authentication mode, the files staged into the container
//! (accumulated bootstrap SQL scripts), the readiness conditions, and the
//! startup command. Every builder call consumes the value and returns a new
//! one; nothing is validated at configuration time.

use vstd::prelude::*;
use vstd::string::StringExecFns;
use crate::image::{CopyDataSource, CopyDataSourceView, CopyToContainer, CopyToContainerView};
use crate::image::{WaitFor, WaitForView};
use crate::image::{conditions_view, env_entries_view, staged_view, tokens_view};

verus! {

/// The character for one decimal digit.
pub open spec fn decimal_digit(n: nat) -> char
    recommends
        n < 10,
{
    if n == 0 {
        '0'
    } else if n == 1 {
        '1'
    } else if n == 2 {
        '2'
    } else if n == 3 {
        '3'
    } else if n == 4 {
        '4'
    } else if n == 5 {
        '5'
    } else if n == 6 {
        '6'
    } else if n == 7 {
        '7'
    } else if n == 8 {
        '8'
    } else {
        '9'
    }
}

/// The decimal rendering of a number, most significant digit first, with no
/// leading zeros (a single zero renders as "0").
pub open spec fn decimal(n: nat) -> Seq<char>
    decreases n,
{
    if n < 10 {
        seq![decimal_digit(n)]
    } else {
        decimal(n / 10) + seq![decimal_digit(n % 10)]
    }
}

/// The path inside the container at which the bootstrap script with the
/// given position in the staged sequence is placed: a file in the
/// entry-point initialization directory, numbered so that the engine runs
/// the scripts in the order they were added.
pub open spec fn init_sql_target(i: nat) -> Seq<char> {
    "/docker-entrypoint-initdb.d/init_"@ + decimal(i) + ".sql"@
}

/// Mathematical model of a database-container configuration: the knobs a
/// builder can set and the ordered staged files, as plain mathematical
/// values.
#[verifier::ext_equal]
pub struct ConfigView {
    pub db_name: Seq<char>,
    pub user: Seq<char>,
    pub password: Seq<char>,
    pub host_auth: bool,
    pub fsync_enabled: bool,
    pub staged: Seq<CopyToContainerView>,
}

impl ConfigView {
    /// The default configuration: stock credentials, authentication on,
    /// durability off, nothing staged.
    pub open spec fn init() -> ConfigView {
        ConfigView {
            db_name: "postgres"@,
            user: "postgres"@,
            password: "postgres"@,
            host_auth: false,
            fsync_enabled: false,
            staged: Seq::empty(),
        }
    }

    pub open spec fn with_host_auth(self) -> ConfigView {
        ConfigView { host_auth: true, ..self }
    }

    pub open spec fn with_db_name(self, db_name: Seq<char>) -> ConfigView {
        ConfigView { db_name: db_name, ..self }
    }

    pub open spec fn with_user(self, user: Seq<char>) -> ConfigView {
        ConfigView { user: user, ..self }
    }

    pub open spec fn with_password(self, password: Seq<char>) -> ConfigView {
        ConfigView { password: password, ..self }
    }

    pub open spec fn with_fsync_enabled(self) -> ConfigView {
        ConfigView { fsync_enabled: true, ..self }
    }

    /// Appends one bootstrap script: the staged sequence grows by one entry
    /// holding the given source, at the target path for its position.
    /// Earlier entries are untouched, so scripts accumulate in call order.
    pub open spec fn with_init_sql(self, source: CopyDataSourceView) -> ConfigView {
        ConfigView {
            staged: self.staged.push(
                CopyToContainerView { source: source, target: init_sql_target(self.staged.len()) },
            ),
            ..self
        }
    }

    /// The environment entries a configuration injects into the container:
    /// the database name, user and password under their well-known keys,
    /// and, only when host authentication is enabled, the trust marker.
    /// Keys are pairwise distinct, so the sequence is a mapping.
    pub open spec fn env(self) -> Seq<(Seq<char>, Seq<char>)> {
        let base = seq![
            ("POSTGRES_DB"@, self.db_name),
            ("POSTGRES_USER"@, self.user),
            ("POSTGRES_PASSWORD"@, self.password),
        ];
        if self.host_auth {
            base.push(("POSTGRES_HOST_AUTH_METHOD"@, "trust"@))
        } else {
            base
        }
    }

    /// The startup command: with durability disabled (the default) the
    /// server is started with fsync turned off; once durability is enabled
    /// the image's stock entry point runs unmodified.
    pub open spec fn cmd(self) -> Seq<Seq<char>> {
        if self.fsync_enabled {
            Seq::empty()
        } else {
            seq!["postgres"@, "-c"@, "fsync=off"@]
        }
    }
}

/// The message whose appearance on standard error signals readiness.
pub open spec fn ready_message() -> Seq<char> {
    "database system is ready to accept connections"@
}

/// The readiness conditions of the database image, the same for every
/// configuration: one log message on standard error.
pub open spec fn ready_conditions_view() -> Seq<WaitForView> {
    seq![WaitForView::MessageOnStderr(ready_message())]
}

/// The distributable name of the base image.
pub open spec fn base_name() -> Seq<char> {
    "postgres"@
}

/// The version tag of the base image.
pub open spec fn base_tag() -> Seq<char> {
    "11-alpine"@
}

/// Law: the environment entries of any configuration have pairwise distinct
/// keys, so the sequence returned by the environment accessor is a mapping.
pub proof fn lemma_env_keys_unique(c: ConfigView)
    ensures
        forall|i: int, j: int|
            0 <= i < c.env().len() && 0 <= j < c.env().len() && i != j ==> (
            #[trigger] c.env()[i]).0 != (#[trigger] c.env()[j]).0,
{
    reveal_strlit("POSTGRES_DB");
    reveal_strlit("POSTGRES_USER");
    reveal_strlit("POSTGRES_PASSWORD");
    reveal_strlit("POSTGRES_HOST_AUTH_METHOD");
    assert("POSTGRES_DB"@.len() == 11);
    assert("POSTGRES_USER"@.len() == 13);
    assert("POSTGRES_PASSWORD"@.len() == 17);
    assert("POSTGRES_HOST_AUTH_METHOD"@.len() == 25);
}

/// Law: appending bootstrap scripts preserves call order. Adding script `a`
/// and then script `b` leaves every previously staged file unchanged and
/// stages `a` immediately before `b`; and whenever `a` and `b` differ, the
/// opposite call order yields an observably different staged sequence.
pub proof fn lemma_init_sql_preserves_order(
    c: ConfigView,
    a: CopyDataSourceView,
    b: CopyDataSourceView,
)
    ensures
        ({
            let both = c.with_init_sql(a).with_init_sql(b);
            &&& both.staged.len() == c.staged.len() + 2
            &&& both.staged[c.staged.len() as int].source == a
            &&& both.staged[c.staged.len() as int + 1].source == b
            &&& forall|i: int| 0 <= i < c.staged.len() ==> both.staged[i] == c.staged[i]
        }),
        a != b ==> c.with_init_sql(a).with_init_sql(b).staged != c.with_init_sql(b).with_init_sql(
            a,
        ).staged,
{
    let len = c.staged.len() as int;
    let ab = c.with_init_sql(a).with_init_sql(b).staged;
    let ba = c.with_init_sql(b).with_init_sql(a).staged;
    assert(ab[len].source == a);
    assert(ba[len].source == b);
    if a != b && ab == ba {
        assert(ab[len] == ba[len]);
        assert(false);
    }
}

/// Law: every setter other than script registration is idempotent under
/// repetition. Applying the same setter twice, with the same argument,
/// yields the same configuration — and so the same accessor outputs — as
/// applying it once.
pub proof fn lemma_setters_idempotent(
    c: ConfigView,
    db_name: Seq<char>,
    user: Seq<char>,
    password: Seq<char>,
)
    ensures
        c.with_host_auth().with_host_auth() == c.with_host_auth(),
        c.with_db_name(db_name).with_db_name(db_name) == c.with_db_name(db_name),
        c.with_user(user).with_user(user) == c.with_user(user),
        c.with_password(password).with_password(password) == c.with_password(password),
        c.with_fsync_enabled().with_fsync_enabled() == c.with_fsync_enabled(),
{
    assert(c.with_host_auth().with_host_auth() =~= c.with_host_auth());
    assert(c.with_db_name(db_name).with_db_name(db_name) =~= c.with_db_name(db_name));
    assert(c.with_user(user).with_user(user) =~= c.with_user(user));
    assert(c.with_password(password).with_password(password) =~= c.with_password(password));
    assert(c.with_fsync_enabled().with_fsync_enabled() =~= c.with_fsync_enabled());
}

/// The one-character string for one decimal digit.
fn digit_str(d: usize) -> (result: &'static str)
    requires
        d < 10,
    ensures
        result@ == seq![decimal_digit(d as nat)],
{
    let result: &'static str = match d {
        0 => "0",
        1 => "1",
        2 => "2",
        3 => "3",
        4 => "4",
        5 => "5",
        6 => "6",
        7 => "7",
        8 => "8",
        _ => "9",
    };
    proof {
        reveal_strlit("0");
        reveal_strlit("1");
        reveal_strlit("2");
        reveal_strlit("3");
        reveal_strlit("4");
        reveal_strlit("5");
        reveal_strlit("6");
        reveal_strlit("7");
        reveal_strlit("8");
        reveal_strlit("9");
        assert(result@ =~= seq![decimal_digit(d as nat)]);
    }
    result
}

/// Renders a number in decimal, matching [`decimal`].
fn decimal_string(n: usize) -> (result: String)
    ensures
        result@ == decimal(n as nat),
    decreases n,
{
    if n < 10 {
        digit_str(n).to_owned()
    } else {
        let mut result = decimal_string(n / 10);
        result.append(digit_str(n % 10));
        result
    }
}

/// Builds the target path for the bootstrap script at the given position,
/// matching [`init_sql_target`].
fn init_sql_target_path(i: usize) -> (result: String)
    ensures
        result@ == init_sql_target(i as nat),
{
    let mut result = "/docker-entrypoint-initdb.d/init_".to_owned();
    let digits = decimal_string(i);
    result.append(digits.as_str());
    result.append(".sql");
    result
}

/// The base image specification. Identity is fixed; everything else is set
/// through the consuming builder methods.
#[derive(Clone, Debug)]
pub struct Postgres {
    db_name: String,
    user: String,
    password: String,
    host_auth: bool,
    fsync_enabled: bool,
    copy_to_sources: Vec<CopyToContainer>,
}

impl View for Postgres {
    type V = ConfigView;

    closed spec fn view(&self) -> ConfigView {
        ConfigView {
            db_name: self.db_name@,
            user: self.user@,
            password: self.password@,
            host_auth: self.host_auth,
            fsync_enabled: self.fsync_enabled,
            staged: staged_view(self.copy_to_sources@),
        }
    }
}

impl Default for Postgres {
    /// The stock configuration, from which every specification is built.
    fn default() -> (result: Postgres)
        ensures
            result@ == ConfigView::init(),
    {
        let result = Postgres {
            db_name: "postgres".to_owned(),
            user: "postgres".to_owned(),
            password: "postgres".to_owned(),
            host_auth: false,
            fsync_enabled: false,
            copy_to_sources: Vec::new(),
        };
        proof {
            assert(result@.staged =~= ConfigView::init().staged);
            assert(result@ =~= ConfigView::init());
        }
        result
    }
}

impl Postgres {
    /// Disables credential checking for connections from the host.
    pub fn with_host_auth(self) -> (result: Postgres)
        ensures
            result@ == self@.with_host_auth(),
    {
        let mut s = self;
        s.host_auth = true;
        s
    }

    /// Sets the name of the database created at container start.
    pub fn with_db_name(self, db_name: &str) -> (result: Postgres)
        ensures
            result@ == self@.with_db_name(db_name@),
    {
        let mut s = self;
        s.db_name = db_name.to_owned();
        s
    }

    /// Sets the bootstrap role name.
    pub fn with_user(self, user: &str) -> (result: Postgres)
        ensures
            result@ == self@.with_user(user@),
    {
        let mut s = self;
        s.user = user.to_owned();
        s
    }

    /// Sets the bootstrap role password.
    pub fn with_password(self, password: &str) -> (result: Postgres)
        ensures
            result@ == self@.with_password(password@),
    {
        let mut s = self;
        s.password = password.to_owned();
        s
    }

    /// Registers one bootstrap script to be executed automatically when the
    /// container starts. Calling this repeatedly accumulates scripts in call
    /// order; it never overwrites an earlier one.
    pub fn with_init_sql(self, init_sql: CopyDataSource) -> (result: Postgres)
        ensures
            result@ == self@.with_init_sql(init_sql@),
    {
        let ghost source = init_sql@;
        let mut s = self;
        let target = init_sql_target_path(s.copy_to_sources.len());
        let entry = CopyToContainer { source: init_sql, target };
        let ghost staged_entry = entry@;
        s.copy_to_sources.push(entry);
        proof {
            assert(staged_entry.target == init_sql_target(self@.staged.len()));
            assert(s@.staged =~= self@.with_init_sql(source).staged);
            assert(s@ =~= self@.with_init_sql(source));
        }
        s
    }

    /// Enables the durability (fsync) setting, trading startup and write
    /// speed for crash safety.
    pub fn with_fsync_enabled(self) -> (result: Postgres)
        ensures
            result@ == self@.with_fsync_enabled(),
    {
        let mut s = self;
        s.fsync_enabled = true;
        s
    }

    /// The distributable name of the base image, the same for every value.
    pub fn name(&self) -> (result: &str)
        ensures
            result@ == base_name(),
    {
        "postgres"
    }

    /// The version tag of the base image, the same for every value.
    pub fn tag(&self) -> (result: &str)
        ensures
            result@ == base_tag(),
    {
        "11-alpine"
    }

    /// The conditions the runtime must observe before the container is
    /// usable: the same for every configuration.
    pub fn ready_conditions(&self) -> (result: Vec<WaitFor>)
        ensures
            conditions_view(result@) == ready_conditions_view(),
    {
        let mut result: Vec<WaitFor> = Vec::new();
        result.push(WaitFor::MessageOnStderr(
            "database system is ready to accept connections".to_owned(),
        ));
        proof {
            assert(conditions_view(result@) =~= ready_conditions_view());
        }
        result
    }

    /// The environment entries to inject into the container process.
    pub fn env_vars(&self) -> (result: Vec<(String, String)>)
        ensures
            env_entries_view(result@) == self@.env(),
    {
        let mut result: Vec<(String, String)> = Vec::new();
        result.push(("POSTGRES_DB".to_owned(), self.db_name.clone()));
        result.push(("POSTGRES_USER".to_owned(), self.user.clone()));
        result.push(("POSTGRES_PASSWORD".to_owned(), self.password.clone()));
        if self.host_auth {
            result.push(("POSTGRES_HOST_AUTH_METHOD".to_owned(), "trust".to_owned()));
        }
        proof {
            assert(env_entries_view(result@) =~= self@.env());
        }
        result
    }

    /// The files the runtime must stage into the container, in order.
    pub fn copy_to_sources(&self) -> (result: &Vec<CopyToContainer>)
        ensures
            staged_view(result@) == self@.staged,
    {
        &self.copy_to_sources
    }

    /// The tokens of the command line the runtime should execute as the
    /// container's entry point.
    pub fn cmd(&self) -> (result: Vec<String>)
        ensures
            tokens_view(result@) == self@.cmd(),
    {
        let mut result: Vec<String> = Vec::new();
        if !self.fsync_enabled {
            result.push("postgres".to_owned());
            result.push("-c".to_owned());
            result.push("fsync=off".to_owned());
        }
        proof {
            assert(tokens_view(result@) =~= self@.cmd());
        }
        result
    }
}

} // verus!
