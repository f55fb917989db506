//! The derived image specification.
//!
//! A `Postgis` value owns exactly one base [`Postgres`](crate::postgres::Postgres)
//! specification and republishes its whole capability surface unchanged —
//! environment, readiness, staged files, startup command — under the identity
//! of a different distributable image: the spatially-extended build of the
//! same database. Only the image name and tag are overridden; they are fixed
//! by this module and no builder call can change them.

use vstd::prelude::*;
use crate::image::{CopyDataSource, CopyToContainer, WaitFor};
use crate::image::{conditions_view, env_entries_view, staged_view, tokens_view};
use crate::postgres::{ConfigView, Postgres, base_name, base_tag, ready_conditions_view};

verus! {

/// The distributable name of the derived image, fixed for every value.
pub open spec fn derived_name() -> Seq<char> {
    "postgis/postgis"@
}

/// The version tag of the derived image, fixed for every value.
pub open spec fn derived_tag() -> Seq<char> {
    "17-3.5"@
}

/// The derived image specification: one owned base specification, nothing
/// else. Its view is the view of the base it owns.
#[derive(Clone, Debug)]
pub struct Postgis(Postgres);

impl View for Postgis {
    type V = ConfigView;

    closed spec fn view(&self) -> ConfigView {
        self.0@
    }
}

impl Default for Postgis {
    /// Default construction default-constructs the owned base specification,
    /// so every capability except identity starts out exactly as the base's.
    fn default() -> (result: Postgis)
        ensures
            result@ == ConfigView::init(),
    {
        Postgis(Postgres::default())
    }
}

impl Postgis {
    /// Disables credential checking for connections from the host.
    pub fn with_host_auth(self) -> (result: Postgis)
        ensures
            result@ == self@.with_host_auth(),
    {
        Postgis(self.0.with_host_auth())
    }

    /// Sets the name of the database created at container start.
    pub fn with_db_name(self, db_name: &str) -> (result: Postgis)
        ensures
            result@ == self@.with_db_name(db_name@),
    {
        Postgis(self.0.with_db_name(db_name))
    }

    /// Sets the bootstrap role name.
    pub fn with_user(self, user: &str) -> (result: Postgis)
        ensures
            result@ == self@.with_user(user@),
    {
        Postgis(self.0.with_user(user))
    }

    /// Sets the bootstrap role password.
    pub fn with_password(self, password: &str) -> (result: Postgis)
        ensures
            result@ == self@.with_password(password@),
    {
        Postgis(self.0.with_password(password))
    }

    /// Registers one bootstrap script to be executed automatically when the
    /// container starts. Calling this repeatedly accumulates scripts in call
    /// order; it never overwrites an earlier one.
    pub fn with_init_sql(self, init_sql: CopyDataSource) -> (result: Postgis)
        ensures
            result@ == self@.with_init_sql(init_sql@),
    {
        Postgis(self.0.with_init_sql(init_sql))
    }

    /// Enables the durability (fsync) setting of the underlying database.
    pub fn with_fsync_enabled(self) -> (result: Postgis)
        ensures
            result@ == self@.with_fsync_enabled(),
    {
        Postgis(self.0.with_fsync_enabled())
    }

    /// The distributable name of the derived image: the fixed override,
    /// whatever the owned base value holds.
    pub fn name(&self) -> (result: &str)
        ensures
            result@ == derived_name(),
    {
        "postgis/postgis"
    }

    /// The version tag of the derived image: the fixed override, whatever
    /// the owned base value holds.
    pub fn tag(&self) -> (result: &str)
        ensures
            result@ == derived_tag(),
    {
        "17-3.5"
    }

    /// Readiness conditions, forwarded verbatim from the base: the startup
    /// signal of the database engine does not change with the image name.
    pub fn ready_conditions(&self) -> (result: Vec<WaitFor>)
        ensures
            conditions_view(result@) == ready_conditions_view(),
    {
        self.0.ready_conditions()
    }

    /// Environment entries, forwarded verbatim from the base.
    pub fn env_vars(&self) -> (result: Vec<(String, String)>)
        ensures
            env_entries_view(result@) == self@.env(),
    {
        self.0.env_vars()
    }

    /// Files to stage into the container, forwarded verbatim from the base;
    /// order is preserved.
    pub fn copy_to_sources(&self) -> (result: &Vec<CopyToContainer>)
        ensures
            staged_view(result@) == self@.staged,
    {
        self.0.copy_to_sources()
    }

    /// Startup command tokens, forwarded verbatim from the base.
    pub fn cmd(&self) -> (result: Vec<String>)
        ensures
            tokens_view(result@) == self@.cmd(),
    {
        self.0.cmd()
    }
}

/// Law: the identity of the derived image is distinct from the identity of
/// the base image it wraps — the override is never the base's name or tag.
/// Together with the `ensures` of [`Postgis::name`] and [`Postgis::tag`],
/// which fix the result for every value, the identity reported after any
/// sequence of builder calls is always the override and never the base's.
pub proof fn lemma_identity_overridden()
    ensures
        derived_name() != base_name(),
        derived_tag() != base_tag(),
{
    reveal_strlit("postgis/postgis");
    reveal_strlit("postgres");
    reveal_strlit("17-3.5");
    reveal_strlit("11-alpine");
    assert(derived_name().len() != base_name().len());
    assert(derived_tag().len() != base_tag().len());
}

} // verus!
