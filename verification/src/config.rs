//! The configuration of one process: five values, each computed when it is
//! first asked for and kept unchanged from then on.

use vstd::prelude::*;
use crate::embedded::{
    app_id_table, download_uri_table, parse_app_id_table, parse_download_uri_table, parsed_view,
    MalformedEmbeddedJson, Parsed,
};
use crate::metadata::{application_name_of, product_name_long_of, BuildMetadata};
use crate::quality::Quality;
use crate::table::QualityTable;
use crate::user_agent::{compute_user_agent, user_agent};

verus! {

/// The configuration of a process. A value that has not been asked for yet
/// is not computed; one that was computed is never computed again.
#[derive(Debug)]
pub struct ProcessConfig {
    build: BuildMetadata,
    user_agent: Option<String>,
    win32_app_ids: Option<Parsed<QualityTable<Vec<String>>>>,
    quality_download_uris: Option<Parsed<QualityTable<String>>>,
    product_name_long: Option<&'static str>,
    application_name: Option<&'static str>,
}

/// What a configuration holds: the build's metadata and, for each of the
/// five values, `None` before its first use and the computed value after it.
pub struct ConfigView {
    pub build: BuildMetadata,
    pub user_agent: Option<Seq<char>>,
    pub win32_app_ids: Option<Parsed<Map<Quality, Seq<Seq<char>>>>>,
    pub quality_download_uris: Option<Parsed<Map<Quality, Seq<char>>>>,
    pub product_name_long: Option<Seq<char>>,
    pub application_name: Option<Seq<char>>,
}

impl ConfigView {
    /// The configuration of a process that has asked for nothing yet.
    pub open spec fn fresh(build: BuildMetadata) -> ConfigView {
        ConfigView {
            build,
            user_agent: None,
            win32_app_ids: None,
            quality_download_uris: None,
            product_name_long: None,
            application_name: None,
        }
    }

    /// Every value that is there is one that its computation gives for this
    /// build: the user agent under some value of the override, the others
    /// from the metadata alone.
    pub open spec fn consistent(self) -> bool {
        &&& self.user_agent matches Some(agent) ==> exists|env_value: Option<Seq<char>>|
            agent == #[trigger] user_agent(env_value, self.build.version.deep_view())
        &&& self.win32_app_ids matches Some(parsed) ==> parsed == app_id_table(
            self.build.win32_app_ids.deep_view(),
        )
        &&& self.quality_download_uris matches Some(parsed) ==> parsed == download_uri_table(
            self.build.quality_download_uris.deep_view(),
        )
        &&& self.product_name_long matches Some(name) ==> name == product_name_long_of(
            self.build.product_name_long.deep_view(),
        )
        &&& self.application_name matches Some(name) ==> name == application_name_of(
            self.build.application_name.deep_view(),
        )
    }

    /// Whether `self` may come after `earlier` in the life of one process:
    /// the metadata is the same, and every value that `earlier` holds is
    /// still there, unchanged.
    pub open spec fn keeps(self, earlier: ConfigView) -> bool {
        &&& self.build == earlier.build
        &&& earlier.user_agent is Some ==> self.user_agent == earlier.user_agent
        &&& earlier.win32_app_ids is Some ==> self.win32_app_ids == earlier.win32_app_ids
        &&& earlier.quality_download_uris is Some ==> self.quality_download_uris
            == earlier.quality_download_uris
        &&& earlier.product_name_long is Some ==> self.product_name_long
            == earlier.product_name_long
        &&& earlier.application_name is Some ==> self.application_name == earlier.application_name
    }

    /// One use of the user agent: `agent` is served and the configuration
    /// goes from `self` to `next`. `env_value` is the value of the override in
    /// the environment at that moment; it counts at the first use only.
    pub open spec fn serves_user_agent(
        self,
        env_value: Option<Seq<char>>,
        next: ConfigView,
        agent: Seq<char>,
    ) -> bool {
        match self.user_agent {
            Some(kept) => agent == kept && next == self,
            None => agent == user_agent(env_value, self.build.version.deep_view()) && next == (
                ConfigView { user_agent: Some(agent), ..self }
            ),
        }
    }

    /// One use of the installer identifiers: `parsed` is served and the
    /// configuration goes from `self` to `next`.
    pub open spec fn serves_win32_app_ids(
        self,
        next: ConfigView,
        parsed: Parsed<Map<Quality, Seq<Seq<char>>>>,
    ) -> bool {
        &&& parsed == app_id_table(self.build.win32_app_ids.deep_view())
        &&& next == (ConfigView { win32_app_ids: Some(parsed), ..self })
    }

    /// One use of the download addresses: `parsed` is served and the
    /// configuration goes from `self` to `next`.
    pub open spec fn serves_quality_download_uris(
        self,
        next: ConfigView,
        parsed: Parsed<Map<Quality, Seq<char>>>,
    ) -> bool {
        &&& parsed == download_uri_table(self.build.quality_download_uris.deep_view())
        &&& next == (ConfigView { quality_download_uris: Some(parsed), ..self })
    }

    /// One use of the long product name: `name` is served and the
    /// configuration goes from `self` to `next`.
    pub open spec fn serves_product_name_long(self, next: ConfigView, name: Seq<char>) -> bool {
        &&& name == product_name_long_of(self.build.product_name_long.deep_view())
        &&& next == (ConfigView { product_name_long: Some(name), ..self })
    }

    /// One use of the application name: `name` is served and the
    /// configuration goes from `self` to `next`.
    pub open spec fn serves_application_name(self, next: ConfigView, name: Seq<char>) -> bool {
        &&& name == application_name_of(self.build.application_name.deep_view())
        &&& next == (ConfigView { application_name: Some(name), ..self })
    }
}

/// What was computed stays: a configuration keeps itself, and what comes
/// after one that comes after another comes after that other.
pub proof fn lemma_keeps_in_turn(first: ConfigView, second: ConfigView, third: ConfigView)
    ensures
        first.keeps(first),
        second.keeps(first) && third.keeps(second) ==> third.keeps(first),
{
}

/// The user agent is computed once. After a first use, whatever else the
/// process has used since, every use serves what the first one served and
/// leaves the configuration as it is, whatever the environment holds by then.
pub proof fn lemma_user_agent_computed_once(
    start: ConfigView,
    first_env: Option<Seq<char>>,
    used: ConfigView,
    first: Seq<char>,
    later: ConfigView,
    second_env: Option<Seq<char>>,
    after: ConfigView,
    second: Seq<char>,
)
    requires
        start.serves_user_agent(first_env, used, first),
        later.keeps(used),
        later.serves_user_agent(second_env, after, second),
    ensures
        second == first,
        after == later,
{
}

/// The installer identifiers are read once. After a first use, whatever else
/// the process has used since, every use serves what the first one served
/// and leaves the configuration as it is.
pub proof fn lemma_win32_app_ids_computed_once(
    start: ConfigView,
    used: ConfigView,
    first: Parsed<Map<Quality, Seq<Seq<char>>>>,
    later: ConfigView,
    after: ConfigView,
    second: Parsed<Map<Quality, Seq<Seq<char>>>>,
)
    requires
        start.serves_win32_app_ids(used, first),
        later.keeps(used),
        later.serves_win32_app_ids(after, second),
    ensures
        second == first,
        after == later,
{
}

/// The download addresses are read once. After a first use, whatever else
/// the process has used since, every use serves what the first one served
/// and leaves the configuration as it is.
pub proof fn lemma_quality_download_uris_computed_once(
    start: ConfigView,
    used: ConfigView,
    first: Parsed<Map<Quality, Seq<char>>>,
    later: ConfigView,
    after: ConfigView,
    second: Parsed<Map<Quality, Seq<char>>>,
)
    requires
        start.serves_quality_download_uris(used, first),
        later.keeps(used),
        later.serves_quality_download_uris(after, second),
    ensures
        second == first,
        after == later,
{
}

/// The long product name is computed once. After a first use, whatever else
/// the process has used since, every use serves what the first one served
/// and leaves the configuration as it is.
pub proof fn lemma_product_name_long_computed_once(
    start: ConfigView,
    used: ConfigView,
    first: Seq<char>,
    later: ConfigView,
    after: ConfigView,
    second: Seq<char>,
)
    requires
        start.serves_product_name_long(used, first),
        later.keeps(used),
        later.serves_product_name_long(after, second),
    ensures
        second == first,
        after == later,
{
}

/// The application name is computed once. After a first use, whatever else
/// the process has used since, every use serves what the first one served
/// and leaves the configuration as it is.
pub proof fn lemma_application_name_computed_once(
    start: ConfigView,
    used: ConfigView,
    first: Seq<char>,
    later: ConfigView,
    after: ConfigView,
    second: Seq<char>,
)
    requires
        start.serves_application_name(used, first),
        later.keeps(used),
        later.serves_application_name(after, second),
    ensures
        second == first,
        after == later,
{
}

/// The first of the two tables that is malformed, if one is.
pub open spec fn first_malformed<A, B>(ids: Parsed<A>, uris: Parsed<B>) -> Result<
    (),
    MalformedEmbeddedJson,
> {
    match (ids, uris) {
        (Err(e), _) => Err(e),
        (Ok(_), Err(e)) => Err(e),
        (Ok(_), Ok(_)) => Ok(()),
    }
}

/// The view of an optional cached table.
pub open spec fn kept_table<V: DeepView>(kept: Option<Parsed<QualityTable<V>>>) -> Option<
    Parsed<Map<Quality, V::V>>,
> {
    match kept {
        Some(parsed) => Some(parsed_view(parsed)),
        None => None,
    }
}

impl View for ProcessConfig {
    type V = ConfigView;

    closed spec fn view(&self) -> ConfigView {
        ConfigView {
            build: self.build,
            user_agent: self.user_agent.deep_view(),
            win32_app_ids: kept_table(self.win32_app_ids),
            quality_download_uris: kept_table(self.quality_download_uris),
            product_name_long: self.product_name_long.deep_view(),
            application_name: self.application_name.deep_view(),
        }
    }
}

/// Borrows an optional string as an optional slice.
fn as_text(text: &Option<String>) -> (slice: Option<&str>)
    ensures
        slice.deep_view() == text.deep_view(),
{
    match text {
        Some(t) => Some(t.as_str()),
        None => None,
    }
}

impl ProcessConfig {
    /// Holds of every configuration that exists.
    #[verifier::type_invariant]
    pub open spec fn inv(&self) -> bool {
        self@.consistent()
    }

    /// The configuration of a process for the given build. Nothing is
    /// computed here.
    pub fn new(build: BuildMetadata) -> (config: Self)
        ensures
            config@ == ConfigView::fresh(build),
    {
        ProcessConfig {
            build,
            user_agent: None,
            win32_app_ids: None,
            quality_download_uris: None,
            product_name_long: None,
            application_name: None,
        }
    }

    /// The metadata that the configuration was made for.
    pub fn build(&self) -> (build: BuildMetadata)
        ensures
            build == self@.build,
    {
        self.build
    }

    /// The user agent of the tunnel service. The first use calls
    /// `read_override` once, for the value of the override variable in the
    /// environment, and computes the user agent from it; every later use
    /// serves the same text and calls nothing.
    pub fn tunnel_service_user_agent<F: FnOnce() -> Option<String>>(
        &mut self,
        read_override: F,
    ) -> (agent: &str)
        requires
            old(self)@.user_agent is None ==> read_override.requires(()),
        ensures
            exists|env_value: Option<String>|
                (old(self)@.user_agent is None ==> read_override.ensures((), env_value))
                    && #[trigger] old(self)@.serves_user_agent(
                    env_value.deep_view(),
                    final(self)@,
                    agent@,
                ),
            final(self)@.keeps(old(self)@),
    {
        proof {
            use_type_invariant(&*self);
        }
        if self.user_agent.is_none() {
            let env_value = read_override();
            let agent = compute_user_agent(as_text(&env_value), self.build.version);
            self.user_agent = Some(agent);
            assert(old(self)@.serves_user_agent(env_value.deep_view(), self@, agent@));
        } else {
            assert(old(self)@.serves_user_agent(
                None::<String>.deep_view(),
                self@,
                self.user_agent->0@,
            ));
        }
        self.user_agent.as_ref().unwrap().as_str()
    }

    /// The installer identifiers for each release channel, read from the
    /// embedded text at the first use.
    pub fn win32_app_ids(&mut self) -> (parsed: &Parsed<QualityTable<Vec<String>>>)
        ensures
            old(self)@.serves_win32_app_ids(final(self)@, parsed_view(*parsed)),
            final(self)@.keeps(old(self)@),
    {
        proof {
            use_type_invariant(&*self);
        }
        if self.win32_app_ids.is_none() {
            self.win32_app_ids = Some(parse_app_id_table(self.build.win32_app_ids));
        }
        self.win32_app_ids.as_ref().unwrap()
    }

    /// The download address for each release channel, read from the embedded
    /// text at the first use.
    pub fn quality_download_uris(&mut self) -> (parsed: &Parsed<QualityTable<String>>)
        ensures
            old(self)@.serves_quality_download_uris(final(self)@, parsed_view(*parsed)),
            final(self)@.keeps(old(self)@),
    {
        proof {
            use_type_invariant(&*self);
        }
        if self.quality_download_uris.is_none() {
            self.quality_download_uris = Some(
                parse_download_uri_table(self.build.quality_download_uris),
            );
        }
        self.quality_download_uris.as_ref().unwrap()
    }

    /// Reads both embedded tables now, where they were not read before, and
    /// reports the first one that is malformed: the installer identifiers
    /// before the download addresses. A process that calls this when it
    /// starts stops before anything depends on a malformed table.
    pub fn check_embedded_tables(&mut self) -> (checked: Result<(), MalformedEmbeddedJson>)
        ensures
            final(self)@ == (ConfigView {
                win32_app_ids: Some(app_id_table(old(self)@.build.win32_app_ids.deep_view())),
                quality_download_uris: Some(
                    download_uri_table(old(self)@.build.quality_download_uris.deep_view()),
                ),
                ..old(self)@
            }),
            final(self)@.keeps(old(self)@),
            checked == first_malformed(
                app_id_table(old(self)@.build.win32_app_ids.deep_view()),
                download_uri_table(old(self)@.build.quality_download_uris.deep_view()),
            ),
    {
        proof {
            use_type_invariant(&*self);
        }
        let ids = match self.win32_app_ids() {
            Ok(_) => None,
            Err(e) => Some(*e),
        };
        let uris = match self.quality_download_uris() {
            Ok(_) => None,
            Err(e) => Some(*e),
        };
        match (ids, uris) {
            (Some(e), _) => Err(e),
            (None, Some(e)) => Err(e),
            (None, None) => Ok(()),
        }
    }

    /// The long product name, with its default for a build that embeds none.
    pub fn product_name_long(&mut self) -> (name: &'static str)
        ensures
            old(self)@.serves_product_name_long(final(self)@, name@),
            final(self)@.keeps(old(self)@),
    {
        proof {
            use_type_invariant(&*self);
        }
        if self.product_name_long.is_none() {
            self.product_name_long = Some(self.build.product_name_long());
        }
        self.product_name_long.unwrap()
    }

    /// The application name, with its default for a build that embeds none.
    pub fn application_name(&mut self) -> (name: &'static str)
        ensures
            old(self)@.serves_application_name(final(self)@, name@),
            final(self)@.keeps(old(self)@),
    {
        proof {
            use_type_invariant(&*self);
        }
        if self.application_name.is_none() {
            self.application_name = Some(self.build.application_name());
        }
        self.application_name.unwrap()
    }
}

} // verus!
