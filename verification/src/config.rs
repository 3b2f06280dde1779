//! Layered settings of the hook: command line over repository over global
//! configuration over built-in defaults.

use std::path::PathBuf;
use vstd::prelude::*;
use vstd::string::StringExecFns;
use crate::repository::{
    config_string, open_default_config, open_repository, path_from, repository_config,
};

verus! {

/// One source of settings. A field is `None` where the source is silent.
#[derive(Clone, Copy, Debug, PartialEq, Eq)]
pub struct HookConfig {
    pub strict: Option<bool>,
    pub confirm_staging: Option<bool>,
    pub confirm_not_staging: Option<bool>,
}

/// The settings a run works with, every field decided.
#[derive(Clone, Copy, Debug, PartialEq, Eq)]
pub struct EffectiveConfig {
    pub strict: bool,
    pub confirm_staging: bool,
    pub confirm_not_staging: bool,
}

/// The value of one setting as its text in a configuration store gives it:
/// exactly the text `true` switches the setting on.
pub open spec fn spec_flag_value(text: Seq<char>) -> bool {
    text == "true"@
}

/// The higher source's value where it has one, else the lower source's.
pub open spec fn spec_prefer(higher: Option<bool>, lower: Option<bool>) -> Option<bool> {
    match higher {
        Some(_) => higher,
        None => lower,
    }
}

/// One setting resolved over its three sources and its default.
pub open spec fn spec_resolve_flag(
    cli: Option<bool>,
    local: Option<bool>,
    global: Option<bool>,
    default: bool,
) -> bool {
    match spec_prefer(cli, spec_prefer(local, global)) {
        Some(value) => value,
        None => default,
    }
}

/// What a stored text means for one setting.
pub fn parse_flag(text: &str) -> (value: bool)
    ensures
        value == spec_flag_value(text@),
{
    let given = String::from_str(text);
    let on = String::from_str("true");
    given == on
}

/// What an optional stored text means for one setting: silent where the
/// store has no text for it.
pub fn parse_entry(text: Option<String>) -> (value: Option<bool>)
    ensures
        value == match text {
            Some(t) => Some(spec_flag_value(t@)),
            None => None,
        },
{
    match text {
        Some(t) => Some(parse_flag(t.as_str())),
        None => None,
    }
}

impl Default for HookConfig {
    fn default() -> (config: HookConfig)
        ensures
            config == HookConfig::spec_unset(),
    {
        HookConfig { strict: None, confirm_staging: None, confirm_not_staging: None }
    }
}

impl HookConfig {
    /// The source that is silent on every setting.
    pub open spec fn spec_unset() -> HookConfig {
        HookConfig { strict: None, confirm_staging: None, confirm_not_staging: None }
    }

    /// This source laid over a lower one, setting by setting.
    pub open spec fn spec_or(self, lower: HookConfig) -> HookConfig {
        HookConfig {
            strict: spec_prefer(self.strict, lower.strict),
            confirm_staging: spec_prefer(self.confirm_staging, lower.confirm_staging),
            confirm_not_staging: spec_prefer(self.confirm_not_staging, lower.confirm_not_staging),
        }
    }

    /// The settings in force for the three sources and the defaults:
    /// lenient, and asking on both kinds of change.
    pub open spec fn spec_resolve(
        cli: HookConfig,
        local: HookConfig,
        global: HookConfig,
    ) -> EffectiveConfig {
        EffectiveConfig {
            strict: spec_resolve_flag(cli.strict, local.strict, global.strict, false),
            confirm_staging: spec_resolve_flag(
                cli.confirm_staging,
                local.confirm_staging,
                global.confirm_staging,
                true,
            ),
            confirm_not_staging: spec_resolve_flag(
                cli.confirm_not_staging,
                local.confirm_not_staging,
                global.confirm_not_staging,
                true,
            ),
        }
    }

    /// A source read from the three stored texts of a configuration store.
    pub fn from_entries(
        strict: Option<String>,
        staging: Option<String>,
        not_staging: Option<String>,
    ) -> (config: HookConfig)
        ensures
            config.strict == match strict {
                Some(t) => Some(spec_flag_value(t@)),
                None => None,
            },
            config.confirm_staging == match staging {
                Some(t) => Some(spec_flag_value(t@)),
                None => None,
            },
            config.confirm_not_staging == match not_staging {
                Some(t) => Some(spec_flag_value(t@)),
                None => None,
            },
    {
        HookConfig {
            strict: parse_entry(strict),
            confirm_staging: parse_entry(staging),
            confirm_not_staging: parse_entry(not_staging),
        }
    }

    /// Lays this source over `lower`: each setting comes from this source
    /// where it has one, else from `lower`.
    pub fn or(&self, lower: &HookConfig) -> (merged: HookConfig)
        ensures
            merged == self.spec_or(*lower),
    {
        HookConfig {
            strict: prefer(self.strict, lower.strict),
            confirm_staging: prefer(self.confirm_staging, lower.confirm_staging),
            confirm_not_staging: prefer(self.confirm_not_staging, lower.confirm_not_staging),
        }
    }

    /// Resolves the three sources into the settings in force. Each setting
    /// is resolved by itself: the command line wins over the repository's
    /// configuration, that over the global one, that over the default.
    pub fn resolve(cli: &HookConfig, local: &HookConfig, global: &HookConfig) -> (config:
        EffectiveConfig)
        ensures
            config == HookConfig::spec_resolve(*cli, *local, *global),
    {
        let layered = cli.or(&local.or(global));
        layered.finish()
    }

    /// Fills what this source leaves open with the defaults.
    pub fn finish(&self) -> (config: EffectiveConfig)
        ensures
            config == HookConfig::spec_resolve(
                *self,
                HookConfig::spec_unset(),
                HookConfig::spec_unset(),
            ),
    {
        EffectiveConfig {
            strict: match self.strict {
                Some(value) => value,
                None => false,
            },
            confirm_staging: match self.confirm_staging {
                Some(value) => value,
                None => true,
            },
            confirm_not_staging: match self.confirm_not_staging {
                Some(value) => value,
                None => true,
            },
        }
    }
}

/// The higher value where there is one, else the lower.
pub fn prefer(higher: Option<bool>, lower: Option<bool>) -> (chosen: Option<bool>)
    ensures
        chosen == spec_prefer(higher, lower),
{
    match higher {
        Some(_) => higher,
        None => lower,
    }
}

/// The key under which git's configuration stores the strictness.
pub const STRICT_KEY: &'static str = "submodulehook.strict";

/// The key under which git's configuration stores whether staged submodule
/// changes are to be confirmed.
pub const STAGING_KEY: &'static str = "submodulehook.staging";

/// The key under which git's configuration stores whether submodule
/// changes that are not staged are to be confirmed.
pub const NOT_STAGING_KEY: &'static str = "submodulehook.notstaging";

/// The path of the repository whose configuration is the local source.
pub const LOCAL_REPOSITORY: &'static str = ".";

/// What was learned of one configuration store.
#[derive(Debug, PartialEq, Eq)]
pub enum StoreProbe {
    /// The store, or the repository that holds it, could not be opened.
    Unreadable,
    /// The texts stored under the three keys; `None` where the store has
    /// no text that can be read under a key.
    Entries { strict: Option<String>, staging: Option<String>, not_staging: Option<String> },
}

/// A `StoreProbe` as a mathematical value.
pub enum StoreProbeView {
    Unreadable,
    Entries {
        strict: Option<Seq<char>>,
        staging: Option<Seq<char>>,
        not_staging: Option<Seq<char>>,
    },
}

/// An optional stored text as a mathematical value.
pub open spec fn spec_text(text: Option<String>) -> Option<Seq<char>> {
    match text {
        Some(t) => Some(t@),
        None => None,
    }
}

impl View for StoreProbe {
    type V = StoreProbeView;

    open spec fn view(&self) -> StoreProbeView {
        match *self {
            StoreProbe::Unreadable => StoreProbeView::Unreadable,
            StoreProbe::Entries { strict, staging, not_staging } => StoreProbeView::Entries {
                strict: spec_text(strict),
                staging: spec_text(staging),
                not_staging: spec_text(not_staging),
            },
        }
    }
}

/// What an optional stored text means for one setting: silent where the
/// store has no text for it.
pub open spec fn spec_entry_value(text: Option<Seq<char>>) -> Option<bool> {
    match text {
        Some(t) => Some(spec_flag_value(t)),
        None => None,
    }
}

/// The source that a configuration store gives: silent on every setting
/// where the store could not be read, else each setting as its stored text
/// gives it.
pub open spec fn spec_source(probe: StoreProbeView) -> HookConfig {
    match probe {
        StoreProbeView::Unreadable => HookConfig::spec_unset(),
        StoreProbeView::Entries { strict, staging, not_staging } => HookConfig {
            strict: spec_entry_value(strict),
            confirm_staging: spec_entry_value(staging),
            confirm_not_staging: spec_entry_value(not_staging),
        },
    }
}

/// What an optional stored text means for one setting.
fn entry_value(text: &Option<String>) -> (value: Option<bool>)
    ensures
        value == spec_entry_value(spec_text(*text)),
{
    match text {
        Some(t) => Some(parse_flag(t.as_str())),
        None => None,
    }
}

/// Decides the source that a configuration store gives from what was
/// learned of the store. A store that could not be read counts as silent on
/// every setting; reading a source never fails.
pub fn source_of(probe: &StoreProbe) -> (config: HookConfig)
    ensures
        config == spec_source(probe@),
{
    match probe {
        StoreProbe::Unreadable => HookConfig::default(),
        StoreProbe::Entries { strict, staging, not_staging } => HookConfig {
            strict: entry_value(strict),
            confirm_staging: entry_value(staging),
            confirm_not_staging: entry_value(not_staging),
        },
    }
}

/// The text stored under `key`, if the store has one that can be read.
fn stored_text(store: &git2::Config, key: &str) -> (text: Option<String>) {
    match config_string(store, key) {
        Ok(text) => Some(text),
        Err(_) => None,
    }
}

/// Reads the three settings of the hook from a configuration store that
/// was opened: looks up the three keys and decides the source from what
/// they gave.
fn read_store(store: &git2::Config) -> (config: HookConfig)
    ensures
        exists|probe: StoreProbeView|
            probe is Entries && config == #[trigger] spec_source(probe),
{
    let strict = stored_text(store, STRICT_KEY);
    let staging = stored_text(store, STAGING_KEY);
    let not_staging = stored_text(store, NOT_STAGING_KEY);
    let probe = StoreProbe::Entries { strict, staging, not_staging };
    source_of(&probe)
}

/// Reads the settings from the global configuration. A store that cannot
/// be opened counts as silent on every setting.
///
/// What the store holds depends on the files on disk; the result is the
/// source that `source_of` decides from whatever was learned of it.
pub fn read_global_config() -> (config: HookConfig)
    ensures
        exists|probe: StoreProbeView| config == #[trigger] spec_source(probe),
{
    match open_default_config() {
        Ok(store) => read_store(&store),
        Err(_) => source_of(&StoreProbe::Unreadable),
    }
}

/// Reads the settings from the configuration of the repository at `path`.
/// Where there is no such repository, or its configuration cannot be read,
/// the source counts as silent on every setting.
///
/// What the store holds depends on the files on disk; the result is the
/// source that `source_of` decides from whatever was learned of it.
pub fn read_repository_config(path: &PathBuf) -> (config: HookConfig)
    ensures
        exists|probe: StoreProbeView| config == #[trigger] spec_source(probe),
{
    match open_repository(path) {
        Ok(repo) => match repository_config(&repo) {
            Ok(store) => read_store(&store),
            Err(_) => source_of(&StoreProbe::Unreadable),
        },
        Err(_) => source_of(&StoreProbe::Unreadable),
    }
}

/// Reads the settings from the configuration of the repository at
/// `LOCAL_REPOSITORY`, the current directory, as `read_repository_config`
/// does for any path.
pub fn read_local_config() -> (config: HookConfig)
    ensures
        exists|probe: StoreProbeView| config == #[trigger] spec_source(probe),
{
    let here = path_from(LOCAL_REPOSITORY);
    read_repository_config(&here)
}

/// Reads the settings that git's configuration gives: those of the
/// repository in the current directory laid over the global ones. Reading
/// never fails: what cannot be read counts as not set.
///
/// What the two stores hold depends on the files on disk; the result is
/// the local source laid over the global one, each as `source_of` decides
/// it from whatever was learned of its store.
pub fn get_config() -> (config: HookConfig)
    ensures
        exists|local: StoreProbeView, global: StoreProbeView|
            config == #[trigger] spec_source(local).spec_or(spec_source(global)),
{
    let global = read_global_config();
    let local = read_local_config();
    proof {
        let global_probe = choose|probe: StoreProbeView| global == #[trigger] spec_source(probe);
        let local_probe = choose|probe: StoreProbeView| local == #[trigger] spec_source(probe);
        assert(local.spec_or(global) == spec_source(local_probe).spec_or(
            spec_source(global_probe),
        ));
    }
    local.or(&global)
}

/// A store that could not be read counts as one that is silent under
/// every key: both give the source that is silent on every setting, and
/// laid over another source such a source changes nothing.
pub proof fn lemma_unreadable_store_counts_as_unset(lower: HookConfig)
    ensures
        spec_source(StoreProbeView::Unreadable) == HookConfig::spec_unset(),
        spec_source(StoreProbeView::Entries { strict: None, staging: None, not_staging: None })
            == HookConfig::spec_unset(),
        spec_source(StoreProbeView::Unreadable).spec_or(lower) == lower,
        lower.spec_or(spec_source(StoreProbeView::Unreadable)) == lower,
{
}

/// A source that speaks of a setting decides it, whatever the sources
/// below it say.
pub proof fn lemma_highest_present_source_wins(
    cli: Option<bool>,
    local: Option<bool>,
    global: Option<bool>,
    default: bool,
)
    ensures
        cli is Some ==> spec_resolve_flag(cli, local, global, default) == cli->0,
        cli is None && local is Some ==> spec_resolve_flag(cli, local, global, default)
            == local->0,
        cli is None && local is None && global is Some ==> spec_resolve_flag(
            cli,
            local,
            global,
            default,
        ) == global->0,
        cli is None && local is None && global is None ==> spec_resolve_flag(
            cli,
            local,
            global,
            default,
        ) == default,
{
}

/// Each setting is resolved from its own three values alone: what the
/// sources say of the other two settings changes nothing.
pub proof fn lemma_settings_resolve_independently(
    cli: HookConfig,
    local: HookConfig,
    global: HookConfig,
    other_cli: HookConfig,
    other_local: HookConfig,
    other_global: HookConfig,
)
    ensures
        (cli.strict == other_cli.strict && local.strict == other_local.strict && global.strict
            == other_global.strict) ==> HookConfig::spec_resolve(cli, local, global).strict
            == HookConfig::spec_resolve(other_cli, other_local, other_global).strict,
        (cli.confirm_staging == other_cli.confirm_staging && local.confirm_staging
            == other_local.confirm_staging && global.confirm_staging
            == other_global.confirm_staging) ==> HookConfig::spec_resolve(
            cli,
            local,
            global,
        ).confirm_staging == HookConfig::spec_resolve(
            other_cli,
            other_local,
            other_global,
        ).confirm_staging,
        (cli.confirm_not_staging == other_cli.confirm_not_staging && local.confirm_not_staging
            == other_local.confirm_not_staging && global.confirm_not_staging
            == other_global.confirm_not_staging) ==> HookConfig::spec_resolve(
            cli,
            local,
            global,
        ).confirm_not_staging == HookConfig::spec_resolve(
            other_cli,
            other_local,
            other_global,
        ).confirm_not_staging,
{
}

/// Resolving in one step equals laying the sources over each other, highest
/// last, and then filling in the defaults.
pub proof fn lemma_resolve_is_layering(cli: HookConfig, local: HookConfig, global: HookConfig)
    ensures
        HookConfig::spec_resolve(cli, local, global) == HookConfig::spec_resolve(
            cli.spec_or(local.spec_or(global)),
            HookConfig::spec_unset(),
            HookConfig::spec_unset(),
        ),
{
}

} // verus!
