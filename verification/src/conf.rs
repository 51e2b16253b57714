//! Configuration of the cache: whether it is on, where it lives, how hard it compresses.
//!
//! The configuration lives in a [`CacheConfig`] that its owner hands to whoever needs it.
//! It is set at most once, by [`init`], and never changes after the first read: a read of
//! a configuration that nothing has set fixes it as switched off.
//!
//! Nothing here touches the disk. Where a directory has to be created, [`init`] names it,
//! the caller creates and canonicalizes it, and [`complete_init`] takes the outcome.

use vstd::prelude::*;

verus! {

/// The level that lets the compressor pick its own default.
pub const DEFAULT_COMPRESSION_LEVEL: i32 = 0;

/// Settings of the cache.
#[derive(Debug, Clone, PartialEq, Eq)]
pub struct Config {
    pub cache_enabled: bool,
    pub cache_dir: String,
    pub compression_level: i32,
}

/// What a [`Config`] holds, as plain values.
pub struct ConfigView {
    pub cache_enabled: bool,
    pub cache_dir: Seq<char>,
    pub compression_level: i32,
}

impl View for Config {
    type V = ConfigView;

    open spec fn view(&self) -> ConfigView {
        ConfigView {
            cache_enabled: self.cache_enabled,
            cache_dir: self.cache_dir@,
            compression_level: self.compression_level,
        }
    }
}

/// The settings of a cache that is switched off.
pub open spec fn disabled_config() -> ConfigView {
    ConfigView {
        cache_enabled: false,
        cache_dir: Seq::empty(),
        compression_level: DEFAULT_COMPRESSION_LEVEL,
    }
}

/// How the caller's attempt to create and canonicalize the cache directory ended.
#[derive(Debug, Clone, PartialEq, Eq)]
pub enum Prepared {
    /// The directory exists; this is its canonical, absolute path.
    Ready(String),
    /// The directory could not be created.
    CreateFailed,
    /// The directory was created, but its canonical path could not be had.
    CanonicalizeFailed,
}

/// What a [`Prepared`] holds, as plain values.
pub enum PreparedView {
    Ready(Seq<char>),
    CreateFailed,
    CanonicalizeFailed,
}

impl View for Prepared {
    type V = PreparedView;

    open spec fn view(&self) -> PreparedView {
        match self {
            Prepared::Ready(path) => PreparedView::Ready(path@),
            Prepared::CreateFailed => PreparedView::CreateFailed,
            Prepared::CanonicalizeFailed => PreparedView::CanonicalizeFailed,
        }
    }
}

/// How far the making of a [`Config`] has come without touching the disk.
#[derive(Debug, Clone, PartialEq, Eq)]
pub enum Setup {
    /// The settings are decided.
    Decided(Config),
    /// `dir` has to be created and canonicalized first; [`Config::new_step2`] takes over
    /// from there.
    Prepare { dir: String, compression_level: i32 },
}

/// What a [`Setup`] holds, as plain values.
pub enum SetupView {
    Decided(ConfigView),
    Prepare { dir: Seq<char>, compression_level: i32 },
}

impl View for Setup {
    type V = SetupView;

    open spec fn view(&self) -> SetupView {
        match self {
            Setup::Decided(config) => SetupView::Decided(config@),
            Setup::Prepare { dir, compression_level } => SetupView::Prepare {
                dir: dir@,
                compression_level: *compression_level,
            },
        }
    }
}

/// The characters of a string that may be absent.
pub open spec fn text_of(s: Option<String>) -> Option<Seq<char>> {
    match s {
        Some(s) => Some(s@),
        None => None,
    }
}

/// The first step towards a configuration. A cache that is not wanted is switched off
/// whatever else was asked. A wanted cache goes to the directory that was asked for, else
/// to the platform's default `found`; with neither it is switched off.
pub open spec fn plan(
    enabled: bool,
    dir: Option<Seq<char>>,
    found: Option<Seq<char>>,
    compression_level: i32,
) -> SetupView {
    if !enabled {
        SetupView::Decided(disabled_config())
    } else if dir is Some {
        SetupView::Prepare { dir: dir->0, compression_level }
    } else if found is Some {
        SetupView::Prepare { dir: found->0, compression_level }
    } else {
        SetupView::Decided(disabled_config())
    }
}

/// The second step: the cache is on exactly if its directory is ready, and then it lives
/// at the canonical path.
pub open spec fn settle(prepared: PreparedView, compression_level: i32) -> ConfigView {
    match prepared {
        PreparedView::Ready(path) => ConfigView {
            cache_enabled: true,
            cache_dir: path,
            compression_level,
        },
        _ => disabled_config(),
    }
}

/// Asks `directories::ProjectDirs::from` for the cache directory of the application that
/// the three names describe, and reads it out with `ProjectDirs::cache_dir`. The answer
/// depends on the user's environment, so nothing is claimed of it. A path that is not
/// valid Unicode comes back with the offending parts replaced.
#[verifier::external_body]
fn project_cache_dir(qualifier: &str, organization: &str, application: &str) -> (found: Option<
    String,
>) {
    match directories::ProjectDirs::from(qualifier, organization, application) {
        Some(dirs) => Some(dirs.cache_dir().to_string_lossy().into_owned()),
        None => None,
    }
}

impl Config {
    pub fn new_cache_disabled() -> (config: Config)
        ensures
            config@ == disabled_config(),
    {
        Config {
            cache_enabled: false,
            cache_dir: String::new(),
            compression_level: DEFAULT_COMPRESSION_LEVEL,
        }
    }

    /// The first step towards a configuration, given the platform's default directory.
    pub fn plan(
        enabled: bool,
        dir: Option<String>,
        found: Option<String>,
        compression_level: i32,
    ) -> (setup: Setup)
        ensures
            setup@ == plan(enabled, text_of(dir), text_of(found), compression_level),
    {
        if !enabled {
            return Setup::Decided(Config::new_cache_disabled());
        }
        match dir {
            Some(dir) => Setup::Prepare { dir, compression_level },
            None => match found {
                Some(dir) => Setup::Prepare { dir, compression_level },
                None => Setup::Decided(Config::new_cache_disabled()),
            },
        }
    }

    /// The first step towards a configuration. The platform's default directory is looked
    /// up only where the cache is wanted and no directory was asked for.
    pub fn new(enabled: bool, dir: Option<String>, compression_level: i32) -> (setup: Setup)
        ensures
            exists|found: Option<Seq<char>>|
                setup@ == #[trigger] plan(enabled, text_of(dir), found, compression_level),
            !enabled || dir is Some ==> setup@ == plan(
                enabled,
                text_of(dir),
                None,
                compression_level,
            ),
    {
        if enabled && dir.is_none() {
            let found = project_cache_dir("", "CraneStation", "wasmtime");
            let setup = Config::plan(enabled, dir, found, compression_level);
            setup
        } else {
            Config::plan(enabled, dir, None, compression_level)
        }
    }

    /// The second step: settles the configuration once the caller has tried to create and
    /// canonicalize the directory that [`Config::new`] named.
    pub fn new_step2(prepared: Prepared, compression_level: i32) -> (config: Config)
        ensures
            config@ == settle(prepared@, compression_level),
    {
        match prepared {
            Prepared::Ready(path) => Config {
                cache_enabled: true,
                cache_dir: path,
                compression_level,
            },
            Prepared::CanonicalizeFailed => Config::new_cache_disabled(),
            Prepared::CreateFailed => Config::new_cache_disabled(),
        }
    }
}

/// Where a [`CacheConfig`] stands.
pub enum Phase {
    /// Nothing has read or set the configuration yet.
    Unset,
    /// [`init`] has named a directory and waits for [`complete_init`].
    Preparing { compression_level: i32 },
    /// The configuration is fixed for good.
    Frozen(ConfigView),
}

/// Where a [`CacheConfig`] stands, without its settings.
#[derive(Debug, Clone, Copy, PartialEq, Eq, Structural)]
pub enum Stage {
    /// Nothing has read or set the configuration yet.
    Unset,
    /// [`init`] has named a directory and waits for [`complete_init`].
    Preparing,
    /// The configuration is fixed for good.
    Frozen,
}

/// Where a configuration stands, without its settings.
pub open spec fn stage_of(phase: Phase) -> Stage {
    match phase {
        Phase::Unset => Stage::Unset,
        Phase::Preparing { .. } => Stage::Preparing,
        Phase::Frozen(_) => Stage::Frozen,
    }
}

/// The one configuration of a cache, set at most once and frozen at its first use.
pub struct CacheConfig {
    stage: Stage,
    /// The settings once `stage` is `Frozen`; while it is `Preparing`, the level to come.
    config: Config,
}

impl View for CacheConfig {
    type V = Phase;

    closed spec fn view(&self) -> Phase {
        match self.stage {
            Stage::Unset => Phase::Unset,
            Stage::Preparing => Phase::Preparing {
                compression_level: self.config.compression_level,
            },
            Stage::Frozen => Phase::Frozen(self.config@),
        }
    }
}

/// Where a configuration stands after it was read: one that nothing had set is now fixed
/// as switched off, and any other is as it was.
pub open spec fn read(phase: Phase) -> Phase {
    match phase {
        Phase::Unset => Phase::Frozen(disabled_config()),
        _ => phase,
    }
}

/// Whether the configuration is fixed with the cache switched on.
pub open spec fn enabled_in(phase: Phase) -> bool {
    phase matches Phase::Frozen(config) && config.cache_enabled
}

/// Whether [`init`] may still be called.
pub open spec fn init_allowed(phase: Phase) -> bool {
    phase is Unset
}

/// Where a configuration stands once [`init`] has taken the first step, and the directory
/// that the caller has to prepare, if any.
pub open spec fn begun(setup: SetupView) -> (Phase, Option<Seq<char>>) {
    match setup {
        SetupView::Decided(config) => (Phase::Frozen(config), None),
        SetupView::Prepare { dir, compression_level } => (
            Phase::Preparing { compression_level },
            Some(dir),
        ),
    }
}

/// The compression level that was asked for, or the default.
pub open spec fn level_or_default(compression_level: Option<i32>) -> i32 {
    match compression_level {
        Some(level) => level,
        None => DEFAULT_COMPRESSION_LEVEL,
    }
}

impl CacheConfig {
    /// A configuration that nothing has read or set.
    pub fn new() -> (cell: CacheConfig)
        ensures
            cell@ == Phase::Unset,
    {
        CacheConfig { stage: Stage::Unset, config: Config::new_cache_disabled() }
    }

    /// Where the configuration stands. Asking does not fix it.
    pub fn stage(&self) -> (stage: Stage)
        ensures
            stage == stage_of(self@),
    {
        self.stage
    }

    /// The settings, once they are fixed. Asking does not fix them.
    pub fn frozen(&self) -> (config: Option<&Config>)
        ensures
            match config {
                Some(config) => self@ == Phase::Frozen(config@),
                None => !(self@ is Frozen),
            },
    {
        match self.stage {
            Stage::Frozen => Some(&self.config),
            _ => None,
        }
    }
}

/// Returns true if and only if the cache is enabled. A configuration that nothing has set
/// is fixed as switched off by this read.
pub fn cache_enabled(cell: &mut CacheConfig) -> (enabled: bool)
    requires
        !(old(cell)@ is Preparing),
    ensures
        final(cell)@ == read(old(cell)@),
        enabled == enabled_in(final(cell)@),
{
    if let Stage::Unset = cell.stage {
        cell.config = Config::new_cache_disabled();
        cell.stage = Stage::Frozen;
    }
    cell.config.cache_enabled
}

/// Returns the path of the cache directory. Only an enabled cache has one.
pub fn cache_directory(cell: &CacheConfig) -> (dir: &String)
    requires
        enabled_in(cell@),
    ensures
        dir@ == cell@->Frozen_0.cache_dir,
{
    &cell.config.cache_dir
}

/// Returns the compression level of the cache. Only an enabled cache has one.
pub fn compression_level(cell: &CacheConfig) -> (level: i32)
    requires
        enabled_in(cell@),
    ensures
        level == cell@->Frozen_0.compression_level,
{
    cell.config.compression_level
}

/// Initializes the cache system: to be called at most once, and before anything has read
/// the configuration. Returns the directory that the caller now has to create and
/// canonicalize before it calls [`complete_init`]; with `None` the configuration is
/// already fixed.
pub fn init(
    cell: &mut CacheConfig,
    enabled: bool,
    dir: Option<String>,
    compression_level: Option<i32>,
) -> (todo: Option<String>)
    requires
        init_allowed(old(cell)@),
    ensures
        exists|found: Option<Seq<char>>|
            (final(cell)@, text_of(todo)) == begun(
                #[trigger] plan(
                    enabled,
                    text_of(dir),
                    found,
                    level_or_default(compression_level),
                ),
            ),
        !enabled || dir is Some ==> (final(cell)@, text_of(todo)) == begun(
            plan(enabled, text_of(dir), None, level_or_default(compression_level)),
        ),
{
    let level = match compression_level {
        Some(level) => level,
        None => DEFAULT_COMPRESSION_LEVEL,
    };
    match Config::new(enabled, dir, level) {
        Setup::Decided(config) => {
            cell.config = config;
            cell.stage = Stage::Frozen;
            None
        },
        Setup::Prepare { dir, compression_level } => {
            cell.config.compression_level = compression_level;
            cell.stage = Stage::Preparing;
            Some(dir)
        },
    }
}

/// Fixes the configuration once the caller has tried to prepare the directory that
/// [`init`] named.
pub fn complete_init(cell: &mut CacheConfig, prepared: Prepared)
    requires
        old(cell)@ is Preparing,
    ensures
        final(cell)@ == Phase::Frozen(settle(prepared@, old(cell)@->compression_level)),
{
    cell.config = Config::new_step2(prepared, cell.config.compression_level);
    cell.stage = Stage::Frozen;
}

/// A configuration that was read is fixed: a second read changes nothing, and `init` may
/// no longer be called. Where nothing had set it, the first read fixed it as switched off.
pub proof fn lemma_read_freezes(phase: Phase)
    ensures
        read(read(phase)) == read(phase),
        !init_allowed(read(phase)),
        phase is Unset ==> read(phase) == Phase::Frozen(disabled_config()),
        phase is Unset ==> !enabled_in(read(phase)),
        enabled_in(read(phase)) == enabled_in(phase),
{
}

/// A cache that was not asked for stays off whatever directory and level came with the
/// request, and nothing is left to prepare.
pub proof fn lemma_not_enabled_is_disabled(
    dir: Option<Seq<char>>,
    found: Option<Seq<char>>,
    compression_level: i32,
)
    ensures
        begun(plan(false, dir, found, compression_level)) == (
            Phase::Frozen(disabled_config()),
            None::<Seq<char>>,
        ),
{
}

/// Whatever was asked for and however the directory fared, the configuration that comes
/// out is switched on only with a directory that is ready, and is otherwise exactly the
/// switched-off one.
pub proof fn lemma_failure_disables(prepared: PreparedView, compression_level: i32)
    ensures
        settle(prepared, compression_level).cache_enabled <==> prepared is Ready,
        !(prepared is Ready) ==> settle(prepared, compression_level) == disabled_config(),
{
}

} // verus!
