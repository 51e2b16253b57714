//! One module's entry in the cache: where it lives, what loading it gives, and how its
//! file is written.
//!
//! The entry decides; its caller reads and writes. [`ModuleCacheEntry::get_data`] takes
//! what the caller read at the entry's path. [`ModuleCacheEntry::update_data`] hands out
//! the bytes to write there, and [`StoreStep::after`] says, from one outcome to the next,
//! what the caller has to try until the file is written or given up.

use crate::conf::{cache_directory, cache_enabled, compression_level, enabled_in, read};
use crate::conf::{CacheConfig, Phase};
use crate::key::{key_of, FunctionBodyData, FunctionBodyView, Module, ModuleView, Sha256Hasher};
use crate::path::{lemma_resolved_tells_inputs, mod_filename_of, resolved, str_of};
use crate::path::{CachePath, CachePathView};
use crate::payload::{bytes_of, pack_error, packed, unpack_error, unpacked};
use crate::payload::{ModuleCacheData, PackError, Parts, UnpackError};
use vstd::prelude::*;

verus! {

/// The entry of one module, compiled once, in the cache.
pub struct ModuleCacheEntry {
    mod_cache_path: Option<CachePath>,
}

impl View for ModuleCacheEntry {
    type V = Option<CachePathView>;

    /// Where the entry lives; `None` where the cache is switched off.
    closed spec fn view(&self) -> Option<CachePathView> {
        match self.mod_cache_path {
            Some(path) => Some(path@),
            None => None,
        }
    }
}

/// Where the entry of a module lives under a configuration: nowhere unless the cache is
/// switched on, and else in the cache directory at the place that the module's key, the
/// target and the compiler give.
pub open spec fn located(
    phase: Phase,
    module: ModuleView,
    bodies: Seq<FunctionBodyView>,
    target: Seq<char>,
    compiler_name: Seq<char>,
    compiler_version: Seq<char>,
    build_stamp: Option<Seq<char>>,
    debug_info: bool,
) -> Option<CachePathView> {
    if enabled_in(phase) {
        Some(
            resolved(
                phase->Frozen_0.cache_dir,
                key_of(module, bodies),
                target,
                compiler_name,
                compiler_version,
                build_stamp,
                debug_info,
            ),
        )
    } else {
        None
    }
}

/// Why loading an entry gave no payload.
#[derive(Debug, Clone, Copy, PartialEq, Eq, Structural)]
pub enum Miss {
    /// The cache is switched off.
    Disabled,
    /// The file could not be read.
    Unreadable,
    /// The file is no compressed stream.
    Decompress,
    /// What the file expands to is no payload.
    Deserialize,
}

/// What loading gives for an entry and for what was read at its path (`None`: the file
/// could not be read).
pub open spec fn loaded(entry: Option<CachePathView>, file: Option<Seq<u8>>) -> Result<
    Parts,
    Miss,
> {
    if entry is None {
        Err(Miss::Disabled)
    } else if file is None {
        Err(Miss::Unreadable)
    } else {
        match unpacked(file->0) {
            Some(parts) => Ok(parts),
            None => match unpack_error(file->0) {
                Some(UnpackError::Decompress) => Err(Miss::Decompress),
                _ => Err(Miss::Deserialize),
            },
        }
    }
}

/// Why storing an entry wrote nothing.
#[derive(Debug, Clone, Copy, PartialEq, Eq, Structural)]
pub enum Skip {
    /// The cache is switched off.
    Disabled,
    /// The payload could not be serialized.
    Serialize,
    /// The serialized payload could not be compressed.
    Compress,
}

/// The compression level of a configuration that is fixed.
pub open spec fn level_in(phase: Phase) -> i32 {
    phase->Frozen_0.compression_level
}

/// The bytes to write for an entry and a payload at a compression level.
pub open spec fn to_store(entry: Option<CachePathView>, data: Parts, level: i32) -> Result<
    Seq<u8>,
    Skip,
> {
    if entry is None {
        Err(Skip::Disabled)
    } else {
        match packed(data, level) {
            Some(file) => Ok(file),
            None => match pack_error(data, level) {
                Some(PackError::Serialize) => Err(Skip::Serialize),
                _ => Err(Skip::Compress),
            },
        }
    }
}

impl ModuleCacheEntry {
    /// The entry of a module under the configuration in `cell`, which this reading fixes.
    pub fn new(
        cell: &mut CacheConfig,
        module: &Module,
        function_body_inputs: &Vec<FunctionBodyData>,
        target_triple: &str,
        compiler_name: &str,
        compiler_version: &str,
        build_stamp: Option<&str>,
        generate_debug_info: bool,
    ) -> (entry: Self)
        requires
            !(old(cell)@ is Preparing),
        ensures
            final(cell)@ == read(old(cell)@),
            entry@ == located(
                final(cell)@,
                module@,
                function_body_inputs.deep_view(),
                target_triple@,
                compiler_name@,
                compiler_version@,
                str_of(build_stamp),
                generate_debug_info,
            ),
    {
        let mod_cache_path = if cache_enabled(cell) {
            let hash = Sha256Hasher::digest(module, function_body_inputs);
            Some(
                CachePath::resolve(
                    cache_directory(cell).as_str(),
                    &hash,
                    target_triple,
                    compiler_name,
                    compiler_version,
                    build_stamp,
                    generate_debug_info,
                ),
            )
        } else {
            None
        };
        Self { mod_cache_path }
    }

    /// Where the entry lives; `None` where the cache is switched off.
    pub fn path(&self) -> (path: Option<&CachePath>)
        ensures
            match path {
                Some(path) => self@ == Some(path@),
                None => self@ is None,
            },
    {
        self.mod_cache_path.as_ref()
    }

    /// Loads the payload from what the caller read at the entry's path, and says why
    /// where there is none.
    pub fn load(&self, file: Option<Vec<u8>>) -> (out: Result<ModuleCacheData, Miss>)
        ensures
            match out {
                Ok(data) => loaded(self@, bytes_of(file)) == Ok::<Parts, Miss>(data@),
                Err(miss) => loaded(self@, bytes_of(file)) == Err::<Parts, Miss>(miss),
            },
    {
        if self.mod_cache_path.is_none() {
            return Err(Miss::Disabled);
        }
        match file {
            None => Err(Miss::Unreadable),
            Some(file) => match ModuleCacheData::unpack(file.as_slice()) {
                Ok(data) => Ok(data),
                Err(UnpackError::Decompress) => Err(Miss::Decompress),
                Err(UnpackError::Deserialize) => Err(Miss::Deserialize),
            },
        }
    }

    /// Loads the payload from what the caller read at the entry's path (`None`: the file
    /// could not be read). Every failure is a miss.
    pub fn get_data(&self, file: Option<Vec<u8>>) -> (out: Option<ModuleCacheData>)
        ensures
            match out {
                Some(data) => loaded(self@, bytes_of(file)) == Ok::<Parts, Miss>(data@),
                None => loaded(self@, bytes_of(file)) is Err,
            },
            self@ is None ==> out is None,
    {
        match self.load(file) {
            Ok(data) => Some(data),
            Err(_) => None,
        }
    }

    /// Makes the bytes to write at the entry's path, and says why where there are none.
    /// What [`ModuleCacheEntry::load`] makes of these bytes is the payload again.
    pub fn store(&self, cell: &CacheConfig, data: &ModuleCacheData) -> (out: Result<
        Vec<u8>,
        Skip,
    >)
        requires
            self@ is Some ==> enabled_in(cell@),
        ensures
            match out {
                Ok(file) => {
                    &&& to_store(self@, data@, level_in(cell@)) == Ok::<Seq<u8>, Skip>(file@)
                    &&& loaded(self@, Some(file@)) == Ok::<Parts, Miss>(data@)
                },
                Err(skip) => to_store(self@, data@, level_in(cell@)) == Err::<Seq<u8>, Skip>(
                    skip,
                ),
            },
    {
        if self.mod_cache_path.is_none() {
            return Err(Skip::Disabled);
        }
        match data.pack(compression_level(cell)) {
            Ok(file) => Ok(file),
            Err(PackError::Serialize) => Err(Skip::Serialize),
            Err(PackError::Compress) => Err(Skip::Compress),
        }
    }

    /// Makes the bytes to write at the entry's path, or `None` where nothing is to be
    /// written: the cache is switched off, or the payload could not be packed. What
    /// [`ModuleCacheEntry::get_data`] makes of these bytes is the payload again.
    pub fn update_data(&self, cell: &CacheConfig, data: &ModuleCacheData) -> (out: Option<
        Vec<u8>,
    >)
        requires
            self@ is Some ==> enabled_in(cell@),
        ensures
            match out {
                Some(file) => {
                    &&& to_store(self@, data@, level_in(cell@)) == Ok::<Seq<u8>, Skip>(file@)
                    &&& loaded(self@, Some(file@)) == Ok::<Parts, Miss>(data@)
                },
                None => to_store(self@, data@, level_in(cell@)) is Err,
            },
            self@ is None ==> out is None,
    {
        match self.store(cell, data) {
            Ok(file) => Some(file),
            Err(_) => None,
        }
    }
}

/// How one thing that the caller tried on disk ended.
#[derive(Debug, Clone, Copy, PartialEq, Eq, Structural)]
pub enum Outcome {
    /// It was done.
    Done,
    /// It failed because the file or directory does not exist.
    NotFound,
    /// It failed for another reason.
    Failed,
}

/// What the caller has to do next to get an entry's file written.
#[derive(Debug, Clone, Copy, PartialEq, Eq, Structural)]
pub enum StoreStep {
    /// Write the bytes to the entry's path.
    Write,
    /// Create the directory of the entry's path, with all its parents.
    CreateDir,
    /// Write the bytes to the entry's path once more.
    Rewrite,
    /// Remove whatever is at the entry's path.
    Remove,
    /// Nothing: the file is written.
    Stored,
    /// Nothing: the file is not written, and nothing of it is left.
    GivenUp,
}

/// What is worth a line in the log.
#[derive(Debug, Clone, Copy, PartialEq, Eq, Structural)]
pub enum StoreNote {
    /// The first write failed; the directory is created before the second.
    CreatingDir,
    /// The directory could not be created.
    CreateDirFailed,
    /// The second write failed too.
    WriteFailed,
    /// The leftover of the failed write could not be removed.
    CleanupFailed,
}

/// The step that follows `step` once it has ended with `outcome`, and what to note.
///
/// The file is written directly. Only if that fails is its directory created and the
/// write tried once more. If that fails too, what may be left of the file is removed; a
/// file that was not there is no failure of the removal.
pub open spec fn next_step(step: StoreStep, outcome: Outcome) -> (StoreStep, Option<StoreNote>) {
    match step {
        StoreStep::Write => if outcome is Done {
            (StoreStep::Stored, None)
        } else {
            (StoreStep::CreateDir, Some(StoreNote::CreatingDir))
        },
        StoreStep::CreateDir => if outcome is Done {
            (StoreStep::Rewrite, None)
        } else {
            (StoreStep::GivenUp, Some(StoreNote::CreateDirFailed))
        },
        StoreStep::Rewrite => if outcome is Done {
            (StoreStep::Stored, None)
        } else {
            (StoreStep::Remove, Some(StoreNote::WriteFailed))
        },
        StoreStep::Remove => if outcome is Failed {
            (StoreStep::GivenUp, Some(StoreNote::CleanupFailed))
        } else {
            (StoreStep::GivenUp, None)
        },
        StoreStep::Stored => (StoreStep::Stored, None),
        StoreStep::GivenUp => (StoreStep::GivenUp, None),
    }
}

impl StoreStep {
    /// Whether nothing is left to do.
    pub open spec fn is_final(self) -> bool {
        self is Stored || self is GivenUp
    }

    /// Whether nothing is left to do.
    pub fn finished(self) -> (done: bool)
        ensures
            done == self.is_final(),
    {
        match self {
            StoreStep::Stored => true,
            StoreStep::GivenUp => true,
            _ => false,
        }
    }

    /// The step that follows this one once it has ended with `outcome`, and what to note.
    pub fn after(self, outcome: Outcome) -> (out: (StoreStep, Option<StoreNote>))
        ensures
            out == next_step(self, outcome),
    {
        match self {
            StoreStep::Write => match outcome {
                Outcome::Done => (StoreStep::Stored, None),
                _ => (StoreStep::CreateDir, Some(StoreNote::CreatingDir)),
            },
            StoreStep::CreateDir => match outcome {
                Outcome::Done => (StoreStep::Rewrite, None),
                _ => (StoreStep::GivenUp, Some(StoreNote::CreateDirFailed)),
            },
            StoreStep::Rewrite => match outcome {
                Outcome::Done => (StoreStep::Stored, None),
                _ => (StoreStep::Remove, Some(StoreNote::WriteFailed)),
            },
            StoreStep::Remove => match outcome {
                Outcome::Failed => (StoreStep::GivenUp, Some(StoreNote::CleanupFailed)),
                _ => (StoreStep::GivenUp, None),
            },
            StoreStep::Stored => (StoreStep::Stored, None),
            StoreStep::GivenUp => (StoreStep::GivenUp, None),
        }
    }
}

/// How many steps a store may still take at most.
pub open spec fn steps_left(step: StoreStep) -> nat {
    match step {
        StoreStep::Write => 4,
        StoreStep::CreateDir => 3,
        StoreStep::Rewrite => 2,
        StoreStep::Remove => 1,
        StoreStep::Stored => 0,
        StoreStep::GivenUp => 0,
    }
}

/// Where a store stands after the outcomes of its steps, one after the other.
pub open spec fn run(step: StoreStep, outcomes: Seq<Outcome>) -> StoreStep
    decreases outcomes.len(),
{
    if outcomes.len() == 0 {
        step
    } else {
        run(next_step(step, outcomes.first()).0, outcomes.drop_first())
    }
}

/// Every step brings a store nearer to its end, and at its end nothing moves it.
pub proof fn lemma_store_advances(step: StoreStep, outcome: Outcome)
    ensures
        !step.is_final() ==> steps_left(next_step(step, outcome).0) < steps_left(step),
        step.is_final() ==> next_step(step, outcome) == (step, None::<StoreNote>),
        step.is_final() <==> steps_left(step) == 0,
{
}

/// A store is at its end once it has seen as many outcomes as it had steps left: after
/// four, wherever it began.
pub proof fn lemma_store_ends(step: StoreStep, outcomes: Seq<Outcome>)
    requires
        outcomes.len() >= steps_left(step),
    ensures
        run(step, outcomes).is_final(),
    decreases outcomes.len(),
{
    if outcomes.len() > 0 {
        lemma_store_advances(step, outcomes.first());
        lemma_store_ends(next_step(step, outcomes.first()).0, outcomes.drop_first());
    }
}

/// Only a write that was done makes a store end with the file written. After a second
/// write that failed, the next step removes what is left, and nothing else leads there.
pub proof fn lemma_store_is_all_or_nothing(step: StoreStep, outcome: Outcome)
    requires
        !step.is_final(),
    ensures
        next_step(step, outcome).0 is Stored <==> (step is Write || step is Rewrite) && outcome is Done,
        next_step(step, outcome).0 is Remove <==> step is Rewrite && !(outcome is Done),
        next_step(step, outcome).0 is GivenUp <==> step is Remove || (step is CreateDir && !(
        outcome is Done)),
{
}

/// Where the first write fails for want of the directory, or for whatever reason, and
/// the directory can then be created and the file written, the store ends with the file
/// written, by way of creating the directory and writing again.
pub proof fn lemma_store_creates_missing_dir(first: Outcome)
    requires
        !(first is Done),
    ensures
        next_step(StoreStep::Write, first).0 == StoreStep::CreateDir,
        next_step(StoreStep::CreateDir, Outcome::Done).0 == StoreStep::Rewrite,
        next_step(StoreStep::Rewrite, Outcome::Done).0 == StoreStep::Stored,
        run(StoreStep::Write, seq![first, Outcome::Done, Outcome::Done]) == StoreStep::Stored,
{
    let outcomes = seq![first, Outcome::Done, Outcome::Done];
    let second = outcomes.drop_first();
    let third = second.drop_first();
    assert(run(StoreStep::Stored, third.drop_first()) == StoreStep::Stored);
    assert(run(StoreStep::Rewrite, third) == StoreStep::Stored);
    assert(run(StoreStep::CreateDir, second) == StoreStep::Stored);
}

/// With the cache switched off an entry lives nowhere, loading gives nothing, and there
/// is nothing to write.
pub proof fn lemma_disabled_is_inert(
    phase: Phase,
    module: ModuleView,
    bodies: Seq<FunctionBodyView>,
    target: Seq<char>,
    compiler_name: Seq<char>,
    compiler_version: Seq<char>,
    build_stamp: Option<Seq<char>>,
    debug_info: bool,
    file: Option<Seq<u8>>,
    data: Parts,
    level: i32,
)
    requires
        !enabled_in(phase),
    ensures
        located(
            phase,
            module,
            bodies,
            target,
            compiler_name,
            compiler_version,
            build_stamp,
            debug_info,
        ) is None,
        loaded(None, file) == Err::<Parts, Miss>(Miss::Disabled),
        to_store(None, data, level) == Err::<Seq<u8>, Skip>(Skip::Disabled),
{
}

/// Under one configuration and for one compiler, two entries live at the same place only
/// if they have the same key, the same target and the same choice of debug information.
pub proof fn lemma_located_tells_inputs(
    phase: Phase,
    module: ModuleView,
    bodies: Seq<FunctionBodyView>,
    target: Seq<char>,
    debug_info: bool,
    other_module: ModuleView,
    other_bodies: Seq<FunctionBodyView>,
    other_target: Seq<char>,
    other_debug_info: bool,
    compiler_name: Seq<char>,
    compiler_version: Seq<char>,
    build_stamp: Option<Seq<char>>,
)
    requires
        enabled_in(phase),
        located(
            phase,
            module,
            bodies,
            target,
            compiler_name,
            compiler_version,
            build_stamp,
            debug_info,
        ) == located(
            phase,
            other_module,
            other_bodies,
            other_target,
            compiler_name,
            compiler_version,
            build_stamp,
            other_debug_info,
        ),
    ensures
        key_of(module, bodies) == key_of(other_module, other_bodies),
        target == other_target,
        debug_info == other_debug_info,
{
    let root = phase->Frozen_0.cache_dir;
    lemma_resolved_tells_inputs(
        root,
        key_of(module, bodies),
        target,
        debug_info,
        root,
        key_of(other_module, other_bodies),
        other_target,
        other_debug_info,
        compiler_name,
        compiler_version,
        build_stamp,
    );
}

/// The key of a module is the same for every target and with or without debug
/// information, but the entry lives elsewhere for another target, and elsewhere with
/// debug information than without.
pub proof fn lemma_target_and_debug_info_move_entry(
    phase: Phase,
    module: ModuleView,
    bodies: Seq<FunctionBodyView>,
    target: Seq<char>,
    debug_info: bool,
    other_target: Seq<char>,
    other_debug_info: bool,
    compiler_name: Seq<char>,
    compiler_version: Seq<char>,
    build_stamp: Option<Seq<char>>,
)
    requires
        enabled_in(phase),
        target != other_target || debug_info != other_debug_info,
    ensures
        located(
            phase,
            module,
            bodies,
            target,
            compiler_name,
            compiler_version,
            build_stamp,
            debug_info,
        ) != located(
            phase,
            module,
            bodies,
            other_target,
            compiler_name,
            compiler_version,
            build_stamp,
            other_debug_info,
        ),
        located(
            phase,
            module,
            bodies,
            target,
            compiler_name,
            compiler_version,
            build_stamp,
            debug_info,
        )->0.file_name == mod_filename_of(key_of(module, bodies), debug_info),
        located(
            phase,
            module,
            bodies,
            other_target,
            compiler_name,
            compiler_version,
            build_stamp,
            other_debug_info,
        )->0.file_name == mod_filename_of(key_of(module, bodies), other_debug_info),
{
    if located(
        phase,
        module,
        bodies,
        target,
        compiler_name,
        compiler_version,
        build_stamp,
        debug_info,
    ) == located(
        phase,
        module,
        bodies,
        other_target,
        compiler_name,
        compiler_version,
        build_stamp,
        other_debug_info,
    ) {
        lemma_located_tells_inputs(
            phase,
            module,
            bodies,
            target,
            debug_info,
            module,
            bodies,
            other_target,
            other_debug_info,
            compiler_name,
            compiler_version,
            build_stamp,
        );
    }
}

} // verus!
