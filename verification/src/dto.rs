//! Inputs and outputs of the use cases.
use std::marker::PhantomData;
use std::path::PathBuf;

use vstd::prelude::*;

use crate::domain::{Ayah, AyahRef, LanguageTag, PlanCount, QariId, SearchHit, SearchLimit, SurahNumber};

verus! {

#[verifier::external_type_specification]
#[verifier::external_body]
pub struct ExPathBuf(PathBuf);

/// Which texts a search looks in.
#[derive(Debug, Clone, Copy, PartialEq, Eq, Structural)]
pub enum SearchScope {
    Quran,
    Translation,
    All,
}

/// What to read: a whole surah or one ayah.
#[derive(Debug, Clone, Copy, PartialEq, Eq, Structural)]
pub enum ReadTarget {
    Surah(SurahNumber),
    Ayah(AyahRef),
}

#[derive(Debug)]
pub struct ReadInput {
    pub target: ReadTarget,
    pub lang: LanguageTag,
}

impl ReadInput {
    pub fn for_surah(surah: SurahNumber, lang: LanguageTag) -> (r: Self)
        ensures
            r.target == ReadTarget::Surah(surah),
            r.lang == lang,
    {
        ReadInput { target: ReadTarget::Surah(surah), lang }
    }

    pub fn for_ayah(target: AyahRef, lang: LanguageTag) -> (r: Self)
        ensures
            r.target == ReadTarget::Ayah(target),
            r.lang == lang,
    {
        ReadInput { target: ReadTarget::Ayah(target), lang }
    }
}

#[derive(Debug)]
pub struct PlayInput {
    pub target: ReadTarget,
    pub lang: LanguageTag,
    pub qari: Option<QariId>,
    pub fallback_qari: QariId,
}

#[derive(Debug)]
pub struct PlayOutput {
    pub ayahs: Vec<Ayah>,
    pub target_audio: Option<String>,
    pub selected_qari: Option<QariId>,
}

#[derive(Debug)]
pub enum ReadOutput {
    Single(Ayah),
    Surah(Vec<Ayah>),
}

#[derive(Debug)]
pub struct SearchInput {
    pub query: String,
    pub scope: SearchScope,
    pub limit: SearchLimit,
}

#[derive(Debug)]
pub struct SearchOutput {
    pub hits: Vec<SearchHit>,
}

#[derive(Debug)]
pub struct BookmarkAddInput {
    pub target: AyahRef,
    pub note: Option<String>,
}

#[derive(Debug)]
pub struct ContinueInput {
    pub lang: LanguageTag,
}

#[derive(Debug)]
pub struct ContinueOutput {
    pub ayah: Ayah,
}

#[derive(Debug)]
pub struct PlanInput {
    pub count: PlanCount,
    pub lang: LanguageTag,
}

#[derive(Debug)]
pub struct PlanOutput {
    pub ayahs: Vec<Ayah>,
}

/// Marks a sync request that has not been checked against the settings.
#[derive(Debug, Clone, Copy, Default, PartialEq, Eq, Structural)]
pub struct SyncUnchecked;

/// Marks a sync request that the settings allow to run.
#[derive(Debug, Clone, Copy, Default, PartialEq, Eq, Structural)]
pub struct SyncRunnable;

/// A sync request, tagged with whether it was checked.
#[derive(Debug)]
pub struct SyncInput<State = SyncUnchecked> {
    force: bool,
    sync_enabled: bool,
    _state: PhantomData<State>,
}

impl<State> SyncInput<State> {
    pub closed spec fn spec_force(&self) -> bool {
        self.force
    }

    pub closed spec fn spec_sync_enabled(&self) -> bool {
        self.sync_enabled
    }
}

impl<State> Clone for SyncInput<State> {
    fn clone(&self) -> (r: Self)
        ensures
            r.spec_force() == self.spec_force(),
            r.spec_sync_enabled() == self.spec_sync_enabled(),
    {
        SyncInput { force: self.force, sync_enabled: self.sync_enabled, _state: PhantomData }
    }
}

impl SyncInput<SyncUnchecked> {
    pub fn new(force: bool, sync_enabled: bool) -> (r: Self)
        ensures
            r.spec_force() == force,
            r.spec_sync_enabled() == sync_enabled,
    {
        SyncInput { force, sync_enabled, _state: PhantomData }
    }

    /// A sync runs when it is enabled in the settings or forced.
    pub fn should_run(&self) -> (r: bool)
        ensures
            r == (self.spec_sync_enabled() || self.spec_force()),
    {
        self.sync_enabled || self.force
    }

    /// The same request marked runnable, when it may run.
    pub fn into_runnable(self) -> (r: Option<SyncInput<SyncRunnable>>)
        ensures
            r is Some <==> (self.spec_sync_enabled() || self.spec_force()),
            r matches Some(x) ==> x.spec_force() == self.spec_force() && x.spec_sync_enabled()
                == self.spec_sync_enabled(),
    {
        if self.sync_enabled || self.force {
            Some(SyncInput { force: self.force, sync_enabled: self.sync_enabled, _state: PhantomData })
        } else {
            None
        }
    }
}

impl SyncInput<SyncRunnable> {
    pub fn force(&self) -> (r: bool)
        ensures
            r == self.spec_force(),
    {
        self.force
    }

    pub fn sync_enabled(&self) -> (r: bool)
        ensures
            r == self.spec_sync_enabled(),
    {
        self.sync_enabled
    }
}

/// How a sync ended.
#[derive(Debug, Clone)]
pub enum SyncStatus {
    Skipped,
    Success(String),
    Failure(String),
}

#[derive(Debug, Clone)]
pub struct SyncOutput {
    pub status: SyncStatus,
}

#[derive(Debug)]
pub struct DoctorOutput {
    pub home: PathBuf,
    pub config_path: PathBuf,
    pub db_path: PathBuf,
    pub config_exists: bool,
    pub db_exists: bool,
    pub bookmark_count: i64,
}

#[derive(Debug)]
pub struct DoctorInput {
    pub home: PathBuf,
    pub config_path: PathBuf,
    pub db_path: PathBuf,
}

} // verus!
