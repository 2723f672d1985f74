//! The services that the use cases need from the outside world: the Qur'an
//! content source, the local store and the sync endpoint. Adapters implement
//! these traits. Nothing is assumed of what they answer; each answer is only
//! tied, by a relation that the adapter itself defines, to the request that
//! it answers, so that a use case can state which request it made.
use vstd::prelude::*;

use crate::domain::{
    Ayah, AyahRef, Bookmark, BookmarkId, LanguageTag, SearchHit, SearchLimit, StudyProgress,
    SurahMeta, SurahNumber,
};

verus! {

/// A failure reported by an adapter, with its description.
#[derive(Debug, Clone)]
pub struct RepoError {
    pub message: String,
}

pub trait QuranReadRepository {
    /// `r` answers a request for the catalogue.
    closed spec fn catalogue_answer(&self, r: Result<Vec<SurahMeta>, RepoError>) -> bool {
        true
    }

    /// `r` answers a request for the ayah at `target` in language `lang`.
    closed spec fn ayah_answer(
        &self,
        target: (u16, u16),
        lang: Seq<char>,
        r: Result<Option<Ayah>, RepoError>,
    ) -> bool {
        true
    }

    /// `r` answers a request for the ayahs of surah `surah` in language `lang`.
    closed spec fn surah_answer(&self, surah: u16, lang: Seq<char>, r: Result<Vec<Ayah>, RepoError>) -> bool {
        true
    }

    /// `r` answers a search for `query` in the Arabic text and/or the
    /// translation, with at most `limit` hits.
    closed spec fn search_answer(
        &self,
        query: Seq<char>,
        search_quran: bool,
        search_translation: bool,
        limit: u16,
        r: Result<Vec<SearchHit>, RepoError>,
    ) -> bool {
        true
    }

    fn list_surahs(&self) -> (r: Result<Vec<SurahMeta>, RepoError>)
        ensures
            self.catalogue_answer(r),
    ;

    fn read_ayah(&self, target: AyahRef, lang: &LanguageTag) -> (r: Result<Option<Ayah>, RepoError>)
        ensures
            self.ayah_answer(target@, lang@, r),
    ;

    fn read_surah(&self, surah: SurahNumber, lang: &LanguageTag) -> (r: Result<Vec<Ayah>, RepoError>)
        ensures
            self.surah_answer(surah@, lang@, r),
    ;

    fn search(
        &self,
        query: &str,
        search_quran: bool,
        search_translation: bool,
        limit: SearchLimit,
    ) -> (r: Result<Vec<SearchHit>, RepoError>)
        ensures
            self.search_answer(query@, search_quran, search_translation, limit@, r),
    ;
}

pub trait BookmarkRepository {
    /// `r` answers a request to store a bookmark at `target` with `note`.
    closed spec fn add_answer(
        &self,
        target: (u16, u16),
        note: Option<Seq<char>>,
        r: Result<BookmarkId, RepoError>,
    ) -> bool {
        true
    }

    /// `r` answers a request for the stored bookmarks.
    closed spec fn list_answer(&self, r: Result<Vec<Bookmark>, RepoError>) -> bool {
        true
    }

    /// `r` answers a request to remove the bookmark with id `id`.
    closed spec fn removal_answer(&self, id: i64, r: Result<usize, RepoError>) -> bool {
        true
    }

    fn add_bookmark(&self, target: AyahRef, note: Option<&str>) -> (r: Result<BookmarkId, RepoError>)
        ensures
            self.add_answer(
                target@,
                match note {
                    Some(n) => Some(n@),
                    None => None,
                },
                r,
            ),
    ;

    fn list_bookmarks(&self) -> (r: Result<Vec<Bookmark>, RepoError>)
        ensures
            self.list_answer(r),
    ;

    fn remove_bookmark(&self, bookmark_id: BookmarkId) -> (r: Result<usize, RepoError>)
        ensures
            self.removal_answer(bookmark_id@, r),
    ;
}

pub trait ProgressRepository {
    /// `r` answers a request to store `target` as the last position read.
    closed spec fn store_answer(&self, target: (u16, u16), r: Result<(), RepoError>) -> bool {
        true
    }

    /// `r` answers a request for the last position read.
    closed spec fn progress_answer(&self, r: Result<Option<StudyProgress>, RepoError>) -> bool {
        true
    }

    fn set_progress(&self, target: AyahRef) -> (r: Result<(), RepoError>)
        ensures
            self.store_answer(target@, r),
    ;

    fn get_progress(&self) -> (r: Result<Option<StudyProgress>, RepoError>)
        ensures
            self.progress_answer(r),
    ;
}

pub trait HealthRepository {
    fn bookmark_count(&self) -> Result<i64, RepoError>;
}

pub trait SyncLogRepository {
    fn record_sync(&self, status: &str, message: &str) -> Result<(), RepoError>;
}

pub trait SyncGateway {
    fn ping(&self) -> Result<(), RepoError>;
}

} // verus!

