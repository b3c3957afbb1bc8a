use vstd::prelude::*;

use crate::book::BibleBook;

verus! {

/// Why a load from the text source failed.
#[derive(Copy, Clone, PartialEq, Eq, Structural, Debug)]
pub enum LoadError {
    /// The text source could not be opened at all.
    SourceUnavailable,
    /// A chapter fetch failed or returned malformed data.
    ChapterFetchFailed,
}

#[verifier::external_type_specification]
#[verifier::external_body]
pub struct ExConnection(rusqlite::Connection);

/// Relies on rusqlite::Connection::open_with_flags with the read-only flag:
/// it opens the database file at `path` or reports an error. Whether it
/// succeeds depends on what is on disk, so nothing more is promised.
#[verifier::external_body]
fn open_readonly(path: &str) -> (r: Result<rusqlite::Connection, LoadError>) {
    match rusqlite::Connection::open_with_flags(path, rusqlite::OpenFlags::SQLITE_OPEN_READ_ONLY) {
        Ok(c) => Ok(c),
        Err(_) => Err(LoadError::SourceUnavailable),
    }
}

/// Relies on rusqlite's Connection::prepare_cached, Statement::query_map and
/// Row::get: it runs one parameterised SELECT for the verse text of one
/// chapter and collects the rows in the order the source returns them. What
/// comes back depends on the database file, so nothing more is promised.
#[verifier::external_body]
fn fetch_chapter_rows(conn: &rusqlite::Connection, book_id: u8, chapter: u8) -> (r: Result<
    Vec<String>,
    LoadError,
>) {
    let rows = conn.prepare_cached("SELECT text FROM ASV_verses WHERE book_id = ? AND chapter = ?")
        .and_then(|mut stmt| {
            stmt.query_map([book_id as i32, chapter as i32], |row| row.get(0))?
                .collect::<Result<Vec<String>, _>>()
        });
    match rows {
        Ok(verses) => Ok(verses),
        Err(_) => Err(LoadError::ChapterFetchFailed),
    }
}

/// The verse store: owns the full text of exactly one book at a time, read
/// from the external text source, and serves chapter reads from its cache.
pub struct Database {
    connection: rusqlite::Connection,
    cache: Vec<Vec<String>>,
    book: BibleBook,
}

impl Database {
    /// The book the cache was last successfully loaded for.
    pub closed spec fn spec_book(self) -> BibleBook {
        self.book
    }

    /// The cached text: element `n - 1` holds the ordered verse lines of
    /// chapter `n`.
    pub closed spec fn contents(self) -> Seq<Seq<Seq<char>>> {
        self.cache.deep_view()
    }

    /// The cache holds an entry for every chapter of the current book: loads
    /// are all-or-nothing, so a store is never half-populated.
    pub open spec fn wf(self) -> bool {
        self.contents().len() == self.spec_book().spec_max_chapters()
    }

    /// What a read of chapter `n` yields: the cached lines for an in-range
    /// chapter number, nothing otherwise.
    pub open spec fn spec_chapter(self, n: int) -> Option<Seq<Seq<char>>> {
        if self.wf() && 1 <= n <= self.spec_book().spec_max_chapters() {
            Some(self.contents()[n - 1])
        } else {
            None
        }
    }

    /// Opens the text source at `path` and loads `book` in full; on any
    /// failure no store is produced at all.
    pub fn connect_and_load(path: &str, book: BibleBook) -> (r: Result<Database, LoadError>)
        ensures
            r matches Ok(db) ==> db.wf() && db.spec_book() == book,
    {
        let connection = match open_readonly(path) {
            Ok(c) => c,
            Err(e) => {
                return Err(e);
            },
        };
        let cache = match fetch_all(&connection, book) {
            Ok(v) => v,
            Err(e) => {
                return Err(e);
            },
        };
        Ok(Database { connection, cache, book })
    }

    /// The book the cache was last successfully loaded for.
    pub fn current_book(&self) -> (r: BibleBook)
        ensures
            r == self.spec_book(),
    {
        self.book
    }

    /// Serves chapter `num` from the cache: some lines exactly when `num`
    /// lies in `1..=max_chapter_count()` of the current book. An out-of-range
    /// number is a normal outcome and yields nothing, never a panic.
    pub fn get_chapter(&self, num: u8) -> (r: Option<&Vec<String>>)
        ensures
            self.wf() ==> (match r {
                Some(lines) => self.spec_chapter(num as int) == Some(lines.deep_view()),
                None => self.spec_chapter(num as int) is None,
            }),
            r matches Some(lines) ==> 1 <= num as int <= self.contents().len()
                && lines.deep_view() == self.contents()[num as int - 1],
    {
        if 1 <= num && (num as usize) <= self.cache.len() && num <= self.book.max_chapter_count() {
            Some(&self.cache[num as usize - 1])
        } else {
            None
        }
    }

    /// Installs a fully fetched book: the new cache replaces the old one in
    /// a single step, verbatim and in order.
    pub fn install_chapters(&mut self, book: BibleBook, chapters: Vec<Vec<String>>)
        requires
            chapters@.len() == book.spec_max_chapters(),
        ensures
            final(self).spec_book() == book,
            final(self).contents() == chapters.deep_view(),
            final(self).wf(),
    {
        self.book = book;
        self.cache = chapters;
    }

    /// Fetches every chapter of `book` from the text source and installs the
    /// result only if every single chapter fetch succeeds; on any failure the
    /// old book and cache stay exactly as they were.
    pub fn load_book(&mut self, book: BibleBook) -> (r: Result<(), LoadError>)
        ensures
            r is Ok ==> final(self).spec_book() == book && final(self).wf(),
            r is Err ==> *final(self) == *old(self),
            old(self).wf() ==> final(self).wf(),
    {
        let chapters = match fetch_all(&self.connection, book) {
            Ok(v) => v,
            Err(e) => {
                return Err(e);
            },
        };
        self.install_chapters(book, chapters);
        Ok(())
    }
}

/// Fetches the chapters `1..=max_chapter_count()` of `book`, in order; the
/// whole fetch fails as soon as any one chapter fails.
fn fetch_all(connection: &rusqlite::Connection, book: BibleBook) -> (r: Result<
    Vec<Vec<String>>,
    LoadError,
>)
    ensures
        r matches Ok(v) ==> v@.len() == book.spec_max_chapters(),
{
    let max = book.max_chapter_count();
    let id = book.rank();
    let mut chapters: Vec<Vec<String>> = Vec::new();
    let mut ch: u8 = 1;
    while ch <= max
        invariant
            1 <= ch <= max + 1,
            max as int == book.spec_max_chapters(),
            chapters@.len() == ch as int - 1,
        decreases max as int + 1 - ch as int,
    {
        let verses = match fetch_chapter_rows(connection, id, ch) {
            Ok(v) => v,
            Err(e) => {
                return Err(e);
            },
        };
        chapters.push(verses);
        ch = ch + 1;
    }
    Ok(chapters)
}

/// Law: after a book's chapters are installed, reading back the chapters
/// reproduces the installed text verbatim — chapter `n` in `1..=max` yields
/// exactly the lines installed for it, in order, and any `n` outside that
/// range yields nothing.
pub proof fn lemma_round_trip(db: Database, book: BibleBook, chapters: Seq<Seq<Seq<char>>>, n: int)
    requires
        db.wf(),
        db.spec_book() == book,
        db.contents() == chapters,
    ensures
        1 <= n <= book.spec_max_chapters() ==> db.spec_chapter(n) == Some(chapters[n - 1]),
        !(1 <= n <= book.spec_max_chapters()) ==> db.spec_chapter(n) is None,
{
}

} // verus!
