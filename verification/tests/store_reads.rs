use verse::BibleBook;
use verse::Database;
use verse::LoadError;

/// Builds (or rebuilds) a fresh verse table at `path` and fills it with the
/// given rows.
fn build_source(path: &str, rows: &[(u8, u8, &str)]) {
    let conn = rusqlite::Connection::open(path).expect("open fixture");
    conn.execute_batch(
        "DROP TABLE IF EXISTS ASV_verses;
         CREATE TABLE ASV_verses (book_id INTEGER, chapter INTEGER, text TEXT);",
    )
    .expect("create table");
    for (book_id, chapter, text) in rows {
        let sql = format!(
            "INSERT INTO ASV_verses VALUES ({}, {}, '{}');",
            book_id, chapter, text
        );
        conn.execute_batch(&sql).expect("insert row");
    }
}

#[test]
fn loaded_chapters_come_back_verbatim() {
    let path = "/tmp/verse_store_verbatim.db";
    build_source(
        path,
        &[
            (31, 1, "first line of the only chapter"),
            (31, 1, "second line of the only chapter"),
        ],
    );
    let db = Database::connect_and_load(path, BibleBook::Obadiah).expect("load Obadiah");
    assert_eq!(db.current_book(), BibleBook::Obadiah);
    let lines = db.get_chapter(1).expect("chapter 1 cached");
    assert_eq!(
        lines,
        &vec![
            String::from("first line of the only chapter"),
            String::from("second line of the only chapter"),
        ]
    );
}

#[test]
fn out_of_range_chapters_yield_nothing() {
    let path = "/tmp/verse_store_range.db";
    build_source(path, &[(31, 1, "a line")]);
    let db = Database::connect_and_load(path, BibleBook::Obadiah).expect("load Obadiah");
    assert!(db.get_chapter(0).is_none());
    assert!(db.get_chapter(2).is_none());
    assert!(db.get_chapter(255).is_none());
    assert!(db.get_chapter(1).is_some());
}

#[test]
fn every_in_range_chapter_is_served_after_load() {
    let path = "/tmp/verse_store_full.db";
    build_source(path, &[(65, 1, "the one verse of Jude")]);
    let db = Database::connect_and_load(path, BibleBook::Jude).expect("load Jude");
    for n in 1..=BibleBook::Jude.max_chapter_count() {
        assert!(db.get_chapter(n).is_some());
    }
    // A chapter with no rows in the source is legitimately empty, not absent.
    let path2 = "/tmp/verse_store_empty.db";
    build_source(path2, &[]);
    let db2 = Database::connect_and_load(path2, BibleBook::Ruth).expect("load Ruth");
    for n in 1..=BibleBook::Ruth.max_chapter_count() {
        assert_eq!(db2.get_chapter(n), Some(&Vec::new()));
    }
}

#[test]
fn unavailable_source_gives_source_unavailable() {
    let r = Database::connect_and_load("/tmp/no_such_dir_for_verse/none.db", BibleBook::Genesis);
    assert_eq!(r.err(), Some(LoadError::SourceUnavailable));
}

#[test]
fn failed_reload_keeps_the_old_book_intact() {
    let path = "/tmp/verse_store_rollback.db";
    build_source(path, &[(65, 1, "kept line")]);
    let mut db = Database::connect_and_load(path, BibleBook::Jude).expect("load Jude");
    // Break the source behind the store's back, then try to switch books.
    let saboteur = rusqlite::Connection::open(path).expect("reopen fixture");
    saboteur
        .execute_batch("DROP TABLE ASV_verses;")
        .expect("drop table");
    let r = db.load_book(BibleBook::Obadiah);
    assert_eq!(r, Err(LoadError::ChapterFetchFailed));
    assert_eq!(db.current_book(), BibleBook::Jude);
    assert_eq!(db.get_chapter(1), Some(&vec![String::from("kept line")]));
}

#[test]
fn install_chapters_replaces_the_cache_in_order() {
    let path = "/tmp/verse_store_install.db";
    build_source(path, &[]);
    let mut db = Database::connect_and_load(path, BibleBook::Obadiah).expect("load Obadiah");
    let chapters = vec![
        vec![String::from("Nahum one")],
        vec![String::from("Nahum two")],
        vec![String::from("Nahum three")],
    ];
    db.install_chapters(BibleBook::Nahum, chapters);
    assert_eq!(db.current_book(), BibleBook::Nahum);
    assert_eq!(db.get_chapter(1), Some(&vec![String::from("Nahum one")]));
    assert_eq!(db.get_chapter(2), Some(&vec![String::from("Nahum two")]));
    assert_eq!(db.get_chapter(3), Some(&vec![String::from("Nahum three")]));
    assert!(db.get_chapter(4).is_none());
}
