use verse::BibleBook;

fn all_books() -> Vec<BibleBook> {
    vec![
        BibleBook::Genesis,
        BibleBook::Exodus,
        BibleBook::Leviticus,
        BibleBook::Numbers,
        BibleBook::Deuteronomy,
        BibleBook::Joshua,
        BibleBook::Judges,
        BibleBook::Ruth,
        BibleBook::FirstSamuel,
        BibleBook::SecondSamuel,
        BibleBook::FirstKings,
        BibleBook::SecondKings,
        BibleBook::FirstChronicles,
        BibleBook::SecondChronicles,
        BibleBook::Ezra,
        BibleBook::Nehemiah,
        BibleBook::Esther,
        BibleBook::Job,
        BibleBook::Psalms,
        BibleBook::Proverbs,
        BibleBook::Ecclesiastes,
        BibleBook::SongOfSolomon,
        BibleBook::Isaiah,
        BibleBook::Jeremiah,
        BibleBook::Lamentations,
        BibleBook::Ezekiel,
        BibleBook::Daniel,
        BibleBook::Hosea,
        BibleBook::Joel,
        BibleBook::Amos,
        BibleBook::Obadiah,
        BibleBook::Jonah,
        BibleBook::Micah,
        BibleBook::Nahum,
        BibleBook::Habakkuk,
        BibleBook::Zephaniah,
        BibleBook::Haggai,
        BibleBook::Zechariah,
        BibleBook::Malachi,
        BibleBook::Matthew,
        BibleBook::Mark,
        BibleBook::Luke,
        BibleBook::John,
        BibleBook::Acts,
        BibleBook::Romans,
        BibleBook::FirstCorinthians,
        BibleBook::SecondCorinthians,
        BibleBook::Galatians,
        BibleBook::Ephesians,
        BibleBook::Philippians,
        BibleBook::Colossians,
        BibleBook::FirstThessalonians,
        BibleBook::SecondThessalonians,
        BibleBook::FirstTimothy,
        BibleBook::SecondTimothy,
        BibleBook::Titus,
        BibleBook::Philemon,
        BibleBook::Hebrews,
        BibleBook::James,
        BibleBook::FirstPeter,
        BibleBook::SecondPeter,
        BibleBook::FirstJohn,
        BibleBook::SecondJohn,
        BibleBook::ThirdJohn,
        BibleBook::Jude,
        BibleBook::Revelation,
    ]
}

#[test]
fn catalog_has_66_books_each_with_a_chapter() {
    let books = all_books();
    assert_eq!(books.len(), 66);
    for b in books {
        assert!(b.max_chapter_count() >= 1);
    }
}

#[test]
fn chapter_counts_total_the_canonical_1189() {
    let total: u32 = all_books().iter().map(|b| b.max_chapter_count() as u32).sum();
    assert_eq!(total, 1189);
}

#[test]
fn chapter_counts_of_known_books() {
    assert_eq!(BibleBook::Genesis.max_chapter_count(), 50);
    assert_eq!(BibleBook::Psalms.max_chapter_count(), 150);
    assert_eq!(BibleBook::Obadiah.max_chapter_count(), 1);
    assert_eq!(BibleBook::Haggai.max_chapter_count(), 2);
    assert_eq!(BibleBook::Zechariah.max_chapter_count(), 14);
    assert_eq!(BibleBook::John.max_chapter_count(), 21);
    assert_eq!(BibleBook::Revelation.max_chapter_count(), 22);
}

#[test]
fn display_names_of_known_books() {
    assert_eq!(BibleBook::Genesis.as_str(), "Genesis");
    assert_eq!(BibleBook::FirstSamuel.as_str(), "1 Samuel");
    assert_eq!(BibleBook::SongOfSolomon.as_str(), "Song of Solomon");
    assert_eq!(BibleBook::ThirdJohn.as_str(), "3 John");
}

#[test]
fn ranks_are_the_canonical_order() {
    let books = all_books();
    for (i, b) in books.iter().enumerate() {
        assert_eq!(b.rank() as usize, i + 1);
    }
}
