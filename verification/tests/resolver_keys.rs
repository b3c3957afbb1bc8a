use verse::minimum_prefix_match;
use verse::BibleBook;

fn key_table() -> Vec<(&'static str, BibleBook)> {
    vec![
        ("ge", BibleBook::Genesis),
        ("ex", BibleBook::Exodus),
        ("le", BibleBook::Leviticus),
        ("nu", BibleBook::Numbers),
        ("de", BibleBook::Deuteronomy),
        ("jos", BibleBook::Joshua),
        ("judg", BibleBook::Judges),
        ("ru", BibleBook::Ruth),
        ("1s", BibleBook::FirstSamuel),
        ("2s", BibleBook::SecondSamuel),
        ("1k", BibleBook::FirstKings),
        ("2k", BibleBook::SecondKings),
        ("1ch", BibleBook::FirstChronicles),
        ("2ch", BibleBook::SecondChronicles),
        ("ezr", BibleBook::Ezra),
        ("ne", BibleBook::Nehemiah),
        ("es", BibleBook::Esther),
        ("job", BibleBook::Job),
        ("ps", BibleBook::Psalms),
        ("pr", BibleBook::Proverbs),
        ("ec", BibleBook::Ecclesiastes),
        ("s", BibleBook::SongOfSolomon),
        ("i", BibleBook::Isaiah),
        ("je", BibleBook::Jeremiah),
        ("la", BibleBook::Lamentations),
        ("eze", BibleBook::Ezekiel),
        ("da", BibleBook::Daniel),
        ("ho", BibleBook::Hosea),
        ("joe", BibleBook::Joel),
        ("am", BibleBook::Amos),
        ("o", BibleBook::Obadiah),
        ("jon", BibleBook::Jonah),
        ("mi", BibleBook::Micah),
        ("na", BibleBook::Nahum),
        ("hab", BibleBook::Habakkuk),
        ("zep", BibleBook::Zephaniah),
        ("hag", BibleBook::Haggai),
        ("zec", BibleBook::Zechariah),
        ("mal", BibleBook::Malachi),
        ("mat", BibleBook::Matthew),
        ("mar", BibleBook::Mark),
        ("lu", BibleBook::Luke),
        ("joh", BibleBook::John),
        ("ac", BibleBook::Acts),
        ("ro", BibleBook::Romans),
        ("1co", BibleBook::FirstCorinthians),
        ("2co", BibleBook::SecondCorinthians),
        ("ga", BibleBook::Galatians),
        ("ep", BibleBook::Ephesians),
        ("phili", BibleBook::Philippians),
        ("c", BibleBook::Colossians),
        ("1th", BibleBook::FirstThessalonians),
        ("2th", BibleBook::SecondThessalonians),
        ("1ti", BibleBook::FirstTimothy),
        ("2ti", BibleBook::SecondTimothy),
        ("t", BibleBook::Titus),
        ("phile", BibleBook::Philemon),
        ("he", BibleBook::Hebrews),
        ("ja", BibleBook::James),
        ("1p", BibleBook::FirstPeter),
        ("2p", BibleBook::SecondPeter),
        ("1j", BibleBook::FirstJohn),
        ("2j", BibleBook::SecondJohn),
        ("3", BibleBook::ThirdJohn),
        ("jude", BibleBook::Jude),
        ("re", BibleBook::Revelation),
    ]
}

#[test]
fn every_key_resolves_to_its_book() {
    for (key, book) in key_table() {
        assert_eq!(minimum_prefix_match(key), Some(book));
    }
}

#[test]
fn strict_prefixes_of_keys_resolve_to_nothing() {
    for (key, _) in key_table() {
        for cut in 0..key.len() {
            assert_eq!(minimum_prefix_match(&key[..cut]), None);
        }
    }
}

#[test]
fn non_key_buffers_resolve_to_nothing() {
    assert_eq!(minimum_prefix_match(""), None);
    assert_eq!(minimum_prefix_match("j"), None);
    assert_eq!(minimum_prefix_match("jo"), None);
    assert_eq!(minimum_prefix_match("genesis"), None);
    assert_eq!(minimum_prefix_match("ge "), None);
    assert_eq!(minimum_prefix_match("Ge"), None);
    assert_eq!(minimum_prefix_match("xq"), None);
}
