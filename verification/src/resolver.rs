use vstd::prelude::*;

use crate::book::BibleBook;

verus! {

/// The book's minimal unique prefix key: the shortest leading substring of
/// the book's lowercase display name, spaces removed, that no other book's
/// name shares. Typing this key in full selects the book.
pub open spec fn book_key(b: BibleBook) -> Seq<char> {
    match b {
        BibleBook::Genesis => "ge"@,
        BibleBook::Exodus => "ex"@,
        BibleBook::Leviticus => "le"@,
        BibleBook::Numbers => "nu"@,
        BibleBook::Deuteronomy => "de"@,
        BibleBook::Joshua => "jos"@,
        BibleBook::Judges => "judg"@,
        BibleBook::Ruth => "ru"@,
        BibleBook::FirstSamuel => "1s"@,
        BibleBook::SecondSamuel => "2s"@,
        BibleBook::FirstKings => "1k"@,
        BibleBook::SecondKings => "2k"@,
        BibleBook::FirstChronicles => "1ch"@,
        BibleBook::SecondChronicles => "2ch"@,
        BibleBook::Ezra => "ezr"@,
        BibleBook::Nehemiah => "ne"@,
        BibleBook::Esther => "es"@,
        BibleBook::Job => "job"@,
        BibleBook::Psalms => "ps"@,
        BibleBook::Proverbs => "pr"@,
        BibleBook::Ecclesiastes => "ec"@,
        BibleBook::SongOfSolomon => "s"@,
        BibleBook::Isaiah => "i"@,
        BibleBook::Jeremiah => "je"@,
        BibleBook::Lamentations => "la"@,
        BibleBook::Ezekiel => "eze"@,
        BibleBook::Daniel => "da"@,
        BibleBook::Hosea => "ho"@,
        BibleBook::Joel => "joe"@,
        BibleBook::Amos => "am"@,
        BibleBook::Obadiah => "o"@,
        BibleBook::Jonah => "jon"@,
        BibleBook::Micah => "mi"@,
        BibleBook::Nahum => "na"@,
        BibleBook::Habakkuk => "hab"@,
        BibleBook::Zephaniah => "zep"@,
        BibleBook::Haggai => "hag"@,
        BibleBook::Zechariah => "zec"@,
        BibleBook::Malachi => "mal"@,
        BibleBook::Matthew => "mat"@,
        BibleBook::Mark => "mar"@,
        BibleBook::Luke => "lu"@,
        BibleBook::John => "joh"@,
        BibleBook::Acts => "ac"@,
        BibleBook::Romans => "ro"@,
        BibleBook::FirstCorinthians => "1co"@,
        BibleBook::SecondCorinthians => "2co"@,
        BibleBook::Galatians => "ga"@,
        BibleBook::Ephesians => "ep"@,
        BibleBook::Philippians => "phili"@,
        BibleBook::Colossians => "c"@,
        BibleBook::FirstThessalonians => "1th"@,
        BibleBook::SecondThessalonians => "2th"@,
        BibleBook::FirstTimothy => "1ti"@,
        BibleBook::SecondTimothy => "2ti"@,
        BibleBook::Titus => "t"@,
        BibleBook::Philemon => "phile"@,
        BibleBook::Hebrews => "he"@,
        BibleBook::James => "ja"@,
        BibleBook::FirstPeter => "1p"@,
        BibleBook::SecondPeter => "2p"@,
        BibleBook::FirstJohn => "1j"@,
        BibleBook::SecondJohn => "2j"@,
        BibleBook::ThirdJohn => "3"@,
        BibleBook::Jude => "jude"@,
        BibleBook::Revelation => "re"@,
    }
}

/// Relies on str's PartialEq, which holds exactly when the two slices have
/// the same character contents.
#[verifier::external_body]
fn str_eq(a: &str, b: &str) -> (r: bool)
    ensures
        r == (a@ == b@),
{
    a == b
}

/// Decides whether `prefix` is exactly the minimal unique prefix key of some
/// book, and if so of which. A buffer that equals no key, in particular any
/// strict prefix of a key, identifies nothing.
pub fn minimum_prefix_match(prefix: &str) -> (r: Option<BibleBook>)
    ensures
        match r {
            Some(b) => prefix@ == book_key(b),
            None => forall|b: BibleBook| prefix@ != book_key(b),
        },
{
    if str_eq(prefix, "ge") {
        Some(BibleBook::Genesis)
    } else if str_eq(prefix, "ex") {
        Some(BibleBook::Exodus)
    } else if str_eq(prefix, "le") {
        Some(BibleBook::Leviticus)
    } else if str_eq(prefix, "nu") {
        Some(BibleBook::Numbers)
    } else if str_eq(prefix, "de") {
        Some(BibleBook::Deuteronomy)
    } else if str_eq(prefix, "jos") {
        Some(BibleBook::Joshua)
    } else if str_eq(prefix, "judg") {
        Some(BibleBook::Judges)
    } else if str_eq(prefix, "ru") {
        Some(BibleBook::Ruth)
    } else if str_eq(prefix, "1s") {
        Some(BibleBook::FirstSamuel)
    } else if str_eq(prefix, "2s") {
        Some(BibleBook::SecondSamuel)
    } else if str_eq(prefix, "1k") {
        Some(BibleBook::FirstKings)
    } else if str_eq(prefix, "2k") {
        Some(BibleBook::SecondKings)
    } else if str_eq(prefix, "1ch") {
        Some(BibleBook::FirstChronicles)
    } else if str_eq(prefix, "2ch") {
        Some(BibleBook::SecondChronicles)
    } else if str_eq(prefix, "ezr") {
        Some(BibleBook::Ezra)
    } else if str_eq(prefix, "ne") {
        Some(BibleBook::Nehemiah)
    } else if str_eq(prefix, "es") {
        Some(BibleBook::Esther)
    } else if str_eq(prefix, "job") {
        Some(BibleBook::Job)
    } else if str_eq(prefix, "ps") {
        Some(BibleBook::Psalms)
    } else if str_eq(prefix, "pr") {
        Some(BibleBook::Proverbs)
    } else if str_eq(prefix, "ec") {
        Some(BibleBook::Ecclesiastes)
    } else if str_eq(prefix, "s") {
        Some(BibleBook::SongOfSolomon)
    } else if str_eq(prefix, "i") {
        Some(BibleBook::Isaiah)
    } else if str_eq(prefix, "je") {
        Some(BibleBook::Jeremiah)
    } else if str_eq(prefix, "la") {
        Some(BibleBook::Lamentations)
    } else if str_eq(prefix, "eze") {
        Some(BibleBook::Ezekiel)
    } else if str_eq(prefix, "da") {
        Some(BibleBook::Daniel)
    } else if str_eq(prefix, "ho") {
        Some(BibleBook::Hosea)
    } else if str_eq(prefix, "joe") {
        Some(BibleBook::Joel)
    } else if str_eq(prefix, "am") {
        Some(BibleBook::Amos)
    } else if str_eq(prefix, "o") {
        Some(BibleBook::Obadiah)
    } else if str_eq(prefix, "jon") {
        Some(BibleBook::Jonah)
    } else if str_eq(prefix, "mi") {
        Some(BibleBook::Micah)
    } else if str_eq(prefix, "na") {
        Some(BibleBook::Nahum)
    } else if str_eq(prefix, "hab") {
        Some(BibleBook::Habakkuk)
    } else if str_eq(prefix, "zep") {
        Some(BibleBook::Zephaniah)
    } else if str_eq(prefix, "hag") {
        Some(BibleBook::Haggai)
    } else if str_eq(prefix, "zec") {
        Some(BibleBook::Zechariah)
    } else if str_eq(prefix, "mal") {
        Some(BibleBook::Malachi)
    } else if str_eq(prefix, "mat") {
        Some(BibleBook::Matthew)
    } else if str_eq(prefix, "mar") {
        Some(BibleBook::Mark)
    } else if str_eq(prefix, "lu") {
        Some(BibleBook::Luke)
    } else if str_eq(prefix, "joh") {
        Some(BibleBook::John)
    } else if str_eq(prefix, "ac") {
        Some(BibleBook::Acts)
    } else if str_eq(prefix, "ro") {
        Some(BibleBook::Romans)
    } else if str_eq(prefix, "1co") {
        Some(BibleBook::FirstCorinthians)
    } else if str_eq(prefix, "2co") {
        Some(BibleBook::SecondCorinthians)
    } else if str_eq(prefix, "ga") {
        Some(BibleBook::Galatians)
    } else if str_eq(prefix, "ep") {
        Some(BibleBook::Ephesians)
    } else if str_eq(prefix, "phili") {
        Some(BibleBook::Philippians)
    } else if str_eq(prefix, "c") {
        Some(BibleBook::Colossians)
    } else if str_eq(prefix, "1th") {
        Some(BibleBook::FirstThessalonians)
    } else if str_eq(prefix, "2th") {
        Some(BibleBook::SecondThessalonians)
    } else if str_eq(prefix, "1ti") {
        Some(BibleBook::FirstTimothy)
    } else if str_eq(prefix, "2ti") {
        Some(BibleBook::SecondTimothy)
    } else if str_eq(prefix, "t") {
        Some(BibleBook::Titus)
    } else if str_eq(prefix, "phile") {
        Some(BibleBook::Philemon)
    } else if str_eq(prefix, "he") {
        Some(BibleBook::Hebrews)
    } else if str_eq(prefix, "ja") {
        Some(BibleBook::James)
    } else if str_eq(prefix, "1p") {
        Some(BibleBook::FirstPeter)
    } else if str_eq(prefix, "2p") {
        Some(BibleBook::SecondPeter)
    } else if str_eq(prefix, "1j") {
        Some(BibleBook::FirstJohn)
    } else if str_eq(prefix, "2j") {
        Some(BibleBook::SecondJohn)
    } else if str_eq(prefix, "3") {
        Some(BibleBook::ThirdJohn)
    } else if str_eq(prefix, "jude") {
        Some(BibleBook::Jude)
    } else if str_eq(prefix, "re") {
        Some(BibleBook::Revelation)
    } else {
        None
    }
}

/// Law: distinct books have distinct keys, so a buffer equal to some book's
/// key selects that book and no other.
#[verifier::rlimit(100)]
pub proof fn lemma_keys_injective(b1: BibleBook, b2: BibleBook)
    requires
        book_key(b1) == book_key(b2),
    ensures
        b1 == b2,
{
    match b1 {
        BibleBook::Genesis => {
            reveal_strlit("ge");
            assert(book_key(b1).len() == 2 && book_key(b1)[0] == 'g' && book_key(b1)[1] == 'e');
        }
        BibleBook::Exodus => {
            reveal_strlit("ex");
            assert(book_key(b1).len() == 2 && book_key(b1)[0] == 'e' && book_key(b1)[1] == 'x');
        }
        BibleBook::Leviticus => {
            reveal_strlit("le");
            assert(book_key(b1).len() == 2 && book_key(b1)[0] == 'l' && book_key(b1)[1] == 'e');
        }
        BibleBook::Numbers => {
            reveal_strlit("nu");
            assert(book_key(b1).len() == 2 && book_key(b1)[0] == 'n' && book_key(b1)[1] == 'u');
        }
        BibleBook::Deuteronomy => {
            reveal_strlit("de");
            assert(book_key(b1).len() == 2 && book_key(b1)[0] == 'd' && book_key(b1)[1] == 'e');
        }
        BibleBook::Joshua => {
            reveal_strlit("jos");
            assert(book_key(b1).len() == 3 && book_key(b1)[0] == 'j' && book_key(b1)[1] == 'o' && book_key(b1)[2] == 's');
        }
        BibleBook::Judges => {
            reveal_strlit("judg");
            assert(book_key(b1).len() == 4 && book_key(b1)[0] == 'j' && book_key(b1)[1] == 'u' && book_key(b1)[2] == 'd' && book_key(b1)[3] == 'g');
        }
        BibleBook::Ruth => {
            reveal_strlit("ru");
            assert(book_key(b1).len() == 2 && book_key(b1)[0] == 'r' && book_key(b1)[1] == 'u');
        }
        BibleBook::FirstSamuel => {
            reveal_strlit("1s");
            assert(book_key(b1).len() == 2 && book_key(b1)[0] == '1' && book_key(b1)[1] == 's');
        }
        BibleBook::SecondSamuel => {
            reveal_strlit("2s");
            assert(book_key(b1).len() == 2 && book_key(b1)[0] == '2' && book_key(b1)[1] == 's');
        }
        BibleBook::FirstKings => {
            reveal_strlit("1k");
            assert(book_key(b1).len() == 2 && book_key(b1)[0] == '1' && book_key(b1)[1] == 'k');
        }
        BibleBook::SecondKings => {
            reveal_strlit("2k");
            assert(book_key(b1).len() == 2 && book_key(b1)[0] == '2' && book_key(b1)[1] == 'k');
        }
        BibleBook::FirstChronicles => {
            reveal_strlit("1ch");
            assert(book_key(b1).len() == 3 && book_key(b1)[0] == '1' && book_key(b1)[1] == 'c' && book_key(b1)[2] == 'h');
        }
        BibleBook::SecondChronicles => {
            reveal_strlit("2ch");
            assert(book_key(b1).len() == 3 && book_key(b1)[0] == '2' && book_key(b1)[1] == 'c' && book_key(b1)[2] == 'h');
        }
        BibleBook::Ezra => {
            reveal_strlit("ezr");
            assert(book_key(b1).len() == 3 && book_key(b1)[0] == 'e' && book_key(b1)[1] == 'z' && book_key(b1)[2] == 'r');
        }
        BibleBook::Nehemiah => {
            reveal_strlit("ne");
            assert(book_key(b1).len() == 2 && book_key(b1)[0] == 'n' && book_key(b1)[1] == 'e');
        }
        BibleBook::Esther => {
            reveal_strlit("es");
            assert(book_key(b1).len() == 2 && book_key(b1)[0] == 'e' && book_key(b1)[1] == 's');
        }
        BibleBook::Job => {
            reveal_strlit("job");
            assert(book_key(b1).len() == 3 && book_key(b1)[0] == 'j' && book_key(b1)[1] == 'o' && book_key(b1)[2] == 'b');
        }
        BibleBook::Psalms => {
            reveal_strlit("ps");
            assert(book_key(b1).len() == 2 && book_key(b1)[0] == 'p' && book_key(b1)[1] == 's');
        }
        BibleBook::Proverbs => {
            reveal_strlit("pr");
            assert(book_key(b1).len() == 2 && book_key(b1)[0] == 'p' && book_key(b1)[1] == 'r');
        }
        BibleBook::Ecclesiastes => {
            reveal_strlit("ec");
            assert(book_key(b1).len() == 2 && book_key(b1)[0] == 'e' && book_key(b1)[1] == 'c');
        }
        BibleBook::SongOfSolomon => {
            reveal_strlit("s");
            assert(book_key(b1).len() == 1 && book_key(b1)[0] == 's');
        }
        BibleBook::Isaiah => {
            reveal_strlit("i");
            assert(book_key(b1).len() == 1 && book_key(b1)[0] == 'i');
        }
        BibleBook::Jeremiah => {
            reveal_strlit("je");
            assert(book_key(b1).len() == 2 && book_key(b1)[0] == 'j' && book_key(b1)[1] == 'e');
        }
        BibleBook::Lamentations => {
            reveal_strlit("la");
            assert(book_key(b1).len() == 2 && book_key(b1)[0] == 'l' && book_key(b1)[1] == 'a');
        }
        BibleBook::Ezekiel => {
            reveal_strlit("eze");
            assert(book_key(b1).len() == 3 && book_key(b1)[0] == 'e' && book_key(b1)[1] == 'z' && book_key(b1)[2] == 'e');
        }
        BibleBook::Daniel => {
            reveal_strlit("da");
            assert(book_key(b1).len() == 2 && book_key(b1)[0] == 'd' && book_key(b1)[1] == 'a');
        }
        BibleBook::Hosea => {
            reveal_strlit("ho");
            assert(book_key(b1).len() == 2 && book_key(b1)[0] == 'h' && book_key(b1)[1] == 'o');
        }
        BibleBook::Joel => {
            reveal_strlit("joe");
            assert(book_key(b1).len() == 3 && book_key(b1)[0] == 'j' && book_key(b1)[1] == 'o' && book_key(b1)[2] == 'e');
        }
        BibleBook::Amos => {
            reveal_strlit("am");
            assert(book_key(b1).len() == 2 && book_key(b1)[0] == 'a' && book_key(b1)[1] == 'm');
        }
        BibleBook::Obadiah => {
            reveal_strlit("o");
            assert(book_key(b1).len() == 1 && book_key(b1)[0] == 'o');
        }
        BibleBook::Jonah => {
            reveal_strlit("jon");
            assert(book_key(b1).len() == 3 && book_key(b1)[0] == 'j' && book_key(b1)[1] == 'o' && book_key(b1)[2] == 'n');
        }
        BibleBook::Micah => {
            reveal_strlit("mi");
            assert(book_key(b1).len() == 2 && book_key(b1)[0] == 'm' && book_key(b1)[1] == 'i');
        }
        BibleBook::Nahum => {
            reveal_strlit("na");
            assert(book_key(b1).len() == 2 && book_key(b1)[0] == 'n' && book_key(b1)[1] == 'a');
        }
        BibleBook::Habakkuk => {
            reveal_strlit("hab");
            assert(book_key(b1).len() == 3 && book_key(b1)[0] == 'h' && book_key(b1)[1] == 'a' && book_key(b1)[2] == 'b');
        }
        BibleBook::Zephaniah => {
            reveal_strlit("zep");
            assert(book_key(b1).len() == 3 && book_key(b1)[0] == 'z' && book_key(b1)[1] == 'e' && book_key(b1)[2] == 'p');
        }
        BibleBook::Haggai => {
            reveal_strlit("hag");
            assert(book_key(b1).len() == 3 && book_key(b1)[0] == 'h' && book_key(b1)[1] == 'a' && book_key(b1)[2] == 'g');
        }
        BibleBook::Zechariah => {
            reveal_strlit("zec");
            assert(book_key(b1).len() == 3 && book_key(b1)[0] == 'z' && book_key(b1)[1] == 'e' && book_key(b1)[2] == 'c');
        }
        BibleBook::Malachi => {
            reveal_strlit("mal");
            assert(book_key(b1).len() == 3 && book_key(b1)[0] == 'm' && book_key(b1)[1] == 'a' && book_key(b1)[2] == 'l');
        }
        BibleBook::Matthew => {
            reveal_strlit("mat");
            assert(book_key(b1).len() == 3 && book_key(b1)[0] == 'm' && book_key(b1)[1] == 'a' && book_key(b1)[2] == 't');
        }
        BibleBook::Mark => {
            reveal_strlit("mar");
            assert(book_key(b1).len() == 3 && book_key(b1)[0] == 'm' && book_key(b1)[1] == 'a' && book_key(b1)[2] == 'r');
        }
        BibleBook::Luke => {
            reveal_strlit("lu");
            assert(book_key(b1).len() == 2 && book_key(b1)[0] == 'l' && book_key(b1)[1] == 'u');
        }
        BibleBook::John => {
            reveal_strlit("joh");
            assert(book_key(b1).len() == 3 && book_key(b1)[0] == 'j' && book_key(b1)[1] == 'o' && book_key(b1)[2] == 'h');
        }
        BibleBook::Acts => {
            reveal_strlit("ac");
            assert(book_key(b1).len() == 2 && book_key(b1)[0] == 'a' && book_key(b1)[1] == 'c');
        }
        BibleBook::Romans => {
            reveal_strlit("ro");
            assert(book_key(b1).len() == 2 && book_key(b1)[0] == 'r' && book_key(b1)[1] == 'o');
        }
        BibleBook::FirstCorinthians => {
            reveal_strlit("1co");
            assert(book_key(b1).len() == 3 && book_key(b1)[0] == '1' && book_key(b1)[1] == 'c' && book_key(b1)[2] == 'o');
        }
        BibleBook::SecondCorinthians => {
            reveal_strlit("2co");
            assert(book_key(b1).len() == 3 && book_key(b1)[0] == '2' && book_key(b1)[1] == 'c' && book_key(b1)[2] == 'o');
        }
        BibleBook::Galatians => {
            reveal_strlit("ga");
            assert(book_key(b1).len() == 2 && book_key(b1)[0] == 'g' && book_key(b1)[1] == 'a');
        }
        BibleBook::Ephesians => {
            reveal_strlit("ep");
            assert(book_key(b1).len() == 2 && book_key(b1)[0] == 'e' && book_key(b1)[1] == 'p');
        }
        BibleBook::Philippians => {
            reveal_strlit("phili");
            assert(book_key(b1).len() == 5 && book_key(b1)[0] == 'p' && book_key(b1)[1] == 'h' && book_key(b1)[2] == 'i' && book_key(b1)[3] == 'l' && book_key(b1)[4] == 'i');
        }
        BibleBook::Colossians => {
            reveal_strlit("c");
            assert(book_key(b1).len() == 1 && book_key(b1)[0] == 'c');
        }
        BibleBook::FirstThessalonians => {
            reveal_strlit("1th");
            assert(book_key(b1).len() == 3 && book_key(b1)[0] == '1' && book_key(b1)[1] == 't' && book_key(b1)[2] == 'h');
        }
        BibleBook::SecondThessalonians => {
            reveal_strlit("2th");
            assert(book_key(b1).len() == 3 && book_key(b1)[0] == '2' && book_key(b1)[1] == 't' && book_key(b1)[2] == 'h');
        }
        BibleBook::FirstTimothy => {
            reveal_strlit("1ti");
            assert(book_key(b1).len() == 3 && book_key(b1)[0] == '1' && book_key(b1)[1] == 't' && book_key(b1)[2] == 'i');
        }
        BibleBook::SecondTimothy => {
            reveal_strlit("2ti");
            assert(book_key(b1).len() == 3 && book_key(b1)[0] == '2' && book_key(b1)[1] == 't' && book_key(b1)[2] == 'i');
        }
        BibleBook::Titus => {
            reveal_strlit("t");
            assert(book_key(b1).len() == 1 && book_key(b1)[0] == 't');
        }
        BibleBook::Philemon => {
            reveal_strlit("phile");
            assert(book_key(b1).len() == 5 && book_key(b1)[0] == 'p' && book_key(b1)[1] == 'h' && book_key(b1)[2] == 'i' && book_key(b1)[3] == 'l' && book_key(b1)[4] == 'e');
        }
        BibleBook::Hebrews => {
            reveal_strlit("he");
            assert(book_key(b1).len() == 2 && book_key(b1)[0] == 'h' && book_key(b1)[1] == 'e');
        }
        BibleBook::James => {
            reveal_strlit("ja");
            assert(book_key(b1).len() == 2 && book_key(b1)[0] == 'j' && book_key(b1)[1] == 'a');
        }
        BibleBook::FirstPeter => {
            reveal_strlit("1p");
            assert(book_key(b1).len() == 2 && book_key(b1)[0] == '1' && book_key(b1)[1] == 'p');
        }
        BibleBook::SecondPeter => {
            reveal_strlit("2p");
            assert(book_key(b1).len() == 2 && book_key(b1)[0] == '2' && book_key(b1)[1] == 'p');
        }
        BibleBook::FirstJohn => {
            reveal_strlit("1j");
            assert(book_key(b1).len() == 2 && book_key(b1)[0] == '1' && book_key(b1)[1] == 'j');
        }
        BibleBook::SecondJohn => {
            reveal_strlit("2j");
            assert(book_key(b1).len() == 2 && book_key(b1)[0] == '2' && book_key(b1)[1] == 'j');
        }
        BibleBook::ThirdJohn => {
            reveal_strlit("3");
            assert(book_key(b1).len() == 1 && book_key(b1)[0] == '3');
        }
        BibleBook::Jude => {
            reveal_strlit("jude");
            assert(book_key(b1).len() == 4 && book_key(b1)[0] == 'j' && book_key(b1)[1] == 'u' && book_key(b1)[2] == 'd' && book_key(b1)[3] == 'e');
        }
        BibleBook::Revelation => {
            reveal_strlit("re");
            assert(book_key(b1).len() == 2 && book_key(b1)[0] == 'r' && book_key(b1)[1] == 'e');
        }
    }
    match b2 {
        BibleBook::Genesis => {
            reveal_strlit("ge");
            assert(book_key(b2).len() == 2 && book_key(b2)[0] == 'g' && book_key(b2)[1] == 'e');
        }
        BibleBook::Exodus => {
            reveal_strlit("ex");
            assert(book_key(b2).len() == 2 && book_key(b2)[0] == 'e' && book_key(b2)[1] == 'x');
        }
        BibleBook::Leviticus => {
            reveal_strlit("le");
            assert(book_key(b2).len() == 2 && book_key(b2)[0] == 'l' && book_key(b2)[1] == 'e');
        }
        BibleBook::Numbers => {
            reveal_strlit("nu");
            assert(book_key(b2).len() == 2 && book_key(b2)[0] == 'n' && book_key(b2)[1] == 'u');
        }
        BibleBook::Deuteronomy => {
            reveal_strlit("de");
            assert(book_key(b2).len() == 2 && book_key(b2)[0] == 'd' && book_key(b2)[1] == 'e');
        }
        BibleBook::Joshua => {
            reveal_strlit("jos");
            assert(book_key(b2).len() == 3 && book_key(b2)[0] == 'j' && book_key(b2)[1] == 'o' && book_key(b2)[2] == 's');
        }
        BibleBook::Judges => {
            reveal_strlit("judg");
            assert(book_key(b2).len() == 4 && book_key(b2)[0] == 'j' && book_key(b2)[1] == 'u' && book_key(b2)[2] == 'd' && book_key(b2)[3] == 'g');
        }
        BibleBook::Ruth => {
            reveal_strlit("ru");
            assert(book_key(b2).len() == 2 && book_key(b2)[0] == 'r' && book_key(b2)[1] == 'u');
        }
        BibleBook::FirstSamuel => {
            reveal_strlit("1s");
            assert(book_key(b2).len() == 2 && book_key(b2)[0] == '1' && book_key(b2)[1] == 's');
        }
        BibleBook::SecondSamuel => {
            reveal_strlit("2s");
            assert(book_key(b2).len() == 2 && book_key(b2)[0] == '2' && book_key(b2)[1] == 's');
        }
        BibleBook::FirstKings => {
            reveal_strlit("1k");
            assert(book_key(b2).len() == 2 && book_key(b2)[0] == '1' && book_key(b2)[1] == 'k');
        }
        BibleBook::SecondKings => {
            reveal_strlit("2k");
            assert(book_key(b2).len() == 2 && book_key(b2)[0] == '2' && book_key(b2)[1] == 'k');
        }
        BibleBook::FirstChronicles => {
            reveal_strlit("1ch");
            assert(book_key(b2).len() == 3 && book_key(b2)[0] == '1' && book_key(b2)[1] == 'c' && book_key(b2)[2] == 'h');
        }
        BibleBook::SecondChronicles => {
            reveal_strlit("2ch");
            assert(book_key(b2).len() == 3 && book_key(b2)[0] == '2' && book_key(b2)[1] == 'c' && book_key(b2)[2] == 'h');
        }
        BibleBook::Ezra => {
            reveal_strlit("ezr");
            assert(book_key(b2).len() == 3 && book_key(b2)[0] == 'e' && book_key(b2)[1] == 'z' && book_key(b2)[2] == 'r');
        }
        BibleBook::Nehemiah => {
            reveal_strlit("ne");
            assert(book_key(b2).len() == 2 && book_key(b2)[0] == 'n' && book_key(b2)[1] == 'e');
        }
        BibleBook::Esther => {
            reveal_strlit("es");
            assert(book_key(b2).len() == 2 && book_key(b2)[0] == 'e' && book_key(b2)[1] == 's');
        }
        BibleBook::Job => {
            reveal_strlit("job");
            assert(book_key(b2).len() == 3 && book_key(b2)[0] == 'j' && book_key(b2)[1] == 'o' && book_key(b2)[2] == 'b');
        }
        BibleBook::Psalms => {
            reveal_strlit("ps");
            assert(book_key(b2).len() == 2 && book_key(b2)[0] == 'p' && book_key(b2)[1] == 's');
        }
        BibleBook::Proverbs => {
            reveal_strlit("pr");
            assert(book_key(b2).len() == 2 && book_key(b2)[0] == 'p' && book_key(b2)[1] == 'r');
        }
        BibleBook::Ecclesiastes => {
            reveal_strlit("ec");
            assert(book_key(b2).len() == 2 && book_key(b2)[0] == 'e' && book_key(b2)[1] == 'c');
        }
        BibleBook::SongOfSolomon => {
            reveal_strlit("s");
            assert(book_key(b2).len() == 1 && book_key(b2)[0] == 's');
        }
        BibleBook::Isaiah => {
            reveal_strlit("i");
            assert(book_key(b2).len() == 1 && book_key(b2)[0] == 'i');
        }
        BibleBook::Jeremiah => {
            reveal_strlit("je");
            assert(book_key(b2).len() == 2 && book_key(b2)[0] == 'j' && book_key(b2)[1] == 'e');
        }
        BibleBook::Lamentations => {
            reveal_strlit("la");
            assert(book_key(b2).len() == 2 && book_key(b2)[0] == 'l' && book_key(b2)[1] == 'a');
        }
        BibleBook::Ezekiel => {
            reveal_strlit("eze");
            assert(book_key(b2).len() == 3 && book_key(b2)[0] == 'e' && book_key(b2)[1] == 'z' && book_key(b2)[2] == 'e');
        }
        BibleBook::Daniel => {
            reveal_strlit("da");
            assert(book_key(b2).len() == 2 && book_key(b2)[0] == 'd' && book_key(b2)[1] == 'a');
        }
        BibleBook::Hosea => {
            reveal_strlit("ho");
            assert(book_key(b2).len() == 2 && book_key(b2)[0] == 'h' && book_key(b2)[1] == 'o');
        }
        BibleBook::Joel => {
            reveal_strlit("joe");
            assert(book_key(b2).len() == 3 && book_key(b2)[0] == 'j' && book_key(b2)[1] == 'o' && book_key(b2)[2] == 'e');
        }
        BibleBook::Amos => {
            reveal_strlit("am");
            assert(book_key(b2).len() == 2 && book_key(b2)[0] == 'a' && book_key(b2)[1] == 'm');
        }
        BibleBook::Obadiah => {
            reveal_strlit("o");
            assert(book_key(b2).len() == 1 && book_key(b2)[0] == 'o');
        }
        BibleBook::Jonah => {
            reveal_strlit("jon");
            assert(book_key(b2).len() == 3 && book_key(b2)[0] == 'j' && book_key(b2)[1] == 'o' && book_key(b2)[2] == 'n');
        }
        BibleBook::Micah => {
            reveal_strlit("mi");
            assert(book_key(b2).len() == 2 && book_key(b2)[0] == 'm' && book_key(b2)[1] == 'i');
        }
        BibleBook::Nahum => {
            reveal_strlit("na");
            assert(book_key(b2).len() == 2 && book_key(b2)[0] == 'n' && book_key(b2)[1] == 'a');
        }
        BibleBook::Habakkuk => {
            reveal_strlit("hab");
            assert(book_key(b2).len() == 3 && book_key(b2)[0] == 'h' && book_key(b2)[1] == 'a' && book_key(b2)[2] == 'b');
        }
        BibleBook::Zephaniah => {
            reveal_strlit("zep");
            assert(book_key(b2).len() == 3 && book_key(b2)[0] == 'z' && book_key(b2)[1] == 'e' && book_key(b2)[2] == 'p');
        }
        BibleBook::Haggai => {
            reveal_strlit("hag");
            assert(book_key(b2).len() == 3 && book_key(b2)[0] == 'h' && book_key(b2)[1] == 'a' && book_key(b2)[2] == 'g');
        }
        BibleBook::Zechariah => {
            reveal_strlit("zec");
            assert(book_key(b2).len() == 3 && book_key(b2)[0] == 'z' && book_key(b2)[1] == 'e' && book_key(b2)[2] == 'c');
        }
        BibleBook::Malachi => {
            reveal_strlit("mal");
            assert(book_key(b2).len() == 3 && book_key(b2)[0] == 'm' && book_key(b2)[1] == 'a' && book_key(b2)[2] == 'l');
        }
        BibleBook::Matthew => {
            reveal_strlit("mat");
            assert(book_key(b2).len() == 3 && book_key(b2)[0] == 'm' && book_key(b2)[1] == 'a' && book_key(b2)[2] == 't');
        }
        BibleBook::Mark => {
            reveal_strlit("mar");
            assert(book_key(b2).len() == 3 && book_key(b2)[0] == 'm' && book_key(b2)[1] == 'a' && book_key(b2)[2] == 'r');
        }
        BibleBook::Luke => {
            reveal_strlit("lu");
            assert(book_key(b2).len() == 2 && book_key(b2)[0] == 'l' && book_key(b2)[1] == 'u');
        }
        BibleBook::John => {
            reveal_strlit("joh");
            assert(book_key(b2).len() == 3 && book_key(b2)[0] == 'j' && book_key(b2)[1] == 'o' && book_key(b2)[2] == 'h');
        }
        BibleBook::Acts => {
            reveal_strlit("ac");
            assert(book_key(b2).len() == 2 && book_key(b2)[0] == 'a' && book_key(b2)[1] == 'c');
        }
        BibleBook::Romans => {
            reveal_strlit("ro");
            assert(book_key(b2).len() == 2 && book_key(b2)[0] == 'r' && book_key(b2)[1] == 'o');
        }
        BibleBook::FirstCorinthians => {
            reveal_strlit("1co");
            assert(book_key(b2).len() == 3 && book_key(b2)[0] == '1' && book_key(b2)[1] == 'c' && book_key(b2)[2] == 'o');
        }
        BibleBook::SecondCorinthians => {
            reveal_strlit("2co");
            assert(book_key(b2).len() == 3 && book_key(b2)[0] == '2' && book_key(b2)[1] == 'c' && book_key(b2)[2] == 'o');
        }
        BibleBook::Galatians => {
            reveal_strlit("ga");
            assert(book_key(b2).len() == 2 && book_key(b2)[0] == 'g' && book_key(b2)[1] == 'a');
        }
        BibleBook::Ephesians => {
            reveal_strlit("ep");
            assert(book_key(b2).len() == 2 && book_key(b2)[0] == 'e' && book_key(b2)[1] == 'p');
        }
        BibleBook::Philippians => {
            reveal_strlit("phili");
            assert(book_key(b2).len() == 5 && book_key(b2)[0] == 'p' && book_key(b2)[1] == 'h' && book_key(b2)[2] == 'i' && book_key(b2)[3] == 'l' && book_key(b2)[4] == 'i');
        }
        BibleBook::Colossians => {
            reveal_strlit("c");
            assert(book_key(b2).len() == 1 && book_key(b2)[0] == 'c');
        }
        BibleBook::FirstThessalonians => {
            reveal_strlit("1th");
            assert(book_key(b2).len() == 3 && book_key(b2)[0] == '1' && book_key(b2)[1] == 't' && book_key(b2)[2] == 'h');
        }
        BibleBook::SecondThessalonians => {
            reveal_strlit("2th");
            assert(book_key(b2).len() == 3 && book_key(b2)[0] == '2' && book_key(b2)[1] == 't' && book_key(b2)[2] == 'h');
        }
        BibleBook::FirstTimothy => {
            reveal_strlit("1ti");
            assert(book_key(b2).len() == 3 && book_key(b2)[0] == '1' && book_key(b2)[1] == 't' && book_key(b2)[2] == 'i');
        }
        BibleBook::SecondTimothy => {
            reveal_strlit("2ti");
            assert(book_key(b2).len() == 3 && book_key(b2)[0] == '2' && book_key(b2)[1] == 't' && book_key(b2)[2] == 'i');
        }
        BibleBook::Titus => {
            reveal_strlit("t");
            assert(book_key(b2).len() == 1 && book_key(b2)[0] == 't');
        }
        BibleBook::Philemon => {
            reveal_strlit("phile");
            assert(book_key(b2).len() == 5 && book_key(b2)[0] == 'p' && book_key(b2)[1] == 'h' && book_key(b2)[2] == 'i' && book_key(b2)[3] == 'l' && book_key(b2)[4] == 'e');
        }
        BibleBook::Hebrews => {
            reveal_strlit("he");
            assert(book_key(b2).len() == 2 && book_key(b2)[0] == 'h' && book_key(b2)[1] == 'e');
        }
        BibleBook::James => {
            reveal_strlit("ja");
            assert(book_key(b2).len() == 2 && book_key(b2)[0] == 'j' && book_key(b2)[1] == 'a');
        }
        BibleBook::FirstPeter => {
            reveal_strlit("1p");
            assert(book_key(b2).len() == 2 && book_key(b2)[0] == '1' && book_key(b2)[1] == 'p');
        }
        BibleBook::SecondPeter => {
            reveal_strlit("2p");
            assert(book_key(b2).len() == 2 && book_key(b2)[0] == '2' && book_key(b2)[1] == 'p');
        }
        BibleBook::FirstJohn => {
            reveal_strlit("1j");
            assert(book_key(b2).len() == 2 && book_key(b2)[0] == '1' && book_key(b2)[1] == 'j');
        }
        BibleBook::SecondJohn => {
            reveal_strlit("2j");
            assert(book_key(b2).len() == 2 && book_key(b2)[0] == '2' && book_key(b2)[1] == 'j');
        }
        BibleBook::ThirdJohn => {
            reveal_strlit("3");
            assert(book_key(b2).len() == 1 && book_key(b2)[0] == '3');
        }
        BibleBook::Jude => {
            reveal_strlit("jude");
            assert(book_key(b2).len() == 4 && book_key(b2)[0] == 'j' && book_key(b2)[1] == 'u' && book_key(b2)[2] == 'd' && book_key(b2)[3] == 'e');
        }
        BibleBook::Revelation => {
            reveal_strlit("re");
            assert(book_key(b2).len() == 2 && book_key(b2)[0] == 'r' && book_key(b2)[1] == 'e');
        }
    }
}

/// Law: no key is a prefix of another key, so a strict prefix of a book's
/// key equals no key at all, and a buffer holding one resolves to nothing.
#[verifier::rlimit(100)]
pub proof fn lemma_keys_prefix_free(b1: BibleBook, b2: BibleBook, n: int)
    requires
        0 <= n < book_key(b1).len(),
    ensures
        book_key(b1).subrange(0, n) != book_key(b2),
{
    let p = book_key(b1).subrange(0, n);
    match b1 {
        BibleBook::Genesis => {
            reveal_strlit("ge");
            assert(book_key(b1).len() == 2 && book_key(b1)[0] == 'g' && book_key(b1)[1] == 'e');
            if n == 1 {
                assert(p.len() == 1 && p[0] == 'g');
            } else {
                assert(p.len() == n);
            }
        }
        BibleBook::Exodus => {
            reveal_strlit("ex");
            assert(book_key(b1).len() == 2 && book_key(b1)[0] == 'e' && book_key(b1)[1] == 'x');
            if n == 1 {
                assert(p.len() == 1 && p[0] == 'e');
            } else {
                assert(p.len() == n);
            }
        }
        BibleBook::Leviticus => {
            reveal_strlit("le");
            assert(book_key(b1).len() == 2 && book_key(b1)[0] == 'l' && book_key(b1)[1] == 'e');
            if n == 1 {
                assert(p.len() == 1 && p[0] == 'l');
            } else {
                assert(p.len() == n);
            }
        }
        BibleBook::Numbers => {
            reveal_strlit("nu");
            assert(book_key(b1).len() == 2 && book_key(b1)[0] == 'n' && book_key(b1)[1] == 'u');
            if n == 1 {
                assert(p.len() == 1 && p[0] == 'n');
            } else {
                assert(p.len() == n);
            }
        }
        BibleBook::Deuteronomy => {
            reveal_strlit("de");
            assert(book_key(b1).len() == 2 && book_key(b1)[0] == 'd' && book_key(b1)[1] == 'e');
            if n == 1 {
                assert(p.len() == 1 && p[0] == 'd');
            } else {
                assert(p.len() == n);
            }
        }
        BibleBook::Joshua => {
            reveal_strlit("jos");
            assert(book_key(b1).len() == 3 && book_key(b1)[0] == 'j' && book_key(b1)[1] == 'o' && book_key(b1)[2] == 's');
            if n == 1 {
                assert(p.len() == 1 && p[0] == 'j');
            } else if n == 2 {
                assert(p.len() == 2 && p[0] == 'j' && p[1] == 'o');
            } else {
                assert(p.len() == n);
            }
        }
        BibleBook::Judges => {
            reveal_strlit("judg");
            assert(book_key(b1).len() == 4 && book_key(b1)[0] == 'j' && book_key(b1)[1] == 'u' && book_key(b1)[2] == 'd' && book_key(b1)[3] == 'g');
            if n == 1 {
                assert(p.len() == 1 && p[0] == 'j');
            } else if n == 2 {
                assert(p.len() == 2 && p[0] == 'j' && p[1] == 'u');
            } else if n == 3 {
                assert(p.len() == 3 && p[0] == 'j' && p[1] == 'u' && p[2] == 'd');
            } else {
                assert(p.len() == n);
            }
        }
        BibleBook::Ruth => {
            reveal_strlit("ru");
            assert(book_key(b1).len() == 2 && book_key(b1)[0] == 'r' && book_key(b1)[1] == 'u');
            if n == 1 {
                assert(p.len() == 1 && p[0] == 'r');
            } else {
                assert(p.len() == n);
            }
        }
        BibleBook::FirstSamuel => {
            reveal_strlit("1s");
            assert(book_key(b1).len() == 2 && book_key(b1)[0] == '1' && book_key(b1)[1] == 's');
            if n == 1 {
                assert(p.len() == 1 && p[0] == '1');
            } else {
                assert(p.len() == n);
            }
        }
        BibleBook::SecondSamuel => {
            reveal_strlit("2s");
            assert(book_key(b1).len() == 2 && book_key(b1)[0] == '2' && book_key(b1)[1] == 's');
            if n == 1 {
                assert(p.len() == 1 && p[0] == '2');
            } else {
                assert(p.len() == n);
            }
        }
        BibleBook::FirstKings => {
            reveal_strlit("1k");
            assert(book_key(b1).len() == 2 && book_key(b1)[0] == '1' && book_key(b1)[1] == 'k');
            if n == 1 {
                assert(p.len() == 1 && p[0] == '1');
            } else {
                assert(p.len() == n);
            }
        }
        BibleBook::SecondKings => {
            reveal_strlit("2k");
            assert(book_key(b1).len() == 2 && book_key(b1)[0] == '2' && book_key(b1)[1] == 'k');
            if n == 1 {
                assert(p.len() == 1 && p[0] == '2');
            } else {
                assert(p.len() == n);
            }
        }
        BibleBook::FirstChronicles => {
            reveal_strlit("1ch");
            assert(book_key(b1).len() == 3 && book_key(b1)[0] == '1' && book_key(b1)[1] == 'c' && book_key(b1)[2] == 'h');
            if n == 1 {
                assert(p.len() == 1 && p[0] == '1');
            } else if n == 2 {
                assert(p.len() == 2 && p[0] == '1' && p[1] == 'c');
            } else {
                assert(p.len() == n);
            }
        }
        BibleBook::SecondChronicles => {
            reveal_strlit("2ch");
            assert(book_key(b1).len() == 3 && book_key(b1)[0] == '2' && book_key(b1)[1] == 'c' && book_key(b1)[2] == 'h');
            if n == 1 {
                assert(p.len() == 1 && p[0] == '2');
            } else if n == 2 {
                assert(p.len() == 2 && p[0] == '2' && p[1] == 'c');
            } else {
                assert(p.len() == n);
            }
        }
        BibleBook::Ezra => {
            reveal_strlit("ezr");
            assert(book_key(b1).len() == 3 && book_key(b1)[0] == 'e' && book_key(b1)[1] == 'z' && book_key(b1)[2] == 'r');
            if n == 1 {
                assert(p.len() == 1 && p[0] == 'e');
            } else if n == 2 {
                assert(p.len() == 2 && p[0] == 'e' && p[1] == 'z');
            } else {
                assert(p.len() == n);
            }
        }
        BibleBook::Nehemiah => {
            reveal_strlit("ne");
            assert(book_key(b1).len() == 2 && book_key(b1)[0] == 'n' && book_key(b1)[1] == 'e');
            if n == 1 {
                assert(p.len() == 1 && p[0] == 'n');
            } else {
                assert(p.len() == n);
            }
        }
        BibleBook::Esther => {
            reveal_strlit("es");
            assert(book_key(b1).len() == 2 && book_key(b1)[0] == 'e' && book_key(b1)[1] == 's');
            if n == 1 {
                assert(p.len() == 1 && p[0] == 'e');
            } else {
                assert(p.len() == n);
            }
        }
        BibleBook::Job => {
            reveal_strlit("job");
            assert(book_key(b1).len() == 3 && book_key(b1)[0] == 'j' && book_key(b1)[1] == 'o' && book_key(b1)[2] == 'b');
            if n == 1 {
                assert(p.len() == 1 && p[0] == 'j');
            } else if n == 2 {
                assert(p.len() == 2 && p[0] == 'j' && p[1] == 'o');
            } else {
                assert(p.len() == n);
            }
        }
        BibleBook::Psalms => {
            reveal_strlit("ps");
            assert(book_key(b1).len() == 2 && book_key(b1)[0] == 'p' && book_key(b1)[1] == 's');
            if n == 1 {
                assert(p.len() == 1 && p[0] == 'p');
            } else {
                assert(p.len() == n);
            }
        }
        BibleBook::Proverbs => {
            reveal_strlit("pr");
            assert(book_key(b1).len() == 2 && book_key(b1)[0] == 'p' && book_key(b1)[1] == 'r');
            if n == 1 {
                assert(p.len() == 1 && p[0] == 'p');
            } else {
                assert(p.len() == n);
            }
        }
        BibleBook::Ecclesiastes => {
            reveal_strlit("ec");
            assert(book_key(b1).len() == 2 && book_key(b1)[0] == 'e' && book_key(b1)[1] == 'c');
            if n == 1 {
                assert(p.len() == 1 && p[0] == 'e');
            } else {
                assert(p.len() == n);
            }
        }
        BibleBook::SongOfSolomon => {
            reveal_strlit("s");
            assert(book_key(b1).len() == 1 && book_key(b1)[0] == 's');
            {
                assert(p.len() == n);
            }
        }
        BibleBook::Isaiah => {
            reveal_strlit("i");
            assert(book_key(b1).len() == 1 && book_key(b1)[0] == 'i');
            {
                assert(p.len() == n);
            }
        }
        BibleBook::Jeremiah => {
            reveal_strlit("je");
            assert(book_key(b1).len() == 2 && book_key(b1)[0] == 'j' && book_key(b1)[1] == 'e');
            if n == 1 {
                assert(p.len() == 1 && p[0] == 'j');
            } else {
                assert(p.len() == n);
            }
        }
        BibleBook::Lamentations => {
            reveal_strlit("la");
            assert(book_key(b1).len() == 2 && book_key(b1)[0] == 'l' && book_key(b1)[1] == 'a');
            if n == 1 {
                assert(p.len() == 1 && p[0] == 'l');
            } else {
                assert(p.len() == n);
            }
        }
        BibleBook::Ezekiel => {
            reveal_strlit("eze");
            assert(book_key(b1).len() == 3 && book_key(b1)[0] == 'e' && book_key(b1)[1] == 'z' && book_key(b1)[2] == 'e');
            if n == 1 {
                assert(p.len() == 1 && p[0] == 'e');
            } else if n == 2 {
                assert(p.len() == 2 && p[0] == 'e' && p[1] == 'z');
            } else {
                assert(p.len() == n);
            }
        }
        BibleBook::Daniel => {
            reveal_strlit("da");
            assert(book_key(b1).len() == 2 && book_key(b1)[0] == 'd' && book_key(b1)[1] == 'a');
            if n == 1 {
                assert(p.len() == 1 && p[0] == 'd');
            } else {
                assert(p.len() == n);
            }
        }
        BibleBook::Hosea => {
            reveal_strlit("ho");
            assert(book_key(b1).len() == 2 && book_key(b1)[0] == 'h' && book_key(b1)[1] == 'o');
            if n == 1 {
                assert(p.len() == 1 && p[0] == 'h');
            } else {
                assert(p.len() == n);
            }
        }
        BibleBook::Joel => {
            reveal_strlit("joe");
            assert(book_key(b1).len() == 3 && book_key(b1)[0] == 'j' && book_key(b1)[1] == 'o' && book_key(b1)[2] == 'e');
            if n == 1 {
                assert(p.len() == 1 && p[0] == 'j');
            } else if n == 2 {
                assert(p.len() == 2 && p[0] == 'j' && p[1] == 'o');
            } else {
                assert(p.len() == n);
            }
        }
        BibleBook::Amos => {
            reveal_strlit("am");
            assert(book_key(b1).len() == 2 && book_key(b1)[0] == 'a' && book_key(b1)[1] == 'm');
            if n == 1 {
                assert(p.len() == 1 && p[0] == 'a');
            } else {
                assert(p.len() == n);
            }
        }
        BibleBook::Obadiah => {
            reveal_strlit("o");
            assert(book_key(b1).len() == 1 && book_key(b1)[0] == 'o');
            {
                assert(p.len() == n);
            }
        }
        BibleBook::Jonah => {
            reveal_strlit("jon");
            assert(book_key(b1).len() == 3 && book_key(b1)[0] == 'j' && book_key(b1)[1] == 'o' && book_key(b1)[2] == 'n');
            if n == 1 {
                assert(p.len() == 1 && p[0] == 'j');
            } else if n == 2 {
                assert(p.len() == 2 && p[0] == 'j' && p[1] == 'o');
            } else {
                assert(p.len() == n);
            }
        }
        BibleBook::Micah => {
            reveal_strlit("mi");
            assert(book_key(b1).len() == 2 && book_key(b1)[0] == 'm' && book_key(b1)[1] == 'i');
            if n == 1 {
                assert(p.len() == 1 && p[0] == 'm');
            } else {
                assert(p.len() == n);
            }
        }
        BibleBook::Nahum => {
            reveal_strlit("na");
            assert(book_key(b1).len() == 2 && book_key(b1)[0] == 'n' && book_key(b1)[1] == 'a');
            if n == 1 {
                assert(p.len() == 1 && p[0] == 'n');
            } else {
                assert(p.len() == n);
            }
        }
        BibleBook::Habakkuk => {
            reveal_strlit("hab");
            assert(book_key(b1).len() == 3 && book_key(b1)[0] == 'h' && book_key(b1)[1] == 'a' && book_key(b1)[2] == 'b');
            if n == 1 {
                assert(p.len() == 1 && p[0] == 'h');
            } else if n == 2 {
                assert(p.len() == 2 && p[0] == 'h' && p[1] == 'a');
            } else {
                assert(p.len() == n);
            }
        }
        BibleBook::Zephaniah => {
            reveal_strlit("zep");
            assert(book_key(b1).len() == 3 && book_key(b1)[0] == 'z' && book_key(b1)[1] == 'e' && book_key(b1)[2] == 'p');
            if n == 1 {
                assert(p.len() == 1 && p[0] == 'z');
            } else if n == 2 {
                assert(p.len() == 2 && p[0] == 'z' && p[1] == 'e');
            } else {
                assert(p.len() == n);
            }
        }
        BibleBook::Haggai => {
            reveal_strlit("hag");
            assert(book_key(b1).len() == 3 && book_key(b1)[0] == 'h' && book_key(b1)[1] == 'a' && book_key(b1)[2] == 'g');
            if n == 1 {
                assert(p.len() == 1 && p[0] == 'h');
            } else if n == 2 {
                assert(p.len() == 2 && p[0] == 'h' && p[1] == 'a');
            } else {
                assert(p.len() == n);
            }
        }
        BibleBook::Zechariah => {
            reveal_strlit("zec");
            assert(book_key(b1).len() == 3 && book_key(b1)[0] == 'z' && book_key(b1)[1] == 'e' && book_key(b1)[2] == 'c');
            if n == 1 {
                assert(p.len() == 1 && p[0] == 'z');
            } else if n == 2 {
                assert(p.len() == 2 && p[0] == 'z' && p[1] == 'e');
            } else {
                assert(p.len() == n);
            }
        }
        BibleBook::Malachi => {
            reveal_strlit("mal");
            assert(book_key(b1).len() == 3 && book_key(b1)[0] == 'm' && book_key(b1)[1] == 'a' && book_key(b1)[2] == 'l');
            if n == 1 {
                assert(p.len() == 1 && p[0] == 'm');
            } else if n == 2 {
                assert(p.len() == 2 && p[0] == 'm' && p[1] == 'a');
            } else {
                assert(p.len() == n);
            }
        }
        BibleBook::Matthew => {
            reveal_strlit("mat");
            assert(book_key(b1).len() == 3 && book_key(b1)[0] == 'm' && book_key(b1)[1] == 'a' && book_key(b1)[2] == 't');
            if n == 1 {
                assert(p.len() == 1 && p[0] == 'm');
            } else if n == 2 {
                assert(p.len() == 2 && p[0] == 'm' && p[1] == 'a');
            } else {
                assert(p.len() == n);
            }
        }
        BibleBook::Mark => {
            reveal_strlit("mar");
            assert(book_key(b1).len() == 3 && book_key(b1)[0] == 'm' && book_key(b1)[1] == 'a' && book_key(b1)[2] == 'r');
            if n == 1 {
                assert(p.len() == 1 && p[0] == 'm');
            } else if n == 2 {
                assert(p.len() == 2 && p[0] == 'm' && p[1] == 'a');
            } else {
                assert(p.len() == n);
            }
        }
        BibleBook::Luke => {
            reveal_strlit("lu");
            assert(book_key(b1).len() == 2 && book_key(b1)[0] == 'l' && book_key(b1)[1] == 'u');
            if n == 1 {
                assert(p.len() == 1 && p[0] == 'l');
            } else {
                assert(p.len() == n);
            }
        }
        BibleBook::John => {
            reveal_strlit("joh");
            assert(book_key(b1).len() == 3 && book_key(b1)[0] == 'j' && book_key(b1)[1] == 'o' && book_key(b1)[2] == 'h');
            if n == 1 {
                assert(p.len() == 1 && p[0] == 'j');
            } else if n == 2 {
                assert(p.len() == 2 && p[0] == 'j' && p[1] == 'o');
            } else {
                assert(p.len() == n);
            }
        }
        BibleBook::Acts => {
            reveal_strlit("ac");
            assert(book_key(b1).len() == 2 && book_key(b1)[0] == 'a' && book_key(b1)[1] == 'c');
            if n == 1 {
                assert(p.len() == 1 && p[0] == 'a');
            } else {
                assert(p.len() == n);
            }
        }
        BibleBook::Romans => {
            reveal_strlit("ro");
            assert(book_key(b1).len() == 2 && book_key(b1)[0] == 'r' && book_key(b1)[1] == 'o');
            if n == 1 {
                assert(p.len() == 1 && p[0] == 'r');
            } else {
                assert(p.len() == n);
            }
        }
        BibleBook::FirstCorinthians => {
            reveal_strlit("1co");
            assert(book_key(b1).len() == 3 && book_key(b1)[0] == '1' && book_key(b1)[1] == 'c' && book_key(b1)[2] == 'o');
            if n == 1 {
                assert(p.len() == 1 && p[0] == '1');
            } else if n == 2 {
                assert(p.len() == 2 && p[0] == '1' && p[1] == 'c');
            } else {
                assert(p.len() == n);
            }
        }
        BibleBook::SecondCorinthians => {
            reveal_strlit("2co");
            assert(book_key(b1).len() == 3 && book_key(b1)[0] == '2' && book_key(b1)[1] == 'c' && book_key(b1)[2] == 'o');
            if n == 1 {
                assert(p.len() == 1 && p[0] == '2');
            } else if n == 2 {
                assert(p.len() == 2 && p[0] == '2' && p[1] == 'c');
            } else {
                assert(p.len() == n);
            }
        }
        BibleBook::Galatians => {
            reveal_strlit("ga");
            assert(book_key(b1).len() == 2 && book_key(b1)[0] == 'g' && book_key(b1)[1] == 'a');
            if n == 1 {
                assert(p.len() == 1 && p[0] == 'g');
            } else {
                assert(p.len() == n);
            }
        }
        BibleBook::Ephesians => {
            reveal_strlit("ep");
            assert(book_key(b1).len() == 2 && book_key(b1)[0] == 'e' && book_key(b1)[1] == 'p');
            if n == 1 {
                assert(p.len() == 1 && p[0] == 'e');
            } else {
                assert(p.len() == n);
            }
        }
        BibleBook::Philippians => {
            reveal_strlit("phili");
            assert(book_key(b1).len() == 5 && book_key(b1)[0] == 'p' && book_key(b1)[1] == 'h' && book_key(b1)[2] == 'i' && book_key(b1)[3] == 'l' && book_key(b1)[4] == 'i');
            if n == 1 {
                assert(p.len() == 1 && p[0] == 'p');
            } else if n == 2 {
                assert(p.len() == 2 && p[0] == 'p' && p[1] == 'h');
            } else if n == 3 {
                assert(p.len() == 3 && p[0] == 'p' && p[1] == 'h' && p[2] == 'i');
            } else if n == 4 {
                assert(p.len() == 4 && p[0] == 'p' && p[1] == 'h' && p[2] == 'i' && p[3] == 'l');
            } else {
                assert(p.len() == n);
            }
        }
        BibleBook::Colossians => {
            reveal_strlit("c");
            assert(book_key(b1).len() == 1 && book_key(b1)[0] == 'c');
            {
                assert(p.len() == n);
            }
        }
        BibleBook::FirstThessalonians => {
            reveal_strlit("1th");
            assert(book_key(b1).len() == 3 && book_key(b1)[0] == '1' && book_key(b1)[1] == 't' && book_key(b1)[2] == 'h');
            if n == 1 {
                assert(p.len() == 1 && p[0] == '1');
            } else if n == 2 {
                assert(p.len() == 2 && p[0] == '1' && p[1] == 't');
            } else {
                assert(p.len() == n);
            }
        }
        BibleBook::SecondThessalonians => {
            reveal_strlit("2th");
            assert(book_key(b1).len() == 3 && book_key(b1)[0] == '2' && book_key(b1)[1] == 't' && book_key(b1)[2] == 'h');
            if n == 1 {
                assert(p.len() == 1 && p[0] == '2');
            } else if n == 2 {
                assert(p.len() == 2 && p[0] == '2' && p[1] == 't');
            } else {
                assert(p.len() == n);
            }
        }
        BibleBook::FirstTimothy => {
            reveal_strlit("1ti");
            assert(book_key(b1).len() == 3 && book_key(b1)[0] == '1' && book_key(b1)[1] == 't' && book_key(b1)[2] == 'i');
            if n == 1 {
                assert(p.len() == 1 && p[0] == '1');
            } else if n == 2 {
                assert(p.len() == 2 && p[0] == '1' && p[1] == 't');
            } else {
                assert(p.len() == n);
            }
        }
        BibleBook::SecondTimothy => {
            reveal_strlit("2ti");
            assert(book_key(b1).len() == 3 && book_key(b1)[0] == '2' && book_key(b1)[1] == 't' && book_key(b1)[2] == 'i');
            if n == 1 {
                assert(p.len() == 1 && p[0] == '2');
            } else if n == 2 {
                assert(p.len() == 2 && p[0] == '2' && p[1] == 't');
            } else {
                assert(p.len() == n);
            }
        }
        BibleBook::Titus => {
            reveal_strlit("t");
            assert(book_key(b1).len() == 1 && book_key(b1)[0] == 't');
            {
                assert(p.len() == n);
            }
        }
        BibleBook::Philemon => {
            reveal_strlit("phile");
            assert(book_key(b1).len() == 5 && book_key(b1)[0] == 'p' && book_key(b1)[1] == 'h' && book_key(b1)[2] == 'i' && book_key(b1)[3] == 'l' && book_key(b1)[4] == 'e');
            if n == 1 {
                assert(p.len() == 1 && p[0] == 'p');
            } else if n == 2 {
                assert(p.len() == 2 && p[0] == 'p' && p[1] == 'h');
            } else if n == 3 {
                assert(p.len() == 3 && p[0] == 'p' && p[1] == 'h' && p[2] == 'i');
            } else if n == 4 {
                assert(p.len() == 4 && p[0] == 'p' && p[1] == 'h' && p[2] == 'i' && p[3] == 'l');
            } else {
                assert(p.len() == n);
            }
        }
        BibleBook::Hebrews => {
            reveal_strlit("he");
            assert(book_key(b1).len() == 2 && book_key(b1)[0] == 'h' && book_key(b1)[1] == 'e');
            if n == 1 {
                assert(p.len() == 1 && p[0] == 'h');
            } else {
                assert(p.len() == n);
            }
        }
        BibleBook::James => {
            reveal_strlit("ja");
            assert(book_key(b1).len() == 2 && book_key(b1)[0] == 'j' && book_key(b1)[1] == 'a');
            if n == 1 {
                assert(p.len() == 1 && p[0] == 'j');
            } else {
                assert(p.len() == n);
            }
        }
        BibleBook::FirstPeter => {
            reveal_strlit("1p");
            assert(book_key(b1).len() == 2 && book_key(b1)[0] == '1' && book_key(b1)[1] == 'p');
            if n == 1 {
                assert(p.len() == 1 && p[0] == '1');
            } else {
                assert(p.len() == n);
            }
        }
        BibleBook::SecondPeter => {
            reveal_strlit("2p");
            assert(book_key(b1).len() == 2 && book_key(b1)[0] == '2' && book_key(b1)[1] == 'p');
            if n == 1 {
                assert(p.len() == 1 && p[0] == '2');
            } else {
                assert(p.len() == n);
            }
        }
        BibleBook::FirstJohn => {
            reveal_strlit("1j");
            assert(book_key(b1).len() == 2 && book_key(b1)[0] == '1' && book_key(b1)[1] == 'j');
            if n == 1 {
                assert(p.len() == 1 && p[0] == '1');
            } else {
                assert(p.len() == n);
            }
        }
        BibleBook::SecondJohn => {
            reveal_strlit("2j");
            assert(book_key(b1).len() == 2 && book_key(b1)[0] == '2' && book_key(b1)[1] == 'j');
            if n == 1 {
                assert(p.len() == 1 && p[0] == '2');
            } else {
                assert(p.len() == n);
            }
        }
        BibleBook::ThirdJohn => {
            reveal_strlit("3");
            assert(book_key(b1).len() == 1 && book_key(b1)[0] == '3');
            {
                assert(p.len() == n);
            }
        }
        BibleBook::Jude => {
            reveal_strlit("jude");
            assert(book_key(b1).len() == 4 && book_key(b1)[0] == 'j' && book_key(b1)[1] == 'u' && book_key(b1)[2] == 'd' && book_key(b1)[3] == 'e');
            if n == 1 {
                assert(p.len() == 1 && p[0] == 'j');
            } else if n == 2 {
                assert(p.len() == 2 && p[0] == 'j' && p[1] == 'u');
            } else if n == 3 {
                assert(p.len() == 3 && p[0] == 'j' && p[1] == 'u' && p[2] == 'd');
            } else {
                assert(p.len() == n);
            }
        }
        BibleBook::Revelation => {
            reveal_strlit("re");
            assert(book_key(b1).len() == 2 && book_key(b1)[0] == 'r' && book_key(b1)[1] == 'e');
            if n == 1 {
                assert(p.len() == 1 && p[0] == 'r');
            } else {
                assert(p.len() == n);
            }
        }
    }
    match b2 {
        BibleBook::Genesis => {
            reveal_strlit("ge");
            assert(book_key(b2).len() == 2 && book_key(b2)[0] == 'g' && book_key(b2)[1] == 'e');
        }
        BibleBook::Exodus => {
            reveal_strlit("ex");
            assert(book_key(b2).len() == 2 && book_key(b2)[0] == 'e' && book_key(b2)[1] == 'x');
        }
        BibleBook::Leviticus => {
            reveal_strlit("le");
            assert(book_key(b2).len() == 2 && book_key(b2)[0] == 'l' && book_key(b2)[1] == 'e');
        }
        BibleBook::Numbers => {
            reveal_strlit("nu");
            assert(book_key(b2).len() == 2 && book_key(b2)[0] == 'n' && book_key(b2)[1] == 'u');
        }
        BibleBook::Deuteronomy => {
            reveal_strlit("de");
            assert(book_key(b2).len() == 2 && book_key(b2)[0] == 'd' && book_key(b2)[1] == 'e');
        }
        BibleBook::Joshua => {
            reveal_strlit("jos");
            assert(book_key(b2).len() == 3 && book_key(b2)[0] == 'j' && book_key(b2)[1] == 'o' && book_key(b2)[2] == 's');
        }
        BibleBook::Judges => {
            reveal_strlit("judg");
            assert(book_key(b2).len() == 4 && book_key(b2)[0] == 'j' && book_key(b2)[1] == 'u' && book_key(b2)[2] == 'd' && book_key(b2)[3] == 'g');
        }
        BibleBook::Ruth => {
            reveal_strlit("ru");
            assert(book_key(b2).len() == 2 && book_key(b2)[0] == 'r' && book_key(b2)[1] == 'u');
        }
        BibleBook::FirstSamuel => {
            reveal_strlit("1s");
            assert(book_key(b2).len() == 2 && book_key(b2)[0] == '1' && book_key(b2)[1] == 's');
        }
        BibleBook::SecondSamuel => {
            reveal_strlit("2s");
            assert(book_key(b2).len() == 2 && book_key(b2)[0] == '2' && book_key(b2)[1] == 's');
        }
        BibleBook::FirstKings => {
            reveal_strlit("1k");
            assert(book_key(b2).len() == 2 && book_key(b2)[0] == '1' && book_key(b2)[1] == 'k');
        }
        BibleBook::SecondKings => {
            reveal_strlit("2k");
            assert(book_key(b2).len() == 2 && book_key(b2)[0] == '2' && book_key(b2)[1] == 'k');
        }
        BibleBook::FirstChronicles => {
            reveal_strlit("1ch");
            assert(book_key(b2).len() == 3 && book_key(b2)[0] == '1' && book_key(b2)[1] == 'c' && book_key(b2)[2] == 'h');
        }
        BibleBook::SecondChronicles => {
            reveal_strlit("2ch");
            assert(book_key(b2).len() == 3 && book_key(b2)[0] == '2' && book_key(b2)[1] == 'c' && book_key(b2)[2] == 'h');
        }
        BibleBook::Ezra => {
            reveal_strlit("ezr");
            assert(book_key(b2).len() == 3 && book_key(b2)[0] == 'e' && book_key(b2)[1] == 'z' && book_key(b2)[2] == 'r');
        }
        BibleBook::Nehemiah => {
            reveal_strlit("ne");
            assert(book_key(b2).len() == 2 && book_key(b2)[0] == 'n' && book_key(b2)[1] == 'e');
        }
        BibleBook::Esther => {
            reveal_strlit("es");
            assert(book_key(b2).len() == 2 && book_key(b2)[0] == 'e' && book_key(b2)[1] == 's');
        }
        BibleBook::Job => {
            reveal_strlit("job");
            assert(book_key(b2).len() == 3 && book_key(b2)[0] == 'j' && book_key(b2)[1] == 'o' && book_key(b2)[2] == 'b');
        }
        BibleBook::Psalms => {
            reveal_strlit("ps");
            assert(book_key(b2).len() == 2 && book_key(b2)[0] == 'p' && book_key(b2)[1] == 's');
        }
        BibleBook::Proverbs => {
            reveal_strlit("pr");
            assert(book_key(b2).len() == 2 && book_key(b2)[0] == 'p' && book_key(b2)[1] == 'r');
        }
        BibleBook::Ecclesiastes => {
            reveal_strlit("ec");
            assert(book_key(b2).len() == 2 && book_key(b2)[0] == 'e' && book_key(b2)[1] == 'c');
        }
        BibleBook::SongOfSolomon => {
            reveal_strlit("s");
            assert(book_key(b2).len() == 1 && book_key(b2)[0] == 's');
        }
        BibleBook::Isaiah => {
            reveal_strlit("i");
            assert(book_key(b2).len() == 1 && book_key(b2)[0] == 'i');
        }
        BibleBook::Jeremiah => {
            reveal_strlit("je");
            assert(book_key(b2).len() == 2 && book_key(b2)[0] == 'j' && book_key(b2)[1] == 'e');
        }
        BibleBook::Lamentations => {
            reveal_strlit("la");
            assert(book_key(b2).len() == 2 && book_key(b2)[0] == 'l' && book_key(b2)[1] == 'a');
        }
        BibleBook::Ezekiel => {
            reveal_strlit("eze");
            assert(book_key(b2).len() == 3 && book_key(b2)[0] == 'e' && book_key(b2)[1] == 'z' && book_key(b2)[2] == 'e');
        }
        BibleBook::Daniel => {
            reveal_strlit("da");
            assert(book_key(b2).len() == 2 && book_key(b2)[0] == 'd' && book_key(b2)[1] == 'a');
        }
        BibleBook::Hosea => {
            reveal_strlit("ho");
            assert(book_key(b2).len() == 2 && book_key(b2)[0] == 'h' && book_key(b2)[1] == 'o');
        }
        BibleBook::Joel => {
            reveal_strlit("joe");
            assert(book_key(b2).len() == 3 && book_key(b2)[0] == 'j' && book_key(b2)[1] == 'o' && book_key(b2)[2] == 'e');
        }
        BibleBook::Amos => {
            reveal_strlit("am");
            assert(book_key(b2).len() == 2 && book_key(b2)[0] == 'a' && book_key(b2)[1] == 'm');
        }
        BibleBook::Obadiah => {
            reveal_strlit("o");
            assert(book_key(b2).len() == 1 && book_key(b2)[0] == 'o');
        }
        BibleBook::Jonah => {
            reveal_strlit("jon");
            assert(book_key(b2).len() == 3 && book_key(b2)[0] == 'j' && book_key(b2)[1] == 'o' && book_key(b2)[2] == 'n');
        }
        BibleBook::Micah => {
            reveal_strlit("mi");
            assert(book_key(b2).len() == 2 && book_key(b2)[0] == 'm' && book_key(b2)[1] == 'i');
        }
        BibleBook::Nahum => {
            reveal_strlit("na");
            assert(book_key(b2).len() == 2 && book_key(b2)[0] == 'n' && book_key(b2)[1] == 'a');
        }
        BibleBook::Habakkuk => {
            reveal_strlit("hab");
            assert(book_key(b2).len() == 3 && book_key(b2)[0] == 'h' && book_key(b2)[1] == 'a' && book_key(b2)[2] == 'b');
        }
        BibleBook::Zephaniah => {
            reveal_strlit("zep");
            assert(book_key(b2).len() == 3 && book_key(b2)[0] == 'z' && book_key(b2)[1] == 'e' && book_key(b2)[2] == 'p');
        }
        BibleBook::Haggai => {
            reveal_strlit("hag");
            assert(book_key(b2).len() == 3 && book_key(b2)[0] == 'h' && book_key(b2)[1] == 'a' && book_key(b2)[2] == 'g');
        }
        BibleBook::Zechariah => {
            reveal_strlit("zec");
            assert(book_key(b2).len() == 3 && book_key(b2)[0] == 'z' && book_key(b2)[1] == 'e' && book_key(b2)[2] == 'c');
        }
        BibleBook::Malachi => {
            reveal_strlit("mal");
            assert(book_key(b2).len() == 3 && book_key(b2)[0] == 'm' && book_key(b2)[1] == 'a' && book_key(b2)[2] == 'l');
        }
        BibleBook::Matthew => {
            reveal_strlit("mat");
            assert(book_key(b2).len() == 3 && book_key(b2)[0] == 'm' && book_key(b2)[1] == 'a' && book_key(b2)[2] == 't');
        }
        BibleBook::Mark => {
            reveal_strlit("mar");
            assert(book_key(b2).len() == 3 && book_key(b2)[0] == 'm' && book_key(b2)[1] == 'a' && book_key(b2)[2] == 'r');
        }
        BibleBook::Luke => {
            reveal_strlit("lu");
            assert(book_key(b2).len() == 2 && book_key(b2)[0] == 'l' && book_key(b2)[1] == 'u');
        }
        BibleBook::John => {
            reveal_strlit("joh");
            assert(book_key(b2).len() == 3 && book_key(b2)[0] == 'j' && book_key(b2)[1] == 'o' && book_key(b2)[2] == 'h');
        }
        BibleBook::Acts => {
            reveal_strlit("ac");
            assert(book_key(b2).len() == 2 && book_key(b2)[0] == 'a' && book_key(b2)[1] == 'c');
        }
        BibleBook::Romans => {
            reveal_strlit("ro");
            assert(book_key(b2).len() == 2 && book_key(b2)[0] == 'r' && book_key(b2)[1] == 'o');
        }
        BibleBook::FirstCorinthians => {
            reveal_strlit("1co");
            assert(book_key(b2).len() == 3 && book_key(b2)[0] == '1' && book_key(b2)[1] == 'c' && book_key(b2)[2] == 'o');
        }
        BibleBook::SecondCorinthians => {
            reveal_strlit("2co");
            assert(book_key(b2).len() == 3 && book_key(b2)[0] == '2' && book_key(b2)[1] == 'c' && book_key(b2)[2] == 'o');
        }
        BibleBook::Galatians => {
            reveal_strlit("ga");
            assert(book_key(b2).len() == 2 && book_key(b2)[0] == 'g' && book_key(b2)[1] == 'a');
        }
        BibleBook::Ephesians => {
            reveal_strlit("ep");
            assert(book_key(b2).len() == 2 && book_key(b2)[0] == 'e' && book_key(b2)[1] == 'p');
        }
        BibleBook::Philippians => {
            reveal_strlit("phili");
            assert(book_key(b2).len() == 5 && book_key(b2)[0] == 'p' && book_key(b2)[1] == 'h' && book_key(b2)[2] == 'i' && book_key(b2)[3] == 'l' && book_key(b2)[4] == 'i');
        }
        BibleBook::Colossians => {
            reveal_strlit("c");
            assert(book_key(b2).len() == 1 && book_key(b2)[0] == 'c');
        }
        BibleBook::FirstThessalonians => {
            reveal_strlit("1th");
            assert(book_key(b2).len() == 3 && book_key(b2)[0] == '1' && book_key(b2)[1] == 't' && book_key(b2)[2] == 'h');
        }
        BibleBook::SecondThessalonians => {
            reveal_strlit("2th");
            assert(book_key(b2).len() == 3 && book_key(b2)[0] == '2' && book_key(b2)[1] == 't' && book_key(b2)[2] == 'h');
        }
        BibleBook::FirstTimothy => {
            reveal_strlit("1ti");
            assert(book_key(b2).len() == 3 && book_key(b2)[0] == '1' && book_key(b2)[1] == 't' && book_key(b2)[2] == 'i');
        }
        BibleBook::SecondTimothy => {
            reveal_strlit("2ti");
            assert(book_key(b2).len() == 3 && book_key(b2)[0] == '2' && book_key(b2)[1] == 't' && book_key(b2)[2] == 'i');
        }
        BibleBook::Titus => {
            reveal_strlit("t");
            assert(book_key(b2).len() == 1 && book_key(b2)[0] == 't');
        }
        BibleBook::Philemon => {
            reveal_strlit("phile");
            assert(book_key(b2).len() == 5 && book_key(b2)[0] == 'p' && book_key(b2)[1] == 'h' && book_key(b2)[2] == 'i' && book_key(b2)[3] == 'l' && book_key(b2)[4] == 'e');
        }
        BibleBook::Hebrews => {
            reveal_strlit("he");
            assert(book_key(b2).len() == 2 && book_key(b2)[0] == 'h' && book_key(b2)[1] == 'e');
        }
        BibleBook::James => {
            reveal_strlit("ja");
            assert(book_key(b2).len() == 2 && book_key(b2)[0] == 'j' && book_key(b2)[1] == 'a');
        }
        BibleBook::FirstPeter => {
            reveal_strlit("1p");
            assert(book_key(b2).len() == 2 && book_key(b2)[0] == '1' && book_key(b2)[1] == 'p');
        }
        BibleBook::SecondPeter => {
            reveal_strlit("2p");
            assert(book_key(b2).len() == 2 && book_key(b2)[0] == '2' && book_key(b2)[1] == 'p');
        }
        BibleBook::FirstJohn => {
            reveal_strlit("1j");
            assert(book_key(b2).len() == 2 && book_key(b2)[0] == '1' && book_key(b2)[1] == 'j');
        }
        BibleBook::SecondJohn => {
            reveal_strlit("2j");
            assert(book_key(b2).len() == 2 && book_key(b2)[0] == '2' && book_key(b2)[1] == 'j');
        }
        BibleBook::ThirdJohn => {
            reveal_strlit("3");
            assert(book_key(b2).len() == 1 && book_key(b2)[0] == '3');
        }
        BibleBook::Jude => {
            reveal_strlit("jude");
            assert(book_key(b2).len() == 4 && book_key(b2)[0] == 'j' && book_key(b2)[1] == 'u' && book_key(b2)[2] == 'd' && book_key(b2)[3] == 'e');
        }
        BibleBook::Revelation => {
            reveal_strlit("re");
            assert(book_key(b2).len() == 2 && book_key(b2)[0] == 'r' && book_key(b2)[1] == 'e');
        }
    }
}

} // verus!
