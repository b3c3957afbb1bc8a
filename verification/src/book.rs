use vstd::prelude::*;

verus! {

/// One of the 66 fixed top-level divisions of the anthology, ordered by its
/// canonical rank. The type can represent no invalid book: every variant is a
/// real entry of the catalog, so no sentinel index or bounds check is needed.
#[derive(Copy, Clone, PartialEq, Eq, Structural, Debug)]
pub enum BibleBook {
    Genesis,
    Exodus,
    Leviticus,
    Numbers,
    Deuteronomy,
    Joshua,
    Judges,
    Ruth,
    FirstSamuel,
    SecondSamuel,
    FirstKings,
    SecondKings,
    FirstChronicles,
    SecondChronicles,
    Ezra,
    Nehemiah,
    Esther,
    Job,
    Psalms,
    Proverbs,
    Ecclesiastes,
    SongOfSolomon,
    Isaiah,
    Jeremiah,
    Lamentations,
    Ezekiel,
    Daniel,
    Hosea,
    Joel,
    Amos,
    Obadiah,
    Jonah,
    Micah,
    Nahum,
    Habakkuk,
    Zephaniah,
    Haggai,
    Zechariah,
    Malachi,
    Matthew,
    Mark,
    Luke,
    John,
    Acts,
    Romans,
    FirstCorinthians,
    SecondCorinthians,
    Galatians,
    Ephesians,
    Philippians,
    Colossians,
    FirstThessalonians,
    SecondThessalonians,
    FirstTimothy,
    SecondTimothy,
    Titus,
    Philemon,
    Hebrews,
    James,
    FirstPeter,
    SecondPeter,
    FirstJohn,
    SecondJohn,
    ThirdJohn,
    Jude,
    Revelation,
}

impl BibleBook {
    /// The book's rank in the canonical order, 1 through 66.
    pub open spec fn spec_rank(self) -> int {
        match self {
            BibleBook::Genesis => 1,
            BibleBook::Exodus => 2,
            BibleBook::Leviticus => 3,
            BibleBook::Numbers => 4,
            BibleBook::Deuteronomy => 5,
            BibleBook::Joshua => 6,
            BibleBook::Judges => 7,
            BibleBook::Ruth => 8,
            BibleBook::FirstSamuel => 9,
            BibleBook::SecondSamuel => 10,
            BibleBook::FirstKings => 11,
            BibleBook::SecondKings => 12,
            BibleBook::FirstChronicles => 13,
            BibleBook::SecondChronicles => 14,
            BibleBook::Ezra => 15,
            BibleBook::Nehemiah => 16,
            BibleBook::Esther => 17,
            BibleBook::Job => 18,
            BibleBook::Psalms => 19,
            BibleBook::Proverbs => 20,
            BibleBook::Ecclesiastes => 21,
            BibleBook::SongOfSolomon => 22,
            BibleBook::Isaiah => 23,
            BibleBook::Jeremiah => 24,
            BibleBook::Lamentations => 25,
            BibleBook::Ezekiel => 26,
            BibleBook::Daniel => 27,
            BibleBook::Hosea => 28,
            BibleBook::Joel => 29,
            BibleBook::Amos => 30,
            BibleBook::Obadiah => 31,
            BibleBook::Jonah => 32,
            BibleBook::Micah => 33,
            BibleBook::Nahum => 34,
            BibleBook::Habakkuk => 35,
            BibleBook::Zephaniah => 36,
            BibleBook::Haggai => 37,
            BibleBook::Zechariah => 38,
            BibleBook::Malachi => 39,
            BibleBook::Matthew => 40,
            BibleBook::Mark => 41,
            BibleBook::Luke => 42,
            BibleBook::John => 43,
            BibleBook::Acts => 44,
            BibleBook::Romans => 45,
            BibleBook::FirstCorinthians => 46,
            BibleBook::SecondCorinthians => 47,
            BibleBook::Galatians => 48,
            BibleBook::Ephesians => 49,
            BibleBook::Philippians => 50,
            BibleBook::Colossians => 51,
            BibleBook::FirstThessalonians => 52,
            BibleBook::SecondThessalonians => 53,
            BibleBook::FirstTimothy => 54,
            BibleBook::SecondTimothy => 55,
            BibleBook::Titus => 56,
            BibleBook::Philemon => 57,
            BibleBook::Hebrews => 58,
            BibleBook::James => 59,
            BibleBook::FirstPeter => 60,
            BibleBook::SecondPeter => 61,
            BibleBook::FirstJohn => 62,
            BibleBook::SecondJohn => 63,
            BibleBook::ThirdJohn => 64,
            BibleBook::Jude => 65,
            BibleBook::Revelation => 66,
        }
    }

    /// The number of chapters the book has in the canonical structure.
    pub open spec fn spec_max_chapters(self) -> int {
        match self {
            BibleBook::Genesis => 50,
            BibleBook::Exodus => 40,
            BibleBook::Leviticus => 27,
            BibleBook::Numbers => 36,
            BibleBook::Deuteronomy => 34,
            BibleBook::Joshua => 24,
            BibleBook::Judges => 21,
            BibleBook::Ruth => 4,
            BibleBook::FirstSamuel => 31,
            BibleBook::SecondSamuel => 24,
            BibleBook::FirstKings => 22,
            BibleBook::SecondKings => 25,
            BibleBook::FirstChronicles => 29,
            BibleBook::SecondChronicles => 36,
            BibleBook::Ezra => 10,
            BibleBook::Nehemiah => 13,
            BibleBook::Esther => 10,
            BibleBook::Job => 42,
            BibleBook::Psalms => 150,
            BibleBook::Proverbs => 31,
            BibleBook::Ecclesiastes => 12,
            BibleBook::SongOfSolomon => 8,
            BibleBook::Isaiah => 66,
            BibleBook::Jeremiah => 52,
            BibleBook::Lamentations => 5,
            BibleBook::Ezekiel => 48,
            BibleBook::Daniel => 12,
            BibleBook::Hosea => 14,
            BibleBook::Joel => 3,
            BibleBook::Amos => 9,
            BibleBook::Obadiah => 1,
            BibleBook::Jonah => 4,
            BibleBook::Micah => 7,
            BibleBook::Nahum => 3,
            BibleBook::Habakkuk => 3,
            BibleBook::Zephaniah => 3,
            BibleBook::Haggai => 2,
            BibleBook::Zechariah => 14,
            BibleBook::Malachi => 4,
            BibleBook::Matthew => 28,
            BibleBook::Mark => 16,
            BibleBook::Luke => 24,
            BibleBook::John => 21,
            BibleBook::Acts => 28,
            BibleBook::Romans => 16,
            BibleBook::FirstCorinthians => 16,
            BibleBook::SecondCorinthians => 13,
            BibleBook::Galatians => 6,
            BibleBook::Ephesians => 6,
            BibleBook::Philippians => 4,
            BibleBook::Colossians => 4,
            BibleBook::FirstThessalonians => 5,
            BibleBook::SecondThessalonians => 3,
            BibleBook::FirstTimothy => 6,
            BibleBook::SecondTimothy => 4,
            BibleBook::Titus => 3,
            BibleBook::Philemon => 1,
            BibleBook::Hebrews => 13,
            BibleBook::James => 5,
            BibleBook::FirstPeter => 5,
            BibleBook::SecondPeter => 3,
            BibleBook::FirstJohn => 5,
            BibleBook::SecondJohn => 1,
            BibleBook::ThirdJohn => 1,
            BibleBook::Jude => 1,
            BibleBook::Revelation => 22,
        }
    }

    /// The book's canonical display name, as a sequence of characters.
    pub open spec fn spec_name(self) -> Seq<char> {
        match self {
            BibleBook::Genesis => "Genesis"@,
            BibleBook::Exodus => "Exodus"@,
            BibleBook::Leviticus => "Leviticus"@,
            BibleBook::Numbers => "Numbers"@,
            BibleBook::Deuteronomy => "Deuteronomy"@,
            BibleBook::Joshua => "Joshua"@,
            BibleBook::Judges => "Judges"@,
            BibleBook::Ruth => "Ruth"@,
            BibleBook::FirstSamuel => "1 Samuel"@,
            BibleBook::SecondSamuel => "2 Samuel"@,
            BibleBook::FirstKings => "1 Kings"@,
            BibleBook::SecondKings => "2 Kings"@,
            BibleBook::FirstChronicles => "1 Chronicles"@,
            BibleBook::SecondChronicles => "2 Chronicles"@,
            BibleBook::Ezra => "Ezra"@,
            BibleBook::Nehemiah => "Nehemiah"@,
            BibleBook::Esther => "Esther"@,
            BibleBook::Job => "Job"@,
            BibleBook::Psalms => "Psalms"@,
            BibleBook::Proverbs => "Proverbs"@,
            BibleBook::Ecclesiastes => "Ecclesiastes"@,
            BibleBook::SongOfSolomon => "Song of Solomon"@,
            BibleBook::Isaiah => "Isaiah"@,
            BibleBook::Jeremiah => "Jeremiah"@,
            BibleBook::Lamentations => "Lamentations"@,
            BibleBook::Ezekiel => "Ezekiel"@,
            BibleBook::Daniel => "Daniel"@,
            BibleBook::Hosea => "Hosea"@,
            BibleBook::Joel => "Joel"@,
            BibleBook::Amos => "Amos"@,
            BibleBook::Obadiah => "Obadiah"@,
            BibleBook::Jonah => "Jonah"@,
            BibleBook::Micah => "Micah"@,
            BibleBook::Nahum => "Nahum"@,
            BibleBook::Habakkuk => "Habakkuk"@,
            BibleBook::Zephaniah => "Zephaniah"@,
            BibleBook::Haggai => "Haggai"@,
            BibleBook::Zechariah => "Zechariah"@,
            BibleBook::Malachi => "Malachi"@,
            BibleBook::Matthew => "Matthew"@,
            BibleBook::Mark => "Mark"@,
            BibleBook::Luke => "Luke"@,
            BibleBook::John => "John"@,
            BibleBook::Acts => "Acts"@,
            BibleBook::Romans => "Romans"@,
            BibleBook::FirstCorinthians => "1 Corinthians"@,
            BibleBook::SecondCorinthians => "2 Corinthians"@,
            BibleBook::Galatians => "Galatians"@,
            BibleBook::Ephesians => "Ephesians"@,
            BibleBook::Philippians => "Philippians"@,
            BibleBook::Colossians => "Colossians"@,
            BibleBook::FirstThessalonians => "1 Thessalonians"@,
            BibleBook::SecondThessalonians => "2 Thessalonians"@,
            BibleBook::FirstTimothy => "1 Timothy"@,
            BibleBook::SecondTimothy => "2 Timothy"@,
            BibleBook::Titus => "Titus"@,
            BibleBook::Philemon => "Philemon"@,
            BibleBook::Hebrews => "Hebrews"@,
            BibleBook::James => "James"@,
            BibleBook::FirstPeter => "1 Peter"@,
            BibleBook::SecondPeter => "2 Peter"@,
            BibleBook::FirstJohn => "1 John"@,
            BibleBook::SecondJohn => "2 John"@,
            BibleBook::ThirdJohn => "3 John"@,
            BibleBook::Jude => "Jude"@,
            BibleBook::Revelation => "Revelation"@,
        }
    }

    /// The canonical display name of the book.
    pub fn as_str(&self) -> (r: &'static str)
        ensures
            r@ == self.spec_name(),
    {
        match self {
            BibleBook::Genesis => "Genesis",
            BibleBook::Exodus => "Exodus",
            BibleBook::Leviticus => "Leviticus",
            BibleBook::Numbers => "Numbers",
            BibleBook::Deuteronomy => "Deuteronomy",
            BibleBook::Joshua => "Joshua",
            BibleBook::Judges => "Judges",
            BibleBook::Ruth => "Ruth",
            BibleBook::FirstSamuel => "1 Samuel",
            BibleBook::SecondSamuel => "2 Samuel",
            BibleBook::FirstKings => "1 Kings",
            BibleBook::SecondKings => "2 Kings",
            BibleBook::FirstChronicles => "1 Chronicles",
            BibleBook::SecondChronicles => "2 Chronicles",
            BibleBook::Ezra => "Ezra",
            BibleBook::Nehemiah => "Nehemiah",
            BibleBook::Esther => "Esther",
            BibleBook::Job => "Job",
            BibleBook::Psalms => "Psalms",
            BibleBook::Proverbs => "Proverbs",
            BibleBook::Ecclesiastes => "Ecclesiastes",
            BibleBook::SongOfSolomon => "Song of Solomon",
            BibleBook::Isaiah => "Isaiah",
            BibleBook::Jeremiah => "Jeremiah",
            BibleBook::Lamentations => "Lamentations",
            BibleBook::Ezekiel => "Ezekiel",
            BibleBook::Daniel => "Daniel",
            BibleBook::Hosea => "Hosea",
            BibleBook::Joel => "Joel",
            BibleBook::Amos => "Amos",
            BibleBook::Obadiah => "Obadiah",
            BibleBook::Jonah => "Jonah",
            BibleBook::Micah => "Micah",
            BibleBook::Nahum => "Nahum",
            BibleBook::Habakkuk => "Habakkuk",
            BibleBook::Zephaniah => "Zephaniah",
            BibleBook::Haggai => "Haggai",
            BibleBook::Zechariah => "Zechariah",
            BibleBook::Malachi => "Malachi",
            BibleBook::Matthew => "Matthew",
            BibleBook::Mark => "Mark",
            BibleBook::Luke => "Luke",
            BibleBook::John => "John",
            BibleBook::Acts => "Acts",
            BibleBook::Romans => "Romans",
            BibleBook::FirstCorinthians => "1 Corinthians",
            BibleBook::SecondCorinthians => "2 Corinthians",
            BibleBook::Galatians => "Galatians",
            BibleBook::Ephesians => "Ephesians",
            BibleBook::Philippians => "Philippians",
            BibleBook::Colossians => "Colossians",
            BibleBook::FirstThessalonians => "1 Thessalonians",
            BibleBook::SecondThessalonians => "2 Thessalonians",
            BibleBook::FirstTimothy => "1 Timothy",
            BibleBook::SecondTimothy => "2 Timothy",
            BibleBook::Titus => "Titus",
            BibleBook::Philemon => "Philemon",
            BibleBook::Hebrews => "Hebrews",
            BibleBook::James => "James",
            BibleBook::FirstPeter => "1 Peter",
            BibleBook::SecondPeter => "2 Peter",
            BibleBook::FirstJohn => "1 John",
            BibleBook::SecondJohn => "2 John",
            BibleBook::ThirdJohn => "3 John",
            BibleBook::Jude => "Jude",
            BibleBook::Revelation => "Revelation",
        }
    }

    /// The number of chapters the book has. Total over the catalog: a pure
    /// table lookup that never fails.
    pub fn max_chapter_count(&self) -> (r: u8)
        ensures
            r as int == self.spec_max_chapters(),
            1 <= r <= 150,
    {
        match self {
            BibleBook::Genesis => 50,
            BibleBook::Exodus => 40,
            BibleBook::Leviticus => 27,
            BibleBook::Numbers => 36,
            BibleBook::Deuteronomy => 34,
            BibleBook::Joshua => 24,
            BibleBook::Judges => 21,
            BibleBook::Ruth => 4,
            BibleBook::FirstSamuel => 31,
            BibleBook::SecondSamuel => 24,
            BibleBook::FirstKings => 22,
            BibleBook::SecondKings => 25,
            BibleBook::FirstChronicles => 29,
            BibleBook::SecondChronicles => 36,
            BibleBook::Ezra => 10,
            BibleBook::Nehemiah => 13,
            BibleBook::Esther => 10,
            BibleBook::Job => 42,
            BibleBook::Psalms => 150,
            BibleBook::Proverbs => 31,
            BibleBook::Ecclesiastes => 12,
            BibleBook::SongOfSolomon => 8,
            BibleBook::Isaiah => 66,
            BibleBook::Jeremiah => 52,
            BibleBook::Lamentations => 5,
            BibleBook::Ezekiel => 48,
            BibleBook::Daniel => 12,
            BibleBook::Hosea => 14,
            BibleBook::Joel => 3,
            BibleBook::Amos => 9,
            BibleBook::Obadiah => 1,
            BibleBook::Jonah => 4,
            BibleBook::Micah => 7,
            BibleBook::Nahum => 3,
            BibleBook::Habakkuk => 3,
            BibleBook::Zephaniah => 3,
            BibleBook::Haggai => 2,
            BibleBook::Zechariah => 14,
            BibleBook::Malachi => 4,
            BibleBook::Matthew => 28,
            BibleBook::Mark => 16,
            BibleBook::Luke => 24,
            BibleBook::John => 21,
            BibleBook::Acts => 28,
            BibleBook::Romans => 16,
            BibleBook::FirstCorinthians => 16,
            BibleBook::SecondCorinthians => 13,
            BibleBook::Galatians => 6,
            BibleBook::Ephesians => 6,
            BibleBook::Philippians => 4,
            BibleBook::Colossians => 4,
            BibleBook::FirstThessalonians => 5,
            BibleBook::SecondThessalonians => 3,
            BibleBook::FirstTimothy => 6,
            BibleBook::SecondTimothy => 4,
            BibleBook::Titus => 3,
            BibleBook::Philemon => 1,
            BibleBook::Hebrews => 13,
            BibleBook::James => 5,
            BibleBook::FirstPeter => 5,
            BibleBook::SecondPeter => 3,
            BibleBook::FirstJohn => 5,
            BibleBook::SecondJohn => 1,
            BibleBook::ThirdJohn => 1,
            BibleBook::Jude => 1,
            BibleBook::Revelation => 22,
        }
    }

    /// The book's rank in the canonical order, 1 through 66. This is also the
    /// key under which the text source stores the book.
    pub fn rank(&self) -> (r: u8)
        ensures
            r as int == self.spec_rank(),
            1 <= r <= 66,
    {
        match self {
            BibleBook::Genesis => 1,
            BibleBook::Exodus => 2,
            BibleBook::Leviticus => 3,
            BibleBook::Numbers => 4,
            BibleBook::Deuteronomy => 5,
            BibleBook::Joshua => 6,
            BibleBook::Judges => 7,
            BibleBook::Ruth => 8,
            BibleBook::FirstSamuel => 9,
            BibleBook::SecondSamuel => 10,
            BibleBook::FirstKings => 11,
            BibleBook::SecondKings => 12,
            BibleBook::FirstChronicles => 13,
            BibleBook::SecondChronicles => 14,
            BibleBook::Ezra => 15,
            BibleBook::Nehemiah => 16,
            BibleBook::Esther => 17,
            BibleBook::Job => 18,
            BibleBook::Psalms => 19,
            BibleBook::Proverbs => 20,
            BibleBook::Ecclesiastes => 21,
            BibleBook::SongOfSolomon => 22,
            BibleBook::Isaiah => 23,
            BibleBook::Jeremiah => 24,
            BibleBook::Lamentations => 25,
            BibleBook::Ezekiel => 26,
            BibleBook::Daniel => 27,
            BibleBook::Hosea => 28,
            BibleBook::Joel => 29,
            BibleBook::Amos => 30,
            BibleBook::Obadiah => 31,
            BibleBook::Jonah => 32,
            BibleBook::Micah => 33,
            BibleBook::Nahum => 34,
            BibleBook::Habakkuk => 35,
            BibleBook::Zephaniah => 36,
            BibleBook::Haggai => 37,
            BibleBook::Zechariah => 38,
            BibleBook::Malachi => 39,
            BibleBook::Matthew => 40,
            BibleBook::Mark => 41,
            BibleBook::Luke => 42,
            BibleBook::John => 43,
            BibleBook::Acts => 44,
            BibleBook::Romans => 45,
            BibleBook::FirstCorinthians => 46,
            BibleBook::SecondCorinthians => 47,
            BibleBook::Galatians => 48,
            BibleBook::Ephesians => 49,
            BibleBook::Philippians => 50,
            BibleBook::Colossians => 51,
            BibleBook::FirstThessalonians => 52,
            BibleBook::SecondThessalonians => 53,
            BibleBook::FirstTimothy => 54,
            BibleBook::SecondTimothy => 55,
            BibleBook::Titus => 56,
            BibleBook::Philemon => 57,
            BibleBook::Hebrews => 58,
            BibleBook::James => 59,
            BibleBook::FirstPeter => 60,
            BibleBook::SecondPeter => 61,
            BibleBook::FirstJohn => 62,
            BibleBook::SecondJohn => 63,
            BibleBook::ThirdJohn => 64,
            BibleBook::Jude => 65,
            BibleBook::Revelation => 66,
        }
    }
}

/// The 66 books in canonical order.
pub open spec fn all_books() -> Seq<BibleBook> {
    seq![
        BibleBook::Genesis,
        BibleBook::Exodus,
        BibleBook::Leviticus,
        BibleBook::Numbers,
        BibleBook::Deuteronomy,
        BibleBook::Joshua,
        BibleBook::Judges,
        BibleBook::Ruth,
        BibleBook::FirstSamuel,
        BibleBook::SecondSamuel,
        BibleBook::FirstKings,
        BibleBook::SecondKings,
        BibleBook::FirstChronicles,
        BibleBook::SecondChronicles,
        BibleBook::Ezra,
        BibleBook::Nehemiah,
        BibleBook::Esther,
        BibleBook::Job,
        BibleBook::Psalms,
        BibleBook::Proverbs,
        BibleBook::Ecclesiastes,
        BibleBook::SongOfSolomon,
        BibleBook::Isaiah,
        BibleBook::Jeremiah,
        BibleBook::Lamentations,
        BibleBook::Ezekiel,
        BibleBook::Daniel,
        BibleBook::Hosea,
        BibleBook::Joel,
        BibleBook::Amos,
        BibleBook::Obadiah,
        BibleBook::Jonah,
        BibleBook::Micah,
        BibleBook::Nahum,
        BibleBook::Habakkuk,
        BibleBook::Zephaniah,
        BibleBook::Haggai,
        BibleBook::Zechariah,
        BibleBook::Malachi,
        BibleBook::Matthew,
        BibleBook::Mark,
        BibleBook::Luke,
        BibleBook::John,
        BibleBook::Acts,
        BibleBook::Romans,
        BibleBook::FirstCorinthians,
        BibleBook::SecondCorinthians,
        BibleBook::Galatians,
        BibleBook::Ephesians,
        BibleBook::Philippians,
        BibleBook::Colossians,
        BibleBook::FirstThessalonians,
        BibleBook::SecondThessalonians,
        BibleBook::FirstTimothy,
        BibleBook::SecondTimothy,
        BibleBook::Titus,
        BibleBook::Philemon,
        BibleBook::Hebrews,
        BibleBook::James,
        BibleBook::FirstPeter,
        BibleBook::SecondPeter,
        BibleBook::FirstJohn,
        BibleBook::SecondJohn,
        BibleBook::ThirdJohn,
        BibleBook::Jude,
        BibleBook::Revelation,
    ]
}

/// The total number of chapters held by the books of a sequence.
pub open spec fn sum_chapters(s: Seq<BibleBook>) -> int
    decreases s.len(),
{
    if s.len() == 0 {
        0
    } else {
        s.first().spec_max_chapters() + sum_chapters(s.drop_first())
    }
}

/// The total number of chapters held by the books of `s` from position `i` on.
spec fn sum_chapters_from(s: Seq<BibleBook>, i: int) -> int
    decreases s.len() - i,
{
    if i < 0 || i >= s.len() {
        0
    } else {
        s[i].spec_max_chapters() + sum_chapters_from(s, i + 1)
    }
}

proof fn lemma_sum_chapters_from(s: Seq<BibleBook>, i: int)
    requires
        0 <= i <= s.len(),
    ensures
        sum_chapters(s.subrange(i, s.len() as int)) == sum_chapters_from(s, i),
    decreases s.len() - i,
{
    let tail = s.subrange(i, s.len() as int);
    if i == s.len() {
        assert(tail.len() == 0);
    } else {
        lemma_sum_chapters_from(s, i + 1);
        assert(tail.drop_first() =~= s.subrange(i + 1, s.len() as int));
    }
}

/// Law: every book has at least one chapter, and over the whole catalog the
/// chapter counts total the canonical 1189 chapters of the anthology.
#[verifier::rlimit(100)]
pub proof fn lemma_catalog_totals()
    ensures
        forall|b: BibleBook| b.spec_max_chapters() >= 1,
        sum_chapters(all_books()) == 1189,
{
    let s = all_books();
    lemma_sum_chapters_from(s, 0);
    assert(s.subrange(0, s.len() as int) =~= s);
    assert(sum_chapters_from(s, 0) == 1189) by {
        reveal_with_fuel(sum_chapters_from, 67);
    }
}

} // verus!
