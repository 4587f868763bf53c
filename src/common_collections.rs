use vstd::prelude::*;
use vstd::string::StrSliceExecFns;
use vstd::string::StringExecFns;
use crate::tally::Tally;

verus! {

/// A spreadsheet cell: one enum lets a single vector hold values of
/// different kinds.
#[derive(Debug)]
pub enum SpreadsheetCell {
    Int(i32),
    Text(String),
}

/// What the vector walk-through yields.
pub struct Vectors {
    /// The third element, read by indexing.
    pub third: i32,
    /// The third element, read by `get`.
    pub third_checked: Option<i32>,
    /// The elements in the order in which `pop` hands them out.
    pub popped: Vec<i32>,
    /// A vector read in order.
    pub listed: Vec<i32>,
    /// A vector whose elements were each raised by ten in place.
    pub raised: Vec<i32>,
    /// A vector of cells of different kinds.
    pub row: Vec<SpreadsheetCell>,
}

/// What the string walk-through yields.
pub struct Strings {
    /// A string built by pushing characters one at a time.
    pub pushed: String,
    /// The same string after it was cleared and built again from a slice.
    pub built: String,
    /// Two strings joined with `+`.
    pub greeting: String,
    /// Three strings joined with dashes.
    pub joined: String,
    /// The UTF-8 bytes of a Cyrillic word.
    pub bytes: Vec<u8>,
    /// The characters of the same word.
    pub chars: Vec<char>,
    /// Its first byte.
    pub first_byte: Option<u8>,
    /// Its first character.
    pub first_char: Option<char>,
}

/// What the map walk-through yields.
pub struct HashMaps {
    /// The score looked up for one team, zero where it has none.
    pub team_score: i32,
    /// The team scores after overwriting one and adding another only if absent.
    pub scores: Tally,
    /// How often each word occurs in a sentence.
    pub word_count: Tally,
}

/// The values that the vector walk-through must yield.
pub open spec fn is_vector_tour(r: &Vectors) -> bool {
    &&& r.third == 3
    &&& r.third_checked == Some(3i32)
    &&& r.popped@ == seq![5i32, 4, 3, 2, 1]
    &&& r.listed@ == seq![100i32, 32, 57]
    &&& r.raised@ == seq![17i32, 18, 19]
    &&& r.row@.len() == 2
    &&& r.row@[0] == SpreadsheetCell::Int(3)
    &&& r.row@[1] matches SpreadsheetCell::Text(t) && t@ == "blue"@
}

/// The values that the string walk-through must yield.
pub open spec fn is_string_tour(r: &Strings) -> bool {
    &&& r.pushed@ == seq!['H', 'e', 'l', 'l', 'o']
    &&& r.built@ == "Hello"@
    &&& r.greeting@ == "Hello, "@ + "world!"@
    &&& r.joined@ == "one"@ + "-"@ + "two"@ + "-"@ + "three"@
    &&& r.bytes@ == vstd::utf8::encode_utf8(cyrillic_word())
    &&& r.chars@ == cyrillic_word()
    &&& r.first_byte == (if r.bytes@.len() > 0 {
        Some(r.bytes@[0])
    } else {
        None
    })
    &&& r.first_char == Some('З')
}

/// The values that the map walk-through must yield; the word counts hold wherever the sentence has fewer than `i32::MAX` words.
pub open spec fn is_map_tour(r: &HashMaps) -> bool {
    &&& r.team_score == 10
    &&& r.scores.wf()
    &&& r.scores@ == map![
        "blue"@ => 10i32,
        "yellow"@ => 50i32,
        "green"@ => 25i32,
        "orange"@ => 35i32,
    ]
    &&& r.word_count.wf()
    &&& whitespace_words(sentence()).len() < i32::MAX ==> counts_words(
        r.word_count@,
        whitespace_words(sentence()),
    )
}

/// The text whose words are counted.
pub open spec fn sentence() -> Seq<char> {
    "hello world wonderful world"@
}

/// The Cyrillic word whose bytes and characters are listed.
pub open spec fn cyrillic_word() -> Seq<char> {
    "Здравствуйте"@
}

/// How often `w` occurs in `ws`.
pub open spec fn occurrences(ws: Seq<Seq<char>>, w: Seq<char>) -> nat
    decreases ws.len(),
{
    if ws.len() == 0 {
        0
    } else {
        occurrences(ws.drop_last(), w) + if ws.last() == w {
            1nat
        } else {
            0nat
        }
    }
}

/// `m` maps exactly the words of `ws` to how often each occurs.
pub open spec fn counts_words(m: Map<Seq<char>, i32>, ws: Seq<Seq<char>>) -> bool {
    &&& forall|w: Seq<char>| #[trigger] m.contains_key(w) <==> occurrences(ws, w) > 0
    &&& forall|w: Seq<char>| #[trigger] m.contains_key(w) ==> m[w] == occurrences(ws, w)
}

/// The words of a text, split at whitespace, as `str::split_whitespace`
/// finds them.
pub uninterp spec fn whitespace_words(s: Seq<char>) -> Seq<Seq<char>>;

/// Relies on `str::split_whitespace`: the words of `s`, in order, which
/// depend on the characters of `s` alone.
#[verifier::external_body]
fn split_words(s: &str) -> (r: Vec<String>)
    ensures
        r@.map_values(|w: String| w@) == whitespace_words(s@),
{
    s.split_whitespace().map(|w| w.to_string()).collect()
}

/// Relies on `String::push`: appends one character.
#[verifier::external_body]
fn push_char(s: &mut String, c: char)
    ensures
        final(s)@ == old(s)@.push(c),
{
    s.push(c)
}

/// Relies on `String::clear`: leaves the string empty.
#[verifier::external_body]
fn clear_string(s: &mut String)
    ensures
        final(s)@ == Seq::<char>::empty(),
{
    s.clear()
}

proof fn lemma_occurrences_bound(ws: Seq<Seq<char>>, w: Seq<char>)
    ensures
        occurrences(ws, w) <= ws.len(),
    decreases ws.len(),
{
    if ws.len() > 0 {
        lemma_occurrences_bound(ws.drop_last(), w);
    }
}

/// Counts how often each word occurs.
pub fn count_words(words: &Vec<String>) -> (r: Tally)
    requires
        words@.len() < i32::MAX,
    ensures
        r.wf(),
        counts_words(r@, words@.map_values(|w: String| w@)),
{
    let mut counts = Tally::new();
    let mut i: usize = 0;
    while i < words.len()
        invariant
            i <= words@.len() < i32::MAX,
            counts.wf(),
            counts_words(counts@, words@.subrange(0, i as int).map_values(|w: String| w@)),
        decreases words@.len() - i,
    {
        let ghost before = words@.subrange(0, i as int).map_values(|w: String| w@);
        let ghost after = words@.subrange(0, i + 1).map_values(|w: String| w@);
        proof {
            assert(after.drop_last() =~= before);
            assert(after.last() == words@[i as int]@);
            lemma_occurrences_bound(before, words@[i as int]@);
        }
        counts.add_one(words[i].clone());
        i += 1;
    }
    assert(words@.subrange(0, words@.len() as int) =~= words@);
    counts
}

/// Fills, reads, drains and rewrites vectors.
pub fn vectors() -> (r: Vectors)
    ensures
        is_vector_tour(&r),
{
    let mut v: Vec<i32> = Vec::new();
    v.push(1);
    v.push(2);
    v.push(3);
    v.push(4);
    v.push(5);

    let third = v[2];
    let third_checked = match v.get(2) {
        Some(value) => Some(*value),
        None => None,
    };

    let mut popped: Vec<i32> = Vec::new();
    while !v.is_empty()
        invariant
            v@.len() + popped@.len() == 5,
            forall|j: int| 0 <= j < v@.len() ==> v@[j] == j + 1,
            forall|j: int| 0 <= j < popped@.len() ==> popped@[j] == 5 - j,
        decreases v@.len(),
    {
        let last = v.pop().unwrap();
        popped.push(last);
    }
    assert(popped@ == seq![5i32, 4, 3, 2, 1]);

    let listed: Vec<i32> = vec![100, 32, 57];

    let mut raised: Vec<i32> = vec![7, 8, 9];
    let mut i: usize = 0;
    while i < raised.len()
        invariant
            raised@.len() == 3,
            i <= 3,
            forall|j: int| 0 <= j < i ==> raised@[j] == 17 + j,
            forall|j: int| i <= j < 3 ==> raised@[j] == 7 + j,
        decreases 3 - i,
    {
        let x = raised[i] + 10;
        raised.set(i, x);
        i += 1;
    }
    assert(raised@ == seq![17i32, 18, 19]);

    let row: Vec<SpreadsheetCell> = vec![
        SpreadsheetCell::Int(3),
        SpreadsheetCell::Text(String::from_str("blue")),
    ];
    Vectors { third, third_checked, popped, listed, raised, row }
}

/// Builds, joins and takes apart strings, by bytes and by characters.
pub fn strings() -> (r: Strings)
    ensures
        is_string_tour(&r),
{
    let mut built = String::new();
    push_char(&mut built, 'H');
    push_char(&mut built, 'e');
    push_char(&mut built, 'l');
    push_char(&mut built, 'l');
    push_char(&mut built, 'o');
    let pushed = built.clone();
    assert(pushed@ =~= seq!['H', 'e', 'l', 'l', 'o']);
    clear_string(&mut built);
    built.append("Hello");

    let hello = String::from_str("Hello, ");
    let world = String::from_str("world!");
    let greeting = hello.concat(world.as_str());

    let one = String::from_str("one");
    let two = String::from_str("two");
    let three = String::from_str("three");
    let mut joined = String::new();
    joined.append(one.as_str());
    joined.append("-");
    joined.append(two.as_str());
    joined.append("-");
    joined.append(three.as_str());

    let word = "Здравствуйте";
    proof {
        reveal_strlit("Здравствуйте");
    }
    let bytes = word.as_bytes_vec();
    let first_byte = if bytes.len() > 0 {
        Some(bytes[0])
    } else {
        None
    };
    let n = word.unicode_len();
    let mut chars: Vec<char> = Vec::new();
    let mut i: usize = 0;
    while i < n
        invariant
            n == word@.len(),
            i <= n,
            chars@ == word@.subrange(0, i as int),
        decreases n - i,
    {
        chars.push(word.get_char(i));
        i += 1;
    }
    assert(chars@ == word@);
    let first_char = if chars.len() > 0 {
        Some(chars[0])
    } else {
        None
    };
    Strings { pushed, built, greeting, joined, bytes, chars, first_byte, first_char }
}

/// Inserts, overwrites, reads and counts with string-keyed maps.
pub fn hash_maps() -> (r: HashMaps)
    ensures
        is_map_tour(&r),
{
    proof {
        reveal_strlit("blue");
        reveal_strlit("yellow");
        reveal_strlit("green");
        reveal_strlit("orange");
        assert("blue"@.len() == 4 && "green"@.len() == 5 && "yellow"@.len() == 6);
        assert("orange"@.len() == 6 && "orange"@[0] != "yellow"@[0]);
    }
    let mut scores = Tally::new();
    scores.insert(String::from_str("blue"), 10);
    scores.insert(String::from_str("yellow"), 50);

    let team_name = String::from_str("blue");
    let team_score = scores.get(&team_name).unwrap_or(0);

    scores.insert(String::from_str("green"), 10);
    scores.insert(String::from_str("green"), 25);

    scores.or_insert(String::from_str("green"), 75);
    scores.or_insert(String::from_str("orange"), 35);

    assert(scores@ =~= map![
        "blue"@ => 10i32,
        "yellow"@ => 50i32,
        "green"@ => 25i32,
        "orange"@ => 35i32,
    ]);

    let some_text = "hello world wonderful world";
    let words = split_words(some_text);
    let word_count = if words.len() < i32::MAX as usize {
        count_words(&words)
    } else {
        Tally::new()
    };
    HashMaps { team_score, scores, word_count }
}

/// Walks through vectors, strings and maps.
pub fn collections() -> (r: (Vectors, Strings, HashMaps))
    ensures
        is_vector_tour(&r.0),
        is_string_tour(&r.1),
        is_map_tour(&r.2),
{
    (vectors(), strings(), hash_maps())
}

} // verus!
