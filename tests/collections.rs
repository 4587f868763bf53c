use hello_rust::common_collections::{
    count_words, hash_maps, strings, vectors, SpreadsheetCell,
};
use hello_rust::tally::Tally;
use hello_rust::try_common_collections;

fn lookup(t: &Tally, k: &str) -> Option<i32> {
    t.get(&String::from(k))
}

#[test]
fn vectors_values() {
    let v = vectors();
    assert_eq!(v.third, 3);
    assert_eq!(v.third_checked, Some(3));
    assert_eq!(v.popped, vec![5, 4, 3, 2, 1]);
    assert_eq!(v.listed, vec![100, 32, 57]);
    assert_eq!(v.raised, vec![17, 18, 19]);
    assert_eq!(v.row.len(), 2);
    assert!(matches!(v.row[0], SpreadsheetCell::Int(3)));
    assert!(matches!(&v.row[1], SpreadsheetCell::Text(t) if t == "blue"));
}

#[test]
fn strings_values() {
    let s = strings();
    assert_eq!(s.pushed, "Hello");
    assert_eq!(s.built, "Hello");
    assert_eq!(s.greeting, "Hello, world!");
    assert_eq!(s.joined, "one-two-three");
    assert_eq!(s.bytes.len(), 24);
    assert_eq!(s.bytes, "Здравствуйте".as_bytes().to_vec());
    assert_eq!(s.first_byte, Some(208));
    assert_eq!(s.chars.len(), 12);
    assert_eq!(s.first_char, Some('З'));
    assert_eq!(s.chars.iter().collect::<String>(), "Здравствуйте");
}

#[test]
fn hash_maps_values() {
    let h = hash_maps();
    assert_eq!(h.team_score, 10);
    assert_eq!(h.scores.len(), 4);
    assert_eq!(lookup(&h.scores, "blue"), Some(10));
    assert_eq!(lookup(&h.scores, "yellow"), Some(50));
    assert_eq!(lookup(&h.scores, "green"), Some(25));
    assert_eq!(lookup(&h.scores, "orange"), Some(35));
    assert_eq!(lookup(&h.scores, "red"), None);
    assert_eq!(h.word_count.len(), 3);
    assert_eq!(lookup(&h.word_count, "hello"), Some(1));
    assert_eq!(lookup(&h.word_count, "world"), Some(2));
    assert_eq!(lookup(&h.word_count, "wonderful"), Some(1));
}

#[test]
fn collections_entry() {
    let (v, s, h) = try_common_collections();
    assert_eq!(v.popped, vec![5, 4, 3, 2, 1]);
    assert_eq!(s.joined, "one-two-three");
    assert_eq!(lookup(&h.word_count, "world"), Some(2));
}

#[test]
fn count_words_cases() {
    let empty = count_words(&vec![]);
    assert_eq!(empty.len(), 0);
    let words: Vec<String> = vec!["a", "b", "a", "a"].into_iter().map(String::from).collect();
    let t = count_words(&words);
    assert_eq!(t.len(), 2);
    assert_eq!(lookup(&t, "a"), Some(3));
    assert_eq!(lookup(&t, "b"), Some(1));
    assert_eq!(
        t.entries().clone(),
        vec![(String::from("a"), 3), (String::from("b"), 1)]
    );
}

#[test]
fn tally_operations() {
    let mut t = Tally::new();
    assert_eq!(t.len(), 0);
    assert_eq!(lookup(&t, "x"), None);
    t.insert(String::from("x"), 1);
    t.insert(String::from("y"), 2);
    t.insert(String::from("x"), 7);
    assert_eq!(t.len(), 2);
    assert_eq!(lookup(&t, "x"), Some(7));
    t.or_insert(String::from("x"), 100);
    t.or_insert(String::from("z"), 100);
    assert_eq!(lookup(&t, "x"), Some(7));
    assert_eq!(lookup(&t, "z"), Some(100));
    t.add_one(String::from("y"));
    t.add_one(String::from("w"));
    assert_eq!(lookup(&t, "y"), Some(3));
    assert_eq!(lookup(&t, "w"), Some(1));
    assert_eq!(t.len(), 4);
}
