use hello_rust::generics::lifetimes::{before_first, lifetimes, longest_string, ImportantExcerpt};
use hello_rust::generics::traits::{
    breaking_news, breaking_news_impl_1_trait, breaking_news_impl_trait, breaking_news_where_clause, summarizable_tweet,
    traits, Hi, NewsArticle, Summary, Tweet,
};
use hello_rust::generics::{generics, largest_char, largest_generic, largest_i32, Point};
use hello_rust::iterators_and_closures::{
    at_most, closures, iterators, plus_one_each, Inventory, ShirtColor,
};
use hello_rust::{try_generics, try_iterators_and_closures};

fn article() -> NewsArticle {
    NewsArticle {
        headline: String::from("H"),
        location: String::from("L"),
        author: String::from("A"),
        content: String::from("C"),
    }
}

fn tweet() -> Tweet {
    Tweet {
        username: String::from("u"),
        content: String::from("c"),
        reply: true,
        retweet: false,
    }
}

#[test]
fn largest_functions() {
    let numbers = [34, 50, 25, 100, 65];
    assert_eq!(*largest_i32(&numbers), 100);
    assert_eq!(*largest_i32(&numbers[..3]), 50);
    assert_eq!(*largest_i32(&[-3]), -3);
    assert_eq!(*largest_char(&['y', 'm', 'a', 'q']), 'y');
    assert_eq!(*largest_char(&['a', 'z', 'z']), 'z');
    assert_eq!(*largest_generic(&numbers), 100);
    assert_eq!(*largest_generic(&['y', 'm', 'a', 'q']), 'y');
    assert_eq!(*largest_generic(&[1u8, 9, 9, 2]), 9);
}

#[test]
fn largest_picks_first_of_equals() {
    let list = [1, 7, 3, 7];
    let r = largest_i32(&list);
    assert!(std::ptr::eq(r, &list[1]));
}

#[test]
fn point_methods() {
    let p = Point::new(5, 6);
    assert_eq!(*p.x(), 5);
    assert_eq!(*p.y(), 6);
    let q = p.mixup(Point::new('c', "hello"));
    assert_eq!(q.x, 5);
    assert_eq!(q.y, "hello");
}

#[test]
fn generics_values() {
    let g = generics();
    assert_eq!(g.largest_number, 100);
    assert_eq!(g.largest_char, 'y');
    assert_eq!(g.largest_tail, 100);
    assert_eq!(g.largest_head_char, 'y');
    assert_eq!(g.largest_number_generic, 100);
    assert_eq!(g.largest_char_generic, 'y');
    assert_eq!(g.mixed.x, 5);
    assert_eq!(g.mixed.y, "hello");
}

#[test]
fn summaries() {
    assert_eq!(article().summarize_author(), "A");
    assert_eq!(article().summarize(), "(Read more from A...)");
    assert_eq!(tweet().summarize_author(), "@u");
    assert_eq!(tweet().summarize(), "u: c");
    assert_eq!(article().hi(), "Hi A!");
    assert_eq!(tweet().hi(), "Hi @u!");
    assert_eq!(article().describe(), "(H, L, A, C)");
    assert_eq!(tweet().describe(), "(u, c, true, false)");
}

#[test]
fn breaking_news_forms() {
    assert_eq!(breaking_news(&article()), "Breaking news! (Read more from A...)");
    assert_eq!(breaking_news(&tweet()), "Breaking news! u: c");
    assert_eq!(breaking_news_where_clause(&tweet()), "Breaking news! u: c");
    assert_eq!(breaking_news_impl_trait(&article()), "Breaking news! (Read more from A...)");
    assert_eq!(breaking_news_impl_1_trait(&tweet()), "Breaking news! u: c");
    let t = summarizable_tweet();
    assert_eq!(t.summarize_author(), "@horse_ebooks");
    assert_eq!(
        t.summarize(),
        "horse_ebooks: of course, as you probably already know, people"
    );
}

#[test]
fn traits_values() {
    let t = traits();
    assert_eq!(
        t.tweet_summary,
        "horse_ebooks: of course, as you probably already know, people"
    );
    assert_eq!(t.article_summary, "(Read more from Iceburgh...)");
    assert_eq!(t.article_hi, "Hi Iceburgh!");
    assert_eq!(t.tweet_hi, "Hi @horse_ebooks!");
    assert_eq!(t.article_news, "Breaking news! (Read more from Iceburgh...)");
    assert_eq!(
        t.tweet_news,
        "Breaking news! horse_ebooks: of course, as you probably already know, people"
    );
    assert_eq!(
        t.article_text,
        "(Penguins win the Stanley Cup Championship!, Pittsburgh, PA, USA, Iceburgh, \
         The Pittsburgh Penguins once again are the best hockey team in the NHL.)"
    );
    assert_eq!(
        t.tweet_text,
        "(horse_ebooks, of course, as you probably already know, people, false, false)"
    );
}

#[test]
fn lifetimes_functions() {
    assert_eq!(longest_string("Hello", ", world!"), ", world!");
    assert_eq!(longest_string("abc", "de"), "abc");
    assert_eq!(longest_string("ab", "cd"), "cd");
    assert_eq!(longest_string("ж", "ab"), "ab");
    assert_eq!(longest_string("жж", "abc"), "жж");
    assert_eq!(before_first("Call me Michael. Some years ago...", '.'), "Call me Michael");
    assert_eq!(before_first("no dot", '.'), "no dot");
    assert_eq!(before_first(".x", '.'), "");
    let e = ImportantExcerpt { part: "part" };
    assert_eq!(e.level(), 3);
    assert_eq!(e.announce_and_return_part("now"), "part");
}

#[test]
fn lifetimes_values() {
    let l = lifetimes();
    assert_eq!(l.longest, ", world!");
    assert_eq!(l.excerpt, "Call me Michael");
    assert_eq!(l.level, 3);
    assert_eq!(l.static_text, "I have a static lifetime.");
    let (g, t, l2) = try_generics();
    assert_eq!(g.largest_number, 100);
    assert_eq!(t.tweet_hi, "Hi @horse_ebooks!");
    assert_eq!(l2.excerpt, "Call me Michael");
}

#[test]
fn giveaway_and_stock() {
    let store = Inventory {
        shirts: vec![ShirtColor::Blue, ShirtColor::Red, ShirtColor::Blue],
    };
    assert_eq!(store.giveaway(Some(ShirtColor::Red)), ShirtColor::Red);
    assert_eq!(store.giveaway(None), ShirtColor::Blue);
    let reds = Inventory {
        shirts: vec![ShirtColor::Red, ShirtColor::Red, ShirtColor::Blue],
    };
    assert_eq!(reds.most_stocked(), ShirtColor::Red);
    let tie = Inventory {
        shirts: vec![ShirtColor::Red, ShirtColor::Blue],
    };
    assert_eq!(tie.most_stocked(), ShirtColor::Blue);
    let empty = Inventory { shirts: vec![] };
    assert_eq!(empty.most_stocked(), ShirtColor::Blue);
}

#[test]
fn closures_values() {
    let c = closures();
    assert_eq!(c.preferred, ShirtColor::Red);
    assert_eq!(c.fallback, ShirtColor::Blue);
    assert_eq!(c.annotated, 3);
    assert_eq!(c.inferred, 7);
    assert_eq!(c.borrowed, [3; 5]);
    assert_eq!(c.extended, vec![4, 4, 4, 4, 4, 4, 5]);
}

#[test]
fn iterator_helpers() {
    assert_eq!(plus_one_each(&vec![1, 2, 3]), vec![2, 3, 4]);
    assert_eq!(plus_one_each(&vec![]), Vec::<i32>::new());
    assert_eq!(at_most(&vec![2, 3, 4], 3), vec![2, 3]);
    assert_eq!(at_most(&vec![5, 1, 9, 3], 3), vec![1, 3]);
}

#[test]
fn iterators_values() {
    let i = iterators();
    assert_eq!(i.walked, vec![1, 2, 3]);
    assert_eq!(i.sum, 6);
    assert_eq!(i.mapped, vec![2, 3, 4]);
    assert_eq!(i.filtered, vec![2, 3]);
    let (c, i2) = try_iterators_and_closures();
    assert_eq!(c.fallback, ShirtColor::Blue);
    assert_eq!(i2.sum, 6);
}
