use vstd::prelude::*;
use vstd::string::StrSliceExecFns;
use vstd::string::StringExecFns;

verus! {

/// A struct that holds a borrowed string, and so cannot outlive it.
pub struct ImportantExcerpt<'a> {
    pub part: &'a str,
}

impl<'a> ImportantExcerpt<'a> {
    /// A constant level, whatever the excerpt.
    pub fn level(&self) -> (r: i32)
        ensures
            r == 3,
    {
        3
    }

    /// The excerpt; the returned borrow lives as long as `self`.
    pub fn announce_and_return_part(&self, announcement: &str) -> (r: &str)
        ensures
            r@ == self.part@,
    {
        self.part
    }
}

/// What the lifetimes walk-through yields.
pub struct Lifetimes {
    /// The longer of two strings that live in different scopes.
    pub longest: String,
    /// The first sentence of a novel, held by an `ImportantExcerpt`.
    pub excerpt: String,
    /// The level of that excerpt.
    pub level: i32,
    /// A string with the static lifetime.
    pub static_text: String,
}

/// The part of `s` before its first occurrence of `c`; all of `s` where
/// `c` does not occur.
pub open spec fn spec_before_first(s: Seq<char>, c: char) -> Seq<char> {
    if exists|i: int| 0 <= i < s.len() && s[i] == c {
        s.take(choose|i: int| 0 <= i < s.len() && s[i] == c && forall|j: int| 0 <= j < i ==> s[j] != c)
    } else {
        s
    }
}

/// The longer of two strings, measured in bytes; `y` where they are equally long.
pub fn longest_string<'a>(x: &'a str, y: &'a str) -> (r: &'a str)
    ensures
        r@ == (if x.len() > y.len() {
            x@
        } else {
            y@
        }),
{
    if x.len() > y.len() {
        x
    } else {
        y
    }
}

/// The part of `s` before the first `c`, or all of `s` where there is none.
pub fn before_first(s: &str, c: char) -> (r: &str)
    ensures
        r@ == spec_before_first(s@, c),
        forall|j: int| 0 <= j < r@.len() ==> r@[j] != c,
{
    let n = s.unicode_len();
    let mut i: usize = 0;
    while i < n
        invariant
            n == s@.len(),
            i <= n,
            forall|j: int| 0 <= j < i ==> s@[j] != c,
        decreases n - i,
    {
        if s.get_char(i) == c {
            assert(0 <= i < s@.len() && s@[i as int] == c && forall|j: int|
                0 <= j < i ==> s@[j] != c);
            return s.substring_char(0, i);
        }
        i += 1;
    }
    assert(s@.subrange(0, n as int) =~= s@);
    s.substring_char(0, n)
}

/// The values that the lifetimes walk-through must yield.
pub open spec fn is_lifetimes_tour(r: &Lifetimes) -> bool {
    &&& r.longest@ == (if "Hello".len() > ", world!".len() {
        "Hello"@
    } else {
        ", world!"@
    })
    &&& r.excerpt@ == spec_before_first("Call me Michael. Some years ago..."@, '.')
    &&& r.level == 3
    &&& r.static_text@ == "I have a static lifetime."@
}

/// Compares strings from two scopes and keeps a borrowed excerpt in a struct.
pub fn lifetimes() -> (r: Lifetimes)
    ensures
        is_lifetimes_tour(&r),
{
    let x = String::from_str("Hello");
    let longest;
    {
        let y = String::from_str(", world!");
        let l = longest_string(x.as_str(), y.as_str());
        longest = l.to_owned();
    }

    let novel = String::from_str("Call me Michael. Some years ago...");
    let first_sentence = before_first(novel.as_str(), '.');
    let i = ImportantExcerpt { part: first_sentence };
    let excerpt = i.announce_and_return_part("the first sentence").to_owned();
    let level = i.level();

    let s: &'static str = "I have a static lifetime.";
    Lifetimes { longest, excerpt, level, static_text: s.to_owned() }
}

} // verus!
