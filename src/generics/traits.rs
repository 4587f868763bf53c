use vstd::prelude::*;
use vstd::string::StringExecFns;

verus! {

/// `"(Read more from {author}...)"`.
pub open spec fn read_more(author: Seq<char>) -> Seq<char> {
    "(Read more from "@ + author + "...)"@
}

/// `"({a}, {b}, {c}, {d})"`.
pub open spec fn parenthesised(a: Seq<char>, b: Seq<char>, c: Seq<char>, d: Seq<char>) -> Seq<
    char,
> {
    "("@ + a + ", "@ + b + ", "@ + c + ", "@ + d + ")"@
}

/// `"true"` or `"false"`.
pub open spec fn bool_text(b: bool) -> Seq<char> {
    if b {
        "true"@
    } else {
        "false"@
    }
}

/// Something that can be summarised in one line.
pub trait Summary {
    /// The author, as `summarize_author` writes it.
    spec fn spec_author(&self) -> Seq<char>;

    /// Who wrote it.
    fn summarize_author(&self) -> (r: String)
        ensures
            r@ == self.spec_author(),
    ;

    /// A one-line summary; unless overridden, a pointer to the author.
    fn summarize(&self) -> (r: String)
        default_ensures
            r@ == read_more(self.spec_author()),
    {
        let mut s = String::from_str("(Read more from ");
        let author = self.summarize_author();
        s.append(author.as_str());
        s.append("...)");
        s
    }
}

/// Something that can greet.
pub trait Hi {
    /// The greeting.
    fn hi(&self) -> (r: String);
}

/// Everything that can be summarised greets its author.
impl<T: Summary> Hi for T {
    fn hi(&self) -> (r: String)
        ensures
            r@ == "Hi "@ + self.spec_author() + "!"@,
    {
        let mut s = String::from_str("Hi ");
        let author = self.summarize_author();
        s.append(author.as_str());
        s.append("!");
        s
    }
}

/// A news article.
pub struct NewsArticle {
    pub headline: String,
    pub location: String,
    pub author: String,
    pub content: String,
}

/// The article keeps the default summary.
impl Summary for NewsArticle {
    open spec fn spec_author(&self) -> Seq<char> {
        self.author@
    }

    fn summarize_author(&self) -> (r: String) {
        self.author.clone()
    }
}

impl NewsArticle {
    /// All four fields in parentheses, separated by commas.
    pub fn describe(&self) -> (r: String)
        ensures
            r@ == parenthesised(self.headline@, self.location@, self.author@, self.content@),
    {
        let mut s = String::from_str("(");
        s.append(self.headline.as_str());
        s.append(", ");
        s.append(self.location.as_str());
        s.append(", ");
        s.append(self.author.as_str());
        s.append(", ");
        s.append(self.content.as_str());
        s.append(")");
        s
    }
}

/// A short post.
pub struct Tweet {
    pub username: String,
    pub content: String,
    pub reply: bool,
    pub retweet: bool,
}

/// The tweet names its author with an `@` and overrides the summary.
impl Summary for Tweet {
    open spec fn spec_author(&self) -> Seq<char> {
        "@"@ + self.username@
    }

    fn summarize_author(&self) -> (r: String) {
        let mut s = String::from_str("@");
        s.append(self.username.as_str());
        s
    }

    fn summarize(&self) -> (r: String)
        ensures
            r@ == self.username@ + ": "@ + self.content@,
    {
        let mut s = self.username.clone();
        s.append(": ");
        s.append(self.content.as_str());
        s
    }
}

/// `"true"` or `"false"`.
fn bool_to_string(b: bool) -> (r: String)
    ensures
        r@ == bool_text(b),
{
    if b {
        String::from_str("true")
    } else {
        String::from_str("false")
    }
}

impl Tweet {
    /// All four fields in parentheses, separated by commas.
    pub fn describe(&self) -> (r: String)
        ensures
            r@ == parenthesised(
                self.username@,
                self.content@,
                bool_text(self.reply),
                bool_text(self.retweet),
            ),
    {
        let mut s = String::from_str("(");
        s.append(self.username.as_str());
        s.append(", ");
        s.append(self.content.as_str());
        s.append(", ");
        s.append(bool_to_string(self.reply).as_str());
        s.append(", ");
        s.append(bool_to_string(self.retweet).as_str());
        s.append(")");
        s
    }
}

/// `"Breaking news! "` followed by what `summarize` returned for `news`.
pub open spec fn is_breaking_news<T: Summary>(news: &T, r: Seq<char>) -> bool {
    exists|s: String| call_ensures(T::summarize, (news,), s) && r == "Breaking news! "@ + s@
}

/// The headline line for anything that can be summarised.
pub fn breaking_news<T: Summary>(news: &T) -> (r: String)
    ensures
        is_breaking_news(news, r@),
{
    let mut s = String::from_str("Breaking news! ");
    let summary = news.summarize();
    s.append(summary.as_str());
    s
}

/// The same, with the bound in a `where` clause.
pub fn breaking_news_where_clause<T>(news: &T) -> (r: String)
    where
        T: Summary,
    ensures
        is_breaking_news(news, r@),
{
    let mut s = String::from_str("Breaking news! ");
    let summary = news.summarize();
    s.append(summary.as_str());
    s
}

/// The same, with an `impl Trait` parameter.
pub fn breaking_news_impl_trait(news: &impl Summary) -> (r: String)
    ensures
        is_breaking_news(news, r@),
{
    let mut s = String::from_str("Breaking news! ");
    let summary = news.summarize();
    s.append(summary.as_str());
    s
}

/// The same, with an `impl Trait` parameter that names one trait only.
pub fn breaking_news_impl_1_trait(news: &impl Summary) -> (r: String)
    ensures
        is_breaking_news(news, r@),
{
    let mut s = String::from_str("Breaking news! ");
    let summary = news.summarize();
    s.append(summary.as_str());
    s
}

/// A tweet, handed out as something that can be summarised.
pub fn summarizable_tweet() -> (r: impl Summary)
    ensures
        r.spec_author() == "@"@ + "horse_ebooks"@,
{
    Tweet {
        username: String::from_str("horse_ebooks"),
        content: String::from_str("of course, as you probably already know, people"),
        reply: false,
        retweet: false,
    }
}

/// What the traits walk-through yields.
pub struct Traits {
    pub tweet_summary: String,
    pub article_summary: String,
    pub article_hi: String,
    pub tweet_hi: String,
    pub article_news: String,
    pub tweet_news: String,
    pub article_text: String,
    pub tweet_text: String,
}

/// The article of the traits walk-through.
pub open spec fn sample_article() -> (Seq<char>, Seq<char>, Seq<char>, Seq<char>) {
    (
        "Penguins win the Stanley Cup Championship!"@,
        "Pittsburgh, PA, USA"@,
        "Iceburgh"@,
        "The Pittsburgh Penguins once again are the best hockey team in the NHL."@,
    )
}

/// The values that the traits walk-through must yield.
pub open spec fn is_traits_tour(r: &Traits) -> bool {
    &&& r.tweet_summary@ == "horse_ebooks"@ + ": "@
        + "of course, as you probably already know, people"@
    &&& r.article_summary@ == read_more(sample_article().2)
    &&& r.article_hi@ == "Hi "@ + sample_article().2 + "!"@
    &&& r.tweet_hi@ == "Hi "@ + ("@"@ + "horse_ebooks"@) + "!"@
    &&& r.article_news@ == "Breaking news! "@ + read_more(sample_article().2)
    &&& r.tweet_news@ == "Breaking news! "@ + r.tweet_summary@
    &&& r.article_text@ == parenthesised(
        sample_article().0,
        sample_article().1,
        sample_article().2,
        sample_article().3,
    )
    &&& r.tweet_text@ == parenthesised(
        "horse_ebooks"@,
        "of course, as you probably already know, people"@,
        "false"@,
        "false"@,
    )
}

/// Summarises an article and a tweet, greets their authors through the
/// blanket impl, and passes both to a generic function.
pub fn traits() -> (r: Traits)
    ensures
        is_traits_tour(&r),
{
    let article = NewsArticle {
        headline: String::from_str("Penguins win the Stanley Cup Championship!"),
        location: String::from_str("Pittsburgh, PA, USA"),
        author: String::from_str("Iceburgh"),
        content: String::from_str(
            "The Pittsburgh Penguins once again are the best hockey team in the NHL.",
        ),
    };
    let tweet = Tweet {
        username: String::from_str("horse_ebooks"),
        content: String::from_str("of course, as you probably already know, people"),
        reply: false,
        retweet: false,
    };

    let tweet_summary = tweet.summarize();
    let article_summary = article.summarize();
    let article_hi = article.hi();
    let tweet_hi = tweet.hi();

    let article_news = breaking_news(&article);
    let tweet_news = breaking_news(&tweet);

    let article_text = article.describe();
    let tweet_text = tweet.describe();
    Traits {
        tweet_summary,
        article_summary,
        article_hi,
        tweet_hi,
        article_news,
        tweet_news,
        article_text,
        tweet_text,
    }
}

} // verus!
