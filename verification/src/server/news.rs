//! The news: articles as they were posted, read back newest first.

use vstd::prelude::*;

use crate::protocol::text::{
    ascii_bytes, ascii_text, decode_mac_roman, encode_mac_roman, is_ascii_bytes, is_ascii_text, mac_roman_decode,
    mac_roman_encode,
};

verus! {

/// Why the news service could not answer.
#[derive(Debug, Clone, Copy, PartialEq, Eq, Structural)]
pub enum NewsError {
    ExecutionError,
    ServiceUnavailable,
}

/// The text between two articles: a line holding two dashes.
pub open spec fn news_separator() -> Seq<char> {
    seq!['\r', '-', '-', '\r']
}

/// Texts put one after the other with the separator between each two.
pub open spec fn joined_text(s: Seq<Seq<char>>) -> Seq<char>
    decreases s.len(),
{
    if s.len() == 0 {
        Seq::empty()
    } else if s.len() == 1 {
        s[0]
    } else {
        joined_text(s.drop_last()) + news_separator() + s.last()
    }
}

/// All the news as one text: the newest article first.
pub open spec fn news_text(articles: Seq<Seq<char>>) -> Seq<char> {
    joined_text(articles.reverse())
}

/// The articles posted so far, in Mac Roman.
#[derive(Debug)]
pub struct News {
    articles: Vec<String>,
}

impl View for News {
    type V = Seq<Seq<char>>;

    closed spec fn view(&self) -> Seq<Seq<char>> {
        self.articles@.map_values(|a: String| a@)
    }
}

impl News {
    /// No articles.
    pub fn new() -> (r: Self)
        ensures
            r@ == Seq::<Seq<char>>::empty(),
    {
        let r = News { articles: Vec::new() };
        assert(r@ =~= Seq::<Seq<char>>::empty());
        r
    }

    /// Keeps an article, decoded from Mac Roman.
    pub fn post(&mut self, article: Vec<u8>)
        ensures
            final(self)@ == old(self)@.push(mac_roman_decode(article@)),
            is_ascii_bytes(article@) ==> final(self)@ == old(self)@.push(ascii_text(article@)),
    {
        let text = decode_mac_roman(article.as_slice());
        self.articles.push(text);
        assert(self@ =~= old(self)@.push(mac_roman_decode(article@)));
    }

    /// All the news, newest first, encoded in Mac Roman.
    pub fn all(&self) -> (r: Vec<u8>)
        ensures
            r@ == mac_roman_encode(news_text(self@)).0,
            is_ascii_text(news_text(self@)) ==> r@ == ascii_bytes(news_text(self@)),
    {
        let ghost arts = self@;
        let ghost rev = arts.reverse();
        let n = self.articles.len();
        let mut text = String::new();
        let mut k: usize = 0;
        while k < n
            invariant
                n == self.articles@.len(),
                arts == self@,
                rev == arts.reverse(),
                0 <= k <= n,
                text@ == joined_text(rev.take(k as int)),
            decreases n - k,
        {
            if k > 0 {
                let separator = "\r--\r";
                proof {
                    reveal_strlit("\r--\r");
                }
                assert(separator@ =~= news_separator());
                text.append(separator);
            }
            text.append(self.articles[n - 1 - k].as_str());
            proof {
                let t = rev.take(k + 1);
                assert(t.drop_last() =~= rev.take(k as int));
                assert(t.last() == arts[n - 1 - k]);
                if k == 0 {
                    assert(joined_text(rev.take(0)) =~= Seq::<char>::empty());
                    assert(text@ =~= joined_text(t));
                } else {
                    assert(text@ =~= joined_text(t));
                }
            }
            k = k + 1;
        }
        assert(rev.take(n as int) =~= rev);
        let (bytes, _) = encode_mac_roman(text.as_str());
        bytes
    }
}

/// A posted article comes first in all the news, followed by the separator
/// and the news as they were.
pub proof fn law_post_then_all(articles: Seq<Seq<char>>, a: Seq<char>)
    ensures
        news_text(articles.push(a)) == (if articles.len() == 0 {
            a
        } else {
            a + news_separator() + news_text(articles)
        }),
    decreases articles.len(),
{
    let r = articles.push(a).reverse();
    if articles.len() == 0 {
        assert(r =~= seq![a]);
    } else {
        assert(r[0] == a);
        lemma_joined_prepend(articles.reverse(), a);
        assert(r =~= seq![a] + articles.reverse());
    }
}

/// Putting a text in front of a nonempty list puts it, and the separator, in
/// front of the joined text.
proof fn lemma_joined_prepend(s: Seq<Seq<char>>, a: Seq<char>)
    requires
        s.len() > 0,
    ensures
        joined_text(seq![a] + s) == a + news_separator() + joined_text(s),
    decreases s.len(),
{
    let t = seq![a] + s;
    if s.len() == 1 {
        assert(t.drop_last() =~= seq![a]);
        assert(joined_text(seq![a]) == a);
    } else {
        lemma_joined_prepend(s.drop_last(), a);
        assert(t.drop_last() =~= seq![a] + s.drop_last());
        assert(t.last() == s.last());
        assert(a + news_separator() + joined_text(s) =~= a + news_separator() + joined_text(s.drop_last()) + news_separator() + s.last());
    }
}

/// Keeps the news and posts the articles sent to it, one at a time; the
/// caller passes on each new state.
#[derive(Debug)]
pub struct NewsUpdateProcessor {
    news: News,
}

impl NewsUpdateProcessor {
    /// The articles as they are now.
    pub closed spec fn state(&self) -> Seq<Seq<char>> {
        self.news@
    }

    pub fn new() -> (r: Self)
        ensures
            r.state() == Seq::<Seq<char>>::empty(),
    {
        NewsUpdateProcessor { news: News::new() }
    }

    /// The news, to be published after a post.
    pub fn news(&self) -> (r: &News)
        ensures
            r@ == self.state(),
    {
        &self.news
    }

    /// Posts one article.
    pub fn handle(&mut self, article: Vec<u8>)
        ensures
            final(self).state() == old(self).state().push(mac_roman_decode(article@)),
    {
        self.news.post(article);
    }
}

} // verus!
