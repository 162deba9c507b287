//! Traits: default methods, trait bounds, an associated-type iterator, and
//! trait objects behind a common drawing interface.
use vstd::prelude::*;
use vstd::string::StringExecFns;

verus! {

/// Content that can describe itself in one line.
pub trait Summary {
    /// The summary line `summarize` returns.
    spec fn spec_summarize(&self) -> Seq<char>;

    /// The author line `summarize_author` returns; the unknown author
    /// unless a type says otherwise.
    open spec fn spec_summarize_author(&self) -> Seq<char> {
        "未知作者"@
    }

    /// A short summary of the content.
    fn summarize(&self) -> (r: String)
        ensures
            r@ == self.spec_summarize(),
    ;

    /// The author line; unknown unless a type says otherwise.
    fn summarize_author(&self) -> (r: String)
        ensures
            r@ == self.spec_summarize_author(),
    ;

    /// The summary and the author line, joined with a dash.
    fn summarize_with_author(&self) -> (r: String)
        ensures
            r@ == self.spec_summarize() + " - "@ + self.spec_summarize_author(),
    {
        let mut s = self.summarize();
        s.append(" - ");
        let author = self.summarize_author();
        s.append(author.as_str());
        proof {
            assert(s@ =~= self.spec_summarize() + " - "@ + self.spec_summarize_author());
        }
        s
    }
}

impl Summary for String {
    /// A plain string summarizes as its own content.
    open spec fn spec_summarize(&self) -> Seq<char> {
        "文章内容: "@ + self@
    }

    fn summarize(&self) -> (r: String) {
        let mut s = String::from_str("文章内容: ");
        s.append(self.as_str());
        s
    }

    fn summarize_author(&self) -> (r: String) {
        String::from_str("未知作者")
    }
}

/// A news article with a headline, a location and an author.
pub struct NewsArticle {
    pub headline: String,
    pub location: String,
    pub author: String,
    pub content: String,
}

impl Summary for NewsArticle {
    /// Headline, author and location on one line.
    open spec fn spec_summarize(&self) -> Seq<char> {
        self.headline@ + ", by "@ + self.author@ + " ("@ + self.location@ + ")"@
    }

    /// Articles know their author.
    open spec fn spec_summarize_author(&self) -> Seq<char> {
        "作者: "@ + self.author@
    }

    fn summarize(&self) -> (r: String) {
        let mut s = self.headline.clone();
        s.append(", by ");
        s.append(self.author.as_str());
        s.append(" (");
        s.append(self.location.as_str());
        s.append(")");
        s
    }

    fn summarize_author(&self) -> (r: String) {
        let mut s = String::from_str("作者: ");
        s.append(self.author.as_str());
        s
    }
}

/// A tweet: a username, its content, and reply/retweet flags.
pub struct Tweet {
    pub username: String,
    pub content: String,
    pub reply: bool,
    pub retweet: bool,
}

impl Summary for Tweet {
    /// Username and content, colon-separated.
    open spec fn spec_summarize(&self) -> Seq<char> {
        self.username@ + ": "@ + self.content@
    }

    fn summarize(&self) -> (r: String) {
        let mut s = self.username.clone();
        s.append(": ");
        s.append(self.content.as_str());
        s
    }

    fn summarize_author(&self) -> (r: String) {
        String::from_str("未知作者")
    }
}

/// A function whose bounds demand summary, cloning and debug printing; its
/// answer does not depend on them.
pub fn some_function<T, U>(t: &T, u: &U) -> (r: i32)
    where T: Summary + core::fmt::Display, U: Clone + core::fmt::Debug
    ensures
        r == 42,
{
    42
}

/// Hands back some value that can summarize itself.
pub fn returns_summarizable() -> impl Summary {
    Tweet {
        username: String::from_str("horse_ebooks"),
        content: String::from_str("of course, as you probably already know, people"),
        reply: false,
        retweet: false,
    }
}

/// The character of one decimal digit.
pub open spec fn digit_char(d: nat) -> char {
    if d == 0 {
        '0'
    } else if d == 1 {
        '1'
    } else if d == 2 {
        '2'
    } else if d == 3 {
        '3'
    } else if d == 4 {
        '4'
    } else if d == 5 {
        '5'
    } else if d == 6 {
        '6'
    } else if d == 7 {
        '7'
    } else if d == 8 {
        '8'
    } else {
        '9'
    }
}

/// The decimal digits of a number, most significant first.
pub open spec fn spec_decimal_digits(n: nat) -> Seq<char>
    decreases n,
{
    if n < 10 {
        seq![digit_char(n)]
    } else {
        spec_decimal_digits(n / 10).push(digit_char(n % 10))
    }
}

/// The decimal rendering of an integer, with a leading minus when negative.
pub open spec fn spec_decimal(v: int) -> Seq<char> {
    if v < 0 {
        seq!['-'] + spec_decimal_digits((-v) as nat)
    } else {
        spec_decimal_digits(v as nat)
    }
}

/// Relies on String::push: appends exactly the one character.
#[verifier::external_body]
fn push_char(s: &mut String, c: char)
    ensures
        final(s)@ == old(s)@.push(c),
{
    s.push(c);
}

/// The character of one decimal digit, as executable code.
fn digit_char_exec(d: u64) -> (r: char)
    requires
        d < 10,
    ensures
        r == digit_char(d as nat),
{
    match d {
        0 => '0',
        1 => '1',
        2 => '2',
        3 => '3',
        4 => '4',
        5 => '5',
        6 => '6',
        7 => '7',
        8 => '8',
        _ => '9',
    }
}

/// Appends the decimal digits of `n`.
fn push_decimal_digits(n: u64, out: &mut String)
    ensures
        final(out)@ == old(out)@ + spec_decimal_digits(n as nat),
    decreases n,
{
    if n < 10 {
        push_char(out, digit_char_exec(n));
        proof {
            assert(out@ =~= old(out)@ + spec_decimal_digits(n as nat));
        }
    } else {
        push_decimal_digits(n / 10, out);
        push_char(out, digit_char_exec(n % 10));
        proof {
            assert(out@ =~= old(out)@ + spec_decimal_digits(n as nat));
        }
    }
}

/// Values that can render themselves as text.
pub trait Formattable {
    /// The rendering this value's `format` returns.
    spec fn spec_format(&self) -> Seq<char>;

    /// The textual rendering of this value.
    fn format(&self) -> (r: String)
        ensures
            r@ == self.spec_format(),
    ;
}

impl Formattable for i32 {
    /// An integer renders as a label and its decimal value.
    open spec fn spec_format(&self) -> Seq<char> {
        "整数: "@ + spec_decimal(*self as int)
    }

    fn format(&self) -> (r: String) {
        let mut s = String::from_str("整数: ");
        let v: i64 = *self as i64;
        if v < 0 {
            push_char(&mut s, '-');
            push_decimal_digits((-v) as u64, &mut s);
        } else {
            push_decimal_digits(v as u64, &mut s);
        }
        proof {
            assert(s@ =~= "整数: "@ + spec_decimal(*self as int));
        }
        s
    }
}

/// The renderings of the items, joined by a comma and a space.
pub open spec fn joined_formats<T: Formattable>(items: Seq<T>) -> Seq<char>
    decreases items.len(),
{
    if items.len() == 0 {
        Seq::empty()
    } else if items.len() == 1 {
        items[0].spec_format()
    } else {
        joined_formats(items.drop_last()) + ", "@ + items.last().spec_format()
    }
}

impl<T: Formattable> Formattable for Vec<T> {
    /// A vector renders its items comma-separated between brackets; an
    /// empty vector renders as the bare brackets.
    open spec fn spec_format(&self) -> Seq<char> {
        "["@ + joined_formats(self@) + "]"@
    }

    fn format(&self) -> (r: String) {
        let mut result = String::from_str("[");
        proof {
            assert(result@ =~= "["@ + joined_formats(self@.take(0)));
        }
        let mut i: usize = 0;
        while i < self.len()
            invariant
                i <= self@.len(),
                result@ == "["@ + joined_formats(self@.take(i as int)),
            decreases self@.len() - i,
        {
            if i > 0 {
                result.append(", ");
            }
            let piece = self[i].format();
            result.append(piece.as_str());
            proof {
                let s = self@;
                let t = s.take(i as int + 1);
                assert(t.drop_last() =~= s.take(i as int));
                assert(t.last() == s[i as int]);
                if i == 0 {
                    assert(joined_formats(t) == s[0].spec_format());
                } else {
                    assert(joined_formats(t) == joined_formats(s.take(i as int)) + ", "@ + s[i
                        as int].spec_format());
                }
                assert(result@ =~= "["@ + joined_formats(t));
            }
            i += 1;
        }
        result.append("]");
        proof {
            assert(self@.take(self@.len() as int) =~= self@);
            assert(result@ =~= "["@ + joined_formats(self@) + "]"@);
        }
        result
    }
}

/// Types that yield a sequence of items one call at a time.
pub trait SimpleIterator {
    /// The type of the items handed out.
    type Item;

    /// Whether the iterator's state admits one more step; every call of
    /// `next` advances the state, so a machine limit can exhaust it.
    spec fn ready(&self) -> bool;

    /// The next item, or absence when the sequence is exhausted.
    fn next(&mut self) -> Option<Self::Item>
        requires
            old(self).ready(),
    ;
}

/// Counts from 1 up to a fixed maximum.
pub struct Counter {
    pub count: u32,
    pub max: u32,
}

impl Counter {
    /// A counter that will yield the numbers 1 up to `max`.
    pub fn new(max: u32) -> (r: Counter)
        ensures
            r.count == 0,
            r.max == max,
    {
        Counter { count: 0, max }
    }
}

impl SimpleIterator for Counter {
    type Item = u32;

    /// A counter can step as long as its count has not hit the machine
    /// limit; the count itself grows on every call.
    open spec fn ready(&self) -> bool {
        self.count < u32::MAX
    }

    /// Always advances the count by one, then yields it while it has not
    /// passed the maximum, and absence afterwards.
    fn next(&mut self) -> (r: Option<u32>)
        ensures
            final(self).count == old(self).count + 1,
            final(self).max == old(self).max,
            final(self).count <= final(self).max ==> r == Some(final(self).count),
            final(self).count > final(self).max ==> r is None,
    {
        self.count = self.count + 1;
        if self.count <= self.max {
            Some(self.count)
        } else {
            None
        }
    }
}

/// Components that can draw themselves, reporting what was drawn.
pub trait Draw {
    /// The report this component's `draw` returns.
    spec fn spec_draw(&self) -> Seq<char>;

    /// Renders the component and reports it.
    fn draw(&self) -> (r: String)
        ensures
            r@ == self.spec_draw(),
    ;
}

/// A clickable button with a label.
pub struct Button {
    pub width: u32,
    pub height: u32,
    pub label: String,
}

impl Draw for Button {
    /// Reports the label and the dimensions.
    open spec fn spec_draw(&self) -> Seq<char> {
        "绘制按钮: "@ + self.label@ + " ("@ + spec_decimal_digits(self.width as nat) + "x"@
            + spec_decimal_digits(self.height as nat) + ")"@
    }

    fn draw(&self) -> (r: String) {
        let mut s = String::from_str("绘制按钮: ");
        s.append(self.label.as_str());
        s.append(" (");
        push_decimal_digits(self.width as u64, &mut s);
        s.append("x");
        push_decimal_digits(self.height as u64, &mut s);
        s.append(")");
        proof {
            assert(s@ =~= "绘制按钮: "@ + self.label@ + " ("@ + spec_decimal_digits(
                self.width as nat,
            ) + "x"@ + spec_decimal_digits(self.height as nat) + ")"@);
        }
        s
    }
}

/// A selection box offering a list of options.
pub struct SelectBox {
    pub width: u32,
    pub height: u32,
    pub options: Vec<String>,
}

impl Draw for SelectBox {
    /// Reports the dimensions and how many options there are.
    open spec fn spec_draw(&self) -> Seq<char> {
        "绘制选择框 ("@ + spec_decimal_digits(self.width as nat) + "x"@ + spec_decimal_digits(
            self.height as nat,
        ) + ") 包含 "@ + spec_decimal_digits(self.options@.len()) + " 个选项"@
    }

    fn draw(&self) -> (r: String) {
        let mut s = String::from_str("绘制选择框 (");
        push_decimal_digits(self.width as u64, &mut s);
        s.append("x");
        push_decimal_digits(self.height as u64, &mut s);
        s.append(") 包含 ");
        push_decimal_digits(self.options.len() as u64, &mut s);
        s.append(" 个选项");
        proof {
            assert(s@ =~= "绘制选择框 ("@ + spec_decimal_digits(self.width as nat) + "x"@
                + spec_decimal_digits(self.height as nat) + ") 包含 "@ + spec_decimal_digits(
                self.options@.len(),
            ) + " 个选项"@);
        }
        s
    }
}

/// A screen holding drawable components of any kind.
pub struct Screen {
    pub components: Vec<Box<dyn Draw>>,
}

impl Screen {
    /// Draws every component in order, collecting each component's report.
    pub fn run(&self) -> (r: Vec<String>)
        ensures
            r@.len() == self.components@.len(),
            forall|i: int| 0 <= i < r@.len() ==> r@[i]@ == self.components@[i].spec_draw(),
    {
        let mut out: Vec<String> = Vec::new();
        let mut i: usize = 0;
        while i < self.components.len()
            invariant
                i <= self.components@.len(),
                out@.len() == i,
                forall|j: int| 0 <= j < i ==> out@[j]@ == self.components@[j].spec_draw(),
            decreases self.components@.len() - i,
        {
            let report = self.components[i].draw();
            out.push(report);
            i += 1;
        }
        out
    }
}

} // verus!
