//! Rich-text markup for log lines pushed to the frontend.
//!
//! A [`Format`] tree renders to an HTML-like string: colored spans, bold
//! runs, and escaped text leaves.

use vstd::prelude::*;

verus! {

/// The colors a log line can be tagged with.
#[derive(Clone, Copy, Debug)]
pub enum Color {
    Blue,
    Green,
    Orange,
    Red,
}

impl Color {
    /// The color's name as it appears in the markup.
    pub open spec fn name_spec(self) -> Seq<char> {
        match self {
            Color::Green => "green"@,
            Color::Blue => "blue"@,
            Color::Red => "red"@,
            Color::Orange => "orange"@,
        }
    }

    /// The color's name as it appears in the markup.
    pub fn to_str(&self) -> (r: &'static str)
        ensures
            r@ == self.name_spec(),
    {
        match *self {
            Color::Green => "green",
            Color::Blue => "blue",
            Color::Red => "red",
            Color::Orange => "orange",
        }
    }
}

enum FormatInner {
    Color(Color, Box<Format>),
    Bold(Box<Format>),
    Text(String),
}

/// A rich-text fragment: a text leaf, or a fragment wrapped in bold or in a
/// colored span.
pub struct Format {
    inner: FormatInner,
}

/// How one character of plain text appears after HTML escaping.
pub open spec fn html_escaped_char(c: char) -> Seq<char> {
    if c == '"' {
        "&quot;"@
    } else if c == '&' {
        "&amp;"@
    } else if c == '\'' {
        "&#x27;"@
    } else if c == '/' {
        "&#x2f;"@
    } else if c == '<' {
        "&lt;"@
    } else if c == '>' {
        "&gt;"@
    } else {
        seq![c]
    }
}

/// How plain text appears after HTML escaping.
pub open spec fn html_escaped(s: Seq<char>) -> Seq<char>
    decreases s.len(),
{
    if s.len() == 0 {
        Seq::empty()
    } else {
        html_escaped_char(s[0]) + html_escaped(s.drop_first())
    }
}

/// Relies on v_htmlescape::escape_string: it appends the input to the
/// output string with the characters `"` `&` `'` `/` `<` `>` rewritten to
/// their HTML entities and every other character forwarded verbatim.
#[verifier::external_body]
fn escape_html(s: &str) -> (r: String)
    ensures
        r@ == html_escaped(s@),
{
    let mut out = String::new();
    v_htmlescape::escape_string(s, &mut out);
    out
}

impl Format {
    /// The markup string this fragment renders to. How a fragment is built
    /// determines its rendering through the constructors' contracts.
    pub closed spec fn rendered(self) -> Seq<char>
        decreases self,
    {
        match self.inner {
            FormatInner::Color(c, f) => "<span style=\"color:"@ + c.name_spec() + "\">"@
                + (*f).rendered() + "</span>"@,
            FormatInner::Bold(f) => "<b>"@ + (*f).rendered() + "</b>"@,
            FormatInner::Text(t) => t@,
        }
    }

    /// A leaf fragment holding `s` with HTML metacharacters escaped.
    pub fn text(s: &str) -> (r: Box<Format>)
        ensures
            (*r).rendered() == html_escaped(s@),
    {
        let escaped = escape_html(s);
        Box::new(Format { inner: FormatInner::Text(escaped) })
    }

    /// Wrap a fragment in a colored span.
    pub fn color(c: Color, f: Box<Format>) -> (r: Box<Format>)
        ensures
            (*r).rendered() == "<span style=\"color:"@ + c.name_spec() + "\">"@ + (*f).rendered()
                + "</span>"@,
    {
        Box::new(Format { inner: FormatInner::Color(c, f) })
    }

    /// Wrap a fragment in bold.
    pub fn bold(f: Box<Format>) -> (r: Box<Format>)
        ensures
            (*r).rendered() == "<b>"@ + (*f).rendered() + "</b>"@,
    {
        Box::new(Format { inner: FormatInner::Bold(f) })
    }

    /// Render the fragment to its markup string.
    pub fn into_string(self) -> (r: String)
        ensures
            r@ == self.rendered(),
    {
        let s = String::new();
        self.into_string_impl(s)
    }

    fn into_string_impl(self, s: String) -> (r: String)
        ensures
            r@ == s@ + self.rendered(),
        decreases self,
    {
        let mut s = s;
        match self.inner {
            FormatInner::Color(color, format) => {
                s.append("<span style=\"color:");
                s.append(color.to_str());
                s.append("\">");
                s = format.into_string_impl(s);
                s.append("</span>");
            },
            FormatInner::Bold(format) => {
                s.append("<b>");
                s = format.into_string_impl(s);
                s.append("</b>");
            },
            FormatInner::Text(text) => {
                s.append(text.as_str());
            },
        }
        s
    }
}

} // verus!
