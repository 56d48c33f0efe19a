use vstd::prelude::*;

use crate::strings::{default_escape, escape_default_char, push_char};

verus! {

/// The text for a graphviz label on a node or edge.
#[derive(Clone, Hash, PartialEq, Eq, Debug)]
pub enum Text {
    /// This kind of label preserves the text directly as is.
    ///
    /// Occurrences of backslashes (`\`) are escaped, and thus appear
    /// as backslashes in the rendered label.
    Label(String),
    /// This kind of label uses the graphviz label escString type.
    ///
    /// Occurrences of backslashes (`\`) are not escaped; instead they
    /// are interpreted as initiating an escString escape sequence
    /// (`\n` centers the preceding line, `\l` left-justifies it and
    /// `\r` right-justifies it).
    Esc(String),
    /// A graphviz HTML string label. The string is printed exactly as
    /// given, but between `<` and `>`. **No escaping is performed.**
    Html(String),
}

/// The escString escaping of one character: like `default_escape`, but a
/// backslash passes through as it is.
pub open spec fn esc_escape(c: char) -> Seq<char> {
    if c == '\\' {
        seq![c]
    } else {
        default_escape(c)
    }
}

/// `s` with every character escaped by `default_escape`.
pub open spec fn plain_escaped(s: Seq<char>) -> Seq<char>
    decreases s.len(),
{
    if s.len() == 0 {
        Seq::empty()
    } else {
        plain_escaped(s.drop_last()) + default_escape(s.last())
    }
}

/// `s` with every character escaped by `esc_escape`.
pub open spec fn esc_escaped(s: Seq<char>) -> Seq<char>
    decreases s.len(),
{
    if s.len() == 0 {
        Seq::empty()
    } else {
        esc_escaped(s.drop_last()) + esc_escape(s.last())
    }
}

/// The HTML-safe form of one character.
pub open spec fn html_escape(c: char) -> Seq<char> {
    if c == '&' {
        "&amp;"@
    } else if c == '"' {
        "&quot;"@
    } else if c == '<' {
        "&lt;"@
    } else if c == '>' {
        "&gt;"@
    } else if c == '\n' {
        "<br align=\"left\"/>"@
    } else {
        seq![c]
    }
}

/// `s` with every character made HTML-safe by `html_escape`.
pub open spec fn html_escaped(s: Seq<char>) -> Seq<char>
    decreases s.len(),
{
    if s.len() == 0 {
        Seq::empty()
    } else {
        html_escaped(s.drop_last()) + html_escape(s.last())
    }
}

/// The string that a text holds.
pub open spec fn text_content(t: Text) -> Seq<char> {
    match t {
        Text::Label(s) => s@,
        Text::Esc(s) => s@,
        Text::Html(s) => s@,
    }
}

/// The DOT literal of a text, delimiters included.
pub open spec fn text_dot(t: Text) -> Seq<char> {
    match t {
        Text::Label(s) => seq!['"'] + plain_escaped(s@) + seq!['"'],
        Text::Esc(s) => seq!['"'] + esc_escaped(s@) + seq!['"'],
        Text::Html(s) => seq!['<'] + s@ + seq!['>'],
    }
}

/// Escapes tags in such a way that the result is suitable for inclusion
/// in a Graphviz HTML label: `&`, `"`, `<` and `>` become entities, and
/// each line feed a left-aligned line break.
pub fn escape_html(s: &str) -> (r: String)
    ensures
        r@ == html_escaped(s@),
{
    let n = s.unicode_len();
    let mut out = String::new();
    let mut i: usize = 0;
    while i < n
        invariant
            n == s@.len(),
            i <= n,
            out@ == html_escaped(s@.subrange(0, i as int)),
        decreases n - i,
    {
        let c = s.get_char(i);
        if c == '&' {
            out.append("&amp;");
        } else if c == '"' {
            out.append("&quot;");
        } else if c == '<' {
            out.append("&lt;");
        } else if c == '>' {
            out.append("&gt;");
        } else if c == '\n' {
            out.append("<br align=\"left\"/>");
        } else {
            push_char(&mut out, c);
        }
        proof {
            assert(s@.subrange(0, i + 1).drop_last() =~= s@.subrange(0, i as int));
        }
        i = i + 1;
    }
    proof {
        assert(s@.subrange(0, n as int) =~= s@);
    }
    out
}

impl Text {
    pub fn label(s: &str) -> (r: Text)
        ensures
            r is Label,
            text_content(r) == s@,
    {
        Text::Label(String::from_str(s))
    }

    pub fn esc(s: &str) -> (r: Text)
        ensures
            r is Esc,
            text_content(r) == s@,
    {
        Text::Esc(String::from_str(s))
    }

    pub fn html(s: &str) -> (r: Text)
        ensures
            r is Html,
            text_content(r) == s@,
    {
        Text::Html(String::from_str(s))
    }

    /// Renders text as string suitable for a label in a .dot file.
    /// This includes quotes or suitable delimiters.
    pub fn to_escaped_string(&self) -> (r: String)
        ensures
            r@ == text_dot(*self),
    {
        let mut out = String::new();
        match self {
            Text::Label(s) => {
                push_char(&mut out, '"');
                let e = Text::escape_default_str(s.as_str());
                out.append(e.as_str());
                push_char(&mut out, '"');
            },
            Text::Esc(s) => {
                push_char(&mut out, '"');
                let e = Text::escape_str(s.as_str());
                out.append(e.as_str());
                push_char(&mut out, '"');
            },
            Text::Html(s) => {
                push_char(&mut out, '<');
                out.append(s.as_str());
                push_char(&mut out, '>');
            },
        }
        proof {
            assert(out@ =~= text_dot(*self));
        }
        out
    }

    /// The string that this text holds.
    pub fn into_inner(self) -> (r: String)
        ensures
            r@ == text_content(self),
    {
        match self {
            Text::Label(s) | Text::Esc(s) | Text::Html(s) => s,
        }
    }

    /// Appends the escString form of `c` to `out`.
    pub(crate) fn escape_char(c: char, out: &mut String)
        ensures
            final(out)@ == old(out)@ + esc_escape(c),
    {
        if c == '\\' {
            push_char(out, c);
        } else {
            let e = escape_default_char(c);
            out.append(e.as_str());
        }
    }

    /// The escString form of `s`.
    pub(crate) fn escape_str(s: &str) -> (r: String)
        ensures
            r@ == esc_escaped(s@),
    {
        let n = s.unicode_len();
        let mut out = String::new();
        let mut i: usize = 0;
        while i < n
            invariant
                n == s@.len(),
                i <= n,
                out@ == esc_escaped(s@.subrange(0, i as int)),
            decreases n - i,
        {
            let c = s.get_char(i);
            Text::escape_char(c, &mut out);
            proof {
                assert(s@.subrange(0, i + 1).drop_last() =~= s@.subrange(0, i as int));
            }
            i = i + 1;
        }
        proof {
            assert(s@.subrange(0, n as int) =~= s@);
        }
        out
    }

    /// `s` with every character given its default escape.
    fn escape_default_str(s: &str) -> (r: String)
        ensures
            r@ == plain_escaped(s@),
    {
        let n = s.unicode_len();
        let mut out = String::new();
        let mut i: usize = 0;
        while i < n
            invariant
                n == s@.len(),
                i <= n,
                out@ == plain_escaped(s@.subrange(0, i as int)),
            decreases n - i,
        {
            let c = s.get_char(i);
            let e = escape_default_char(c);
            out.append(e.as_str());
            proof {
                assert(s@.subrange(0, i + 1).drop_last() =~= s@.subrange(0, i as int));
            }
            i = i + 1;
        }
        proof {
            assert(s@.subrange(0, n as int) =~= s@);
        }
        out
    }
}

/// Plain escaping of a concatenation is the concatenation of the escapings.
pub proof fn lemma_plain_escaped_concat(a: Seq<char>, b: Seq<char>)
    ensures
        plain_escaped(a + b) == plain_escaped(a) + plain_escaped(b),
    decreases b.len(),
{
    if b.len() == 0 {
        assert(a + b =~= a);
        assert(plain_escaped(a) + plain_escaped(b) =~= plain_escaped(a));
    } else {
        lemma_plain_escaped_concat(a, b.drop_last());
        assert((a + b).drop_last() =~= a + b.drop_last());
        assert((a + b).last() == b.last());
        assert(plain_escaped(a + b) =~= plain_escaped(a) + plain_escaped(b));
    }
}

/// escString escaping of a concatenation is the concatenation of the
/// escapings.
pub proof fn lemma_esc_escaped_concat(a: Seq<char>, b: Seq<char>)
    ensures
        esc_escaped(a + b) == esc_escaped(a) + esc_escaped(b),
    decreases b.len(),
{
    if b.len() == 0 {
        assert(a + b =~= a);
        assert(esc_escaped(a) + esc_escaped(b) =~= esc_escaped(a));
    } else {
        lemma_esc_escaped_concat(a, b.drop_last());
        assert((a + b).drop_last() =~= a + b.drop_last());
        assert((a + b).last() == b.last());
        assert(esc_escaped(a + b) =~= esc_escaped(a) + esc_escaped(b));
    }
}

/// An escString label that holds `\l` renders it as `\l`, with the
/// backslash kept single, so that Graphviz reads the escape sequence.
pub proof fn lemma_esc_label_keeps_backslash(t: Text, before: Seq<char>, after: Seq<char>)
    requires
        t is Esc,
        text_content(t) == before + seq!['\\', 'l'] + after,
    ensures
        text_dot(t) == seq!['"'] + esc_escaped(before) + seq!['\\', 'l'] + esc_escaped(after)
            + seq!['"'],
{
    let mid = seq!['\\', 'l'];
    lemma_esc_escaped_concat(before + mid, after);
    lemma_esc_escaped_concat(before, mid);
    assert(mid.drop_last() =~= seq!['\\']);
    assert(seq!['\\'].drop_last() =~= Seq::<char>::empty());
    assert(esc_escaped(seq!['\\']) =~= esc_escaped(Seq::<char>::empty()) + esc_escape('\\'));
    assert(esc_escaped(seq!['\\']) =~= seq!['\\']);
    assert(esc_escaped(mid) =~= mid);
}

/// A plain label that holds a backslash renders it doubled, so that
/// Graphviz shows a backslash.
pub proof fn lemma_plain_label_doubles_backslash(t: Text, before: Seq<char>, after: Seq<char>)
    requires
        t is Label,
        text_content(t) == before + seq!['\\'] + after,
    ensures
        text_dot(t) == seq!['"'] + plain_escaped(before) + seq!['\\', '\\'] + plain_escaped(after)
            + seq!['"'],
{
    let mid = seq!['\\'];
    lemma_plain_escaped_concat(before + mid, after);
    lemma_plain_escaped_concat(before, mid);
    assert(mid.drop_last() =~= Seq::<char>::empty());
    assert(plain_escaped(mid) =~= plain_escaped(Seq::<char>::empty()) + default_escape('\\'));
    assert(plain_escaped(mid) =~= seq!['\\', '\\']);
}

} // verus!
