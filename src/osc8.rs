//! The OSC 8 escape sequence that wraps display text in a hyperlink.

use vstd::prelude::*;

verus! {

/// `ESC ] 8 ; ;`: opens a hyperlink (and, with an empty URL, closes one).
pub open spec fn osc8_open() -> Seq<char> {
    seq!['\x1b', ']', '8', ';', ';']
}

/// `ESC \`: the string terminator.
pub open spec fn string_terminator() -> Seq<char> {
    seq!['\x1b', '\\']
}

/// The whole envelope: `ESC]8;;<url>ESC\<text>ESC]8;;ESC\`.
pub open spec fn osc8(url: Seq<char>, text: Seq<char>) -> Seq<char> {
    osc8_open() + url + string_terminator() + text + osc8_open() + string_terminator()
}

/// Wraps `text` in a hyperlink to `url`. Nothing is escaped.
pub fn format_osc8_hyperlink(url: &str, text: &str) -> (r: String)
    ensures
        r@ == osc8(url@, text@),
{
    let open = "\x1b]8;;";
    let st = "\x1b\\";
    proof {
        reveal_strlit("\x1b]8;;");
        reveal_strlit("\x1b\\");
    }
    assert(open@ == osc8_open());
    assert(st@ == string_terminator());
    let mut r = String::from_str(open);
    r.append(url);
    r.append(st);
    r.append(text);
    r.append(open);
    r.append(st);
    r
}

/// Every hyperlink starts with the opening sequence, has the terminator right
/// after the URL, and ends with an empty-URL opening sequence and a terminator.
pub proof fn lemma_osc8_shape(url: Seq<char>, text: Seq<char>)
    ensures
        osc8(url, text).subrange(0, 5) == osc8_open(),
        osc8(url, text).subrange(5, 5 + url.len() as int) == url,
        osc8(url, text).subrange(5 + url.len() as int, 7 + url.len() as int) == string_terminator(),
        osc8(url, text).subrange(osc8(url, text).len() - 7, osc8(url, text).len() as int)
            == osc8_open() + string_terminator(),
        osc8(url, text).len() == url.len() + text.len() + 14,
{
    let s = osc8(url, text);
    assert(s.subrange(0, 5) =~= osc8_open());
    assert(s.subrange(5, 5 + url.len() as int) =~= url);
    assert(s.subrange(5 + url.len() as int, 7 + url.len() as int) =~= string_terminator());
    assert(s.subrange(s.len() - 7, s.len() as int) =~= osc8_open() + string_terminator());
}

} // verus!
