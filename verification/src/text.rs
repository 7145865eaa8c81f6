//! Character classes used when validating user input.

use vstd::prelude::*;

verus! {

broadcast use vstd::string::group_string_axioms;

/// The Unicode `White_Space` property, which `char::is_whitespace` and
/// `str::trim` follow.
pub open spec fn is_white_space(c: char) -> bool {
    ||| ('\u{9}' <= c && c <= '\u{D}')
    ||| c == ' '
    ||| c == '\u{85}'
    ||| c == '\u{A0}'
    ||| c == '\u{1680}'
    ||| ('\u{2000}' <= c && c <= '\u{200A}')
    ||| c == '\u{2028}'
    ||| c == '\u{2029}'
    ||| c == '\u{202F}'
    ||| c == '\u{205F}'
    ||| c == '\u{3000}'
}

/// The characters with the Unicode `White_Space` property, one by one.
pub open spec fn white_space_code_points() -> Seq<u32> {
    seq![
        0x9u32, 0xAu32, 0xBu32, 0xCu32, 0xDu32, 0x20u32, 0x85u32, 0xA0u32, 0x1680u32, 0x2000u32,
        0x2001u32, 0x2002u32, 0x2003u32, 0x2004u32, 0x2005u32, 0x2006u32, 0x2007u32, 0x2008u32,
        0x2009u32, 0x200Au32, 0x2028u32, 0x2029u32, 0x202Fu32, 0x205Fu32, 0x3000u32,
    ]
}

/// A character is white space exactly when it is one of the 25 code points
/// of the Unicode `White_Space` property; so letters and digits, and every
/// character past U+3000, are not.
pub proof fn lemma_white_space_is_the_unicode_list(c: char)
    ensures
        is_white_space(c) <==> white_space_code_points().contains(c as u32),
        white_space_code_points().len() == 25,
        ('a' <= c <= 'z' || 'A' <= c <= 'Z' || '0' <= c <= '9') ==> !is_white_space(c),
        c > '\u{3000}' ==> !is_white_space(c),
{
    let w = white_space_code_points();
    if is_white_space(c) {
        let n = c as u32;
        let k: int = if n <= 0xD {
            n - 9
        } else if n == 0x20 {
            5
        } else if n == 0x85 {
            6
        } else if n == 0xA0 {
            7
        } else if n == 0x1680 {
            8
        } else if n <= 0x200A {
            n - 0x2000 + 9
        } else if n == 0x2028 {
            20
        } else if n == 0x2029 {
            21
        } else if n == 0x202F {
            22
        } else if n == 0x205F {
            23
        } else {
            24
        };
        assert(w[k] == n);
    }
    if w.contains(c as u32) {
        let k = choose|k: int| 0 <= k < w.len() && w[k] == c as u32;
        assert(0 <= k < 25);
    }
}

/// A text holding a character that is not white space is not blank.
pub proof fn lemma_text_with_a_mark_is_not_blank(s: Seq<char>, i: int)
    requires
        0 <= i < s.len(),
        !white_space_code_points().contains(s[i] as u32),
    ensures
        !is_blank_text(s),
{
    lemma_white_space_is_the_unicode_list(s[i]);
}

/// A text is blank when trimming its white space leaves nothing.
pub open spec fn is_blank_text(s: Seq<char>) -> bool {
    forall|i: int| 0 <= i < s.len() ==> is_white_space(#[trigger] s[i])
}

/// Whether `c` has the Unicode `White_Space` property.
pub fn white_space(c: char) -> (b: bool)
    ensures
        b == is_white_space(c),
{
    ('\u{9}' <= c && c <= '\u{D}') || c == ' ' || c == '\u{85}' || c == '\u{A0}' || c == '\u{1680}'
        || ('\u{2000}' <= c && c <= '\u{200A}') || c == '\u{2028}' || c == '\u{2029}'
        || c == '\u{202F}' || c == '\u{205F}' || c == '\u{3000}'
}

/// Whether `s.trim()` is empty: every character of `s` is white space.
pub fn is_blank(s: &str) -> (b: bool)
    ensures
        b == is_blank_text(s@),
{
    for c in it: s.chars()
        invariant
            it.seq() == s@,
            forall|j: int| 0 <= j < it.index() ==> is_white_space(#[trigger] s@[j]),
    {
        if !white_space(c) {
            return false;
        }
    }
    true
}

/// Whether two texts are the same characters.
pub fn same_text(a: &str, b: &str) -> (same: bool)
    ensures
        same == (a@ == b@),
{
    String::from_str(a) == String::from_str(b)
}

/// The character of decimal digit `d`.
pub open spec fn digit_char(d: nat) -> char {
    (48 + d) as char
}

/// The decimal numeral of `n`, without sign or leading zeros, as
/// `Display` writes an unsigned integer.
pub open spec fn decimal_text(n: nat) -> Seq<char>
    decreases n,
{
    if n < 10 {
        seq![digit_char(n)]
    } else {
        decimal_text(n / 10).push(digit_char(n % 10))
    }
}

fn digit_text(d: usize) -> (t: &'static str)
    requires
        d < 10,
    ensures
        t@ == seq![digit_char(d as nat)],
{
    match d {
        0 => {
            proof {
                reveal_strlit("0");
            }
            "0"
        },
        1 => {
            proof {
                reveal_strlit("1");
            }
            "1"
        },
        2 => {
            proof {
                reveal_strlit("2");
            }
            "2"
        },
        3 => {
            proof {
                reveal_strlit("3");
            }
            "3"
        },
        4 => {
            proof {
                reveal_strlit("4");
            }
            "4"
        },
        5 => {
            proof {
                reveal_strlit("5");
            }
            "5"
        },
        6 => {
            proof {
                reveal_strlit("6");
            }
            "6"
        },
        7 => {
            proof {
                reveal_strlit("7");
            }
            "7"
        },
        8 => {
            proof {
                reveal_strlit("8");
            }
            "8"
        },
        _ => {
            proof {
                reveal_strlit("9");
            }
            "9"
        },
    }
}

/// Writes `n` in decimal.
pub fn decimal(n: usize) -> (text: String)
    ensures
        text@ == decimal_text(n as nat),
{
    let mut acc = String::new();
    let mut m = n;
    loop
        invariant
            decimal_text(n as nat) == decimal_text(m as nat) + acc@,
        decreases m,
    {
        let piece = digit_text(m % 10);
        let ghost old_acc = acc@;
        acc = String::from_str(piece).concat(acc.as_str());
        if m < 10 {
            assert(acc@ =~= decimal_text(m as nat) + old_acc);
            return acc;
        }
        assert(decimal_text(m as nat) + old_acc =~= decimal_text((m / 10) as nat) + acc@);
        m = m / 10;
    }
}

} // verus!
