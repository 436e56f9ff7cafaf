//! Verified text utilities: prefix testing, decimal rendering of counters,
//! JSON string escaping, and the case normalization used by the match policy.

use vstd::prelude::*;

verus! {

/// The sequence of characters that `str::to_lowercase` yields for a given
/// input sequence. The result depends on the characters alone, so it can be
/// given a name that contracts share.
pub uninterp spec fn lower_of(s: Seq<char>) -> Seq<char>;

/// Relies on `str::to_lowercase` from std: the result is a pure,
/// locale-independent function of the input characters, and an empty string
/// stays empty.
#[verifier::external_body]
pub fn lowercase(s: &str) -> (r: String)
    ensures
        r@ == lower_of(s@),
        s@.len() == 0 ==> r@.len() == 0,
{
    s.to_lowercase()
}

/// Whether `p` is a character-for-character prefix of `s`.
pub fn str_has_prefix(s: &str, p: &str) -> (r: bool)
    ensures
        r == p@.is_prefix_of(s@),
{
    let pl = p.unicode_len();
    let sl = s.unicode_len();
    if pl > sl {
        return false;
    }
    let mut i: usize = 0;
    while i < pl
        invariant
            i <= pl,
            pl == p@.len(),
            sl == s@.len(),
            pl <= sl,
            forall|j: int| 0 <= j < i ==> s@[j] == p@[j],
        decreases pl - i,
    {
        if s.get_char(i) != p.get_char(i) {
            proof {
                assert(s@.subrange(0, pl as int)[i as int] == s@[i as int]);
                assert(!p@.is_prefix_of(s@));
            }
            return false;
        }
        i = i + 1;
    }
    proof {
        assert(p@ =~= s@.subrange(0, pl as int));
    }
    true
}

/// The decimal digit character for one digit value.
pub open spec fn dec_digit_char(d: nat) -> char {
    if d == 0 {
        '0'
    } else if d == 1 {
        '1'
    } else if d == 2 {
        '2'
    } else if d == 3 {
        '3'
    } else if d == 4 {
        '4'
    } else if d == 5 {
        '5'
    } else if d == 6 {
        '6'
    } else if d == 7 {
        '7'
    } else if d == 8 {
        '8'
    } else {
        '9'
    }
}

/// The usual decimal rendering of a natural number, without leading zeros.
pub open spec fn dec_str(n: nat) -> Seq<char>
    decreases n,
{
    if n < 10 {
        seq![dec_digit_char(n)]
    } else {
        dec_str(n / 10) + seq![dec_digit_char(n % 10)]
    }
}

fn digit_str(d: u64) -> (r: &'static str)
    requires
        d < 10,
    ensures
        r@ == seq![dec_digit_char(d as nat)],
{
    match d {
        0 => {
            proof {
                reveal_strlit("0");
                assert("0"@ =~= seq![dec_digit_char(0)]);
            }
            "0"
        },
        1 => {
            proof {
                reveal_strlit("1");
                assert("1"@ =~= seq![dec_digit_char(1)]);
            }
            "1"
        },
        2 => {
            proof {
                reveal_strlit("2");
                assert("2"@ =~= seq![dec_digit_char(2)]);
            }
            "2"
        },
        3 => {
            proof {
                reveal_strlit("3");
                assert("3"@ =~= seq![dec_digit_char(3)]);
            }
            "3"
        },
        4 => {
            proof {
                reveal_strlit("4");
                assert("4"@ =~= seq![dec_digit_char(4)]);
            }
            "4"
        },
        5 => {
            proof {
                reveal_strlit("5");
                assert("5"@ =~= seq![dec_digit_char(5)]);
            }
            "5"
        },
        6 => {
            proof {
                reveal_strlit("6");
                assert("6"@ =~= seq![dec_digit_char(6)]);
            }
            "6"
        },
        7 => {
            proof {
                reveal_strlit("7");
                assert("7"@ =~= seq![dec_digit_char(7)]);
            }
            "7"
        },
        8 => {
            proof {
                reveal_strlit("8");
                assert("8"@ =~= seq![dec_digit_char(8)]);
            }
            "8"
        },
        _ => {
            proof {
                reveal_strlit("9");
                assert("9"@ =~= seq![dec_digit_char(9)]);
            }
            "9"
        },
    }
}

/// Renders a counter in decimal.
pub fn u64_to_string(n: u64) -> (s: String)
    ensures
        s@ == dec_str(n as nat),
    decreases n,
{
    if n < 10 {
        String::from_str(digit_str(n))
    } else {
        let q = n / 10;
        let r = n % 10;
        u64_to_string(q).concat(digit_str(r))
    }
}

/// The view of the literal a boolean renders as.
pub open spec fn bool_str_spec(b: bool) -> Seq<char> {
    if b {
        "true"@
    } else {
        "false"@
    }
}

/// Renders a boolean as JSON does.
pub fn bool_str(b: bool) -> (r: &'static str)
    ensures
        r@ == bool_str_spec(b),
{
    if b {
        "true"
    } else {
        "false"
    }
}

/// The hexadecimal digit character for one nibble value.
pub open spec fn hex_digit_char(d: nat) -> char {
    if d < 10 {
        dec_digit_char(d)
    } else if d == 10 {
        'a'
    } else if d == 11 {
        'b'
    } else if d == 12 {
        'c'
    } else if d == 13 {
        'd'
    } else if d == 14 {
        'e'
    } else {
        'f'
    }
}

fn hex_digit_str(d: u32) -> (r: &'static str)
    requires
        d < 16,
    ensures
        r@ == seq![hex_digit_char(d as nat)],
{
    if d < 10 {
        digit_str(d as u64)
    } else {
        match d {
            10 => {
                proof {
                    reveal_strlit("a");
                    assert("a"@ =~= seq![hex_digit_char(10)]);
                }
                "a"
            },
            11 => {
                proof {
                    reveal_strlit("b");
                    assert("b"@ =~= seq![hex_digit_char(11)]);
                }
                "b"
            },
            12 => {
                proof {
                    reveal_strlit("c");
                    assert("c"@ =~= seq![hex_digit_char(12)]);
                }
                "c"
            },
            13 => {
                proof {
                    reveal_strlit("d");
                    assert("d"@ =~= seq![hex_digit_char(13)]);
                }
                "d"
            },
            14 => {
                proof {
                    reveal_strlit("e");
                    assert("e"@ =~= seq![hex_digit_char(14)]);
                }
                "e"
            },
            _ => {
                proof {
                    reveal_strlit("f");
                    assert("f"@ =~= seq![hex_digit_char(15)]);
                }
                "f"
            },
        }
    }
}

/// How one character is written inside a JSON string: the two-character
/// escapes for quote, backslash and the common control characters, a
/// `\u00..` escape for the remaining control characters, and the character
/// itself otherwise.
pub open spec fn esc_char(c: char) -> Seq<char> {
    if c == '"' {
        seq!['\\', '"']
    } else if c == '\\' {
        seq!['\\', '\\']
    } else if c == '\u{8}' {
        seq!['\\', 'b']
    } else if c == '\t' {
        seq!['\\', 't']
    } else if c == '\n' {
        seq!['\\', 'n']
    } else if c == '\u{c}' {
        seq!['\\', 'f']
    } else if c == '\r' {
        seq!['\\', 'r']
    } else if (c as u32) < 32 {
        seq!['\\', 'u', '0', '0'] + seq![hex_digit_char((c as u32 / 16) as nat)]
            + seq![hex_digit_char((c as u32 % 16) as nat)]
    } else {
        seq![c]
    }
}

/// The body of a JSON string holding the characters of `s`.
pub open spec fn json_escaped(s: Seq<char>) -> Seq<char>
    decreases s.len(),
{
    if s.len() == 0 {
        Seq::empty()
    } else {
        json_escaped(s.drop_last()) + esc_char(s.last())
    }
}

/// Appends the JSON-escaped characters of `s` to `out`.
pub fn append_escaped(out: &mut String, s: &str)
    ensures
        final(out)@ == old(out)@ + json_escaped(s@),
{
    let n = s.unicode_len();
    let mut i: usize = 0;
    proof {
        assert(s@.subrange(0, 0) =~= Seq::<char>::empty());
    }
    while i < n
        invariant
            i <= n,
            n == s@.len(),
            out@ == old(out)@ + json_escaped(s@.subrange(0, i as int)),
        decreases n - i,
    {
        let c = s.get_char(i);
        if c == '"' {
            proof {
                reveal_strlit("\\\"");
                assert("\\\""@ =~= esc_char('"'));
            }
            out.append("\\\"");
        } else if c == '\\' {
            proof {
                reveal_strlit("\\\\");
                assert("\\\\"@ =~= esc_char('\\'));
            }
            out.append("\\\\");
        } else if c == '\u{8}' {
            proof {
                reveal_strlit("\\b");
                assert("\\b"@ =~= esc_char('\u{8}'));
            }
            out.append("\\b");
        } else if c == '\t' {
            proof {
                reveal_strlit("\\t");
                assert("\\t"@ =~= esc_char('\t'));
            }
            out.append("\\t");
        } else if c == '\n' {
            proof {
                reveal_strlit("\\n");
                assert("\\n"@ =~= esc_char('\n'));
            }
            out.append("\\n");
        } else if c == '\u{c}' {
            proof {
                reveal_strlit("\\f");
                assert("\\f"@ =~= esc_char('\u{c}'));
            }
            out.append("\\f");
        } else if c == '\r' {
            proof {
                reveal_strlit("\\r");
                assert("\\r"@ =~= esc_char('\r'));
            }
            out.append("\\r");
        } else if (c as u32) < 32 {
            proof {
                reveal_strlit("\\u00");
            }
            out.append("\\u00");
            out.append(hex_digit_str(c as u32 / 16));
            out.append(hex_digit_str(c as u32 % 16));
            proof {
                assert("\\u00"@ + seq![hex_digit_char((c as u32 / 16) as nat)] + seq![
                    hex_digit_char((c as u32 % 16) as nat),
                ] =~= esc_char(c));
            }
        } else {
            let piece = s.substring_char(i, i + 1);
            proof {
                assert(piece@ =~= seq![c]);
                assert(seq![c] =~= esc_char(c));
            }
            out.append(piece);
        }
        proof {
            let pre = s@.subrange(0, i as int);
            let cur = s@.subrange(0, i as int + 1);
            assert(cur.drop_last() =~= pre);
            assert(cur.last() == s@[i as int]);
            assert(out@ =~= old(out)@ + json_escaped(cur));
        }
        i = i + 1;
    }
    proof {
        assert(s@.subrange(0, n as int) =~= s@);
    }
}

} // verus!
