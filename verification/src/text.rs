use vstd::prelude::*;
use vstd::std_specs::iter::IteratorSpec;

verus! {

/// Read a string into its characters.
pub fn str_to_chars(s: &str) -> (r: Vec<char>)
    ensures
        r@ == s@,
{
    let mut it = s.chars();
    let mut r: Vec<char> = Vec::new();
    loop
        invariant
            it.obeys_prophetic_iter_laws(),
            it.decrease() is Some,
            r@ + it.remaining() == s@,
        ensures
            r@ == s@,
        decreases it.decrease()->0,
    {
        match it.next() {
            Some(c) => {
                r.push(c);
                proof {
                    assert(r@ + it.remaining() =~= s@);
                }
            },
            None => {
                proof {
                    assert(r@ + it.remaining() =~= r@);
                }
                break ;
            },
        }
    }
    r
}

/// Relies on std's `String: FromIterator<char>` (`collect`): the collected
/// string holds exactly the characters of the vector, in order.
#[verifier::external_body]
pub fn chars_to_string(v: &Vec<char>) -> (r: String)
    ensures
        r@ == v@,
{
    v.iter().collect()
}

/// Append all of `src` to `dst`.
pub fn append_chars(dst: &mut Vec<char>, src: &Vec<char>)
    ensures
        final(dst)@ == old(dst)@ + src@,
{
    let n = src.len();
    let mut i: usize = 0;
    while i < n
        invariant
            n == src@.len(),
            0 <= i <= n,
            dst@ == old(dst)@ + src@.take(i as int),
        decreases n - i,
    {
        dst.push(src[i]);
        proof {
            assert(old(dst)@ + src@.take(i + 1) =~= (old(dst)@ + src@.take(i as int)).push(
                src@[i as int],
            ));
        }
        i += 1;
    }
    proof {
        assert(src@.take(n as int) =~= src@);
    }
}

/// Does `p` occur as a contiguous run inside `s`?
pub open spec fn contains_seq(s: Seq<char>, p: Seq<char>) -> bool {
    exists|i: int| 0 <= i <= s.len() - p.len() && #[trigger] s.subrange(i, i + p.len()) == p
}

/// Substring search, front to back.
pub fn contains_chars(hay: &Vec<char>, needle: &Vec<char>) -> (r: bool)
    ensures
        r == contains_seq(hay@, needle@),
{
    let n = hay.len();
    let m = needle.len();
    if m > n {
        proof {
            assert(!contains_seq(hay@, needle@));
        }
        return false;
    }
    if m == 0 {
        proof {
            assert(hay@.subrange(0, 0 + needle@.len() as int) =~= needle@);
            assert(contains_seq(hay@, needle@));
        }
        return true;
    }
    let mut i: usize = 0;
    while i <= n - m
        invariant
            n == hay@.len(),
            m == needle@.len(),
            1 <= m <= n,
            0 <= i <= n - m + 1,
            forall|k: int| 0 <= k < i ==> #[trigger] hay@.subrange(k, k + m) != needle@,
        decreases n + 1 - m - i,
    {
        let mut j: usize = 0;
        let mut matched = true;
        while j < m
            invariant
                n == hay@.len(),
                m == needle@.len(),
                0 <= i <= n - m,
                0 <= j <= m,
                matched ==> forall|t: int| 0 <= t < j ==> hay@[i + t] == needle@[t],
                !matched ==> hay@.subrange(i as int, i + m) != needle@,
            decreases m - j,
        {
            if hay[i + j] != needle[j] {
                proof {
                    assert(hay@.subrange(i as int, i + m)[j as int] == hay@[i + j]);
                }
                matched = false;
                j = m;
            } else {
                j += 1;
            }
        }
        if matched {
            proof {
                assert(hay@.subrange(i as int, i + m) =~= needle@);
            }
            return true;
        }
        i += 1;
    }
    proof {
        assert(!contains_seq(hay@, needle@));
    }
    false
}

/// The character of one decimal digit.
pub open spec fn digit_char(d: int) -> char {
    if d == 0 {
        '0'
    } else if d == 1 {
        '1'
    } else if d == 2 {
        '2'
    } else if d == 3 {
        '3'
    } else if d == 4 {
        '4'
    } else if d == 5 {
        '5'
    } else if d == 6 {
        '6'
    } else if d == 7 {
        '7'
    } else if d == 8 {
        '8'
    } else {
        '9'
    }
}

/// The decimal digits of a non-negative number, most significant first.
pub open spec fn dec_digits(n: nat) -> Seq<char>
    decreases n,
{
    if n < 10 {
        seq![digit_char(n as int)]
    } else {
        dec_digits(n / 10) + seq![digit_char((n % 10) as int)]
    }
}

/// A number in decimal, with a leading minus sign when negative.
pub open spec fn int_to_dec(n: int) -> Seq<char> {
    if n < 0 {
        seq!['-'] + dec_digits((-n) as nat)
    } else {
        dec_digits(n as nat)
    }
}

fn digit_char_exec(d: u64) -> (c: char)
    requires
        d < 10,
    ensures
        c == digit_char(d as int),
{
    if d == 0 {
        '0'
    } else if d == 1 {
        '1'
    } else if d == 2 {
        '2'
    } else if d == 3 {
        '3'
    } else if d == 4 {
        '4'
    } else if d == 5 {
        '5'
    } else if d == 6 {
        '6'
    } else if d == 7 {
        '7'
    } else if d == 8 {
        '8'
    } else {
        '9'
    }
}

/// Format a number in decimal.
pub fn format_i64(n: i64) -> (r: Vec<char>)
    ensures
        r@ == int_to_dec(n as int),
{
    let neg = n < 0;
    let mut m: u64 = if n < 0 {
        (-(n as i128)) as u64
    } else {
        n as u64
    };
    let ghost m0: nat = m as nat;
    let mut tmp: Vec<char> = Vec::new();
    while m >= 10
        invariant
            dec_digits(m0) == dec_digits(m as nat) + tmp@.reverse(),
        decreases m,
    {
        let d = m % 10;
        tmp.push(digit_char_exec(d));
        proof {
            assert(tmp@.reverse() =~= seq![digit_char(d as int)] + tmp@.drop_last().reverse());
            assert(dec_digits((m / 10) as nat) + seq![digit_char(d as int)]
                == dec_digits(m as nat));
        }
        m = m / 10;
    }
    tmp.push(digit_char_exec(m));
    proof {
        assert(tmp@.reverse() =~= seq![digit_char(m as int)] + tmp@.drop_last().reverse());
        assert(dec_digits(m as nat) == seq![digit_char(m as int)]);
        assert(dec_digits(m0) =~= tmp@.reverse());
    }
    let mut r: Vec<char> = Vec::new();
    if neg {
        r.push('-');
    }
    let ghost sign: Seq<char> = r@;
    let mut k = tmp.len();
    while k > 0
        invariant
            0 <= k <= tmp@.len(),
            r@ == sign + tmp@.skip(k as int).reverse(),
        decreases k,
    {
        k -= 1;
        r.push(tmp[k]);
        proof {
            assert(tmp@.skip(k as int).reverse() =~= tmp@.skip(k + 1).reverse().push(
                tmp@[k as int],
            ));
        }
    }
    proof {
        assert(tmp@.skip(0) =~= tmp@);
        if neg {
            assert(r@ =~= seq!['-'] + dec_digits((-(n as int)) as nat));
        } else {
            assert(r@ =~= dec_digits(n as nat));
        }
    }
    r
}

/// The characters a markup-escaped text must prefix with a backslash.
pub open spec fn is_escape_char(c: char) -> bool {
    ||| c == '_'
    ||| c == '*'
    ||| c == '['
    ||| c == ']'
    ||| c == '('
    ||| c == ')'
    ||| c == '~'
    ||| c == '`'
    ||| c == '>'
    ||| c == '#'
    ||| c == '+'
    ||| c == '-'
    ||| c == '='
    ||| c == '|'
    ||| c == '{'
    ||| c == '}'
    ||| c == '.'
    ||| c == '!'
}

/// One character, escaped if the markup needs it.
pub open spec fn escape_char(c: char) -> Seq<char> {
    if is_escape_char(c) {
        seq!['\\', c]
    } else {
        seq![c]
    }
}

/// A text with every markup character escaped.
pub open spec fn escape_seq(s: Seq<char>) -> Seq<char>
    decreases s.len(),
{
    if s.len() == 0 {
        Seq::empty()
    } else {
        escape_char(s[0]) + escape_seq(s.drop_first())
    }
}

/// Escaping distributes over appending one character at the end.
proof fn lemma_escape_push(s: Seq<char>, c: char)
    ensures
        escape_seq(s.push(c)) == escape_seq(s) + escape_char(c),
    decreases s.len(),
{
    let t = s.push(c);
    if s.len() == 0 {
        assert(t[0] == c);
        assert(t.drop_first() =~= Seq::<char>::empty());
        assert(escape_seq(Seq::<char>::empty()) == Seq::<char>::empty());
        assert(escape_seq(t) =~= escape_char(c));
        assert(escape_seq(s) + escape_char(c) =~= escape_char(c));
    } else {
        assert(t[0] == s[0]);
        assert(t.drop_first() =~= s.drop_first().push(c));
        lemma_escape_push(s.drop_first(), c);
        assert(escape_seq(t) == escape_char(s[0]) + (escape_seq(s.drop_first()) + escape_char(c)));
        assert(escape_char(s[0]) + (escape_seq(s.drop_first()) + escape_char(c)) =~= (escape_char(
            s[0],
        ) + escape_seq(s.drop_first())) + escape_char(c));
    }
}

fn is_escape_char_exec(c: char) -> (r: bool)
    ensures
        r == is_escape_char(c),
{
    c == '_' || c == '*' || c == '[' || c == ']' || c == '(' || c == ')' || c == '~' || c == '`'
        || c == '>' || c == '#' || c == '+' || c == '-' || c == '=' || c == '|' || c == '{' || c
        == '}' || c == '.' || c == '!'
}

/// Escape a text for the transport's markup: every markup character gains a
/// backslash, every other character stays as it is.
pub fn escape_chars(text: &Vec<char>) -> (r: Vec<char>)
    ensures
        r@ == escape_seq(text@),
{
    let n = text.len();
    let mut r: Vec<char> = Vec::new();
    let mut i: usize = 0;
    proof {
        assert(text@.take(0) =~= Seq::<char>::empty());
    }
    while i < n
        invariant
            n == text@.len(),
            0 <= i <= n,
            r@ == escape_seq(text@.take(i as int)),
        decreases n - i,
    {
        let c = text[i];
        if is_escape_char_exec(c) {
            r.push('\\');
            r.push(c);
        } else {
            r.push(c);
        }
        proof {
            assert(text@.take(i + 1) =~= text@.take(i as int).push(c));
            lemma_escape_push(text@.take(i as int), c);
            assert(r@ =~= escape_seq(text@.take(i as int)) + escape_char(c));
        }
        i += 1;
    }
    proof {
        assert(text@.take(n as int) =~= text@);
    }
    r
}

} // verus!
