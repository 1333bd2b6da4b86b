use vstd::prelude::*;
use vstd::string::*;

verus! {

/// Query-string serialization in the `application/x-www-form-urlencoded`
/// style the request URL uses: alphanumerics and `*`, `-`, `.`, `_` pass
/// unchanged, a space becomes `+`, and any other character becomes `%`
/// followed by two uppercase hex digits of its code.  For ASCII text —
/// the only text a request of this library carries — this is exactly the
/// byte serialization of the wire format.
pub open spec fn is_form_unreserved(c: char) -> bool {
    let u = c as u32;
    (48 <= u && u <= 57)  // 0-9
     || (65 <= u && u <= 90)  // A-Z
     || (97 <= u && u <= 122)  // a-z
     || u == 42 || u == 45 || u == 46 || u == 95  // * - . _

}

/// The uppercase hex digit of a value below sixteen.
pub open spec fn hex_digit_char(n: int) -> char {
    if n == 0 {
        '0'
    } else if n == 1 {
        '1'
    } else if n == 2 {
        '2'
    } else if n == 3 {
        '3'
    } else if n == 4 {
        '4'
    } else if n == 5 {
        '5'
    } else if n == 6 {
        '6'
    } else if n == 7 {
        '7'
    } else if n == 8 {
        '8'
    } else if n == 9 {
        '9'
    } else if n == 10 {
        'A'
    } else if n == 11 {
        'B'
    } else if n == 12 {
        'C'
    } else if n == 13 {
        'D'
    } else if n == 14 {
        'E'
    } else {
        'F'
    }
}

/// What one character contributes to the encoded form.
pub open spec fn encoded_char(c: char) -> Seq<char> {
    let u = c as u32;
    if is_form_unreserved(c) {
        seq![c]
    } else if u == 32 {
        seq!['+']
    } else {
        seq!['%', hex_digit_char((u / 16) as int), hex_digit_char((u % 16) as int)]
    }
}

/// The encoded form of a whole text.
pub open spec fn form_encoded(s: Seq<char>) -> Seq<char>
    decreases s.len(),
{
    if s.len() == 0 {
        Seq::empty()
    } else {
        form_encoded(s.drop_last()) + encoded_char(s.last())
    }
}

/// The uppercase hex digit of `n % 16` as a one-character string.
fn hex_digit_str(n: u32) -> (r: &'static str)
    ensures
        r@ == seq![hex_digit_char(n as int)],
{
    let r = match n {
        0 => "0",
        1 => "1",
        2 => "2",
        3 => "3",
        4 => "4",
        5 => "5",
        6 => "6",
        7 => "7",
        8 => "8",
        9 => "9",
        10 => "A",
        11 => "B",
        12 => "C",
        13 => "D",
        14 => "E",
        _ => "F",
    };
    proof {
        reveal_strlit("0");
        reveal_strlit("1");
        reveal_strlit("2");
        reveal_strlit("3");
        reveal_strlit("4");
        reveal_strlit("5");
        reveal_strlit("6");
        reveal_strlit("7");
        reveal_strlit("8");
        reveal_strlit("9");
        reveal_strlit("A");
        reveal_strlit("B");
        reveal_strlit("C");
        reveal_strlit("D");
        reveal_strlit("E");
        reveal_strlit("F");
        assert(r@ =~= seq![hex_digit_char(n as int)]);
    }
    r
}

/// Appends the encoded form of `s` to `out`.
pub fn append_form_encoded(out: &mut String, s: &str)
    ensures
        final(out)@ == old(out)@ + form_encoded(s@),
{
    let n = s.unicode_len();
    let mut i: usize = 0;
    proof {
        assert(s@.take(0) =~= Seq::<char>::empty());
        assert(out@ =~= old(out)@ + form_encoded(s@.take(0)));
    }
    while i < n
        invariant
            n == s@.len(),
            i <= n,
            out@ == old(out)@ + form_encoded(s@.take(i as int)),
        decreases n - i,
    {
        let c = s.get_char(i);
        let u = c as u32;
        if (48 <= u && u <= 57) || (65 <= u && u <= 90) || (97 <= u && u <= 122) || u == 42 || u
            == 45 || u == 46 || u == 95 {
            let piece = s.substring_char(i, i + 1);
            out.append(piece);
            proof {
                assert(piece@ =~= encoded_char(s@[i as int]));
            }
        } else if u == 32 {
            out.append("+");
            proof {
                reveal_strlit("+");
                assert("+"@ =~= encoded_char(s@[i as int]));
            }
        } else {
            out.append("%");
            let hi = hex_digit_str(u / 16);
            out.append(hi);
            let lo = hex_digit_str(u % 16);
            out.append(lo);
            proof {
                reveal_strlit("%");
                assert("%"@ + hi@ + lo@ =~= encoded_char(s@[i as int]));
            }
        }
        proof {
            let t = s@.take(i as int + 1);
            assert(t.drop_last() =~= s@.take(i as int));
            assert(t.last() == s@[i as int]);
            assert(out@ =~= old(out)@ + form_encoded(s@.take(i as int + 1)));
        }
        i = i + 1;
    }
    proof {
        assert(s@.take(n as int) =~= s@);
    }
}

/// One encoded `key=value` pair of the query string.
pub open spec fn query_pair(key: Seq<char>, value: Seq<char>) -> Seq<char> {
    form_encoded(key) + "="@ + form_encoded(value)
}

/// Appends `key=value`, both sides encoded, to `out`.
pub fn append_query_pair(out: &mut String, key: &str, value: &str)
    ensures
        final(out)@ == old(out)@ + query_pair(key@, value@),
{
    append_form_encoded(out, key);
    out.append("=");
    append_form_encoded(out, value);
    proof {
        assert(out@ =~= old(out)@ + query_pair(key@, value@));
    }
}

} // verus!
