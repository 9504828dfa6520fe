//! Laws of the decimal text of integers and of lists stored in one TEXT
//! column.

use crate::decimal::{
    all_digits, digit_char, digit_value, digits_value, int_text, is_digit, nat_digits,
    parse_int_text,
};
use crate::query::text_value::{TextDisplay, TextValue};
use crate::query::vec_text::{column_pieces, display_texts, parse_nonempty, valid_scalar};
use crate::text::{join_pieces, lemma_split_join};
use vstd::prelude::*;

verus! {

proof fn lemma_digit_char(d: int)
    requires
        0 <= d <= 9,
    ensures
        is_digit(digit_char(d)),
        digit_value(digit_char(d)) == d,
{
}

proof fn lemma_nat_digits(n: nat)
    ensures
        nat_digits(n).len() >= 1,
        all_digits(nat_digits(n)),
        digits_value(nat_digits(n)) == n,
    decreases n,
{
    let s = nat_digits(n);
    if n < 10 {
        lemma_digit_char(n as int);
        assert(s.drop_last() =~= Seq::<char>::empty());
        assert(digits_value(s.drop_last()) == 0);
        assert(s.last() == digit_char(n as int));
        assert(digits_value(s) == digits_value(s.drop_last()) * 10 + digit_value(s.last()));
    } else {
        lemma_nat_digits(n / 10);
        lemma_digit_char((n % 10) as int);
        let front = nat_digits(n / 10);
        assert(s == front.push(digit_char((n % 10) as int)));
        assert(s.drop_last() =~= front);
        assert(s.last() == digit_char((n % 10) as int));
        assert(digits_value(s) == digits_value(front) * 10 + (n % 10));
        assert((n / 10) * 10 + n % 10 == n) by (nonlinear_arith);
        assert forall|i: int| 0 <= i < s.len() implies is_digit(#[trigger] s[i]) by {
            if i < s.len() - 1 {
                assert(s[i] == front[i]);
            }
        }
    }
}

/// Reading back the decimal text of an integer gives the integer; without a
/// sign allowed, this holds for the non-negative integers.
pub proof fn law_int_text_roundtrip(v: int)
    ensures
        parse_int_text(int_text(v), true) == Some(v),
        v >= 0 ==> parse_int_text(int_text(v), false) == Some(v),
{
    if v < 0 {
        let d = nat_digits((-v) as nat);
        lemma_nat_digits((-v) as nat);
        let s = int_text(v);
        assert(s[0] == '-');
        assert(s.drop_first() =~= d);
    } else {
        let d = nat_digits(v as nat);
        lemma_nat_digits(v as nat);
        assert(is_digit(d[0]));
    }
}

/// The text of an integer holds only digits and a leading minus sign.
pub proof fn lemma_int_text_chars(v: int)
    ensures
        forall|i: int| 0 <= i < int_text(v).len() ==> is_digit(#[trigger] int_text(v)[i]) || int_text(v)[i] == '-',
        int_text(v).len() >= 1,
{
    if v < 0 {
        lemma_nat_digits((-v) as nat);
        let d = nat_digits((-v) as nat);
        assert forall|i: int| 0 <= i < int_text(v).len() implies is_digit(#[trigger] int_text(v)[i]) || int_text(v)[i] == '-' by {
            if i > 0 {
                assert(int_text(v)[i] == d[i - 1]);
            }
        }
    } else {
        lemma_nat_digits(v as nat);
    }
}

/// A list of texts written into one column reads back as the same list,
/// provided no text is empty or holds the separator.
pub proof fn law_vec_text_strings_roundtrip(values: Seq<Seq<char>>, s: u32)
    requires
        valid_scalar(s),
        forall|i: int| 0 <= i < values.len() ==> (#[trigger] values[i]).len() > 0 && !values[i].contains(s as char),
    ensures
        parse_nonempty::<String>(column_pieces(join_pieces(values, s as char), s)) == Some(values),
{
    if values.len() == 0 {
        assert(column_pieces(join_pieces(values, s as char), s) =~= seq![Seq::<char>::empty()]);
        let ps = seq![Seq::<char>::empty()];
        assert(ps.drop_last() =~= Seq::<Seq<char>>::empty());
        assert(ps.last().len() == 0);
        assert(parse_nonempty::<String>(ps.drop_last()) == Some(Seq::<Seq<char>>::empty()));
        assert(parse_nonempty::<String>(ps) == Some(Seq::<Seq<char>>::empty()));
    } else {
        lemma_split_join(values, s as char);
        lemma_parse_all_strings(values);
    }
}

proof fn lemma_parse_all_strings(values: Seq<Seq<char>>)
    requires
        forall|i: int| 0 <= i < values.len() ==> (#[trigger] values[i]).len() > 0,
    ensures
        parse_nonempty::<String>(values) == Some(values),
    decreases values.len(),
{
    if values.len() > 0 {
        let f = values.drop_last();
        assert forall|i: int| 0 <= i < f.len() implies (#[trigger] f[i]).len() > 0 by {
            assert(f[i] == values[i]);
        }
        lemma_parse_all_strings(f);
        assert(values.last() == values[values.len() - 1]);
        assert(f.push(values.last()) =~= values);
    }
}

/// A list of 64-bit integers written into one column reads back as the same
/// list, provided the separator is neither a digit nor a minus sign.
pub proof fn law_vec_text_integers_roundtrip(values: Seq<i64>, s: u32)
    requires
        valid_scalar(s),
        !is_digit(s as char),
        s as char != '-',
    ensures
        parse_nonempty::<i64>(column_pieces(join_pieces(display_texts(values), s as char), s))
            == Some(values),
{
    let texts = display_texts(values);
    if values.len() == 0 {
        assert(texts =~= Seq::<Seq<char>>::empty());
        let ps = seq![Seq::<char>::empty()];
        assert(column_pieces(join_pieces(texts, s as char), s) =~= ps);
        assert(ps.drop_last() =~= Seq::<Seq<char>>::empty());
        assert(ps.last().len() == 0);
        assert(parse_nonempty::<i64>(ps.drop_last()) == Some(Seq::<i64>::empty()));
        assert(parse_nonempty::<i64>(ps) == Some(Seq::<i64>::empty()));
    } else {
        assert forall|i: int| 0 <= i < texts.len() implies !(#[trigger] texts[i]).contains(s as char) by {
            lemma_int_text_chars(values[i] as int);
            assert(texts[i] == int_text(values[i] as int));
            if texts[i].contains(s as char) {
                let k = choose|k: int| 0 <= k < texts[i].len() && texts[i][k] == s as char;
                assert(is_digit(int_text(values[i] as int)[k]) || int_text(values[i] as int)[k] == '-');
            }
        }
        lemma_split_join(texts, s as char);
        lemma_parse_all_integers(values);
    }
}

proof fn lemma_parse_all_integers(values: Seq<i64>)
    ensures
        parse_nonempty::<i64>(display_texts(values)) == Some(values),
    decreases values.len(),
{
    if values.len() > 0 {
        let f = values.drop_last();
        lemma_parse_all_integers(f);
        let texts = display_texts(values);
        assert(texts.drop_last() =~= display_texts(f));
        let v = values.last();
        assert(texts.last() == int_text(v as int));
        law_int_text_roundtrip(v as int);
        lemma_int_text_chars(v as int);
        assert(f.push(v) =~= values);
    }
}

} // verus!
