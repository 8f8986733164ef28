//! Canonical literal text of field values.
//!
//! A non-text value is written to the raw store as a structured literal:
//! an integer as its decimal digits (with a leading `-` when negative),
//! a boolean as `true` or `false`, and an integer list as the elements'
//! literals joined by commas between square brackets. The lemmas here show
//! that distinct values have distinct literals, which is what makes reading
//! a literal back unambiguous.

use vstd::prelude::*;

verus! {

/// Whether a character is a decimal digit.
pub open spec fn is_digit(c: char) -> bool {
    48 <= c as int <= 57
}

/// The digit character for `d`.
pub open spec fn digit_char(d: int) -> char
    recommends
        0 <= d < 10,
{
    if d == 0 {
        '0'
    } else if d == 1 {
        '1'
    } else if d == 2 {
        '2'
    } else if d == 3 {
        '3'
    } else if d == 4 {
        '4'
    } else if d == 5 {
        '5'
    } else if d == 6 {
        '6'
    } else if d == 7 {
        '7'
    } else if d == 8 {
        '8'
    } else {
        '9'
    }
}

/// The decimal digits of a natural number, most significant first.
pub open spec fn nat_literal(n: nat) -> Seq<char>
    decreases n,
{
    if n < 10 {
        seq![digit_char(n as int)]
    } else {
        nat_literal(n / 10) + seq![digit_char((n % 10) as int)]
    }
}

/// The decimal literal of an integer: digits, with `-` ahead of a negative.
pub open spec fn int_literal(n: int) -> Seq<char> {
    if n < 0 {
        seq!['-'] + nat_literal((-n) as nat)
    } else {
        nat_literal(n as nat)
    }
}

/// The literal of a boolean.
pub open spec fn bool_literal(b: bool) -> Seq<char> {
    if b {
        seq!['t', 'r', 'u', 'e']
    } else {
        seq!['f', 'a', 'l', 's', 'e']
    }
}

/// The elements of a list, written as integer literals joined by commas.
pub open spec fn list_inner(vs: Seq<i64>) -> Seq<char>
    decreases vs.len(),
{
    if vs.len() == 0 {
        Seq::empty()
    } else if vs.len() == 1 {
        int_literal(vs[0] as int)
    } else {
        int_literal(vs[0] as int) + seq![','] + list_inner(vs.drop_first())
    }
}

/// The literal of an integer list: the joined elements between brackets.
pub open spec fn list_literal(vs: Seq<i64>) -> Seq<char> {
    seq!['['] + list_inner(vs) + seq![']']
}

/// `digit_char` maps the ten digit values to the ten digit characters,
/// one to one.
pub proof fn lemma_digit_char(d: int)
    requires
        0 <= d < 10,
    ensures
        is_digit(digit_char(d)),
        digit_char(d) as int == 48 + d,
{
}

/// A natural number's digits: at least one, all digit characters, and one
/// digit exactly when the number is below ten.
pub proof fn lemma_nat_literal_chars(n: nat)
    ensures
        nat_literal(n).len() >= 1,
        forall|i: int| 0 <= i < nat_literal(n).len() ==> is_digit(#[trigger] nat_literal(n)[i]),
        (n < 10) == (nat_literal(n).len() == 1),
    decreases n,
{
    if n < 10 {
        lemma_digit_char(n as int);
    } else {
        lemma_nat_literal_chars(n / 10);
        lemma_digit_char((n % 10) as int);
    }
}

/// Two natural numbers with the same digits are the same number.
pub proof fn lemma_nat_literal_injective(a: nat, b: nat)
    requires
        nat_literal(a) == nat_literal(b),
    ensures
        a == b,
    decreases a,
{
    lemma_nat_literal_chars(a);
    lemma_nat_literal_chars(b);
    if a < 10 && b < 10 {
        assert(nat_literal(a) == seq![digit_char(a as int)]);
        assert(nat_literal(a)[0] == digit_char(a as int));
        assert(nat_literal(b)[0] == digit_char(b as int));
        lemma_digit_char(a as int);
        lemma_digit_char(b as int);
    } else if a < 10 {
        assert(nat_literal(a).len() == 1 && nat_literal(b).len() >= 2);
    } else if b < 10 {
        assert(nat_literal(b).len() == 1 && nat_literal(a).len() >= 2);
    } else {
        let sa = nat_literal(a);
        let sb = nat_literal(b);
        let pa = nat_literal(a / 10);
        let pb = nat_literal(b / 10);
        assert(sa.len() == pa.len() + 1);
        assert(sa.last() == digit_char((a % 10) as int));
        assert(sb.last() == digit_char((b % 10) as int));
        lemma_digit_char((a % 10) as int);
        lemma_digit_char((b % 10) as int);
        assert(a % 10 == b % 10);
        assert(pa.len() == pb.len());
        assert forall|i: int| 0 <= i < pa.len() implies pa[i] == pb[i] by {
            assert(pa[i] == sa[i]);
            assert(pb[i] == sb[i]);
        }
        assert(pa =~= pb);
        lemma_nat_literal_injective(a / 10, b / 10);
        vstd::arithmetic::div_mod::lemma_fundamental_div_mod(a as int, 10);
        vstd::arithmetic::div_mod::lemma_fundamental_div_mod(b as int, 10);
    }
}

/// An integer literal's characters are digits or a leading minus sign, and
/// it starts with the minus sign exactly when the integer is negative.
pub proof fn lemma_int_literal_chars(n: int)
    ensures
        int_literal(n).len() >= 1,
        forall|i: int| 0 <= i < int_literal(n).len() ==> is_digit(#[trigger] int_literal(n)[i])
            || int_literal(n)[i] == '-',
        (n < 0) == (int_literal(n)[0] == '-'),
{
    if n < 0 {
        lemma_nat_literal_chars((-n) as nat);
        assert(forall|i: int| 1 <= i < int_literal(n).len() ==> int_literal(n)[i]
            == #[trigger] nat_literal((-n) as nat)[i - 1]);
    } else {
        lemma_nat_literal_chars(n as nat);
        assert(is_digit(int_literal(n)[0]));
        assert(int_literal(n)[0] as int != 45);
    }
}

/// Two integers with the same literal are the same integer.
pub proof fn lemma_int_literal_injective(a: int, b: int)
    requires
        int_literal(a) == int_literal(b),
    ensures
        a == b,
{
    lemma_int_literal_chars(a);
    lemma_int_literal_chars(b);
    if a < 0 && b < 0 {
        let ta = nat_literal((-a) as nat);
        let tb = nat_literal((-b) as nat);
        assert(ta.len() == tb.len());
        assert forall|i: int| 0 <= i < ta.len() implies ta[i] == tb[i] by {
            assert(ta[i] == int_literal(a)[i + 1]);
            assert(tb[i] == int_literal(b)[i + 1]);
        }
        assert(ta =~= tb);
        lemma_nat_literal_injective((-a) as nat, (-b) as nat);
    } else if a >= 0 && b >= 0 {
        lemma_nat_literal_injective(a as nat, b as nat);
    } else {
        assert((int_literal(a)[0] == '-') == (int_literal(b)[0] == '-'));
    }
}

/// No integer literal contains a comma or a bracket.
pub proof fn lemma_int_literal_plain(n: int)
    ensures
        forall|i: int| 0 <= i < int_literal(n).len() ==> #[trigger] int_literal(n)[i] != ','
            && int_literal(n)[i] != '[' && int_literal(n)[i] != ']',
{
    lemma_int_literal_chars(n);
    assert(forall|i: int| 0 <= i < int_literal(n).len() ==> (is_digit(#[trigger] int_literal(
        n,
    )[i]) || int_literal(n)[i] == '-') ==> int_literal(n)[i] != ',' && int_literal(n)[i] != '['
        && int_literal(n)[i] != ']') by {
        assert(',' as int == 44 && '[' as int == 91 && ']' as int == 93 && '-' as int == 45);
    }
}

/// The joined elements of a nonempty list are nonempty, and of an empty
/// list empty.
pub proof fn lemma_list_inner_len(vs: Seq<i64>)
    ensures
        (vs.len() == 0) == (list_inner(vs).len() == 0),
{
    if vs.len() > 0 {
        lemma_int_literal_chars(vs[0] as int);
    }
}

/// Two lists whose joined elements read the same are the same list.
pub proof fn lemma_list_inner_injective(a: Seq<i64>, b: Seq<i64>)
    requires
        list_inner(a) == list_inner(b),
    ensures
        a =~= b,
    decreases a.len(),
{
    lemma_list_inner_len(a);
    lemma_list_inner_len(b);
    if a.len() == 0 || b.len() == 0 {
        assert(a.len() == b.len());
    } else {
        let ea = int_literal(a[0] as int);
        let eb = int_literal(b[0] as int);
        lemma_int_literal_plain(a[0] as int);
        lemma_int_literal_plain(b[0] as int);
        let s = list_inner(a);
        if a.len() == 1 && b.len() == 1 {
            lemma_int_literal_injective(a[0] as int, b[0] as int);
        } else if a.len() == 1 {
            // `s` equals `ea`, which has no comma, yet as `b`'s join it has a
            // comma at index `eb.len()`.
            assert(s[eb.len() as int] == ',');
            assert(eb.len() < s.len());
        } else if b.len() == 1 {
            assert(s[ea.len() as int] == ',');
            assert(ea.len() < s.len());
        } else {
            let ra = list_inner(a.drop_first());
            let rb = list_inner(b.drop_first());
            assert(s.len() == ea.len() + 1 + ra.len());
            assert(s.len() == eb.len() + 1 + rb.len());
            assert(s[ea.len() as int] == ',');
            assert(s[eb.len() as int] == ',');
            if ea.len() < eb.len() {
                assert(eb[ea.len() as int] == ',');
                assert(false);
            } else if eb.len() < ea.len() {
                assert(ea[eb.len() as int] == ',');
                assert(false);
            }
            assert forall|i: int| 0 <= i < ea.len() implies ea[i] == eb[i] by {
                assert(ea[i] == s[i]);
                assert(eb[i] == s[i]);
            }
            assert(ea =~= eb);
            lemma_int_literal_injective(a[0] as int, b[0] as int);
            assert forall|i: int| 0 <= i < ra.len() implies ra[i] == rb[i] by {
                assert(ra[i] == s[ea.len() + 1 + i]);
                assert(rb[i] == s[ea.len() + 1 + i]);
            }
            assert(ra =~= rb);
            lemma_list_inner_injective(a.drop_first(), b.drop_first());
            assert(a[0] == b[0]);
            assert forall|i: int| 1 <= i < a.len() implies a[i] == b[i] by {
                assert(a[i] == a.drop_first()[i - 1]);
                assert(b[i] == b.drop_first()[i - 1]);
            }
            assert(a =~= b);
        }
    }
}

/// Two integer lists with the same literal are the same list.
pub proof fn lemma_list_literal_injective(a: Seq<i64>, b: Seq<i64>)
    requires
        list_literal(a) == list_literal(b),
    ensures
        a =~= b,
{
    let ia = list_inner(a);
    let ib = list_inner(b);
    assert(list_literal(a).len() == ia.len() + 2);
    assert(list_literal(b).len() == ib.len() + 2);
    assert forall|i: int| 0 <= i < ia.len() implies ia[i] == ib[i] by {
        assert(ia[i] == list_literal(a)[i + 1]);
        assert(ib[i] == list_literal(b)[i + 1]);
    }
    assert(ia =~= ib);
    lemma_list_inner_injective(a, b);
}

} // verus!
