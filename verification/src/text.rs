//! Small operations on text that the rest of the library builds on.

use crate::protocol::texts;
use vstd::prelude::*;
use vstd::string::StringExecFns;

verus! {

/// The ten digits, in order.
pub const DIGITS: &'static str = "0123456789";

/// The text that `std` writes for a list of strings with the `{:?}` form,
/// as `format!("{:?}", list)` gives it.
pub uninterp spec fn debug_text(list: Seq<Seq<char>>) -> Seq<char>;

/// The character of one digit.
pub open spec fn digit(d: int) -> Seq<char> {
    DIGITS@.subrange(d, d + 1)
}

/// The decimal digits of a number that is not negative, most significant
/// first, without leading zeros.
pub open spec fn digits_of(n: nat) -> Seq<char>
    decreases n,
{
    if n < 10 {
        digit(n as int)
    } else {
        digits_of(n / 10) + digit((n % 10) as int)
    }
}

/// A number in decimal, with a minus sign before a negative one.
pub open spec fn decimal_of(n: int) -> Seq<char> {
    if n < 0 {
        "-"@ + digits_of((-n) as nat)
    } else {
        digits_of(n as nat)
    }
}

/// Writes a number that is not negative in decimal.
pub fn digits(n: u64) -> (text: String)
    ensures
        text@ == digits_of(n as nat),
{
    proof {
        reveal_strlit("0123456789");
    }
    let last = (n % 10) as usize;
    let mut text = String::from_str(DIGITS.substring_char(last, last + 1));
    let mut rest: u64 = n / 10;
    // `text` holds the digits of `n` below `done`, which make up `low`;
    // `rest` holds what is above them.
    let ghost mut done: nat = 10;
    let ghost mut low: nat = (n % 10) as nat;
    while rest > 0
        invariant
            DIGITS@.len() == 10,
            n as nat == rest * done + low,
            rest == 0 ==> text@ == digits_of(n as nat),
            rest > 0 ==> forall|upper: nat|
                upper > 0 ==> #[trigger] digits_of(upper * done + low) == digits_of(upper) + text@,
        decreases rest,
    {
        let d = (rest % 10) as usize;
        let mut longer = String::from_str(DIGITS.substring_char(d, d + 1));
        longer.append(text.as_str());
        proof {
            let new_low: nat = (d as nat) * done + low;
            let new_done: nat = done * 10;
            assert(n as nat == (rest / 10) * new_done + new_low) by (nonlinear_arith)
                requires
                    n as nat == rest * done + low,
                    d == rest % 10,
                    new_low == (d as nat) * done + low,
                    new_done == done * 10,
            ;
            if rest / 10 == 0 {
                assert(rest == d);
                assert(digits_of((rest as nat) * done + low) == digits_of(rest as nat) + text@);
                assert(digits_of(rest as nat) == digit(d as int));
                assert(longer@ == digits_of(n as nat));
            }
            assert forall|upper: nat| upper > 0 implies #[trigger] digits_of(
                upper * new_done + new_low,
            ) == digits_of(upper) + longer@ by {
                let whole: nat = upper * 10 + (d as nat);
                assert(upper * new_done + new_low == whole * done + low) by (nonlinear_arith)
                    requires
                        whole == upper * 10 + (d as nat),
                        new_low == (d as nat) * done + low,
                        new_done == done * 10,
                ;
                assert(digits_of(whole * done + low) == digits_of(whole) + text@);
                assert(whole / 10 == upper && whole % 10 == d);
                assert(digits_of(whole) == digits_of(upper) + digit(d as int));
                assert(digits_of(upper) + longer@ =~= digits_of(whole) + text@);
            }
            done = new_done;
            low = new_low;
        }
        text = longer;
        rest = rest / 10;
    }
    text
}

/// Writes a number in decimal.
pub fn decimal(n: i64) -> (text: String)
    ensures
        text@ == decimal_of(n as int),
{
    if n < 0 {
        let size: u64 = if n == i64::MIN {
            9_223_372_036_854_775_808
        } else {
            (-n) as u64
        };
        let mut text = String::from_str("-");
        text.append(digits(size).as_str());
        text
    } else {
        digits(n as u64)
    }
}

/// Writes a list of strings in the `{:?}` form of `std`, through
/// `format!`. Claims only that the text is a function of the list.
#[verifier::external_body]
pub(crate) fn debug_list(list: &Vec<String>) -> (text: String)
    ensures
        text@ == debug_text(list@.map_values(|s: String| s@)),
{
    format!("{:?}", list)
}

/// Whether `c` is kept when quotation marks are stripped.
pub open spec fn not_quote(c: char) -> bool {
    c != '"'
}

/// The text with every double quotation mark taken out.
pub open spec fn without_quotes(s: Seq<char>) -> Seq<char> {
    s.filter(|c: char| not_quote(c))
}

/// Whether two texts hold the same characters.
pub fn same_text(a: &str, b: &str) -> (same: bool)
    ensures
        same == (a@ == b@),
{
    let n = a.unicode_len();
    if b.unicode_len() != n {
        return false;
    }
    let mut i: usize = 0;
    while i < n
        invariant
            i <= n,
            n == a@.len(),
            n == b@.len(),
            forall|k: int| 0 <= k < i ==> a@[k] == b@[k],
        decreases n - i,
    {
        if a.get_char(i) != b.get_char(i) {
            return false;
        }
        i = i + 1;
    }
    assert(a@ =~= b@);
    true
}

/// Copies the text without its double quotation marks.
pub fn strip_quotes(s: &str) -> (stripped: String)
    ensures
        stripped@ == without_quotes(s@),
{
    let n = s.unicode_len();
    let mut out = String::new();
    let mut i: usize = 0;
    proof {
        reveal(Seq::filter);
        assert(s@.take(0) =~= Seq::<char>::empty());
    }
    while i < n
        invariant
            i <= n,
            n == s@.len(),
            out@ == without_quotes(s@.take(i as int)),
        decreases n - i,
    {
        let c = s.get_char(i);
        proof {
            reveal(Seq::filter);
            assert(s@.take(i + 1).drop_last() =~= s@.take(i as int));
            assert(s@.take(i + 1).last() == c);
        }
        if c != '"' {
            let piece = s.substring_char(i, i + 1);
            assert(piece@ =~= seq![c]);
            out.append(piece);
            assert(out@ =~= without_quotes(s@.take(i as int)).push(c));
        }
        i = i + 1;
    }
    assert(s@.take(n as int) =~= s@);
    out
}

/// Copies a list of strings.
pub fn copy_texts(names: &Vec<String>) -> (copy: Vec<String>)
    ensures
        texts(copy@) == texts(names@),
{
    let mut copy: Vec<String> = Vec::new();
    let mut i: usize = 0;
    while i < names.len()
        invariant
            i <= names@.len(),
            copy@.len() == i,
            forall|k: int| 0 <= k < i ==> #[trigger] copy@[k]@ == names@[k]@,
        decreases names@.len() - i,
    {
        copy.push(names[i].clone());
        i = i + 1;
    }
    assert(texts(copy@) =~= texts(names@));
    copy
}

} // verus!
