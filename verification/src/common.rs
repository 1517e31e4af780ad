//! Types and helpers shared by every contract of the workspace.
use vstd::prelude::*;

verus! {

/// What the chain's address validation answered for one address string:
/// the normalised address, or the message of the validation error.
pub type AddrCheck = Result<String, String>;

/// The standard-library errors the contracts raise themselves.
#[derive(Clone, Debug, PartialEq, Eq)]
pub enum StdError {
    /// A generic error with a message.
    GenericErr { msg: String },
    /// A checked subtraction on 128-bit amounts went below zero.
    SubOverflow { minuend: u128, subtrahend: u128 },
}

/// One coin: a denomination and an amount of its base unit.
#[derive(Clone, Debug, PartialEq, Eq)]
pub struct Coin {
    pub denom: String,
    pub amount: u128,
}

/// A bank transfer that a contract asks the chain to perform.
#[derive(Clone, Debug, PartialEq, Eq)]
pub struct BankSend {
    pub to_address: String,
    pub coin: Coin,
}

/// The decimal digit character of `d` (for `d < 10`).
pub open spec fn digit_char(d: nat) -> char {
    if d == 0 { '0' }
    else if d == 1 { '1' }
    else if d == 2 { '2' }
    else if d == 3 { '3' }
    else if d == 4 { '4' }
    else if d == 5 { '5' }
    else if d == 6 { '6' }
    else if d == 7 { '7' }
    else if d == 8 { '8' }
    else { '9' }
}

/// The decimal notation of `n`, most significant digit first, without leading zeros.
pub open spec fn decimal(n: nat) -> Seq<char>
    decreases n,
{
    if n < 10 {
        seq![digit_char(n)]
    } else {
        decimal(n / 10).push(digit_char(n % 10))
    }
}

/// The one-character string of the decimal digit `d`.
fn digit_str(d: u128) -> (r: &'static str)
    requires
        d < 10,
    ensures
        r@ == seq![digit_char(d as nat)],
{
    if d == 0 {
        proof {
            reveal_strlit("0");
        }
        "0"
    } else if d == 1 {
        proof {
            reveal_strlit("1");
        }
        "1"
    } else if d == 2 {
        proof {
            reveal_strlit("2");
        }
        "2"
    } else if d == 3 {
        proof {
            reveal_strlit("3");
        }
        "3"
    } else if d == 4 {
        proof {
            reveal_strlit("4");
        }
        "4"
    } else if d == 5 {
        proof {
            reveal_strlit("5");
        }
        "5"
    } else if d == 6 {
        proof {
            reveal_strlit("6");
        }
        "6"
    } else if d == 7 {
        proof {
            reveal_strlit("7");
        }
        "7"
    } else if d == 8 {
        proof {
            reveal_strlit("8");
        }
        "8"
    } else {
        proof {
            reveal_strlit("9");
        }
        "9"
    }
}

/// Renders an amount in decimal, as `Display` for integers does.
pub(crate) fn u128_to_string(n: u128) -> (s: String)
    ensures
        s@ == decimal(n as nat),
    decreases n,
{
    if n < 10 {
        String::from_str(digit_str(n))
    } else {
        let mut s = u128_to_string(n / 10);
        s.append(digit_str(n % 10));
        assert(s@ =~= decimal((n / 10) as nat).push(digit_char((n % 10) as nat)));
        s
    }
}

/// Lexicographic "strictly less than" on character sequences, comparing characters
/// by code point; for UTF-8 strings this is the byte order that `String`'s `Ord` uses.
pub open spec fn seq_lt(a: Seq<char>, b: Seq<char>) -> bool
    decreases a.len(),
{
    if b.len() == 0 {
        false
    } else if a.len() == 0 {
        true
    } else if (a[0] as u32) < (b[0] as u32) {
        true
    } else if (a[0] as u32) > (b[0] as u32) {
        false
    } else {
        seq_lt(a.drop_first(), b.drop_first())
    }
}

/// Whether `a` sorts strictly before `b` in the order in which the contracts' storage
/// enumerates address keys.
pub fn str_lt(a: &String, b: &String) -> (r: bool)
    ensures
        r == seq_lt(a@, b@),
{
    let sa = a.as_str();
    let sb = b.as_str();
    let la = sa.unicode_len();
    let lb = sb.unicode_len();
    let mut i: usize = 0;
    assert(a@.skip(0) =~= a@);
    assert(b@.skip(0) =~= b@);
    while i < la && i < lb
        invariant
            la == a@.len(),
            lb == b@.len(),
            sa@ == a@,
            sb@ == b@,
            i <= la,
            i <= lb,
            seq_lt(a@, b@) == seq_lt(a@.skip(i as int), b@.skip(i as int)),
        decreases la - i,
    {
        let ca = sa.get_char(i);
        let cb = sb.get_char(i);
        assert(a@.skip(i as int)[0] == ca);
        assert(b@.skip(i as int)[0] == cb);
        if (ca as u32) < (cb as u32) {
            return true;
        }
        if (ca as u32) > (cb as u32) {
            return false;
        }
        assert(a@.skip(i as int).drop_first() =~= a@.skip(i + 1));
        assert(b@.skip(i as int).drop_first() =~= b@.skip(i + 1));
        i = i + 1;
    }
    assert(a@.skip(i as int).len() == 0 || b@.skip(i as int).len() == 0);
    i < lb
}

/// The value of an ASCII decimal digit character.
pub open spec fn digit_value(c: char) -> nat {
    ((c as u32) - ('0' as u32)) as nat
}

/// Whether every character of `d` is an ASCII decimal digit.
pub open spec fn all_digits(d: Seq<char>) -> bool {
    forall|i: int| 0 <= i < d.len() ==> '0' <= #[trigger] d[i] <= '9'
}

/// The number written by a sequence of decimal digits, most significant first.
pub open spec fn digits_value(d: Seq<char>) -> nat
    decreases d.len(),
{
    if d.len() == 0 {
        0
    } else {
        digits_value(d.drop_last()) * 10 + digit_value(d.last())
    }
}

/// What `str::parse::<u128>` yields: an optional `+` followed by at least one decimal
/// digit, whose value fits in 128 bits; anything else is an error.
pub open spec fn parsed_u128(s: Seq<char>) -> Option<u128> {
    let d = if s.len() > 0 && s[0] == '+' {
        s.drop_first()
    } else {
        s
    };
    if d.len() > 0 && all_digits(d) && digits_value(d) <= u128::MAX {
        Some(digits_value(d) as u128)
    } else {
        None
    }
}

/// A prefix of an all-digit sequence never writes a larger number than the whole.
proof fn lemma_digits_prefix_le(d: Seq<char>, k: int)
    requires
        all_digits(d),
        0 <= k <= d.len(),
    ensures
        digits_value(d.take(k)) <= digits_value(d),
    decreases d.len(),
{
    if k == d.len() {
        assert(d.take(k) =~= d);
    } else {
        let p = d.drop_last();
        assert(all_digits(p));
        lemma_digits_prefix_le(p, k);
        assert(p.take(k) =~= d.take(k));
    }
}

/// Parses an unsigned decimal amount as `str::parse::<u128>` does: an optional `+`
/// followed by at least one ASCII digit, with no overflow; `None` otherwise.
pub(crate) fn parse_u128(s: &String) -> (r: Option<u128>)
    ensures
        r == parsed_u128(s@),
{
    let t = s.as_str();
    let n = t.unicode_len();
    let start: usize = if n > 0 && t.get_char(0) == '+' {
        1
    } else {
        0
    };
    let ghost d = if s@.len() > 0 && s@[0] == '+' {
        s@.drop_first()
    } else {
        s@
    };
    assert(d =~= s@.skip(start as int));
    if start == n {
        return None;
    }
    let mut acc: u128 = 0;
    let mut i: usize = start;
    while i < n
        invariant
            t@ == s@,
            n == s@.len(),
            start <= i <= n,
            d =~= s@.skip(start as int),
            d == (if s@.len() > 0 && s@[0] == '+' {
                s@.drop_first()
            } else {
                s@
            }),
            all_digits(d.take(i - start)),
            acc == digits_value(d.take(i - start)),
        decreases n - i,
    {
        let c = t.get_char(i);
        let ghost k: int = i - start;
        assert(d[k] == c);
        if c < '0' || c > '9' {
            assert(!all_digits(d));
            return None;
        }
        let v: u128 = (c as u32 - '0' as u32) as u128;
        assert(d.take(k + 1).drop_last() =~= d.take(k));
        assert(d.take(k + 1).last() == c);
        assert(digits_value(d.take(k + 1)) == acc * 10 + v);
        let next = match acc.checked_mul(10) {
            Some(m) => m.checked_add(v),
            None => None,
        };
        match next {
            Some(x) => {
                acc = x;
            },
            None => {
                proof {
                    if all_digits(d) {
                        lemma_digits_prefix_le(d, k + 1);
                    }
                }
                return None;
            },
        }
        assert(all_digits(d.take(k + 1)));
        i = i + 1;
    }
    assert(d.take(n - start) =~= d);
    Some(acc)
}

/// Decimal notation reads back as the number it writes, in digits only.
proof fn lemma_decimal_digits(n: nat)
    ensures
        decimal(n).len() > 0,
        all_digits(decimal(n)),
        digits_value(decimal(n)) == n,
        '0' <= decimal(n)[0] <= '9',
    decreases n,
{
    if n >= 10 {
        lemma_decimal_digits(n / 10);
        let d = decimal(n);
        assert(d.drop_last() =~= decimal(n / 10));
        let k = n % 10;
        assert(d.last() == digit_char(k));
        assert(digit_value(digit_char(k)) == k) by {
            assert(k < 10);
        }
        assert(digits_value(d) == digits_value(decimal(n / 10)) * 10 + k);
        assert forall|i: int| 0 <= i < d.len() implies '0' <= #[trigger] d[i] <= '9' by {
            if i < d.len() - 1 {
                assert(d[i] == decimal(n / 10)[i]);
            }
        }
    } else {
        let d = decimal(n);
        assert(d.drop_last() =~= Seq::<char>::empty());
        assert(digits_value(Seq::<char>::empty()) == 0);
        assert(digit_value(digit_char(n)) == n);
    }
}

/// Rendering and parsing agree: the decimal notation of any amount, as `u128_to_string`
/// writes it, parses back to that amount (with or without a leading `+`); it is never
/// empty and has no leading zero.
pub proof fn law_decimal_parses_back(n: u128)
    ensures
        parsed_u128(decimal(n as nat)) == Some(n),
        parsed_u128(seq!['+'] + decimal(n as nat)) == Some(n),
        decimal(n as nat).len() > 0,
        n > 0 ==> decimal(n as nat)[0] != '0',
    decreases n,
{
    lemma_decimal_digits(n as nat);
    let d = decimal(n as nat);
    assert((seq!['+'] + d).drop_first() =~= d);
    if n >= 10 {
        law_decimal_parses_back(n / 10);
        assert(d[0] == decimal((n / 10) as nat)[0]);
    }
}

/// The message of the first failed validation in `checks`, if any failed.
pub open spec fn first_error(checks: Seq<AddrCheck>) -> Option<String>
    decreases checks.len(),
{
    if checks.len() == 0 {
        None
    } else if checks[0] is Err {
        Some(checks[0]->Err_0)
    } else {
        first_error(checks.drop_first())
    }
}

/// The validated addresses of `checks`, in order (meaningful when none failed).
pub open spec fn validated(checks: Seq<AddrCheck>) -> Seq<String> {
    checks.map_values(|c: AddrCheck| c->Ok_0)
}

proof fn lemma_first_error_prefix(checks: Seq<AddrCheck>, i: int)
    requires
        0 <= i < checks.len(),
        forall|j: int| 0 <= j < i ==> checks[j] is Ok,
    ensures
        first_error(checks) == first_error(checks.skip(i)),
    decreases i,
{
    if i > 0 {
        assert(checks.skip(1) =~= checks.drop_first());
        lemma_first_error_prefix(checks.drop_first(), i - 1);
        assert(checks.drop_first().skip(i - 1) =~= checks.skip(i));
    } else {
        assert(checks.skip(0) =~= checks);
    }
}

proof fn lemma_first_error_none(checks: Seq<AddrCheck>)
    requires
        forall|j: int| 0 <= j < checks.len() ==> checks[j] is Ok,
    ensures
        first_error(checks) is None,
    decreases checks.len(),
{
    if checks.len() > 0 {
        lemma_first_error_none(checks.drop_first());
    }
}

/// A list of address checks fails with the message of its first failure, in list order,
/// and succeeds exactly when every check succeeded, giving the addresses in order.
pub proof fn law_first_failure_decides(checks: Seq<AddrCheck>)
    ensures
        first_error(checks) is None <==> forall|j: int| 0 <= j < checks.len() ==> #[trigger] checks[j] is Ok,
        first_error(checks) is Some ==> exists|i: int|
            0 <= i < checks.len() && #[trigger] checks[i] == Err::<String, String>(first_error(checks)->0)
                && forall|j: int| 0 <= j < i ==> #[trigger] checks[j] is Ok,
        validated(checks).len() == checks.len(),
        forall|i: int| 0 <= i < checks.len() && #[trigger] checks[i] is Ok ==> validated(checks)[i]
            == checks[i]->Ok_0,
    decreases checks.len(),
{
    if checks.len() > 0 {
        let rest = checks.drop_first();
        law_first_failure_decides(rest);
        if checks[0] is Ok {
            if first_error(rest) is Some {
                let k = choose|k: int|
                    0 <= k < rest.len() && #[trigger] rest[k] == Err::<String, String>(first_error(rest)->0)
                        && forall|j: int| 0 <= j < k ==> #[trigger] rest[j] is Ok;
                assert(checks[k + 1] == rest[k]);
                assert forall|j: int| 0 <= j < k + 1 implies #[trigger] checks[j] is Ok by {
                    if j > 0 {
                        assert(checks[j] == rest[j - 1]);
                    }
                }
            } else {
                assert forall|j: int| 0 <= j < checks.len() implies #[trigger] checks[j] is Ok by {
                    if j > 0 {
                        assert(checks[j] == rest[j - 1]);
                    }
                }
            }
        } else {
            assert(checks[0] == Err::<String, String>(first_error(checks)->0));
        }
    }
}

/// Collects the validated addresses of `checks`, or the message of the first failure.
pub fn collect_validated(checks: &Vec<AddrCheck>) -> (r: Result<Vec<String>, String>)
    ensures
        r matches Ok(v) ==> first_error(checks@) is None && v@ == validated(checks@),
        r matches Err(e) ==> first_error(checks@) == Some(e),
        first_error(checks@) is None ==> r is Ok,
{
    let mut out: Vec<String> = Vec::new();
    let n = checks.len();
    let mut i: usize = 0;
    while i < n
        invariant
            n == checks.len(),
            i <= n,
            forall|j: int| 0 <= j < i ==> checks@[j] is Ok,
            out@ =~= validated(checks@.take(i as int)),
        decreases n - i,
    {
        match &checks[i] {
            Ok(a) => {
                out.push(a.clone());
                assert(checks@.take(i + 1) =~= checks@.take(i as int).push(checks@[i as int]));
            },
            Err(e) => {
                proof {
                    lemma_first_error_prefix(checks@, i as int);
                }
                return Err(e.clone());
            },
        }
        i = i + 1;
    }
    proof {
        lemma_first_error_none(checks@);
        assert(checks@.take(n as int) =~= checks@);
    }
    Ok(out)
}

/// The lowercase form of a string as Unicode defines it (`str::to_lowercase`).
pub uninterp spec fn lowercase(s: Seq<char>) -> Seq<char>;

/// Lowercases a string with `str::to_lowercase`.
#[verifier::external_body]
pub(crate) fn to_lowercase(s: &String) -> (r: String)
    ensures
        r@ == lowercase(s@),
{
    s.to_lowercase()
}

/// The first `n` elements of `s`, or all of them when there are fewer.
pub open spec fn prefix<A>(s: Seq<A>, n: nat) -> Seq<A> {
    if n < s.len() {
        s.take(n as int)
    } else {
        s
    }
}

} // verus!
