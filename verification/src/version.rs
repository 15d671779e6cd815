//! Version tags: extracting a `major.minor.patch` triple from a free-form
//! tag string and comparing two tag strings.
//!
//! A tag parses when it contains, anywhere, three dot-separated decimal
//! digit runs (the first such occurrence wins). Tags that do not parse are
//! deliberately treated as equal by the comparator, so that sorting a
//! mixed list of tags never fails.

use vstd::prelude::*;
use vstd::std_specs::iter::IteratorSpec;
use vstd::string::StringExecFns;
use core::cmp::Ordering;

verus! {

/// Decimal digit test used throughout version parsing.
pub open spec fn spec_is_digit(c: char) -> bool {
    ('0' as u32) <= (c as u32) && (c as u32) <= ('9' as u32)
}

/// Numeric value of a decimal digit character.
pub open spec fn spec_digit_val(c: char) -> nat {
    ((c as u32) - ('0' as u32)) as nat
}

/// Value of a sequence of decimal digit characters, most significant first.
pub open spec fn digits_val(s: Seq<char>) -> nat
    decreases s.len(),
{
    if s.len() == 0 {
        0
    } else {
        digits_val(s.drop_last()) * 10 + spec_digit_val(s.last())
    }
}

/// First position at or after `i` that is past the end or not a digit.
pub open spec fn run_end(s: Seq<char>, i: int) -> int
    decreases s.len() - i,
{
    if 0 <= i < s.len() && spec_is_digit(s[i]) {
        run_end(s, i + 1)
    } else {
        i
    }
}

/// The triple matched by the pattern `digits '.' digits '.' digits`
/// starting exactly at position `i`, if any.
pub open spec fn match_at(s: Seq<char>, i: int) -> Option<(nat, nat, nat)> {
    if 0 <= i < s.len() && spec_is_digit(s[i]) {
        let j = run_end(s, i);
        if j < s.len() && s[j] == '.' && j + 1 < s.len() && spec_is_digit(s[j + 1]) {
            let k = run_end(s, j + 1);
            if k < s.len() && s[k] == '.' && k + 1 < s.len() && spec_is_digit(s[k + 1]) {
                let m = run_end(s, k + 1);
                Some(
                    (
                        digits_val(s.subrange(i, j)),
                        digits_val(s.subrange(j + 1, k)),
                        digits_val(s.subrange(k + 1, m)),
                    ),
                )
            } else {
                None
            }
        } else {
            None
        }
    } else {
        None
    }
}

/// The leftmost match of the triple pattern at or after position `i`.
pub open spec fn first_match(s: Seq<char>, i: int) -> Option<(nat, nat, nat)>
    decreases s.len() - i,
{
    if i < 0 || i >= s.len() {
        None
    } else if match_at(s, i) is Some {
        match_at(s, i)
    } else {
        first_match(s, i + 1)
    }
}

/// Mathematical meaning of parsing a tag string: the leftmost
/// `digits '.' digits '.' digits` occurrence, as unbounded naturals.
pub open spec fn spec_parse_nat(s: Seq<char>) -> Option<(nat, nat, nat)> {
    first_match(s, 0)
}

/// A parsed version triple. Two tags compare by lexicographic order on
/// `(major, minor, patch)`.
#[derive(Clone, Copy, Debug, PartialEq, Eq, Structural)]
pub struct SimpleTag {
    pub major: u64,
    pub minor: u64,
    pub patch: u64,
}

/// What `SimpleTag::from_str` returns: the leftmost triple when each of
/// its components fits the field type, absent otherwise.
pub open spec fn spec_parse(s: Seq<char>) -> Option<SimpleTag> {
    match spec_parse_nat(s) {
        Some((a, b, c)) => {
            if a <= u64::MAX && b <= u64::MAX && c <= u64::MAX {
                Some(SimpleTag { major: a as u64, minor: b as u64, patch: c as u64 })
            } else {
                None
            }
        },
        None => None,
    }
}

/// Lexicographic order on version triples.
pub open spec fn spec_tag_cmp(x: SimpleTag, y: SimpleTag) -> Ordering {
    if x.major < y.major {
        Ordering::Less
    } else if y.major < x.major {
        Ordering::Greater
    } else if x.minor < y.minor {
        Ordering::Less
    } else if y.minor < x.minor {
        Ordering::Greater
    } else if x.patch < y.patch {
        Ordering::Less
    } else if y.patch < x.patch {
        Ordering::Greater
    } else {
        Ordering::Equal
    }
}

/// What `SimpleTag::simple_compare` returns: the lexicographic order of
/// the two parsed triples, and `Equal` when either side does not parse.
pub open spec fn spec_simple_cmp(a: Seq<char>, b: Seq<char>) -> Ordering {
    match (spec_parse(a), spec_parse(b)) {
        (Some(x), Some(y)) => spec_tag_cmp(x, y),
        _ => Ordering::Equal,
    }
}

fn is_digit_char(c: char) -> (r: bool)
    ensures
        r == spec_is_digit(c),
{
    let u = c as u32;
    ('0' as u32) <= u && u <= ('9' as u32)
}

/// Collects the characters of a string slice into a vector.
pub(crate) fn to_char_vec(s: &str) -> (v: Vec<char>)
    ensures
        v@ == s@,
{
    let mut it = s.chars();
    proof {
        vstd::string::axiom_spec_iter(s);
    }
    let mut v: Vec<char> = Vec::new();
    loop
        invariant
            v@ + it.remaining() == s@,
            it.obeys_prophetic_iter_laws(),
            it.decrease() is Some,
        ensures
            v@ == s@,
        decreases it.decrease()->0,
    {
        broadcast use vstd::string::next_postcondition;

        let next = it.next();
        match next {
            Some(c) => {
                v.push(c);
                proof {
                    assert(v@ + it.remaining() =~= s@);
                }
            },
            None => {
                proof {
                    assert(v@ + it.remaining() =~= v@);
                }
                break;
            },
        }
    }
    v
}

/// Scans the digit run of `v` that starts at `start`, returning the run's
/// end, the run's value when it fits a `u64`, and whether it fits.
pub(crate) fn scan_run(v: &Vec<char>, start: usize) -> (r: (usize, u64, bool))
    requires
        start <= v@.len(),
    ensures
        r.0 == run_end(v@, start as int),
        start <= r.0 <= v@.len(),
        r.2 <==> digits_val(v@.subrange(start as int, r.0 as int)) <= u64::MAX,
        r.2 ==> r.1 == digits_val(v@.subrange(start as int, r.0 as int)),
{
    let mut j = start;
    let mut acc: u64 = 0;
    let mut fits = true;
    proof {
        assert(v@.subrange(start as int, start as int) =~= Seq::<char>::empty());
    }
    while j < v.len() && is_digit_char(v[j])
        invariant
            start <= j <= v@.len(),
            run_end(v@, start as int) == run_end(v@, j as int),
            fits <==> digits_val(v@.subrange(start as int, j as int)) <= u64::MAX,
            fits ==> acc == digits_val(v@.subrange(start as int, j as int)),
        decreases v@.len() - j,
    {
        let c = v[j];
        let d: u64 = ((c as u32) - ('0' as u32)) as u64;
        proof {
            let pre = v@.subrange(start as int, j as int);
            let post = v@.subrange(start as int, j as int + 1);
            assert(post.drop_last() =~= pre);
            assert(post.last() == v@[j as int]);
            assert(digits_val(post) == digits_val(pre) * 10 + spec_digit_val(v@[j as int]));
        }
        if fits {
            if acc <= (u64::MAX - d) / 10 {
                proof {
                    vstd::arithmetic::div_mod::lemma_fundamental_div_mod(
                        (u64::MAX - d) as int,
                        10,
                    );
                }
                acc = acc * 10 + d;
            } else {
                proof {
                    vstd::arithmetic::div_mod::lemma_fundamental_div_mod(
                        (u64::MAX - d) as int,
                        10,
                    );
                }
                fits = false;
            }
        } else {
            proof {
                let pre = v@.subrange(start as int, j as int);
                assert(digits_val(pre) * 10 >= digits_val(pre));
            }
        }
        j = j + 1;
        proof {
            assert(run_end(v@, j - 1) == run_end(v@, j as int));
        }
    }
    proof {
        assert(run_end(v@, j as int) == j as int);
    }
    (j, acc, fits)
}

/// All positions left of `i` lack a match, so the leftmost match of the
/// whole string is the leftmost match at or after `i`.
proof fn lemma_first_match_after(s: Seq<char>, i: int)
    requires
        0 <= i <= s.len(),
        forall|q: int| 0 <= q < i ==> match_at(s, q) is None,
    ensures
        spec_parse_nat(s) == first_match(s, i),
    decreases i,
{
    if i > 0 {
        assert(first_match(s, i - 1) == first_match(s, i));
        lemma_first_match_after(s, i - 1);
    }
}

impl SimpleTag {
    /// Extracts the leftmost `digits '.' digits '.' digits` triple of
    /// `data`, if there is one whose components fit.
    pub fn from_str(data: &str) -> (r: Option<SimpleTag>)
        ensures
            r == spec_parse(data@),
    {
        let v = to_char_vec(data);
        let n = v.len();
        let mut i: usize = 0;
        while i < n
            invariant
                i <= n,
                n == v@.len(),
                v@ == data@,
                forall|q: int| 0 <= q < i ==> match_at(v@, q) is None,
            decreases n - i,
        {
            if is_digit_char(v[i]) {
                let (j, a, a_fits) = scan_run(&v, i);
                if j < n && v[j] == '.' && j + 1 < n && is_digit_char(v[j + 1]) {
                    let (k, b, b_fits) = scan_run(&v, j + 1);
                    if k < n && v[k] == '.' && k + 1 < n && is_digit_char(v[k + 1]) {
                        let (m, c, c_fits) = scan_run(&v, k + 1);
                        proof {
                            assert(match_at(v@, i as int) == Some(
                                (
                                    digits_val(v@.subrange(i as int, j as int)),
                                    digits_val(v@.subrange(j as int + 1, k as int)),
                                    digits_val(v@.subrange(k as int + 1, m as int)),
                                ),
                            ));
                            lemma_first_match_after(v@, i as int);
                            assert(first_match(v@, i as int) == match_at(v@, i as int));
                        }
                        if a_fits && b_fits && c_fits {
                            return Some(SimpleTag { major: a, minor: b, patch: c });
                        } else {
                            return None;
                        }
                    } else {
                        proof {
                            assert(match_at(v@, i as int) is None);
                        }
                    }
                } else {
                    proof {
                        assert(match_at(v@, i as int) is None);
                    }
                }
            } else {
                proof {
                    assert(match_at(v@, i as int) is None);
                }
            }
            i = i + 1;
        }
        proof {
            lemma_first_match_after(v@, n as int);
        }
        None
    }

    /// Compares two tag strings by their parsed triples; either side
    /// failing to parse makes the result `Equal`.
    pub fn simple_compare(a: &str, b: &str) -> (r: Ordering)
        ensures
            r == spec_simple_cmp(a@, b@),
    {
        let x = SimpleTag::from_str(a);
        let y = SimpleTag::from_str(b);
        match (x, y) {
            (Some(x), Some(y)) => {
                if x.major < y.major {
                    Ordering::Less
                } else if y.major < x.major {
                    Ordering::Greater
                } else if x.minor < y.minor {
                    Ordering::Less
                } else if y.minor < x.minor {
                    Ordering::Greater
                } else if x.patch < y.patch {
                    Ordering::Less
                } else if y.patch < x.patch {
                    Ordering::Greater
                } else {
                    Ordering::Equal
                }
            },
            _ => Ordering::Equal,
        }
    }
}

/// A strategy for ordering two tag strings. The embedding application may
/// supply its own ordering for schemes that are not `major.minor.patch`.
pub trait TagComparator {
    /// The order this comparator assigns to two tag strings.
    spec fn cmp_spec(&self, a: Seq<char>, b: Seq<char>) -> Ordering;

    fn compare(&self, a: &str, b: &str) -> (r: Ordering)
        ensures
            r == self.cmp_spec(a@, b@),
    ;
}

/// The default ordering: parse both sides and compare the triples.
pub struct SimpleComparator;

impl TagComparator for SimpleComparator {
    open spec fn cmp_spec(&self, a: Seq<char>, b: Seq<char>) -> Ordering {
        spec_simple_cmp(a, b)
    }

    fn compare(&self, a: &str, b: &str) -> (r: Ordering) {
        SimpleTag::simple_compare(a, b)
    }
}

/// Comparing tag strings never fails: whenever either side does not
/// parse, the two sides are reported equal.
pub proof fn lemma_compare_unparseable(a: Seq<char>, b: Seq<char>)
    requires
        spec_parse(a) is None || spec_parse(b) is None,
    ensures
        spec_simple_cmp(a, b) == Ordering::Equal,
{
}

/// The decimal digit character of a value below ten.
pub open spec fn digit_char(d: nat) -> char {
    if d == 0 {
        '0'
    } else if d == 1 {
        '1'
    } else if d == 2 {
        '2'
    } else if d == 3 {
        '3'
    } else if d == 4 {
        '4'
    } else if d == 5 {
        '5'
    } else if d == 6 {
        '6'
    } else if d == 7 {
        '7'
    } else if d == 8 {
        '8'
    } else {
        '9'
    }
}

/// Decimal rendering of a natural number, most significant digit first.
pub open spec fn spec_decimal(n: nat) -> Seq<char>
    decreases n,
{
    if n < 10 {
        seq![digit_char(n)]
    } else {
        spec_decimal(n / 10).push(digit_char(n % 10))
    }
}

proof fn lemma_digit_char(d: nat)
    requires
        d < 10,
    ensures
        spec_is_digit(digit_char(d)),
        spec_digit_val(digit_char(d)) == d,
{
}

/// A rendered decimal is a non-empty digit run whose value is the
/// rendered number.
proof fn lemma_decimal_props(n: nat)
    ensures
        spec_decimal(n).len() >= 1,
        forall|i: int|
            0 <= i < spec_decimal(n).len() ==> spec_is_digit(#[trigger] spec_decimal(n)[i]),
        digits_val(spec_decimal(n)) == n,
    decreases n,
{
    if n < 10 {
        lemma_digit_char(n);
        let s = spec_decimal(n);
        assert(s.drop_last() =~= Seq::<char>::empty());
        assert(digits_val(Seq::<char>::empty()) == 0);
        assert(s.last() == digit_char(n));
        assert(digits_val(s) == digits_val(s.drop_last()) * 10 + spec_digit_val(s.last()));
    } else {
        vstd::arithmetic::div_mod::lemma_fundamental_div_mod(n as int, 10);
        lemma_decimal_props(n / 10);
        lemma_digit_char(n % 10);
        let s = spec_decimal(n);
        assert(s.drop_last() =~= spec_decimal(n / 10));
        assert(digits_val(s) == digits_val(spec_decimal(n / 10)) * 10 + spec_digit_val(
            digit_char(n % 10),
        ));
    }
}

fn digit_str(d: u64) -> (r: &'static str)
    requires
        d < 10,
    ensures
        r@ =~= seq![digit_char(d as nat)],
{
    proof {
        reveal_strlit("0");
        reveal_strlit("1");
        reveal_strlit("2");
        reveal_strlit("3");
        reveal_strlit("4");
        reveal_strlit("5");
        reveal_strlit("6");
        reveal_strlit("7");
        reveal_strlit("8");
        reveal_strlit("9");
    }
    if d == 0 {
        "0"
    } else if d == 1 {
        "1"
    } else if d == 2 {
        "2"
    } else if d == 3 {
        "3"
    } else if d == 4 {
        "4"
    } else if d == 5 {
        "5"
    } else if d == 6 {
        "6"
    } else if d == 7 {
        "7"
    } else if d == 8 {
        "8"
    } else {
        "9"
    }
}

fn push_decimal(s: &mut String, n: u64)
    ensures
        final(s)@ == old(s)@ + spec_decimal(n as nat),
    decreases n,
{
    if n < 10 {
        s.append(digit_str(n));
    } else {
        let ghost mid = s@;
        push_decimal(s, n / 10);
        proof {
            vstd::arithmetic::div_mod::lemma_fundamental_div_mod(n as int, 10);
        }
        s.append(digit_str(n % 10));
        proof {
            assert(s@ =~= mid + spec_decimal(n as nat));
        }
    }
}

/// Renders a number in decimal, most significant digit first.
pub fn decimal_string(n: u64) -> (r: String)
    ensures
        r@ == spec_decimal(n as nat),
{
    let mut s = String::new();
    push_decimal(&mut s, n);
    proof {
        assert(s@ =~= spec_decimal(n as nat));
    }
    s
}

proof fn lemma_run_end_at(s: Seq<char>, i: int, j: int)
    requires
        0 <= i <= j <= s.len(),
        forall|q: int| i <= q < j ==> spec_is_digit(s[q]),
        j == s.len() || !spec_is_digit(s[j]),
    ensures
        run_end(s, i) == j,
    decreases j - i,
{
    if i < j {
        lemma_run_end_at(s, i + 1, j);
    }
}

/// The tag string `v{a}.{b}.{c}-pre` as a character sequence.
pub open spec fn spec_vtag_pre(a: nat, b: nat, c: nat) -> Seq<char> {
    seq!['v'] + spec_decimal(a) + seq!['.'] + spec_decimal(b) + seq!['.'] + spec_decimal(c) + seq![
        '-',
        'p',
        'r',
        'e',
    ]
}

/// Parsing round-trips: for every triple of non-negative integers, the
/// rendered tag `v{a}.{b}.{c}-pre` parses back to exactly that triple.
pub proof fn lemma_parse_round_trip(a: u64, b: u64, c: u64)
    ensures
        spec_parse(spec_vtag_pre(a as nat, b as nat, c as nat)) == Some(
            SimpleTag { major: a, minor: b, patch: c },
        ),
{
    let da = spec_decimal(a as nat);
    let db = spec_decimal(b as nat);
    let dc = spec_decimal(c as nat);
    lemma_decimal_props(a as nat);
    lemma_decimal_props(b as nat);
    lemma_decimal_props(c as nat);
    let s = spec_vtag_pre(a as nat, b as nat, c as nat);
    let la = da.len() as int;
    let lb = db.len() as int;
    let lc = dc.len() as int;
    assert(s.len() == 7 + la + lb + lc);
    assert(s[0] == 'v');
    assert(forall|i: int| 1 <= i < 1 + la ==> s[i] == da[i - 1]);
    assert(s[1 + la] == '.');
    assert(forall|i: int| 2 + la <= i < 2 + la + lb ==> s[i] == db[i - 2 - la]);
    assert(s[2 + la + lb] == '.');
    assert(forall|i: int| 3 + la + lb <= i < 3 + la + lb + lc ==> s[i] == dc[i - 3 - la - lb]);
    assert(s[3 + la + lb + lc] == '-');
    assert(!spec_is_digit('v'));
    assert(!spec_is_digit('.'));
    assert(!spec_is_digit('-'));
    lemma_run_end_at(s, 1, 1 + la);
    lemma_run_end_at(s, 2 + la, 2 + la + lb);
    lemma_run_end_at(s, 3 + la + lb, 3 + la + lb + lc);
    assert(s.subrange(1, 1 + la) =~= da);
    assert(s.subrange(2 + la, 2 + la + lb) =~= db);
    assert(s.subrange(3 + la + lb, 3 + la + lb + lc) =~= dc);
    assert(match_at(s, 1) == Some((a as nat, b as nat, c as nat)));
    assert(match_at(s, 0) is None);
    lemma_first_match_after(s, 1);
    assert(spec_parse_nat(s) == Some((a as nat, b as nat, c as nat)));
}

} // verus!
