//! The threshold selector: maps a heart rate to a display text through a
//! table of upper bounds, each with one or more text templates.

use rand::Rng;
use vstd::prelude::*;

verus! {

/// One row of the label table: a decimal upper bound, as configured, and the
/// templates shown for heart rates that fall under it. Rows whose thresholds
/// parse to the same bound (`"70"` and `"070"`) are allowed: the row written
/// as the bound's plain decimal text (`"70"`) is used, or, when there is
/// none, the first of them. Rows whose threshold is not a number are never
/// used.
pub struct HeartRateLabel {
    pub threshold: String,
    pub templates: Vec<String>,
}

pub open spec fn is_digit(c: char) -> bool {
    '0' <= c <= '9'
}

/// The value of a string of decimal digits.
pub open spec fn digits_value(s: Seq<char>) -> int
    decreases s.len(),
{
    if s.len() == 0 {
        0
    } else {
        digits_value(s.drop_last()) * 10 + (s.last() as int - '0' as int)
    }
}

/// What `u32`'s `FromStr` accepts: an optional `+` followed by one or more
/// decimal digits whose value fits in a `u32`.
pub open spec fn parsed_u32(s: Seq<char>) -> Option<u32> {
    let body = if s.len() > 0 && s[0] == '+' {
        s.drop_first()
    } else {
        s
    };
    if body.len() > 0 && (forall|i: int| 0 <= i < body.len() ==> is_digit(#[trigger] body[i]))
        && digits_value(body) <= u32::MAX {
        Some(digits_value(body) as u32)
    } else {
        None
    }
}

pub open spec fn digit_char(d: nat) -> char {
    seq!['0', '1', '2', '3', '4', '5', '6', '7', '8', '9'][d as int]
}

/// The decimal text of a number, without sign or leading zeros.
pub open spec fn decimal_digits(n: nat) -> Seq<char>
    decreases n,
{
    if n < 10 {
        seq![digit_char(n)]
    } else {
        decimal_digits(n / 10) + seq![digit_char(n % 10)]
    }
}

/// Relies on `str::parse::<u32>` (std's `FromStr for u32`): an optional `+`
/// and decimal digits, and an error on anything else or on overflow.
#[verifier::external_body]
fn parse_threshold(s: &str) -> (r: Option<u32>)
    ensures
        r == parsed_u32(s@),
{
    s.parse::<u32>().ok()
}

/// Relies on `u32::to_string` (std's `Display for u32`): the decimal digits.
#[verifier::external_body]
pub(crate) fn decimal_text(n: u32) -> (r: String)
    ensures
        r@ == decimal_digits(n as nat),
{
    n.to_string()
}

/// Relies on `rand::Rng::gen_range` on `rand::thread_rng()`: a value drawn
/// from `0..n`; the call panics on an empty range.
#[verifier::external_body]
pub(crate) fn random_index(n: usize) -> (r: usize)
    requires
        n > 0,
    ensures
        r < n,
{
    rand::thread_rng().gen_range(0..n)
}

/// The substitution token of a template.
pub open spec fn bpm_token() -> Seq<char> {
    seq!['{', '{', 'b', 'p', 'm', '}', '}']
}

/// Every occurrence of the token, scanning left to right without overlap,
/// replaced by `rep`.
pub open spec fn substitute(s: Seq<char>, rep: Seq<char>) -> Seq<char>
    decreases s.len(),
{
    if s.len() < 7 {
        s
    } else if s.subrange(0, 7) == bpm_token() {
        rep + substitute(s.subrange(7, s.len() as int), rep)
    } else {
        seq![s[0]] + substitute(s.subrange(1, s.len() as int), rep)
    }
}

proof fn lemma_substitute_plain_step(s: Seq<char>, rep: Seq<char>)
    requires
        s.len() >= 1,
        !(s.len() >= 7 && s.subrange(0, 7) == bpm_token()),
    ensures
        substitute(s, rep) == seq![s[0]] + substitute(s.subrange(1, s.len() as int), rep),
{
    if s.len() < 7 {
        assert(seq![s[0]] + s.subrange(1, s.len() as int) =~= s);
    }
}

/// Whether the token starts at character `i` of `s`.
fn token_at(s: &str, i: usize) -> (r: bool)
    requires
        i < s@.len(),
    ensures
        r == (i + 7 <= s@.len() && s@.subrange(i as int, i + 7) == bpm_token()),
{
    let n = s.unicode_len();
    if n - i < 7 {
        return false;
    }
    let found = s.get_char(i) == '{' && s.get_char(i + 1) == '{' && s.get_char(i + 2) == 'b'
        && s.get_char(i + 3) == 'p' && s.get_char(i + 4) == 'm' && s.get_char(i + 5) == '}'
        && s.get_char(i + 6) == '}';
    proof {
        let w = s@.subrange(i as int, i + 7);
        if found {
            assert(w =~= bpm_token());
        } else if w == bpm_token() {
            assert(w[0] == s@[i as int] && w[1] == s@[i + 1] && w[2] == s@[i + 2]);
            assert(w[3] == s@[i + 3] && w[4] == s@[i + 4] && w[5] == s@[i + 5]);
            assert(w[6] == s@[i + 6]);
        }
    }
    found
}

/// Fills a template: every occurrence of the token becomes the decimal text
/// of `bpm`.
pub fn render_template(template: &str, bpm: u32) -> (r: String)
    ensures
        r@ == substitute(template@, decimal_digits(bpm as nat)),
{
    let digits = decimal_text(bpm);
    let n = template.unicode_len();
    let mut out = String::new();
    let mut i: usize = 0;
    proof {
        assert(template@.subrange(0, n as int) =~= template@);
        assert(out@ + substitute(template@, digits@) =~= substitute(template@, digits@));
    }
    while i < n
        invariant
            n == template@.len(),
            i <= n,
            digits@ == decimal_digits(bpm as nat),
            out@ + substitute(template@.subrange(i as int, n as int), digits@) == substitute(
                template@,
                digits@,
            ),
        decreases n - i,
    {
        let ghost rest = template@.subrange(i as int, n as int);
        if token_at(template, i) {
            proof {
                assert(rest.subrange(0, 7) =~= template@.subrange(i as int, i + 7));
                assert(rest.subrange(7, rest.len() as int) =~= template@.subrange(
                    i + 7,
                    n as int,
                ));
                assert(out@ + digits@ + substitute(rest.subrange(7, rest.len() as int), digits@)
                    =~= out@ + (digits@ + substitute(rest.subrange(7, rest.len() as int), digits@)));
            }
            out.append(digits.as_str());
            i = i + 7;
        } else {
            let piece = template.substring_char(i, i + 1);
            proof {
                if rest.len() >= 7 {
                    assert(rest.subrange(0, 7) =~= template@.subrange(i as int, i + 7));
                }
                lemma_substitute_plain_step(rest, digits@);
                assert(rest.subrange(1, rest.len() as int) =~= template@.subrange(
                    i + 1,
                    n as int,
                ));
                assert(piece@ =~= seq![rest[0]]);
                assert(out@ + piece@ + substitute(rest.subrange(1, rest.len() as int), digits@)
                    =~= out@ + (seq![rest[0]] + substitute(rest.subrange(1, rest.len() as int), digits@)));
            }
            out.append(piece);
            i = i + 1;
        }
    }
    proof {
        assert(template@.subrange(n as int, n as int) =~= Seq::<char>::empty());
        assert(out@ + Seq::<char>::empty() =~= out@);
    }
    out
}

/// The upper bound of row `i`, when its threshold text is a number.
pub open spec fn label_bound(labels: Seq<HeartRateLabel>, i: int) -> Option<u32> {
    parsed_u32(labels[i].threshold@)
}

/// Whether some row of the table has upper bound `b`.
pub open spec fn has_bound(labels: Seq<HeartRateLabel>, b: u32) -> bool {
    exists|i: int| 0 <= i < labels.len() && label_bound(labels, i) == Some(b)
}

/// The bound chosen for `bpm`: the smallest bound strictly above it, or the
/// largest bound when none lies above it.
pub open spec fn is_selected_bound(labels: Seq<HeartRateLabel>, bpm: u32, b: u32) -> bool {
    &&& has_bound(labels, b)
    &&& if exists|k: u32| #[trigger] has_bound(labels, k) && bpm < k {
        bpm < b && forall|k: u32| #[trigger] has_bound(labels, k) && bpm < k ==> b <= k
    } else {
        forall|k: u32| #[trigger] has_bound(labels, k) ==> k <= b
    }
}

/// Row `j` carries bound `b` under its canonical decimal text (`"70"`, not
/// `"070"` or `"+70"`).
pub open spec fn is_canonical_row(labels: Seq<HeartRateLabel>, b: u32, j: int) -> bool {
    &&& 0 <= j < labels.len()
    &&& label_bound(labels, j) == Some(b)
    &&& labels[j].threshold@ == decimal_digits(b as nat)
}

/// Row `i` is the row used for `bpm`: among the rows that carry the chosen
/// bound, the first whose threshold is that bound's canonical decimal text,
/// or the first such row when none is.
pub open spec fn is_selected_entry(labels: Seq<HeartRateLabel>, bpm: u32, i: int) -> bool {
    &&& 0 <= i < labels.len()
    &&& match label_bound(labels, i) {
        Some(b) => is_selected_bound(labels, bpm, b) && if exists|j: int|
            is_canonical_row(labels, b, j) {
            is_canonical_row(labels, b, i) && forall|j: int|
                0 <= j < i ==> !is_canonical_row(labels, b, j)
        } else {
            forall|j: int| 0 <= j < i ==> label_bound(labels, j) != Some(b)
        },
        None => false,
    }
}

/// The row selected for `bpm`; `None` when no row has a numeric bound.
pub open spec fn selected_entry(labels: Seq<HeartRateLabel>, bpm: u32) -> Option<int> {
    if exists|i: int| is_selected_entry(labels, bpm, i) {
        Some(choose|i: int| is_selected_entry(labels, bpm, i))
    } else {
        None
    }
}

/// The text shown for `bpm` when template number `choice` (taken modulo the
/// number of templates) of the selected row is used.
pub open spec fn heart_rate_text(labels: Seq<HeartRateLabel>, bpm: u32, choice: int) -> Option<
    Seq<char>,
> {
    match selected_entry(labels, bpm) {
        Some(i) => {
            let ts = labels[i].templates@;
            if ts.len() == 0 {
                None
            } else {
                Some(substitute(ts[choice % (ts.len() as int)]@, decimal_digits(bpm as nat)))
            }
        },
        None => None,
    }
}

/// At most one row is selected for a heart rate.
pub proof fn lemma_selected_entry_unique(labels: Seq<HeartRateLabel>, bpm: u32, i: int, j: int)
    requires
        is_selected_entry(labels, bpm, i),
        is_selected_entry(labels, bpm, j),
    ensures
        i == j,
{
    let bi = label_bound(labels, i)->Some_0;
    let bj = label_bound(labels, j)->Some_0;
    assert(has_bound(labels, bi) && has_bound(labels, bj));
    assert(bi == bj);
    if exists|k: int| is_canonical_row(labels, bi, k) {
        if i < j {
            assert(is_canonical_row(labels, bi, i));
        } else if j < i {
            assert(is_canonical_row(labels, bi, j));
        }
    } else {
        if i < j {
            assert(label_bound(labels, i) == Some(bj));
        } else if j < i {
            assert(label_bound(labels, j) == Some(bi));
        }
    }
}

/// The first row that carries bound `b` under its canonical decimal text.
fn canonical_row(labels: &Vec<HeartRateLabel>, b: u32) -> (r: Option<usize>)
    ensures
        r matches Some(c) ==> is_canonical_row(labels@, b, c as int) && forall|j: int|
            0 <= j < c ==> !is_canonical_row(labels@, b, j),
        r is None ==> forall|j: int| !is_canonical_row(labels@, b, j),
{
    let text = decimal_text(b);
    let mut j: usize = 0;
    while j < labels.len()
        invariant
            j <= labels@.len(),
            text@ == decimal_digits(b as nat),
            forall|x: int| 0 <= x < j ==> !is_canonical_row(labels@, b, x),
        decreases labels@.len() - j,
    {
        if labels[j].threshold == text {
            let parsed = parse_threshold(labels[j].threshold.as_str());
            let same = match parsed {
                Some(v) => v == b,
                None => false,
            };
            if same {
                return Some(j);
            }
        }
        j = j + 1;
    }
    None
}

/// Finds the row whose templates describe `bpm`.
pub fn select_label(labels: &Vec<HeartRateLabel>, bpm: u32) -> (r: Option<usize>)
    ensures
        r matches Some(i) ==> selected_entry(labels@, bpm) == Some(i as int),
        r is None ==> selected_entry(labels@, bpm) is None,
{
    let ghost ls = labels@;
    // least bound above `bpm` seen so far, and greatest bound seen so far,
    // each with the first row that carries it
    let mut above: Option<(u32, usize)> = None;
    let mut top: Option<(u32, usize)> = None;
    let mut i: usize = 0;
    while i < labels.len()
        invariant
            ls == labels@,
            i <= ls.len(),
            above matches Some((b, k)) ==> {
                &&& k < i
                &&& label_bound(ls, k as int) == Some(b)
                &&& bpm < b
                &&& forall|j: int| 0 <= j < k ==> label_bound(ls, j) != Some(b)
                &&& forall|j: int|
                    0 <= j < i && #[trigger] label_bound(ls, j) is Some && bpm < label_bound(
                        ls,
                        j,
                    )->Some_0 ==> b <= label_bound(ls, j)->Some_0
            },
            above is None ==> forall|j: int|
                0 <= j < i && #[trigger] label_bound(ls, j) is Some ==> label_bound(ls, j)->Some_0
                    <= bpm,
            top matches Some((m, k)) ==> {
                &&& k < i
                &&& label_bound(ls, k as int) == Some(m)
                &&& forall|j: int| 0 <= j < k ==> label_bound(ls, j) != Some(m)
                &&& forall|j: int|
                    0 <= j < i && #[trigger] label_bound(ls, j) is Some ==> label_bound(
                        ls,
                        j,
                    )->Some_0 <= m
            },
            top is None ==> forall|j: int| 0 <= j < i ==> #[trigger] label_bound(ls, j) is None,
        decreases ls.len() - i,
    {
        let parsed = parse_threshold(labels[i].threshold.as_str());
        assert(parsed == label_bound(ls, i as int));
        if let Some(v) = parsed {
            if bpm < v {
                match above {
                    Some((b, _)) => {
                        if v < b {
                            above = Some((v, i));
                        }
                    },
                    None => {
                        above = Some((v, i));
                    },
                }
            }
            match top {
                Some((m, _)) => {
                    if m < v {
                        top = Some((v, i));
                    }
                },
                None => {
                    top = Some((v, i));
                },
            }
        }
        i = i + 1;
    }
    let first = match above {
        Some(p) => Some(p),
        None => top,
    };
    match first {
        Some((b, k)) => {
            proof {
                assert(has_bound(ls, b));
                if above is Some {
                    assert forall|c: u32| #[trigger] has_bound(ls, c) && bpm < c implies b <= c by {
                        let j = choose|j: int| 0 <= j < ls.len() && label_bound(ls, j) == Some(c);
                        assert(label_bound(ls, j) is Some);
                    }
                } else {
                    assert forall|c: u32| #[trigger] has_bound(ls, c) implies c <= b by {
                        let j = choose|j: int| 0 <= j < ls.len() && label_bound(ls, j) == Some(c);
                        assert(label_bound(ls, j) is Some);
                    }
                    assert forall|c: u32| #[trigger] has_bound(ls, c) implies c <= bpm by {
                        let j = choose|j: int| 0 <= j < ls.len() && label_bound(ls, j) == Some(c);
                        assert(label_bound(ls, j) is Some);
                    }
                }
                assert(is_selected_bound(ls, bpm, b));
            }
            let pick = match canonical_row(labels, b) {
                Some(c) => c,
                None => k,
            };
            proof {
                assert(is_selected_entry(ls, bpm, pick as int));
                let c = choose|c: int| is_selected_entry(ls, bpm, c);
                lemma_selected_entry_unique(ls, bpm, c, pick as int);
            }
            Some(pick)
        },
        None => {
            proof {
                assert forall|c: int| !is_selected_entry(ls, bpm, c) by {
                    if 0 <= c < ls.len() {
                        assert(label_bound(ls, c) is None);
                    }
                }
            }
            None
        },
    }
}

/// The text for `bpm` with the given template choice: `None` when no row has
/// a numeric bound or the selected row has no template.
pub fn text_for_choice(labels: &Vec<HeartRateLabel>, bpm: u32, choice: usize) -> (r: Option<
    String,
>)
    ensures
        r is Some <==> heart_rate_text(labels@, bpm, choice as int) is Some,
        r matches Some(t) ==> heart_rate_text(labels@, bpm, choice as int) == Some(t@),
{
    match select_label(labels, bpm) {
        Some(i) => {
            let templates = &labels[i].templates;
            if templates.len() == 0 {
                None
            } else {
                Some(render_template(templates[choice % templates.len()].as_str(), bpm))
            }
        },
        None => None,
    }
}

} // verus!
