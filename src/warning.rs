//! The warning printed for a repository that still holds stash entries.

use vstd::prelude::*;

use crate::paint::{attr_reset, painted_yellow, yellow, yellow_on};

verus! {

/// The character of a decimal digit.
pub open spec fn digit_char(d: nat) -> char {
    if d == 0 { '0' }
    else if d == 1 { '1' }
    else if d == 2 { '2' }
    else if d == 3 { '3' }
    else if d == 4 { '4' }
    else if d == 5 { '5' }
    else if d == 6 { '6' }
    else if d == 7 { '7' }
    else if d == 8 { '8' }
    else { '9' }
}

/// The decimal digits of a natural number, most significant first.
pub open spec fn decimal_digits(n: nat) -> Seq<char>
    decreases n,
{
    if n < 10 {
        seq![digit_char(n)]
    } else {
        decimal_digits(n / 10).push(digit_char(n % 10))
    }
}

/// How an integer is written in decimal: a minus sign for a negative value,
/// then its digits without leading zeros.
pub open spec fn decimal_text(n: int) -> Seq<char> {
    if n < 0 {
        seq!['-'] + decimal_digits((-n) as nat)
    } else {
        decimal_digits(n as nat)
    }
}

/// The noun phrase that follows the count: singular for exactly one entry.
pub open spec fn stash_noun_text(count: int) -> Seq<char> {
    if count == 1 {
        "stash entry"@
    } else {
        "stash entries"@
    }
}

/// Four words separated by single spaces.
pub open spec fn four_words(a: Seq<char>, b: Seq<char>, c: Seq<char>, d: Seq<char>) -> Seq<char> {
    a + " "@ + b + " "@ + c + " "@ + d
}

/// The warning's words before any painting: "<repo> has <count> <noun>".
pub open spec fn plain_warning(repo: Seq<char>, count: int) -> Seq<char> {
    four_words(repo, "has"@, decimal_text(count), stash_noun_text(count))
}

/// A rendering of the warning in which each of its four words has been
/// painted yellow on its own.
pub open spec fn is_warning_rendering(repo: Seq<char>, count: int, r: Seq<char>) -> bool {
    exists|a: Seq<char>, b: Seq<char>, c: Seq<char>, d: Seq<char>|
        #![trigger four_words(a, b, c, d)]
        painted_yellow(repo, a) && painted_yellow("has"@, b) && painted_yellow(decimal_text(count), c)
            && painted_yellow(stash_noun_text(count), d) && r == four_words(a, b, c, d)
}

fn digit_str(d: u32) -> (r: &'static str)
    requires
        d < 10,
    ensures
        r@ == seq![digit_char(d as nat)],
{
    proof {
        reveal_strlit("0");
        reveal_strlit("1");
        reveal_strlit("2");
        reveal_strlit("3");
        reveal_strlit("4");
        reveal_strlit("5");
        reveal_strlit("6");
        reveal_strlit("7");
        reveal_strlit("8");
        reveal_strlit("9");
    }
    if d == 0 { "0" }
    else if d == 1 { "1" }
    else if d == 2 { "2" }
    else if d == 3 { "3" }
    else if d == 4 { "4" }
    else if d == 5 { "5" }
    else if d == 6 { "6" }
    else if d == 7 { "7" }
    else if d == 8 { "8" }
    else { "9" }
}

fn digits_of(n: u32) -> (r: String)
    ensures
        r@ == decimal_digits(n as nat),
    decreases n,
{
    if n < 10 {
        String::from_str(digit_str(n))
    } else {
        let mut s = digits_of(n / 10);
        s.append(digit_str(n % 10));
        s
    }
}

/// Writes an integer in decimal.
pub fn int_to_text(n: i32) -> (r: String)
    ensures
        r@ == decimal_text(n as int),
{
    if n < 0 {
        let magnitude: u32 = (-(n as i64)) as u32;
        proof { reveal_strlit("-"); }
        let s = String::from_str("-");
        let digits = digits_of(magnitude);
        s.concat(digits.as_str())
    } else {
        digits_of(n as u32)
    }
}

/// The noun phrase that names `count` stash entries.
pub fn stash_noun(count: i32) -> (r: &'static str)
    ensures
        r@ == stash_noun_text(count as int),
{
    if count == 1 {
        "stash entry"
    } else {
        "stash entries"
    }
}

/// Joins four words with single spaces.
pub fn join_four_words(a: &str, b: &str, c: &str, d: &str) -> (r: String)
    ensures
        r@ == four_words(a@, b@, c@, d@),
{
    proof { reveal_strlit(" "); }
    let mut s = String::from_str(a);
    s.append(" ");
    s.append(b);
    s.append(" ");
    s.append(c);
    s.append(" ");
    s.append(d);
    s
}

/// The warning for a repository holding `count` stash entries: the
/// repository, "has", the count and the noun phrase, each painted yellow
/// and separated by spaces.
pub fn get_stash_warning_message(repo: &str, count: i32) -> (r: String)
    ensures
        is_warning_rendering(repo@, count as int, r@),
{
    let count_text = int_to_text(count);
    let a = yellow(repo);
    let b = yellow("has");
    let c = yellow(count_text.as_str());
    let d = yellow(stash_noun(count));
    let r = join_four_words(a.as_str(), b.as_str(), c.as_str(), d.as_str());
    assert(r@ == four_words(a@, b@, c@, d@));
    r
}

/// What is printed once a repository's stash has been counted: nothing for
/// an empty stash, the warning otherwise.
pub fn stash_warning_for(repo: &str, count: i32) -> (r: Option<String>)
    ensures
        count <= 0 <==> r is None,
        r matches Some(m) ==> is_warning_rendering(repo@, count as int, m@),
{
    if count > 0 {
        Some(get_stash_warning_message(repo, count))
    } else {
        None
    }
}

/// A word with its colour codes taken off: the text between the yellow and
/// reset sequences where they frame it, else the word itself.
pub open spec fn unpainted(x: Seq<char>) -> Seq<char> {
    if x.len() >= 9 && x.take(5) == yellow_on() && x.skip(x.len() - 4) == attr_reset() {
        x.subrange(5, x.len() - 4)
    } else {
        x
    }
}

proof fn lemma_digits_have_no_escape(n: nat)
    ensures
        !decimal_digits(n).contains('\x1B'),
    decreases n,
{
    if n >= 10 {
        lemma_digits_have_no_escape(n / 10);
        let p = decimal_digits(n / 10);
        let q = p.push(digit_char(n % 10));
        assert forall|i: int| 0 <= i < q.len() implies #[trigger] q[i] != '\x1B' by {
            if i < p.len() {
                assert(q[i] == p[i]);
            }
        }
    }
}

proof fn lemma_plain_words_have_no_escape(count: int)
    ensures
        !"has"@.contains('\x1B'),
        !decimal_text(count).contains('\x1B'),
        !stash_noun_text(count).contains('\x1B'),
{
    reveal_strlit("has");
    reveal_strlit("stash entry");
    reveal_strlit("stash entries");
    if count < 0 {
        lemma_digits_have_no_escape((-count) as nat);
        let p = decimal_digits((-count) as nat);
        let q = seq!['-'] + p;
        assert forall|i: int| 0 <= i < q.len() implies #[trigger] q[i] != '\x1B' by {
            if i > 0 {
                assert(q[i] == p[i - 1]);
            }
        }
    } else {
        lemma_digits_have_no_escape(count as nat);
    }
}

proof fn lemma_unpaint(w: Seq<char>, x: Seq<char>)
    requires
        painted_yellow(w, x),
        !w.contains('\x1B'),
    ensures
        unpainted(x) == w,
{
    if x == w {
        if x.len() >= 9 && x.take(5) == yellow_on() {
            assert(x.take(5)[0] == '\x1B');
            assert(w[0] == '\x1B');
        }
    } else {
        let y = yellow_on() + w + attr_reset();
        assert(x == y);
        assert(y.take(5) =~= yellow_on());
        assert(y.skip(y.len() - 4) =~= attr_reset());
        assert(y.subrange(5, y.len() - 4) =~= w);
    }
}

/// The wording of the warning: once the colour codes are taken off each of
/// its words, it reads "<repo> has <count> stash entry" for one entry and
/// "<repo> has <count> stash entries" for two or more, for every repository
/// name that holds no escape character.
pub proof fn lemma_warning_wording(repo: Seq<char>, count: int, r: Seq<char>)
    requires
        is_warning_rendering(repo, count, r),
        !repo.contains('\x1B'),
    ensures
        exists|a: Seq<char>, b: Seq<char>, c: Seq<char>, d: Seq<char>|
            #![trigger four_words(a, b, c, d)]
            r == four_words(a, b, c, d) && four_words(
                unpainted(a),
                unpainted(b),
                unpainted(c),
                unpainted(d),
            ) == plain_warning(repo, count),
        count == 1 ==> plain_warning(repo, count) == four_words(repo, "has"@, "1"@, "stash entry"@),
        count >= 2 ==> plain_warning(repo, count) == four_words(
            repo,
            "has"@,
            decimal_text(count),
            "stash entries"@,
        ),
{
    let (a, b, c, d) = choose|a: Seq<char>, b: Seq<char>, c: Seq<char>, d: Seq<char>|
        #![trigger four_words(a, b, c, d)]
        painted_yellow(repo, a) && painted_yellow("has"@, b) && painted_yellow(decimal_text(count), c)
            && painted_yellow(stash_noun_text(count), d) && r == four_words(a, b, c, d);
    lemma_plain_words_have_no_escape(count);
    lemma_unpaint(repo, a);
    lemma_unpaint("has"@, b);
    lemma_unpaint(decimal_text(count), c);
    lemma_unpaint(stash_noun_text(count), d);
    assert(four_words(unpainted(a), unpainted(b), unpainted(c), unpainted(d)) == plain_warning(
        repo,
        count,
    ));
    if count == 1 {
        reveal_strlit("1");
        assert(decimal_text(1) =~= "1"@);
    }
}

} // verus!
